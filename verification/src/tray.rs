//! The status icon: what it shows of the daemon's state and what its menu
//! does. Drawing it and talking to the desktop is the caller's business.

use vstd::prelude::*;
use crate::state::Operation;
use crate::text::decimal;
use crate::text::decimal_digits;

verus! {

/// How often the status icon is brought up to date with the state, in
/// milliseconds.
pub const SYNC_INTERVAL_MS: u64 = 500;

/// An image for the status icon: rows of pixels, four bytes each in the
/// order alpha, red, green, blue.
#[derive(Debug)]
pub struct Icon {
    pub width: i32,
    pub height: i32,
    pub data: Vec<u8>,
}

/// The pixels `rgba` with each pixel's four bytes turned from the order red,
/// green, blue, alpha into alpha, red, green, blue. Bytes at the end that do
/// not make a whole pixel stay as they are.
pub open spec fn argb_of(rgba: Seq<u8>) -> Seq<u8> {
    Seq::new(
        rgba.len(),
        |i: int|
            if i >= 4 * (rgba.len() / 4) {
                rgba[i]
            } else if i % 4 == 0 {
                rgba[i + 3]
            } else {
                rgba[i - 1]
            },
    )
}

/// Turns each pixel of `data` from red, green, blue, alpha into alpha, red,
/// green, blue.
pub fn rgba_to_argb(data: &mut Vec<u8>)
    ensures
        final(data)@ == argb_of(old(data)@),
{
    let len = data.len();
    let whole = len / 4;
    let mut pixel: usize = 0;
    while pixel < whole
        invariant
            len == old(data)@.len(),
            data@.len() == len,
            whole == len / 4,
            pixel <= whole,
            forall|i: int| 0 <= i < 4 * pixel ==> data@[i] == argb_of(old(data)@)[i],
            forall|i: int| 4 * pixel <= i < len ==> data@[i] == old(data)@[i],
        decreases whole - pixel,
    {
        let at = pixel * 4;
        let r = data[at];
        let g = data[at + 1];
        let b = data[at + 2];
        let a = data[at + 3];
        data.set(at, a);
        data.set(at + 1, r);
        data.set(at + 2, g);
        data.set(at + 3, b);
        pixel += 1;
    }
    assert(data@ =~= argb_of(old(data)@));
}

/// Decodes an image file with `image::load_from_memory` and
/// `DynamicImage::to_rgba8`: the width, the height, and the pixels as rows
/// of red, green, blue, alpha; `None` where the crate reports an error. What
/// the crate decodes depends on more than the bytes, because a process can
/// register decoders of its own with it, so nothing is claimed of what comes
/// back.
#[verifier::external_body]
fn decode_rgba(file: &[u8]) -> (decoded: Option<(u32, u32, Vec<u8>)>)
{
    match image::load_from_memory(file) {
        Ok(picture) => {
            let rgba = picture.to_rgba8();
            Some((rgba.width(), rgba.height(), rgba.into_raw()))
        },
        Err(_) => None,
    }
}

/// The mathematical value of an [`Icon`].
pub struct IconView {
    pub width: i32,
    pub height: i32,
    pub data: Seq<u8>,
}

impl View for Icon {
    type V = IconView;

    open spec fn view(&self) -> IconView {
        IconView { width: self.width, height: self.height, data: self.data@ }
    }
}

/// The views of a sequence of icons.
pub open spec fn icon_views(icons: Seq<Icon>) -> Seq<IconView> {
    icons.map_values(|icon: Icon| icon@)
}

/// The icons made from a decoded image: one, with the pixels turned into
/// the order that the status icon wants; none where there is no image.
pub open spec fn icons_of(decoded: Option<(u32, u32, Seq<u8>)>) -> Seq<IconView> {
    match decoded {
        Some((width, height, pixels)) => seq![
            IconView { width: width as i32, height: height as i32, data: argb_of(pixels) },
        ],
        None => Seq::empty(),
    }
}

/// Makes the status icon's image from a decoded image.
pub fn icons_from(decoded: Option<(u32, u32, Vec<u8>)>) -> (icons: Vec<Icon>)
    ensures
        icon_views(icons@) == icons_of(
            match decoded {
                Some((width, height, pixels)) => Some((width, height, pixels@)),
                None => None,
            },
        ),
{
    let mut icons: Vec<Icon> = Vec::new();
    match decoded {
        Some((width, height, pixels)) => {
            let mut data = pixels;
            rgba_to_argb(&mut data);
            icons.push(
                Icon {
                    width: #[verifier::truncate]
                    (width as i32),
                    height: #[verifier::truncate]
                    (height as i32),
                    data,
                },
            );
            assert(icon_views(icons@) =~= seq![icons@[0]@]);
        },
        None => {
            assert(icon_views(icons@) =~= Seq::<IconView>::empty());
        },
    }
    icons
}

/// Makes the status icon's image from the contents of the icon file; none
/// where the file could not be read (`None`) or is no image. Whether the
/// bytes are an image, and which, the decoder says; whatever it says, the
/// icons are those that [`icons_of`] makes of it.
pub fn load_icon(file: Option<&[u8]>) -> (icons: Vec<Icon>)
    ensures
        file is None ==> icon_views(icons@) == Seq::<IconView>::empty(),
        exists|decoded: Option<(u32, u32, Seq<u8>)>| icon_views(icons@) == icons_of(decoded),
{
    match file {
        Some(bytes) => icons_from(decode_rgba(bytes)),
        None => icons_from(None),
    }
}

/// The kind of application that a status icon stands for; the desktop knows these four.
#[derive(Debug, Clone, Copy, PartialEq, Eq, Structural)]
pub enum Category {
    ApplicationStatus, Communications, SystemServices, Hardware,
}

/// What choosing an entry of the menu does.
#[derive(Debug, Clone, Copy, PartialEq, Eq, Structural)]
pub enum MenuAction {
    /// Show the window if the icon has it as hidden, hide it if as shown.
    ToggleWindow,
    /// Turn do-not-disturb over.
    ToggleDnd,
    /// Shut the daemon down.
    Quit,
}

/// An entry of the status icon's menu.
#[derive(Debug, Clone, Copy, PartialEq, Eq)]
pub enum MenuItem {
    /// An entry to choose.
    Standard { label: &'static str, icon_name: &'static str, action: MenuAction },
    /// An entry with a check mark.
    Checkmark { label: &'static str, checked: bool, action: MenuAction },
    Separator,
}

/// The status icon of one daemon, with its copy of what it shows.
#[derive(Debug)]
pub struct LoftTray {
    pub service_name: String,
    pub display_name: String,
    pub badge_count: u32,
    pub visible: bool,
    pub dnd: bool,
    /// Icon-theme name of the icon.
    pub tray_icon_name: String,
    /// The image to fall back on where the desktop does not know the name.
    pub icon_data: Vec<Icon>,
}

/// The title of the icon: the service's name, and the unread count in
/// brackets where there are unread items.
pub open spec fn title_text(display_name: Seq<char>, badge_count: u32) -> Seq<char> {
    if badge_count > 0 {
        display_name + " ("@ + decimal_digits(badge_count as nat) + ")"@
    } else {
        display_name
    }
}

/// The menu of the icon: show or hide, do-not-disturb, quit, with
/// separators between them.
pub open spec fn menu_items(visible: bool, dnd: bool) -> Seq<MenuItem> {
    seq![
        MenuItem::Standard {
            label: if visible {
                "Hide"
            } else {
                "Show"
            },
            icon_name: "",
            action: MenuAction::ToggleWindow,
        },
        MenuItem::Separator,
        MenuItem::Checkmark { label: "Do Not Disturb", checked: dnd, action: MenuAction::ToggleDnd },
        MenuItem::Separator,
        MenuItem::Standard { label: "Quit", icon_name: "application-exit", action: MenuAction::Quit },
    ]
}

impl LoftTray {
    /// The status icon of a daemon that has just started, with the image
    /// made from the contents of the icon file, if it could be read.
    pub fn new(
        service_name: String,
        display_name: String,
        dnd: bool,
        tray_icon_name: String,
        icon_file: Option<&[u8]>,
    ) -> (tray: LoftTray)
        ensures
            tray.service_name == service_name,
            tray.display_name == display_name,
            tray.badge_count == 0,
            !tray.visible,
            tray.dnd == dnd,
            tray.tray_icon_name == tray_icon_name,
            icon_file is None ==> icon_views(tray.icon_data@) == Seq::<IconView>::empty(),
            exists|decoded: Option<(u32, u32, Seq<u8>)>|
                icon_views(tray.icon_data@) == icons_of(decoded),
    {
        LoftTray {
            service_name,
            display_name,
            badge_count: 0,
            visible: false,
            dnd,
            tray_icon_name,
            icon_data: load_icon(icon_file),
        }
    }

    /// The identifier of the icon: `loft-<service name>`.
    pub fn id(&self) -> (id: String)
        ensures
            id@ == "loft-"@ + self.service_name@,
    {
        let mut id = String::from_str("loft-");
        id.append(self.service_name.as_str());
        id
    }

    pub fn icon_name(&self) -> (name: String)
        ensures
            name@ == self.tray_icon_name@,
    {
        self.tray_icon_name.clone()
    }

    pub fn category(&self) -> (category: Category)
        ensures
            category == Category::Communications,
    {
        Category::Communications
    }

    /// The title of the icon.
    pub fn title(&self) -> (title: String)
        ensures
            title@ == title_text(self.display_name@, self.badge_count),
    {
        if self.badge_count > 0 {
            let mut title = self.display_name.clone();
            title.append(" (");
            let count = decimal(self.badge_count as u64);
            title.append(count.as_str());
            title.append(")");
            title
        } else {
            self.display_name.clone()
        }
    }

    /// The menu of the icon.
    pub fn menu(&self) -> (items: Vec<MenuItem>)
        ensures
            items@ == menu_items(self.visible, self.dnd),
    {
        let mut items: Vec<MenuItem> = Vec::new();
        items.push(
            MenuItem::Standard {
                label: if self.visible {
                    "Hide"
                } else {
                    "Show"
                },
                icon_name: "",
                action: MenuAction::ToggleWindow,
            },
        );
        items.push(MenuItem::Separator);
        items.push(
            MenuItem::Checkmark {
                label: "Do Not Disturb",
                checked: self.dnd,
                action: MenuAction::ToggleDnd,
            },
        );
        items.push(MenuItem::Separator);
        items.push(
            MenuItem::Standard {
                label: "Quit",
                icon_name: "application-exit",
                action: MenuAction::Quit,
            },
        );
        assert(items@ =~= menu_items(self.visible, self.dnd));
        items
    }

    /// Carries out the choice of a menu entry on the icon's own copy, and
    /// gives the change that the daemon's state has to take.
    pub fn select(&mut self, action: MenuAction) -> (op: Operation)
        ensures
            match action {
                MenuAction::ToggleWindow => final(self).visible == !old(self).visible
                    && final(self).dnd == old(self).dnd && op == (if old(self).visible {
                    Operation::Hide
                } else {
                    Operation::Show
                }),
                MenuAction::ToggleDnd => final(self).dnd == !old(self).dnd && final(self).visible
                    == old(self).visible && op == (Operation::SetDnd { enabled: !old(self).dnd }),
                MenuAction::Quit => final(self).dnd == old(self).dnd && final(self).visible
                    == old(self).visible && op == Operation::Quit,
            },
            final(self).badge_count == old(self).badge_count,
            final(self).service_name == old(self).service_name,
            final(self).display_name == old(self).display_name,
            final(self).tray_icon_name == old(self).tray_icon_name,
            final(self).icon_data == old(self).icon_data,
    {
        match action {
            MenuAction::ToggleWindow => {
                if self.visible {
                    self.visible = false;
                    Operation::Hide
                } else {
                    self.visible = true;
                    Operation::Show
                }
            },
            MenuAction::ToggleDnd => {
                let enabled = !self.dnd;
                self.dnd = enabled;
                Operation::SetDnd { enabled }
            },
            MenuAction::Quit => Operation::Quit,
        }
    }

    /// A click on the icon: the same as choosing show or hide in the menu.
    pub fn activate(&mut self, _x: i32, _y: i32) -> (op: Operation)
        ensures
            final(self).visible == !old(self).visible,
            op == (if old(self).visible {
                Operation::Hide
            } else {
                Operation::Show
            }),
            final(self).dnd == old(self).dnd,
            final(self).badge_count == old(self).badge_count,
            final(self).service_name == old(self).service_name,
            final(self).display_name == old(self).display_name,
            final(self).tray_icon_name == old(self).tray_icon_name,
            final(self).icon_data == old(self).icon_data,
    {
        self.select(MenuAction::ToggleWindow)
    }

    /// Brings the icon's copy up to date with the daemon's status:
    /// visibility, unread count, do-not-disturb. Nothing else changes.
    pub fn sync(&mut self, status: (bool, u32, bool))
        ensures
            final(self).visible == status.0,
            final(self).badge_count == status.1,
            final(self).dnd == status.2,
            final(self).service_name == old(self).service_name,
            final(self).display_name == old(self).display_name,
            final(self).tray_icon_name == old(self).tray_icon_name,
            final(self).icon_data == old(self).icon_data,
    {
        self.visible = status.0;
        self.badge_count = status.1;
        self.dnd = status.2;
    }
}

} // verus!

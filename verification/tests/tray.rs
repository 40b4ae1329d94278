use loft::state::Operation;
use loft::tray::{
    icons_from, load_icon, rgba_to_argb, Category, LoftTray, MenuAction, MenuItem,
    SYNC_INTERVAL_MS,
};

fn make_tray(service_name: &str, display_name: &str, badge_count: u32) -> LoftTray {
    LoftTray {
        service_name: service_name.to_string(),
        display_name: display_name.to_string(),
        badge_count,
        visible: false,
        dnd: false,
        tray_icon_name: String::new(),
        icon_data: vec![],
    }
}

#[test]
fn test_title_no_badge() {
    let tray = make_tray("whatsapp", "WhatsApp", 0);
    assert_eq!(tray.title(), "WhatsApp");
}

#[test]
fn test_title_with_badge() {
    let tray = make_tray("whatsapp", "WhatsApp", 3);
    assert_eq!(tray.title(), "WhatsApp (3)");
}

#[test]
fn title_counts_in_decimal() {
    assert_eq!(make_tray("m", "Messenger", 120).title(), "Messenger (120)");
    assert_eq!(make_tray("m", "Messenger", u32::MAX).title(), "Messenger (4294967295)");
}

#[test]
fn test_id() {
    let tray = make_tray("messenger", "Messenger", 0);
    assert_eq!(tray.id(), "loft-messenger");
}

#[test]
fn test_menu_item_count() {
    let tray = make_tray("whatsapp", "WhatsApp", 0);
    let menu = tray.menu();
    assert_eq!(menu.len(), 5);
}

#[test]
fn test_category() {
    let tray = make_tray("whatsapp", "WhatsApp", 0);
    assert_eq!(tray.category(), Category::Communications);
}

#[test]
fn menu_shows_the_state() {
    let mut tray = make_tray("whatsapp", "WhatsApp", 0);
    assert_eq!(
        tray.menu(),
        vec![
            MenuItem::Standard { label: "Show", icon_name: "", action: MenuAction::ToggleWindow },
            MenuItem::Separator,
            MenuItem::Checkmark {
                label: "Do Not Disturb",
                checked: false,
                action: MenuAction::ToggleDnd
            },
            MenuItem::Separator,
            MenuItem::Standard {
                label: "Quit",
                icon_name: "application-exit",
                action: MenuAction::Quit
            },
        ]
    );
    tray.sync((true, 2, true));
    let menu = tray.menu();
    assert_eq!(
        menu[0],
        MenuItem::Standard { label: "Hide", icon_name: "", action: MenuAction::ToggleWindow }
    );
    assert_eq!(
        menu[2],
        MenuItem::Checkmark { label: "Do Not Disturb", checked: true, action: MenuAction::ToggleDnd }
    );
}

#[test]
fn activate_toggles_the_icons_own_copy() {
    let mut tray = make_tray("whatsapp", "WhatsApp", 0);
    assert_eq!(tray.activate(0, 0), Operation::Show);
    assert!(tray.visible);
    assert_eq!(tray.activate(3, 4), Operation::Hide);
    assert!(!tray.visible);
}

#[test]
fn menu_choices_give_their_operation() {
    let mut tray = make_tray("whatsapp", "WhatsApp", 4);
    assert_eq!(tray.select(MenuAction::ToggleDnd), Operation::SetDnd { enabled: true });
    assert!(tray.dnd);
    assert_eq!(tray.select(MenuAction::ToggleDnd), Operation::SetDnd { enabled: false });
    assert!(!tray.dnd);
    assert_eq!(tray.select(MenuAction::Quit), Operation::Quit);
    assert_eq!(tray.select(MenuAction::ToggleWindow), Operation::Show);
    assert_eq!(tray.badge_count, 4);
}

#[test]
fn sync_projects_the_status() {
    let mut tray = make_tray("whatsapp", "WhatsApp", 0);
    tray.sync((true, 12, true));
    assert!(tray.visible);
    assert_eq!(tray.badge_count, 12);
    assert!(tray.dnd);
    assert_eq!(tray.title(), "WhatsApp (12)");
    assert_eq!(tray.service_name, "whatsapp");
    assert_eq!(SYNC_INTERVAL_MS, 500);
}

#[test]
fn new_tray_starts_hidden_without_badge() {
    let tray = LoftTray::new(
        "whatsapp".to_string(),
        "WhatsApp".to_string(),
        true,
        "loft-whatsapp-symbolic".to_string(),
        None,
    );
    assert_eq!(tray.badge_count, 0);
    assert!(!tray.visible);
    assert!(tray.dnd);
    assert_eq!(tray.icon_name(), "loft-whatsapp-symbolic");
    assert!(tray.icon_data.is_empty());
}

#[test]
fn pixels_are_turned_from_rgba_to_argb() {
    let mut data = vec![1, 2, 3, 4, 10, 20, 30, 40];
    rgba_to_argb(&mut data);
    assert_eq!(data, vec![4, 1, 2, 3, 40, 10, 20, 30]);

    let mut odd = vec![1, 2, 3, 4, 5, 6, 7];
    rgba_to_argb(&mut odd);
    assert_eq!(odd, vec![4, 1, 2, 3, 5, 6, 7]);

    let mut short = vec![1, 2, 3];
    rgba_to_argb(&mut short);
    assert_eq!(short, vec![1, 2, 3]);

    let mut empty: Vec<u8> = vec![];
    rgba_to_argb(&mut empty);
    assert!(empty.is_empty());
}

#[test]
fn icons_from_a_decoded_image() {
    let icons = icons_from(Some((2, 1, vec![1, 2, 3, 4, 5, 6, 7, 8])));
    assert_eq!(icons.len(), 1);
    assert_eq!(icons[0].width, 2);
    assert_eq!(icons[0].height, 1);
    assert_eq!(icons[0].data, vec![4, 1, 2, 3, 8, 5, 6, 7]);
    assert!(icons_from(None).is_empty());
}

fn crc32(bytes: &[u8]) -> u32 {
    let mut crc = 0xffff_ffffu32;
    for byte in bytes {
        crc ^= *byte as u32;
        for _ in 0..8 {
            crc = if crc & 1 == 1 { (crc >> 1) ^ 0xedb8_8320 } else { crc >> 1 };
        }
    }
    !crc
}

fn adler32(bytes: &[u8]) -> u32 {
    let (mut a, mut b) = (1u32, 0u32);
    for byte in bytes {
        a = (a + *byte as u32) % 65521;
        b = (b + a) % 65521;
    }
    (b << 16) | a
}

fn chunk(out: &mut Vec<u8>, kind: &[u8; 4], data: &[u8]) {
    out.extend_from_slice(&(data.len() as u32).to_be_bytes());
    let mut body = kind.to_vec();
    body.extend_from_slice(data);
    out.extend_from_slice(&body);
    out.extend_from_slice(&crc32(&body).to_be_bytes());
}

fn png_rgba(width: u32, height: u32, pixels: &[u8]) -> Vec<u8> {
    let mut raw = Vec::new();
    for row in pixels.chunks((width * 4) as usize) {
        raw.push(0);
        raw.extend_from_slice(row);
    }
    let mut zlib = vec![0x78, 0x01, 0x01];
    zlib.extend_from_slice(&(raw.len() as u16).to_le_bytes());
    zlib.extend_from_slice(&(!(raw.len() as u16)).to_le_bytes());
    zlib.extend_from_slice(&raw);
    zlib.extend_from_slice(&adler32(&raw).to_be_bytes());

    let mut out = vec![0x89, b'P', b'N', b'G', 0x0d, 0x0a, 0x1a, 0x0a];
    let mut header = Vec::new();
    header.extend_from_slice(&width.to_be_bytes());
    header.extend_from_slice(&height.to_be_bytes());
    header.extend_from_slice(&[8, 6, 0, 0, 0]);
    chunk(&mut out, b"IHDR", &header);
    chunk(&mut out, b"IDAT", &zlib);
    chunk(&mut out, b"IEND", &[]);
    out
}

#[test]
fn load_icon_decodes_a_png_and_turns_its_pixels() {
    let pixels = [
        255, 0, 0, 128, 0, 255, 0, 255, //
        0, 0, 255, 7, 9, 8, 7, 6,
    ];
    let file = png_rgba(2, 2, &pixels);
    let icons = load_icon(Some(&file));
    assert_eq!(icons.len(), 1);
    assert_eq!((icons[0].width, icons[0].height), (2, 2));
    assert_eq!(
        icons[0].data,
        vec![128, 255, 0, 0, 255, 0, 255, 0, 7, 0, 0, 255, 6, 9, 8, 7]
    );
}

#[test]
fn load_icon_gives_nothing_for_what_is_no_image() {
    assert!(load_icon(None).is_empty());
    assert!(load_icon(Some(b"<svg xmlns=\"http://www.w3.org/2000/svg\"/>")).is_empty());
    assert!(load_icon(Some(&[])).is_empty());
}

//! Finding a browser to run.
//!
//! The places are tried in a fixed order and the first that holds a usable
//! browser wins: the configured path, the names on the search path, the
//! well-known paths, the Flatpak application, and the AppImages in two
//! directories under the user's home. The detector asks one question at a
//! time; the caller looks and answers.

use vstd::prelude::*;
use vstd::utf8::encode_utf8;
use crate::chrome::ChromeInfo;
use crate::chrome::LaunchMethod;
use crate::config::GlobalConfig;
use crate::paths::join_path;
use crate::paths::joined;
use crate::paths::text_of;
use crate::text::bytes_contain;
use crate::text::bytes_end_with;
use crate::text::has_subslice;
use crate::text::has_suffix;
use crate::text::texts;

verus! {

/// How many names are looked up on the search path.
pub const PATH_NAME_COUNT: usize = 2;

/// How many well-known paths are tried.
pub const WELL_KNOWN_COUNT: usize = 3;

/// How many directories under the user's home are scanned for AppImages.
pub const SCAN_DIR_COUNT: usize = 2;

/// The Flatpak application id of the browser.
pub const FLATPAK_APP_ID: &'static str = "com.google.Chrome";

/// The text that is reported when no browser is found.
pub const NOT_FOUND_MESSAGE: &'static str =
    "Google Chrome not found. Please install Google Chrome and try again.";

/// The names that are looked up on the search path, in order.
pub open spec fn path_name_text(index: int) -> Seq<char> {
    if index == 0 {
        "google-chrome-stable"@
    } else {
        "google-chrome"@
    }
}

/// The well-known paths, in order.
pub open spec fn well_known_text(index: int) -> Seq<char> {
    if index == 0 {
        "/usr/bin/google-chrome-stable"@
    } else if index == 1 {
        "/usr/bin/google-chrome"@
    } else {
        "/opt/google/chrome/google-chrome"@
    }
}

/// The directories that are scanned for AppImages, in order.
pub open spec fn scan_dir_text(home: Seq<char>, dir: int) -> Seq<char> {
    if dir == 0 {
        joined(home, "Applications"@)
    } else {
        joined(home, ".local/bin"@)
    }
}

fn path_name(index: usize) -> (name: &'static str)
    ensures
        name@ == path_name_text(index as int),
{
    if index == 0 {
        "google-chrome-stable"
    } else {
        "google-chrome"
    }
}

fn well_known_path(index: usize) -> (path: &'static str)
    ensures
        path@ == well_known_text(index as int),
{
    if index == 0 {
        "/usr/bin/google-chrome-stable"
    } else if index == 1 {
        "/usr/bin/google-chrome"
    } else {
        "/opt/google/chrome/google-chrome"
    }
}

fn scan_dir(home: &str, dir: usize) -> (path: String)
    ensures
        path@ == scan_dir_text(home@, dir as int),
{
    if dir == 0 {
        join_path(home, "Applications")
    } else {
        join_path(home, ".local/bin")
    }
}

/// What `str::to_lowercase` gives for `text`: its lowercase equivalent by the
/// rules of Unicode.
pub uninterp spec fn lowercase_of(text: Seq<char>) -> Seq<char>;

/// Lower-cases `text` with `str::to_lowercase`. The result is what that
/// function gives for this text, named by [`lowercase_of`].
#[verifier::external_body]
fn lowercase(text: &str) -> (lower: String)
    ensures
        lower@ == lowercase_of(text@),
{
    text.to_lowercase()
}

/// Whether a file name is that of a browser AppImage: lower-cased, its UTF-8
/// text holds `chrome` and ends in `.appimage`.
pub open spec fn is_appimage_name(name: Seq<char>) -> bool {
    has_subslice(encode_utf8(lowercase_of(name)), encode_utf8("chrome"@)) && has_suffix(
        encode_utf8(lowercase_of(name)),
        encode_utf8(".appimage"@),
    )
}

/// Whether the lower-cased file name `lower` is that of a browser AppImage.
pub fn lowercase_name_matches(lower: &str) -> (matches: bool)
    ensures
        matches == (has_subslice(encode_utf8(lower@), encode_utf8("chrome"@)) && has_suffix(
            encode_utf8(lower@),
            encode_utf8(".appimage"@),
        )),
{
    bytes_contain(lower.as_bytes(), "chrome".as_bytes()) && bytes_end_with(
        lower.as_bytes(),
        ".appimage".as_bytes(),
    )
}

/// Whether a file name is that of a browser AppImage.
pub fn appimage_name_matches(name: &str) -> (matches: bool)
    ensures
        matches == is_appimage_name(name@),
{
    let lower = lowercase(name);
    lowercase_name_matches(lower.as_str())
}

/// Those of `names` that are names of browser AppImages, in their order.
pub open spec fn appimage_names(names: Seq<Seq<char>>) -> Seq<Seq<char>>
    decreases names.len(),
{
    if names.len() == 0 {
        Seq::empty()
    } else {
        let before = appimage_names(names.drop_last());
        if is_appimage_name(names.last()) {
            before.push(names.last())
        } else {
            before
        }
    }
}

/// Picks out of `names` the names of browser AppImages, in their order.
pub fn select_appimage_names(names: &Vec<String>) -> (selected: Vec<String>)
    ensures
        texts(selected@) == appimage_names(texts(names@)),
{
    let mut selected: Vec<String> = Vec::new();
    let mut i: usize = 0;
    assert(texts(selected@) =~= appimage_names(texts(names@).take(0)));
    while i < names.len()
        invariant
            i <= names@.len(),
            texts(selected@) == appimage_names(texts(names@).take(i as int)),
        decreases names@.len() - i,
    {
        let ghost before = selected@;
        let ghost upto = texts(names@).take(i + 1);
        assert(upto.drop_last() =~= texts(names@).take(i as int));
        assert(upto.last() == names@[i as int]@);
        if appimage_name_matches(names[i].as_str()) {
            selected.push(names[i].clone());
            assert(texts(selected@) =~= texts(before).push(names@[i as int]@));
        }
        i += 1;
    }
    assert(texts(names@).take(names@.len() as int) == texts(names@));
    selected
}

/// A question to the system.
#[derive(Debug)]
pub enum Probe {
    /// Is the file at `path` there, and may it be executed?
    IsExecutable { path: String },
    /// Where on the search path is the program `name`?
    Which { name: String },
    /// Is the Flatpak application `app_id` installed?
    FlatpakInfo { app_id: String },
    /// What are the names of the entries of `dir`?
    ListDir { dir: String },
}

/// The mathematical value of a [`Probe`].
pub enum ProbeView {
    IsExecutable { path: Seq<char> },
    Which { name: Seq<char> },
    FlatpakInfo { app_id: Seq<char> },
    ListDir { dir: Seq<char> },
}

impl View for Probe {
    type V = ProbeView;

    open spec fn view(&self) -> ProbeView {
        match self {
            Probe::IsExecutable { path } => ProbeView::IsExecutable { path: path@ },
            Probe::Which { name } => ProbeView::Which { name: name@ },
            Probe::FlatpakInfo { app_id } => ProbeView::FlatpakInfo { app_id: app_id@ },
            Probe::ListDir { dir } => ProbeView::ListDir { dir: dir@ },
        }
    }
}

/// The answer to a question.
#[derive(Debug)]
pub enum Finding {
    /// Yes or no, to `IsExecutable` and `FlatpakInfo`.
    Flag { yes: bool },
    /// The path that was found, to `Which`; `None` where the lookup failed.
    Path { path: Option<String> },
    /// The entries' names, to `ListDir`; none where the directory cannot be
    /// read.
    Entries { names: Vec<String> },
}

/// The mathematical value of a [`Finding`].
pub enum FindingView {
    Flag { yes: bool },
    Path { path: Option<Seq<char>> },
    Entries { names: Seq<Seq<char>> },
}

impl View for Finding {
    type V = FindingView;

    open spec fn view(&self) -> FindingView {
        match self {
            Finding::Flag { yes } => FindingView::Flag { yes: *yes },
            Finding::Path { path } => FindingView::Path { path: text_of(*path) },
            Finding::Entries { names } => FindingView::Entries { names: texts(names@) },
        }
    }
}

/// The mathematical value of a [`ChromeInfo`].
pub struct ChromeInfoView {
    pub path: Seq<char>,
    pub launch_method: LaunchMethod,
}

impl View for ChromeInfo {
    type V = ChromeInfoView;

    open spec fn view(&self) -> ChromeInfoView {
        ChromeInfoView { path: self.path@, launch_method: self.launch_method }
    }
}

/// Where the detector is in its list of places.
pub enum Stage {
    Configured,
    OnPath { index: usize },
    WellKnown { index: usize },
    Flatpak,
    Listing { dir: usize },
    Candidate { dir: usize, names: Vec<String>, index: usize },
    Finished,
}

/// The mathematical value of a [`Stage`].
pub enum StageView {
    /// About to try the configured path.
    Configured,
    /// About to look up name `index` on the search path.
    OnPath { index: int },
    /// About to try well-known path `index`.
    WellKnown { index: int },
    /// About to ask for the Flatpak application.
    Flatpak,
    /// About to list scan directory `dir`.
    Listing { dir: int },
    /// About to try the AppImage `names[index]` of scan directory `dir`.
    Candidate { dir: int, names: Seq<Seq<char>>, index: int },
    /// Every place was tried.
    Finished,
}

impl View for Stage {
    type V = StageView;

    open spec fn view(&self) -> StageView {
        match self {
            Stage::Configured => StageView::Configured,
            Stage::OnPath { index } => StageView::OnPath { index: *index as int },
            Stage::WellKnown { index } => StageView::WellKnown { index: *index as int },
            Stage::Flatpak => StageView::Flatpak,
            Stage::Listing { dir } => StageView::Listing { dir: *dir as int },
            Stage::Candidate { dir, names, index } => StageView::Candidate {
                dir: *dir as int,
                names: texts(names@),
                index: *index as int,
            },
            Stage::Finished => StageView::Finished,
        }
    }
}

/// What is fixed for one detection: the configured path and the user's home.
pub struct Places {
    pub configured: Option<Seq<char>>,
    pub home: Option<Seq<char>>,
}

/// The stage at which scan directory `dir` is listed, or the end where there
/// is no such directory.
pub open spec fn listing_stage(places: Places, dir: int) -> StageView {
    if places.home is Some && 0 <= dir < SCAN_DIR_COUNT {
        StageView::Listing { dir }
    } else {
        StageView::Finished
    }
}

/// The stage that really has a question: `stage` itself, or the next one
/// that does where `stage` has nothing to ask.
pub open spec fn settled(places: Places, stage: StageView) -> StageView {
    match stage {
        StageView::Configured => if places.configured is Some {
            stage
        } else {
            StageView::OnPath { index: 0 }
        },
        StageView::OnPath { index } => if 0 <= index < PATH_NAME_COUNT {
            stage
        } else {
            StageView::WellKnown { index: 0 }
        },
        StageView::WellKnown { index } => if 0 <= index < WELL_KNOWN_COUNT {
            stage
        } else {
            StageView::Flatpak
        },
        StageView::Flatpak => stage,
        StageView::Listing { dir } => listing_stage(places, dir),
        StageView::Candidate { dir, names, index } => if 0 <= dir < SCAN_DIR_COUNT
            && places.home is Some && 0 <= index < names.len() {
            stage
        } else {
            listing_stage(places, dir + 1)
        },
        StageView::Finished => stage,
    }
}

/// The question of a settled stage; `None` at the end.
pub open spec fn question_of(places: Places, stage: StageView) -> Option<ProbeView> {
    match settled(places, stage) {
        StageView::Configured => Some(
            ProbeView::IsExecutable { path: places.configured->Some_0 },
        ),
        StageView::OnPath { index } => Some(ProbeView::Which { name: path_name_text(index) }),
        StageView::WellKnown { index } => Some(
            ProbeView::IsExecutable { path: well_known_text(index) },
        ),
        StageView::Flatpak => Some(ProbeView::FlatpakInfo { app_id: FLATPAK_APP_ID@ }),
        StageView::Listing { dir } => Some(
            ProbeView::ListDir { dir: scan_dir_text(places.home->Some_0, dir) },
        ),
        StageView::Candidate { dir, names, index } => Some(
            ProbeView::IsExecutable {
                path: joined(scan_dir_text(places.home->Some_0, dir), names[index]),
            },
        ),
        StageView::Finished => None,
    }
}

/// The browser that an answer to the question of `stage` reveals, if it
/// reveals one.
pub open spec fn found_by(places: Places, stage: StageView, finding: FindingView) -> Option<
    ChromeInfoView,
> {
    match settled(places, stage) {
        StageView::Configured => if finding == (FindingView::Flag { yes: true }) {
            Some(
                ChromeInfoView {
                    path: places.configured->Some_0,
                    launch_method: LaunchMethod::Direct,
                },
            )
        } else {
            None
        },
        StageView::OnPath { index } => match finding {
            FindingView::Path { path: Some(path) } => if path.len() > 0 {
                Some(ChromeInfoView { path, launch_method: LaunchMethod::Direct })
            } else {
                None
            },
            _ => None,
        },
        StageView::WellKnown { index } => if finding == (FindingView::Flag { yes: true }) {
            Some(
                ChromeInfoView {
                    path: well_known_text(index),
                    launch_method: LaunchMethod::Direct,
                },
            )
        } else {
            None
        },
        StageView::Flatpak => if finding == (FindingView::Flag { yes: true }) {
            Some(ChromeInfoView { path: FLATPAK_APP_ID@, launch_method: LaunchMethod::Flatpak })
        } else {
            None
        },
        StageView::Listing { .. } => None,
        StageView::Candidate { dir, names, index } => if finding == (FindingView::Flag {
            yes: true,
        }) {
            Some(
                ChromeInfoView {
                    path: joined(scan_dir_text(places.home->Some_0, dir), names[index]),
                    launch_method: LaunchMethod::AppImage,
                },
            )
        } else {
            None
        },
        StageView::Finished => None,
    }
}

/// The stage that follows an answer to the question of `stage`.
pub open spec fn stage_after(places: Places, stage: StageView, finding: FindingView) -> StageView {
    if found_by(places, stage, finding) is Some {
        StageView::Finished
    } else {
        match settled(places, stage) {
            StageView::Configured => StageView::OnPath { index: 0 },
            StageView::OnPath { index } => StageView::OnPath { index: index + 1 },
            StageView::WellKnown { index } => StageView::WellKnown { index: index + 1 },
            StageView::Flatpak => StageView::Listing { dir: 0 },
            StageView::Listing { dir } => StageView::Candidate {
                dir,
                names: match finding {
                    FindingView::Entries { names } => appimage_names(names),
                    _ => Seq::empty(),
                },
                index: 0,
            },
            StageView::Candidate { dir, names, index } => StageView::Candidate {
                dir,
                names,
                index: index + 1,
            },
            StageView::Finished => StageView::Finished,
        }
    }
}

/// One detection in progress.
pub struct Detector {
    configured: Option<String>,
    home: Option<String>,
    stage: Stage,
}

/// The mathematical value of a [`Detector`]: what is fixed for the
/// detection, and where it is.
pub struct DetectorView {
    pub places: Places,
    pub stage: StageView,
}

impl View for Detector {
    type V = DetectorView;

    closed spec fn view(&self) -> DetectorView {
        DetectorView {
            places: Places { configured: text_of(self.configured), home: text_of(self.home) },
            stage: self.stage@,
        }
    }
}

impl Detector {
    /// What is fixed for this detection.
    pub open spec fn places(&self) -> Places {
        self@.places
    }

    /// Where the detection is.
    pub open spec fn stage(&self) -> StageView {
        self@.stage
    }

    /// A detection that has tried nothing yet, with the configured path of
    /// `config` and the user's home directory `home`, if there is one.
    pub fn new(config: &GlobalConfig, home: Option<String>) -> (detector: Detector)
        ensures
            detector.places() == (Places {
                configured: text_of(config.chrome_path),
                home: text_of(home),
            }),
            detector.stage() == StageView::Configured,
    {
        Detector { configured: config.chrome_path.clone(), home, stage: Stage::Configured }
    }

    fn settle(&mut self)
        ensures
            final(self).places() == old(self).places(),
            final(self).stage() == settled(old(self).places(), old(self).stage()),
            settled(final(self).places(), final(self).stage()) == final(self).stage(),
    {
        let next: Option<Stage> = match &self.stage {
            Stage::Configured => if self.configured.is_some() {
                None
            } else {
                Some(Stage::OnPath { index: 0 })
            },
            Stage::OnPath { index } => if *index < PATH_NAME_COUNT {
                None
            } else {
                Some(Stage::WellKnown { index: 0 })
            },
            Stage::WellKnown { index } => if *index < WELL_KNOWN_COUNT {
                None
            } else {
                Some(Stage::Flatpak)
            },
            Stage::Flatpak => None,
            Stage::Listing { dir } => if self.home.is_some() && *dir < SCAN_DIR_COUNT {
                None
            } else {
                Some(Stage::Finished)
            },
            Stage::Candidate { dir, names, index } => if *dir < SCAN_DIR_COUNT
                && self.home.is_some() && *index < names.len() {
                None
            } else if self.home.is_some() && *dir < SCAN_DIR_COUNT - 1 {
                Some(Stage::Listing { dir: *dir + 1 })
            } else {
                Some(Stage::Finished)
            },
            Stage::Finished => None,
        };
        match next {
            Some(stage) => {
                self.stage = stage;
            },
            None => {},
        }
    }

    /// The next question; `None` when every place was tried, or a browser
    /// was found.
    pub fn question(&mut self) -> (probe: Option<Probe>)
        ensures
            final(self).places() == old(self).places(),
            final(self).stage() == settled(old(self).places(), old(self).stage()),
            match probe {
                Some(p) => question_of(old(self).places(), old(self).stage()) == Some(p@),
                None => question_of(old(self).places(), old(self).stage()) is None,
            },
    {
        self.settle();
        match &self.stage {
            Stage::Configured => match &self.configured {
                Some(path) => Some(Probe::IsExecutable { path: path.clone() }),
                None => None,
            },
            Stage::OnPath { index } => Some(
                Probe::Which { name: String::from_str(path_name(*index)) },
            ),
            Stage::WellKnown { index } => Some(
                Probe::IsExecutable { path: String::from_str(well_known_path(*index)) },
            ),
            Stage::Flatpak => Some(Probe::FlatpakInfo { app_id: String::from_str(FLATPAK_APP_ID) }),
            Stage::Listing { dir } => match &self.home {
                Some(home) => Some(Probe::ListDir { dir: scan_dir(home.as_str(), *dir) }),
                None => None,
            },
            Stage::Candidate { dir, names, index } => match &self.home {
                Some(home) => {
                    let dir_path = scan_dir(home.as_str(), *dir);
                    Some(
                        Probe::IsExecutable {
                            path: join_path(dir_path.as_str(), names[*index].as_str()),
                        },
                    )
                },
                None => None,
            },
            Stage::Finished => None,
        }
    }

    /// Takes the answer to the last question: the browser if the answer
    /// reveals one; else the detection moves on to the next place.
    pub fn answer(&mut self, finding: &Finding) -> (found: Option<ChromeInfo>)
        ensures
            final(self).places() == old(self).places(),
            final(self).stage() == stage_after(old(self).places(), old(self).stage(), finding@),
            match found {
                Some(info) => found_by(old(self).places(), old(self).stage(), finding@) == Some(
                    info@,
                ),
                None => found_by(old(self).places(), old(self).stage(), finding@) is None,
            },
    {
        self.settle();
        let yes = match finding {
            Finding::Flag { yes } => *yes,
            _ => false,
        };
        let mut found: Option<ChromeInfo> = None;
        let mut next: Stage = Stage::Finished;
        match &self.stage {
            Stage::Configured => {
                if yes {
                    match &self.configured {
                        Some(path) => {
                            found = Some(
                                ChromeInfo {
                                    path: path.clone(),
                                    launch_method: LaunchMethod::Direct,
                                },
                            );
                        },
                        None => {},
                    }
                } else {
                    next = Stage::OnPath { index: 0 };
                }
            },
            Stage::OnPath { index } => {
                next = Stage::OnPath { index: *index + 1 };
                match finding {
                    Finding::Path { path: Some(path) } => {
                        if path.as_str().unicode_len() > 0 {
                            found = Some(
                                ChromeInfo {
                                    path: path.clone(),
                                    launch_method: LaunchMethod::Direct,
                                },
                            );
                        }
                    },
                    _ => {},
                }
            },
            Stage::WellKnown { index } => {
                if yes {
                    found = Some(
                        ChromeInfo {
                            path: String::from_str(well_known_path(*index)),
                            launch_method: LaunchMethod::Direct,
                        },
                    );
                } else {
                    next = Stage::WellKnown { index: *index + 1 };
                }
            },
            Stage::Flatpak => {
                if yes {
                    found = Some(
                        ChromeInfo {
                            path: String::from_str(FLATPAK_APP_ID),
                            launch_method: LaunchMethod::Flatpak,
                        },
                    );
                } else {
                    next = Stage::Listing { dir: 0 };
                }
            },
            Stage::Listing { dir } => {
                let names = match finding {
                    Finding::Entries { names } => select_appimage_names(names),
                    _ => Vec::new(),
                };
                assert(texts(Seq::<String>::empty()) =~= Seq::<Seq<char>>::empty());
                next = Stage::Candidate { dir: *dir, names, index: 0 };
            },
            Stage::Candidate { dir, names, index } => {
                if yes {
                    match &self.home {
                        Some(home) => {
                            let dir_path = scan_dir(home.as_str(), *dir);
                            found = Some(
                                ChromeInfo {
                                    path: join_path(dir_path.as_str(), names[*index].as_str()),
                                    launch_method: LaunchMethod::AppImage,
                                },
                            );
                        },
                        None => {},
                    }
                } else {
                    next = Stage::Candidate { dir: *dir, names: names.clone(), index: *index + 1 };
                }
            },
            Stage::Finished => {},
        }
        if found.is_some() {
            next = Stage::Finished;
        }
        self.stage = next;
        found
    }
}

/// Where a detection stands.
#[derive(Debug)]
pub enum DetectStep {
    /// This has to be looked up next.
    Ask { probe: Probe },
    /// This browser was found.
    Found { info: ChromeInfo },
    /// Every place was tried and none holds a browser.
    NotFound,
}

/// The mathematical value of a [`DetectStep`].
pub enum DetectStepView {
    Ask { probe: ProbeView },
    Found { info: ChromeInfoView },
    NotFound,
}

impl View for DetectStep {
    type V = DetectStepView;

    open spec fn view(&self) -> DetectStepView {
        match self {
            DetectStep::Ask { probe } => DetectStepView::Ask { probe: probe@ },
            DetectStep::Found { info } => DetectStepView::Found { info: info@ },
            DetectStep::NotFound => DetectStepView::NotFound,
        }
    }
}

/// The views of a sequence of findings.
pub open spec fn finding_views(findings: Seq<Finding>) -> Seq<FindingView> {
    findings.map_values(|f: Finding| f@)
}

/// Where a detection stands that is at `stage` and gets `findings` as the
/// answers to its next questions, in order.
pub open spec fn detection(places: Places, stage: StageView, findings: Seq<FindingView>) -> DetectStepView
    decreases findings.len(),
{
    match question_of(places, stage) {
        None => DetectStepView::NotFound,
        Some(probe) => if findings.len() == 0 {
            DetectStepView::Ask { probe }
        } else {
            match found_by(places, stage, findings[0]) {
                Some(info) => DetectStepView::Found { info },
                None => detection(
                    places,
                    stage_after(places, stage, findings[0]),
                    findings.drop_first(),
                ),
            }
        },
    }
}

/// Detects the browser from what has been looked up so far.
///
/// `findings` are the answers to the questions that the detection has asked
/// up to now, in order. The result is the browser, if one of the answers
/// reveals it; else the next question; else, when every place was tried,
/// that there is none. Answers beyond the end of the detection are not
/// looked at.
#[verifier::loop_isolation(false)]
pub fn detect_chrome(config: &GlobalConfig, home: Option<String>, findings: &Vec<Finding>) -> (step:
    DetectStep)
    ensures
        step@ == detection(
            Places { configured: text_of(config.chrome_path), home: text_of(home) },
            StageView::Configured,
            finding_views(findings@),
        ),
{
    let ghost places = Places { configured: text_of(config.chrome_path), home: text_of(home) };
    let ghost all = finding_views(findings@);
    let mut detector = Detector::new(config, home);
    let mut i: usize = 0;
    assert(all.skip(0) == all);
    loop
        invariant
            detector.places() == places,
            all == finding_views(findings@),
            i <= findings@.len(),
            detection(places, StageView::Configured, all) == detection(
                places,
                detector.stage(),
                all.skip(i as int),
            ),
        decreases findings@.len() - i,
    {
        let ghost stage = detector.stage();
        let probe = match detector.question() {
            Some(probe) => probe,
            None => {
                return DetectStep::NotFound;
            },
        };
        proof {
            lemma_settled_twice(places, stage);
        }
        if i == findings.len() {
            return DetectStep::Ask { probe };
        }
        assert(all.skip(i as int)[0] == findings@[i as int]@);
        assert(all.skip(i as int).drop_first() == all.skip(i + 1));
        match detector.answer(&findings[i]) {
            Some(info) => {
                return DetectStep::Found { info };
            },
            None => {},
        }
        i += 1;
    }
}

/// Settling a stage that is settled changes nothing, so the question, the
/// browser found and the next stage are the same for a stage and for what
/// it settles to.
pub proof fn lemma_settled_twice(places: Places, stage: StageView)
    ensures
        settled(places, settled(places, stage)) == settled(places, stage),
        question_of(places, settled(places, stage)) == question_of(places, stage),
        forall|finding: FindingView|
            found_by(places, settled(places, stage), finding) == found_by(places, stage, finding),
        forall|finding: FindingView|
            stage_after(places, settled(places, stage), finding) == stage_after(
                places,
                stage,
                finding,
            ),
{
}

} // verus!

//! The meeting applications that the detector knows, and the process names
//! by which it recognises them.

use vstd::prelude::*;
use vstd::string::StringExecFns;
use crate::text::{contains_ignoring_case, matches_ignoring_case, strs};

verus! {

/// A meeting application of the closed set that the detector knows.
#[derive(Debug, Clone, Copy, PartialEq, Eq, Structural)]
pub enum MeetingApp {
    Zoom,
    MicrosoftTeams,
    GoogleMeet,
}

/// The names, or parts of names, of the processes that show a meeting of
/// `app`.
///
/// For Zoom it is the companion process that runs only while a meeting
/// window is open; the main process, which runs whenever Zoom is open, is
/// deliberately left out. For Microsoft Teams every process of the client
/// counts, old and new. For Google Meet there is none: a browser process
/// does not show that a meeting is open in it, and the titles of its windows
/// are not inspected.
pub open spec fn process_patterns(app: MeetingApp) -> Seq<Seq<char>> {
    match app {
        MeetingApp::Zoom => seq!["CptHost"@],
        MeetingApp::MicrosoftTeams => seq![
            "Microsoft Teams"@,
            "Teams"@,
            "ms-teams"@,
            "msteams"@,
            "Teams.exe"@,
        ],
        MeetingApp::GoogleMeet => Seq::empty(),
    }
}

/// The name that detections of `app` carry.
pub open spec fn app_display_name(app: MeetingApp) -> Seq<char> {
    match app {
        MeetingApp::Zoom => "Zoom"@,
        MeetingApp::MicrosoftTeams => "Microsoft Teams"@,
        MeetingApp::GoogleMeet => "Google Meet"@,
    }
}

/// A process of this name shows a meeting of `app`: the name holds one of
/// the application's patterns, ignoring the case of letters.
pub open spec fn shows_meeting(app: MeetingApp, name: Seq<char>) -> bool {
    matches_ignoring_case(name, process_patterns(app))
}

/// The names under which the Zoom application runs. All but the meeting
/// process run whenever Zoom is open, so only that one is a pattern of the
/// Zoom strategy.
pub open spec fn zoom_process_names() -> Seq<Seq<char>> {
    seq!["zoom.us"@, "zoom"@, "CptHost"@, "Zoom Meeting"@]
}

/// The names of the browsers in which a Google Meet meeting may run.
pub open spec fn browser_process_names() -> Seq<Seq<char>> {
    seq![
        "Google Chrome"@,
        "chrome"@,
        "Chromium"@,
        "Arc"@,
        "Safari"@,
        "Firefox"@,
        "firefox"@,
        "Microsoft Edge"@,
        "msedge"@,
        "Brave Browser"@,
        "brave"@,
    ]
}

/// What the title or address of a browser window holds while a Google Meet
/// meeting is open in it.
pub open spec fn google_meet_url_pattern_text() -> Seq<char> {
    "meet.google.com"@
}

/// The names under which the Zoom application runs.
pub fn zoom_processes() -> (names: Vec<&'static str>)
    ensures
        strs(names@) == zoom_process_names(),
{
    let mut names: Vec<&'static str> = Vec::new();
    names.push("zoom.us");
    names.push("zoom");
    names.push("CptHost");
    names.push("Zoom Meeting");
    assert(strs(names@) =~= zoom_process_names());
    names
}

/// The names under which Microsoft Teams runs.
pub fn teams_processes() -> (names: Vec<&'static str>)
    ensures
        strs(names@) == process_patterns(MeetingApp::MicrosoftTeams),
{
    MeetingApp::MicrosoftTeams.patterns()
}

/// The names of the browsers in which a Google Meet meeting may run.
pub fn browser_processes() -> (names: Vec<&'static str>)
    ensures
        strs(names@) == browser_process_names(),
{
    let mut names: Vec<&'static str> = Vec::new();
    names.push("Google Chrome");
    names.push("chrome");
    names.push("Chromium");
    names.push("Arc");
    names.push("Safari");
    names.push("Firefox");
    names.push("firefox");
    names.push("Microsoft Edge");
    names.push("msedge");
    names.push("Brave Browser");
    names.push("brave");
    assert(strs(names@) =~= browser_process_names());
    names
}

/// What the title or address of a browser window holds while a Google Meet
/// meeting is open in it.
pub fn google_meet_url_pattern() -> (pattern: &'static str)
    ensures
        pattern@ == google_meet_url_pattern_text(),
{
    "meet.google.com"
}

impl MeetingApp {
    /// The name that detections of this application carry.
    pub fn display_name(&self) -> (name: String)
        ensures
            name@ == app_display_name(*self),
    {
        match self {
            MeetingApp::Zoom => String::from_str("Zoom"),
            MeetingApp::MicrosoftTeams => String::from_str("Microsoft Teams"),
            MeetingApp::GoogleMeet => String::from_str("Google Meet"),
        }
    }

    /// The names, or parts of names, of the processes that show a meeting
    /// of this application.
    pub fn patterns(&self) -> (names: Vec<&'static str>)
        ensures
            strs(names@) == process_patterns(*self),
    {
        let mut names: Vec<&'static str> = Vec::new();
        match self {
            MeetingApp::Zoom => {
                names.push("CptHost");
            },
            MeetingApp::MicrosoftTeams => {
                names.push("Microsoft Teams");
                names.push("Teams");
                names.push("ms-teams");
                names.push("msteams");
                names.push("Teams.exe");
            },
            MeetingApp::GoogleMeet => {},
        }
        assert(strs(names@) =~= process_patterns(*self));
        names
    }

    /// Whether a process of this name shows a meeting of this application.
    pub fn matches_process(&self, process_name: &str) -> (found: bool)
        ensures
            found == shows_meeting(*self, process_name@),
    {
        let patterns = self.patterns();
        contains_ignoring_case(process_name, &patterns)
    }
}

} // verus!

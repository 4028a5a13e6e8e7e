//! The detection strategies: from a snapshot of process names to the
//! meeting that is in progress, if any.

use vstd::prelude::*;
use crate::meeting_apps::{MeetingApp, app_display_name, shows_meeting};
use crate::settings::MeetingDetectionSettings;

verus! {

/// One detection: which application, through which process, and when.
#[derive(Debug)]
pub struct DetectedMeeting {
    /// The meeting application's name.
    pub app_name: String,
    /// The name of the process that was matched, as the snapshot gave it.
    pub process_name: String,
    /// When the detection was made.
    pub detected_at: String,
    /// Whether a call is in progress, rather than the application merely open.
    pub is_active_meeting: bool,
}

/// A detection as a plain value.
pub struct DetectedMeetingView {
    pub app_name: Seq<char>,
    pub process_name: Seq<char>,
    pub detected_at: Seq<char>,
    pub is_active_meeting: bool,
}

impl View for DetectedMeeting {
    type V = DetectedMeetingView;

    open spec fn view(&self) -> DetectedMeetingView {
        DetectedMeetingView {
            app_name: self.app_name@,
            process_name: self.process_name@,
            detected_at: self.detected_at@,
            is_active_meeting: self.is_active_meeting,
        }
    }
}

impl Clone for DetectedMeeting {
    fn clone(&self) -> (copy: Self)
        ensures
            copy@ == self@,
    {
        DetectedMeeting {
            app_name: self.app_name.clone(),
            process_name: self.process_name.clone(),
            detected_at: self.detected_at.clone(),
            is_active_meeting: self.is_active_meeting,
        }
    }
}

/// An optional detection as a plain value.
pub open spec fn meeting_view(meeting: Option<DetectedMeeting>) -> Option<DetectedMeetingView> {
    match meeting {
        Some(found) => Some(found@),
        None => None,
    }
}

/// Whether the settings ask for meetings of `app`.
pub open spec fn strategy_enabled(settings: MeetingDetectionSettings, app: MeetingApp) -> bool {
    match app {
        MeetingApp::Zoom => settings.detect_zoom,
        MeetingApp::MicrosoftTeams => settings.detect_teams,
        MeetingApp::GoogleMeet => settings.detect_google_meet,
    }
}

/// The process at `index` shows a meeting of `app`, and none before it does.
pub open spec fn is_first_match(names: Seq<String>, app: MeetingApp, index: int) -> bool {
    &&& 0 <= index < names.len()
    &&& shows_meeting(app, names[index]@)
    &&& forall|earlier: int| 0 <= earlier < index ==> !shows_meeting(app, #[trigger] names[earlier]@)
}

/// Some process of the snapshot shows a meeting of `app`.
pub open spec fn has_match(names: Seq<String>, app: MeetingApp) -> bool {
    exists|index: int| 0 <= index < names.len() && shows_meeting(app, #[trigger] names[index]@)
}

/// The place of the first process that shows a meeting of `app`.
pub open spec fn first_match(names: Seq<String>, app: MeetingApp) -> int {
    choose|index: int| is_first_match(names, app, index)
}

/// The detection that a strategy reports for a matched process. Every match
/// counts as a call in progress.
pub open spec fn detection_for(
    app: MeetingApp,
    process_name: Seq<char>,
    detected_at: Seq<char>,
) -> DetectedMeetingView {
    DetectedMeetingView {
        app_name: app_display_name(app),
        process_name,
        detected_at,
        is_active_meeting: true,
    }
}

/// What the strategy of `app` finds in a snapshot.
pub open spec fn strategy_result(
    names: Seq<String>,
    settings: MeetingDetectionSettings,
    app: MeetingApp,
    detected_at: Seq<char>,
) -> Option<DetectedMeetingView> {
    if strategy_enabled(settings, app) && has_match(names, app) {
        Some(detection_for(app, names[first_match(names, app)]@, detected_at))
    } else {
        None
    }
}

/// What the strategies together find in a snapshot: Zoom before Microsoft
/// Teams before Google Meet, the first that finds anything alone.
pub open spec fn detection(
    names: Seq<String>,
    settings: MeetingDetectionSettings,
    detected_at: Seq<char>,
) -> Option<DetectedMeetingView> {
    let zoom = strategy_result(names, settings, MeetingApp::Zoom, detected_at);
    let teams = strategy_result(names, settings, MeetingApp::MicrosoftTeams, detected_at);
    if zoom is Some {
        zoom
    } else if teams is Some {
        teams
    } else {
        strategy_result(names, settings, MeetingApp::GoogleMeet, detected_at)
    }
}

/// Only one place can be the first match.
pub proof fn lemma_first_match_unique(names: Seq<String>, app: MeetingApp, index: int)
    requires
        is_first_match(names, app, index),
    ensures
        has_match(names, app),
        first_match(names, app) == index,
{
    let chosen = first_match(names, app);
    assert(is_first_match(names, app, chosen));
    if chosen < index {
        assert(!shows_meeting(app, names[chosen]@));
    }
    if index < chosen {
        assert(!shows_meeting(app, names[index]@));
    }
}

/// The place of the first process in the snapshot that shows a meeting of
/// `app`.
pub fn find_first_match(process_names: &Vec<String>, app: MeetingApp) -> (found: Option<usize>)
    ensures
        found is Some <==> has_match(process_names@, app),
        found is Some ==> found->Some_0 == first_match(process_names@, app),
        found is Some ==> is_first_match(process_names@, app, found->Some_0 as int),
{
    let mut index: usize = 0;
    while index < process_names.len()
        invariant
            index <= process_names@.len(),
            forall|earlier: int|
                0 <= earlier < index ==> !shows_meeting(app, #[trigger] process_names@[earlier]@),
        decreases process_names@.len() - index,
    {
        if app.matches_process(process_names[index].as_str()) {
            proof {
                lemma_first_match_unique(process_names@, app, index as int);
            }
            return Some(index);
        }
        index += 1;
    }
    None
}

/// Runs the strategy of one application on a snapshot.
pub fn run_strategy(
    process_names: &Vec<String>,
    settings: &MeetingDetectionSettings,
    app: MeetingApp,
    detected_at: &String,
) -> (found: Option<DetectedMeeting>)
    ensures
        meeting_view(found) == strategy_result(process_names@, *settings, app, detected_at@),
{
    let enabled = match app {
        MeetingApp::Zoom => settings.detect_zoom,
        MeetingApp::MicrosoftTeams => settings.detect_teams,
        MeetingApp::GoogleMeet => settings.detect_google_meet,
    };
    if !enabled {
        return None;
    }
    match find_first_match(process_names, app) {
        Some(index) => Some(
            DetectedMeeting {
                app_name: app.display_name(),
                process_name: process_names[index].clone(),
                detected_at: detected_at.clone(),
                is_active_meeting: true,
            },
        ),
        None => None,
    }
}

/// Decides from a snapshot of process names whether a meeting is in
/// progress. The strategies run in their order of priority, and the first
/// that finds a meeting gives the result; several meetings at once are not
/// reported.
pub fn detect(
    process_names: &Vec<String>,
    settings: &MeetingDetectionSettings,
    detected_at: String,
) -> (found: Option<DetectedMeeting>)
    ensures
        meeting_view(found) == detection(process_names@, *settings, detected_at@),
{
    let zoom = run_strategy(process_names, settings, MeetingApp::Zoom, &detected_at);
    if zoom.is_some() {
        return zoom;
    }
    let teams = run_strategy(process_names, settings, MeetingApp::MicrosoftTeams, &detected_at);
    if teams.is_some() {
        return teams;
    }
    run_strategy(process_names, settings, MeetingApp::GoogleMeet, &detected_at)
}

/// A snapshot with the Zoom meeting process gives a Zoom detection, whenever
/// Zoom detection is on.
pub proof fn lemma_zoom_marker_detected(
    names: Seq<String>,
    settings: MeetingDetectionSettings,
    detected_at: Seq<char>,
    index: int,
)
    requires
        settings.detect_zoom,
        0 <= index < names.len(),
        shows_meeting(MeetingApp::Zoom, names[index]@),
    ensures
        detection(names, settings, detected_at) is Some,
        detection(names, settings, detected_at)->Some_0.app_name == "Zoom"@,
        detection(names, settings, detected_at)->Some_0.is_active_meeting,
{
}

/// A snapshot without the Zoom meeting process gives no Zoom detection, and
/// none at all unless a Microsoft Teams process runs and its detection is on.
pub proof fn lemma_no_marker_no_zoom(
    names: Seq<String>,
    settings: MeetingDetectionSettings,
    detected_at: Seq<char>,
)
    requires
        !has_match(names, MeetingApp::Zoom),
    ensures
        strategy_result(names, settings, MeetingApp::Zoom, detected_at) is None,
        !(settings.detect_teams && has_match(names, MeetingApp::MicrosoftTeams)) ==> detection(
            names,
            settings,
            detected_at,
        ) is None,
{
}

/// A snapshot with a Microsoft Teams process gives a Microsoft Teams
/// detection, whenever its detection is on and the Zoom strategy, which
/// comes first, finds nothing.
pub proof fn lemma_teams_process_detected(
    names: Seq<String>,
    settings: MeetingDetectionSettings,
    detected_at: Seq<char>,
    index: int,
)
    requires
        settings.detect_teams,
        0 <= index < names.len(),
        shows_meeting(MeetingApp::MicrosoftTeams, names[index]@),
        !(settings.detect_zoom && has_match(names, MeetingApp::Zoom)),
    ensures
        detection(names, settings, detected_at) is Some,
        detection(names, settings, detected_at)->Some_0.app_name == "Microsoft Teams"@,
        detection(names, settings, detected_at)->Some_0.is_active_meeting,
{
}

/// Whatever is detected names a process of the snapshot and one of the two
/// applications that process names can show, carries the time that was
/// given, and counts as a call in progress.
pub proof fn lemma_detection_names_a_process(
    names: Seq<String>,
    settings: MeetingDetectionSettings,
    detected_at: Seq<char>,
)
    requires
        detection(names, settings, detected_at) is Some,
    ensures
        exists|index: int|
            0 <= index < names.len() && (#[trigger] names[index])@ == detection(
                names,
                settings,
                detected_at,
            )->Some_0.process_name,
        detection(names, settings, detected_at)->Some_0.app_name == "Zoom"@ || detection(
            names,
            settings,
            detected_at,
        )->Some_0.app_name == "Microsoft Teams"@,
        detection(names, settings, detected_at)->Some_0.detected_at == detected_at,
        detection(names, settings, detected_at)->Some_0.is_active_meeting,
{
    lemma_first_match_exists(names, MeetingApp::Zoom);
    lemma_first_match_exists(names, MeetingApp::MicrosoftTeams);
    lemma_first_match_exists(names, MeetingApp::GoogleMeet);
}

/// Where some process matches, some process is the first to match.
pub proof fn lemma_first_match_exists(names: Seq<String>, app: MeetingApp)
    ensures
        has_match(names, app) ==> is_first_match(names, app, first_match(names, app)),
{
    if has_match(names, app) {
        let some = choose|index: int| 0 <= index < names.len() && shows_meeting(app, #[trigger] names[index]@);
        lemma_least_match(names, app, some);
    }
}

/// Below any match stands a first match.
proof fn lemma_least_match(names: Seq<String>, app: MeetingApp, bound: int)
    requires
        0 <= bound < names.len(),
        shows_meeting(app, names[bound]@),
    ensures
        exists|index: int| is_first_match(names, app, index),
    decreases bound,
{
    if exists|earlier: int| 0 <= earlier < bound && shows_meeting(app, #[trigger] names[earlier]@) {
        let earlier = choose|earlier: int| 0 <= earlier < bound && shows_meeting(app, #[trigger] names[earlier]@);
        lemma_least_match(names, app, earlier);
    } else {
        assert(is_first_match(names, app, bound));
    }
}

} // verus!

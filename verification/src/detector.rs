//! The detector: its settings, its monitoring flag and its meeting state,
//! with one iteration of the monitoring loop.

use vstd::prelude::*;
use vstd::multiset::Multiset;
use sysinfo::System;
use crate::detection::{
    DetectedMeeting, DetectedMeetingView, detect, detection, first_match, lemma_first_match_exists,
    meeting_view, strategy_enabled,
};
use crate::meeting_apps::{MeetingApp, app_display_name, shows_meeting};
use crate::settings::{MeetingDetectionSettings, StoredSettings, loaded_settings};
use crate::text::texts;
use crate::tracker::{
    DetectorEvent, MeetingTracker, MeetingTrackerView, emitted_events, events_view, idle_tracker,
    next_tracker,
};

verus! {

/// The operating system's process table, as `sysinfo` reads it.
#[verifier::external_type_specification]
#[verifier::external_body]
pub struct ExSystem(sysinfo::System);

/// The names of the processes that a table holds, each as often as the
/// table holds a process of that name. A table is a hash map, so the names
/// have no order.
pub uninterp spec fn table_names(system: System) -> Multiset<Seq<char>>;

/// Calls `sysinfo::System::new_with_specifics`, asking for the processes
/// only. Nothing is claimed of the table that is returned.
#[verifier::external_body]
fn new_process_table() -> System {
    System::new_with_specifics(
        sysinfo::RefreshKind::new().with_processes(sysinfo::ProcessRefreshKind::everything()),
    )
}

/// Calls `sysinfo::System::refresh_processes` for all processes, dropping
/// those that are gone. Nothing is claimed of the table afterwards.
#[verifier::external_body]
fn refresh_processes(system: &mut System) {
    system.refresh_processes(sysinfo::ProcessesToUpdate::All, true);
}

/// Calls `sysinfo::System::processes` and `sysinfo::Process::name` on each
/// entry. Trusted: the names returned are those that the table holds, one
/// for each process. Nothing is claimed of which names these are, nor of
/// their order, which is that of a hash map.
#[verifier::external_body]
fn process_names(system: &System) -> (names: Vec<String>)
    ensures
        texts(names@).to_multiset() == table_names(*system),
{
    system.processes().values().map(|process| process.name().to_string_lossy().to_string()).collect()
}

/// Calls `chrono::Local::now` and `chrono::DateTime::to_rfc3339`. Nothing is
/// claimed of the text: it depends on the clock.
#[verifier::external_body]
fn current_time() -> String {
    chrono::Local::now().to_rfc3339()
}

/// What a monitoring loop does at the top of an iteration.
#[derive(Debug, Clone, Copy, PartialEq, Eq, Structural)]
pub enum PollPlan {
    /// Monitoring was stopped: leave the loop.
    Stop,
    /// Detection is switched off: sleep, then look at the settings again.
    Wait { secs: u64 },
    /// Take a snapshot and run the detection, then sleep.
    Scan { secs: u64 },
}

/// What a monitoring loop does at the top of an iteration.
pub open spec fn poll_plan(is_monitoring: bool, settings: MeetingDetectionSettings) -> PollPlan {
    if !is_monitoring {
        PollPlan::Stop
    } else if !settings.enabled {
        PollPlan::Wait { secs: settings.poll_interval_secs }
    } else {
        PollPlan::Scan { secs: settings.poll_interval_secs }
    }
}

/// Decides what a monitoring loop does at the top of an iteration.
pub fn plan_poll(is_monitoring: bool, settings: &MeetingDetectionSettings) -> (plan: PollPlan)
    ensures
        plan == poll_plan(is_monitoring, *settings),
{
    if !is_monitoring {
        PollPlan::Stop
    } else if !settings.enabled {
        PollPlan::Wait { secs: settings.poll_interval_secs }
    } else {
        PollPlan::Scan { secs: settings.poll_interval_secs }
    }
}

/// What one iteration of the monitoring loop leaves for the host to do.
#[derive(Debug)]
pub enum PollOutcome {
    /// The loop ends.
    Stopped,
    /// Send the events in their order, sleep, and poll again.
    Polled { events: Vec<DetectorEvent>, sleep_secs: u64 },
}

/// What the detector reports of itself.
#[derive(Debug)]
pub struct MeetingDetectionStatus {
    /// Whether the monitoring loop runs.
    pub is_monitoring: bool,
    /// The meeting in progress, if any.
    pub current_meeting: Option<DetectedMeeting>,
    /// The settings in force.
    pub settings: MeetingDetectionSettings,
    /// Whether the detector started the recording that runs.
    pub auto_recording_active: bool,
}

/// A status report as a plain value.
pub struct MeetingDetectionStatusView {
    pub is_monitoring: bool,
    pub current_meeting: Option<DetectedMeetingView>,
    pub settings: MeetingDetectionSettings,
    pub auto_recording_active: bool,
}

impl View for MeetingDetectionStatus {
    type V = MeetingDetectionStatusView;

    open spec fn view(&self) -> MeetingDetectionStatusView {
        MeetingDetectionStatusView {
            is_monitoring: self.is_monitoring,
            current_meeting: meeting_view(self.current_meeting),
            settings: self.settings,
            auto_recording_active: self.auto_recording_active,
        }
    }
}

/// Watches the running processes for meetings.
pub struct MeetingDetector {
    system: System,
    settings: MeetingDetectionSettings,
    is_monitoring: bool,
    tracker: MeetingTracker,
}

/// The detector's state as a plain value.
pub struct MeetingDetectorView {
    pub settings: MeetingDetectionSettings,
    pub is_monitoring: bool,
    pub tracker: MeetingTrackerView,
}

impl View for MeetingDetector {
    type V = MeetingDetectorView;

    closed spec fn view(&self) -> MeetingDetectorView {
        MeetingDetectorView {
            settings: self.settings,
            is_monitoring: self.is_monitoring,
            tracker: self.tracker@,
        }
    }
}

/// The status that a detector in this state reports.
pub open spec fn status_of(detector: MeetingDetectorView) -> MeetingDetectionStatusView {
    MeetingDetectionStatusView {
        is_monitoring: detector.is_monitoring,
        current_meeting: detector.tracker.current_meeting,
        settings: detector.settings,
        auto_recording_active: detector.tracker.auto_recording_active,
    }
}

/// The state after a request to start monitoring. A loop that runs is left
/// alone; a new loop begins with no meeting believed in progress, while the
/// meeting last reported and the recording flag stay.
pub open spec fn monitoring_started(detector: MeetingDetectorView) -> MeetingDetectorView {
    if detector.is_monitoring {
        detector
    } else {
        MeetingDetectorView {
            settings: detector.settings,
            is_monitoring: true,
            tracker: MeetingTrackerView {
                in_meeting: false,
                current_meeting: detector.tracker.current_meeting,
                auto_recording_active: detector.tracker.auto_recording_active,
            },
        }
    }
}

/// The state after a request to stop monitoring.
pub open spec fn monitoring_stopped(detector: MeetingDetectorView) -> MeetingDetectorView {
    MeetingDetectorView {
        settings: detector.settings,
        is_monitoring: false,
        tracker: detector.tracker,
    }
}

/// The state with other settings.
pub open spec fn with_settings(
    detector: MeetingDetectorView,
    settings: MeetingDetectionSettings,
) -> MeetingDetectorView {
    MeetingDetectorView { settings, is_monitoring: detector.is_monitoring, tracker: detector.tracker }
}

/// The state after an iteration of the monitoring loop in which the
/// detection gave `found`.
pub open spec fn after_poll(
    detector: MeetingDetectorView,
    found: Option<DetectedMeetingView>,
) -> MeetingDetectorView {
    MeetingDetectorView {
        settings: detector.settings,
        is_monitoring: detector.is_monitoring,
        tracker: next_tracker(detector.tracker, detector.settings, found),
    }
}

/// `found` is what the detection gives at some time for the processes of
/// these names, taken in some order.
pub open spec fn is_detection_result(
    table: Multiset<Seq<char>>,
    settings: MeetingDetectionSettings,
    found: Option<DetectedMeetingView>,
) -> bool {
    exists|names: Seq<String>, detected_at: Seq<char>|
        texts(names).to_multiset() == table && found == #[trigger] detection(
            names,
            settings,
            detected_at,
        )
}

/// A process that shows a meeting of `app` is in the table.
pub open spec fn app_runs(table: Multiset<Seq<char>>, app: MeetingApp) -> bool {
    exists|name: Seq<char>| #[trigger] table.count(name) > 0 && shows_meeting(app, name)
}

/// The strategy of `app` is on and has something to find in the table.
pub open spec fn strategy_applies(
    table: Multiset<Seq<char>>,
    settings: MeetingDetectionSettings,
    app: MeetingApp,
) -> bool {
    strategy_enabled(settings, app) && app_runs(table, app)
}

/// `found` is what a scan of the table owes: a Zoom meeting where the Zoom
/// strategy applies; else a Microsoft Teams meeting where that strategy
/// applies; else nothing. What is found names a process of the table that
/// shows the meeting, and counts as a call in progress.
pub open spec fn follows_priority(
    table: Multiset<Seq<char>>,
    settings: MeetingDetectionSettings,
    found: Option<DetectedMeetingView>,
) -> bool {
    let zoom = strategy_applies(table, settings, MeetingApp::Zoom);
    let teams = strategy_applies(table, settings, MeetingApp::MicrosoftTeams);
    &&& zoom ==> found is Some && found->Some_0.app_name == app_display_name(MeetingApp::Zoom)
        && shows_meeting(MeetingApp::Zoom, found->Some_0.process_name)
    &&& !zoom && teams ==> found is Some && found->Some_0.app_name == app_display_name(
        MeetingApp::MicrosoftTeams,
    ) && shows_meeting(MeetingApp::MicrosoftTeams, found->Some_0.process_name)
    &&& !zoom && !teams ==> found is None
    &&& found is Some ==> found->Some_0.is_active_meeting && table.count(
        found->Some_0.process_name,
    ) > 0
}

/// Looks for a meeting among the processes that the table holds, without
/// reading them anew. The result is what the detection gives for the names
/// in the table and the time of the call.
pub fn detect_meeting_from_system(system: &System, settings: &MeetingDetectionSettings) -> (found: Option<DetectedMeeting>)
    ensures
        is_detection_result(table_names(*system), *settings, meeting_view(found)),
        follows_priority(table_names(*system), *settings, meeting_view(found)),
{
    let names = process_names(system);
    let detected_at = current_time();
    let ghost at = detected_at@;
    let found = detect(&names, settings, detected_at);
    proof {
        assert(meeting_view(found) == detection(names@, *settings, at));
        lemma_scan_follows_priority(table_names(*system), *settings, meeting_view(found));
    }
    found
}

impl MeetingDetector {
    /// The names of the processes in the detector's table, as it last read
    /// them.
    pub closed spec fn process_table(&self) -> Multiset<Seq<char>> {
        table_names(self.system)
    }

    /// The settings are valid, and the meeting state is consistent.
    pub closed spec fn well_formed(&self) -> bool {
        &&& self.settings.is_valid()
        &&& self.tracker.well_formed()
    }

    /// A detector with the settings that were found where they are kept, or
    /// the defaults. It does not monitor yet and knows of no meeting.
    pub fn new(stored: StoredSettings) -> (detector: Self)
        ensures
            detector.well_formed(),
            detector@.settings == loaded_settings(stored),
            !detector@.is_monitoring,
            detector@.tracker == idle_tracker(),
    {
        MeetingDetector {
            system: new_process_table(),
            settings: MeetingDetectionSettings::load(stored),
            is_monitoring: false,
            tracker: MeetingTracker::new(),
        }
    }

    /// The settings in force.
    pub fn get_settings(&self) -> (settings: MeetingDetectionSettings)
        requires
            self.well_formed(),
        ensures
            settings == self@.settings,
            settings.is_valid(),
    {
        self.settings
    }

    /// Replaces the settings whole. Nothing else changes; the host saves
    /// what was set.
    pub fn set_settings(&mut self, settings: MeetingDetectionSettings)
        requires
            old(self).well_formed(),
            settings.is_valid(),
        ensures
            final(self).well_formed(),
            final(self)@ == with_settings(old(self)@, settings),
    {
        self.settings = settings;
    }

    /// Whether the monitoring loop runs.
    pub fn is_monitoring(&self) -> (running: bool)
        ensures
            running == self@.is_monitoring,
    {
        self.is_monitoring
    }

    /// What the detector reports of itself.
    pub fn get_status(&self) -> (status: MeetingDetectionStatus)
        ensures
            status@ == status_of(self@),
    {
        let current_meeting = match &self.tracker.current_meeting {
            Some(meeting) => Some(meeting.clone()),
            None => None,
        };
        MeetingDetectionStatus {
            is_monitoring: self.is_monitoring,
            current_meeting,
            settings: self.settings,
            auto_recording_active: self.tracker.auto_recording_active,
        }
    }

    /// Reads the running processes anew and looks for a meeting among them,
    /// once, with the settings given. The detector's state stays as it is.
    pub fn detect_meeting(&mut self, settings: &MeetingDetectionSettings) -> (found: Option<DetectedMeeting>)
        ensures
            is_detection_result(final(self).process_table(), *settings, meeting_view(found)),
            follows_priority(final(self).process_table(), *settings, meeting_view(found)),
            final(self)@ == old(self)@,
            final(self).well_formed() == old(self).well_formed(),
    {
        refresh_processes(&mut self.system);
        detect_meeting_from_system(&self.system, settings)
    }

    /// Asks for monitoring to start. Returns whether a loop has to be
    /// started: not if one runs already.
    pub fn start_monitoring(&mut self) -> (spawn: bool)
        requires
            old(self).well_formed(),
        ensures
            final(self).well_formed(),
            spawn == !old(self)@.is_monitoring,
            final(self)@ == monitoring_started(old(self)@),
    {
        if self.is_monitoring {
            return false;
        }
        self.is_monitoring = true;
        self.tracker.in_meeting = false;
        true
    }

    /// Asks for monitoring to stop. The loop sees it at the top of its next
    /// iteration. Stopping what is stopped changes nothing.
    pub fn stop_monitoring(&mut self)
        ensures
            final(self)@ == monitoring_stopped(old(self)@),
            final(self).well_formed() == old(self).well_formed(),
    {
        self.is_monitoring = false;
    }

    /// Feeds the result of one detection to the meeting state machine, with
    /// the settings in force, and returns the events for the host.
    pub fn record_detection(&mut self, found: Option<DetectedMeeting>) -> (events: Vec<DetectorEvent>)
        requires
            old(self).well_formed(),
        ensures
            final(self).well_formed(),
            final(self).process_table() == old(self).process_table(),
            final(self)@ == after_poll(old(self)@, meeting_view(found)),
            events_view(events@) == emitted_events(
                old(self)@.tracker,
                old(self)@.settings,
                meeting_view(found),
            ),
    {
        let settings = self.settings;
        self.tracker.observe(&settings, found)
    }

    /// One iteration of the monitoring loop. A stopped detector ends the
    /// loop. With detection switched off nothing is read and nothing changes.
    /// Otherwise the processes are read anew, the detection runs, and the
    /// meeting state machine takes its result. Unless the loop ends, the host
    /// then sleeps for the poll interval.
    pub fn poll(&mut self) -> (outcome: PollOutcome)
        requires
            old(self).well_formed(),
        ensures
            final(self).well_formed(),
            match poll_plan(old(self)@.is_monitoring, old(self)@.settings) {
                PollPlan::Stop => {
                    &&& outcome is Stopped
                    &&& final(self)@ == old(self)@
                    &&& final(self).process_table() == old(self).process_table()
                },
                PollPlan::Wait { secs } => {
                    &&& outcome is Polled
                    &&& outcome->sleep_secs == secs
                    &&& secs > 0
                    &&& outcome->events@.len() == 0
                    &&& final(self)@ == old(self)@
                    &&& final(self).process_table() == old(self).process_table()
                },
                PollPlan::Scan { secs } => {
                    &&& outcome is Polled
                    &&& outcome->sleep_secs == secs
                    &&& secs > 0
                    &&& exists|found: Option<DetectedMeetingView>|
                        {
                            &&& is_detection_result(
                                final(self).process_table(),
                                old(self)@.settings,
                                found,
                            )
                            &&& follows_priority(
                                final(self).process_table(),
                                old(self)@.settings,
                                found,
                            )
                            &&& final(self)@ == #[trigger] after_poll(old(self)@, found)
                            &&& events_view(outcome->events@) == emitted_events(
                                old(self)@.tracker,
                                old(self)@.settings,
                                found,
                            )
                        }
                },
            },
    {
        match plan_poll(self.is_monitoring, &self.settings) {
            PollPlan::Stop => PollOutcome::Stopped,
            PollPlan::Wait { secs } => PollOutcome::Polled { events: Vec::new(), sleep_secs: secs },
            PollPlan::Scan { secs } => {
                refresh_processes(&mut self.system);
                let settings = self.settings;
                let found = detect_meeting_from_system(&self.system, &settings);
                let ghost seen = meeting_view(found);
                let events = self.record_detection(found);
                assert(self@ == after_poll(old(self)@, seen));
                PollOutcome::Polled { events, sleep_secs: secs }
            },
        }
    }
}

/// Switching detection off stops the state machine at the next poll: the
/// loop only sleeps, for a positive time. Switching it on again makes the
/// next poll scan, with no need to start the loop anew.
pub proof fn lemma_enabled_gates_polling(settings: MeetingDetectionSettings)
    requires
        settings.is_valid(),
    ensures
        !settings.enabled ==> poll_plan(true, settings) == (PollPlan::Wait {
            secs: settings.poll_interval_secs,
        }),
        settings.enabled ==> poll_plan(true, settings) == (PollPlan::Scan {
            secs: settings.poll_interval_secs,
        }),
        poll_plan(false, settings) == PollPlan::Stop,
        settings.poll_interval_secs > 0,
{
}

/// A scan of a table in which the Zoom meeting process runs finds a Zoom
/// meeting, whenever Zoom detection is on, whatever else runs and whatever
/// the other settings are. The process that is reported is one of the
/// table that shows a Zoom meeting.
pub proof fn lemma_scan_finds_zoom(
    table: Multiset<Seq<char>>,
    settings: MeetingDetectionSettings,
    found: Option<DetectedMeetingView>,
    name: Seq<char>,
)
    requires
        is_detection_result(table, settings, found),
        settings.detect_zoom,
        table.count(name) > 0,
        shows_meeting(MeetingApp::Zoom, name),
    ensures
        found is Some,
        found->Some_0.app_name == "Zoom"@,
        found->Some_0.is_active_meeting,
        table.count(found->Some_0.process_name) > 0,
        shows_meeting(MeetingApp::Zoom, found->Some_0.process_name),
{
    let (names, at) = choose|names: Seq<String>, at: Seq<char>|
        texts(names).to_multiset() == table && found == #[trigger] detection(names, settings, at);
    texts(names).to_multiset_ensures();
    assert(texts(names).contains(name));
    let index = choose|index: int| 0 <= index < texts(names).len() && texts(names)[index] == name;
    assert(names[index]@ == name);
    lemma_first_match_exists(names, MeetingApp::Zoom);
    let first = first_match(names, MeetingApp::Zoom);
    assert(texts(names)[first] == names[first]@);
}

/// A scan of a table in which a Microsoft Teams process runs finds a
/// Microsoft Teams meeting, whenever its detection is on and the Zoom
/// strategy, which comes first, has nothing to find. The process that is
/// reported is one of the table, under its own name, that belongs to
/// Microsoft Teams.
pub proof fn lemma_scan_finds_teams(
    table: Multiset<Seq<char>>,
    settings: MeetingDetectionSettings,
    found: Option<DetectedMeetingView>,
    name: Seq<char>,
)
    requires
        is_detection_result(table, settings, found),
        settings.detect_teams,
        table.count(name) > 0,
        shows_meeting(MeetingApp::MicrosoftTeams, name),
        settings.detect_zoom ==> forall|other: Seq<char>|
            #[trigger] table.count(other) > 0 ==> !shows_meeting(MeetingApp::Zoom, other),
    ensures
        found is Some,
        found->Some_0.app_name == "Microsoft Teams"@,
        found->Some_0.is_active_meeting,
        table.count(found->Some_0.process_name) > 0,
        shows_meeting(MeetingApp::MicrosoftTeams, found->Some_0.process_name),
{
    let (names, at) = choose|names: Seq<String>, at: Seq<char>|
        texts(names).to_multiset() == table && found == #[trigger] detection(names, settings, at);
    texts(names).to_multiset_ensures();
    assert(texts(names).contains(name));
    let index = choose|index: int| 0 <= index < texts(names).len() && texts(names)[index] == name;
    assert(names[index]@ == name);
    if settings.detect_zoom {
        assert forall|at_index: int| 0 <= at_index < names.len() implies !shows_meeting(
            MeetingApp::Zoom,
            #[trigger] names[at_index]@,
        ) by {
            assert(texts(names)[at_index] == names[at_index]@);
            assert(texts(names).contains(names[at_index]@));
            assert(table.count(names[at_index]@) > 0);
        }
    }
    lemma_first_match_exists(names, MeetingApp::MicrosoftTeams);
    let first = first_match(names, MeetingApp::MicrosoftTeams);
    assert(texts(names)[first] == names[first]@);
}

/// A scan of a table in which no process shows a meeting that the settings
/// ask for finds nothing: so with the Zoom application open and no meeting
/// in it.
pub proof fn lemma_scan_finds_nothing(
    table: Multiset<Seq<char>>,
    settings: MeetingDetectionSettings,
    found: Option<DetectedMeetingView>,
)
    requires
        is_detection_result(table, settings, found),
        forall|name: Seq<char>| #[trigger]
            table.count(name) > 0 ==> !(settings.detect_zoom && shows_meeting(
                MeetingApp::Zoom,
                name,
            )) && !(settings.detect_teams && shows_meeting(MeetingApp::MicrosoftTeams, name)),
    ensures
        found is None,
{
    let (names, at) = choose|names: Seq<String>, at: Seq<char>|
        texts(names).to_multiset() == table && found == #[trigger] detection(names, settings, at);
    texts(names).to_multiset_ensures();
    assert forall|at_index: int| 0 <= at_index < names.len() implies !(settings.detect_zoom
        && shows_meeting(MeetingApp::Zoom, #[trigger] names[at_index]@)) && !(
    settings.detect_teams && shows_meeting(MeetingApp::MicrosoftTeams, names[at_index]@)) by {
        assert(texts(names)[at_index] == names[at_index]@);
        assert(texts(names).contains(names[at_index]@));
        assert(table.count(names[at_index]@) > 0);
    }
}

/// Every result of a scan follows the order of the strategies.
pub proof fn lemma_scan_follows_priority(
    table: Multiset<Seq<char>>,
    settings: MeetingDetectionSettings,
    found: Option<DetectedMeetingView>,
)
    requires
        is_detection_result(table, settings, found),
    ensures
        follows_priority(table, settings, found),
{
    let zoom = strategy_applies(table, settings, MeetingApp::Zoom);
    let teams = strategy_applies(table, settings, MeetingApp::MicrosoftTeams);
    if zoom {
        let name = choose|name: Seq<char>| #[trigger]
            table.count(name) > 0 && shows_meeting(MeetingApp::Zoom, name);
        lemma_scan_finds_zoom(table, settings, found, name);
    } else if teams {
        let name = choose|name: Seq<char>| #[trigger]
            table.count(name) > 0 && shows_meeting(MeetingApp::MicrosoftTeams, name);
        lemma_scan_finds_teams(table, settings, found, name);
    } else {
        lemma_scan_finds_nothing(table, settings, found);
    }
}

} // verus!

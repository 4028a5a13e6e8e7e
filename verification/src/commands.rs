//! The control operations of the detector. Each one changes the detector's
//! state and says what is left for the host to do: save the settings, start
//! a monitoring loop.

use vstd::prelude::*;
use vstd::string::StringExecFns;
use crate::detection::{DetectedMeeting, meeting_view};
use crate::detector::{
    MeetingDetectionStatus, MeetingDetector, MeetingDetectorView, follows_priority,
    is_detection_result,
    monitoring_started, monitoring_stopped, status_of, with_settings,
};
use crate::settings::{MeetingDetectionSettings, SaveFailure, save_failure_text};

verus! {

/// What a control operation leaves for the host to do.
#[derive(Debug, Clone, Copy, PartialEq, Eq, Structural)]
pub struct ControlOutcome {
    /// The settings to save, where the operation set any. A failure to save
    /// them does not undo the operation: the settings are in force already,
    /// and the caller is told of the failure.
    pub persist: Option<MeetingDetectionSettings>,
    /// Whether a monitoring loop has to be started.
    pub spawn_monitor: bool,
}

/// The settings with the master switch set.
pub open spec fn with_enabled(settings: MeetingDetectionSettings, enabled: bool) -> MeetingDetectionSettings {
    MeetingDetectionSettings {
        enabled,
        auto_start_recording: settings.auto_start_recording,
        auto_stop_recording: settings.auto_stop_recording,
        detect_zoom: settings.detect_zoom,
        detect_teams: settings.detect_teams,
        detect_google_meet: settings.detect_google_meet,
        notify_on_detection: settings.notify_on_detection,
        poll_interval_secs: settings.poll_interval_secs,
    }
}

/// The state after new settings were set: monitoring starts where they
/// switch detection on, stops where they switch it off, and is left alone
/// where the switch stays as it was.
pub open spec fn settings_applied(
    detector: MeetingDetectorView,
    settings: MeetingDetectionSettings,
) -> MeetingDetectorView {
    let replaced = with_settings(detector, settings);
    if !detector.settings.enabled && settings.enabled {
        monitoring_started(replaced)
    } else if detector.settings.enabled && !settings.enabled {
        monitoring_stopped(replaced)
    } else {
        replaced
    }
}

/// The error of a request to set a poll interval of zero.
pub open spec fn zero_interval_text() -> Seq<char> {
    "Poll interval must be greater than zero"@
}

/// The error of a request to start a monitor that runs.
pub open spec fn already_running_text() -> Seq<char> {
    "Meeting detection is already running"@
}

/// Switches detection on and starts monitoring, unless it runs.
pub fn enable_meeting_detection(detector: &mut MeetingDetector) -> (outcome: Result<ControlOutcome, String>)
    requires
        old(detector).well_formed(),
    ensures
        final(detector).well_formed(),
        final(detector)@ == monitoring_started(
            with_settings(old(detector)@, with_enabled(old(detector)@.settings, true)),
        ),
        outcome == Ok::<ControlOutcome, String>(
            ControlOutcome {
                persist: Some(with_enabled(old(detector)@.settings, true)),
                spawn_monitor: !old(detector)@.is_monitoring,
            },
        ),
{
    let mut settings = detector.get_settings();
    settings.enabled = true;
    detector.set_settings(settings);
    let spawn_monitor = detector.start_monitoring();
    Ok(ControlOutcome { persist: Some(settings), spawn_monitor })
}

/// Switches detection off and asks the monitoring loop to stop.
pub fn disable_meeting_detection(detector: &mut MeetingDetector) -> (outcome: Result<ControlOutcome, String>)
    requires
        old(detector).well_formed(),
    ensures
        final(detector).well_formed(),
        final(detector)@ == monitoring_stopped(
            with_settings(old(detector)@, with_enabled(old(detector)@.settings, false)),
        ),
        outcome == Ok::<ControlOutcome, String>(
            ControlOutcome {
                persist: Some(with_enabled(old(detector)@.settings, false)),
                spawn_monitor: false,
            },
        ),
{
    let mut settings = detector.get_settings();
    settings.enabled = false;
    detector.set_settings(settings);
    detector.stop_monitoring();
    Ok(ControlOutcome { persist: Some(settings), spawn_monitor: false })
}

/// The detector's status.
pub fn get_meeting_detection_status(detector: &MeetingDetector) -> (status: Result<MeetingDetectionStatus, String>)
    ensures
        status is Ok,
        status->Ok_0@ == status_of(detector@),
{
    Ok(detector.get_status())
}

/// The settings in force.
pub fn get_meeting_detection_settings(detector: &MeetingDetector) -> (settings: Result<MeetingDetectionSettings, String>)
    requires
        detector.well_formed(),
    ensures
        settings == Ok::<MeetingDetectionSettings, String>(detector@.settings),
{
    Ok(detector.get_settings())
}

/// Replaces the settings, and starts or stops monitoring where the master
/// switch changed. Settings with a poll interval of zero are refused, and
/// nothing changes: the monitoring loop never reads an interval on which it
/// would spin.
pub fn set_meeting_detection_settings(
    detector: &mut MeetingDetector,
    settings: MeetingDetectionSettings,
) -> (outcome: Result<ControlOutcome, String>)
    requires
        old(detector).well_formed(),
    ensures
        final(detector).well_formed(),
        final(detector)@.settings.is_valid(),
        !settings.is_valid() ==> {
            &&& outcome is Err
            &&& outcome->Err_0@ == zero_interval_text()
            &&& final(detector)@ == old(detector)@
        },
        settings.is_valid() ==> {
            &&& final(detector)@ == settings_applied(old(detector)@, settings)
            &&& outcome == Ok::<ControlOutcome, String>(
                ControlOutcome {
                    persist: Some(settings),
                    spawn_monitor: !old(detector)@.settings.enabled && settings.enabled && !old(
                        detector,
                    )@.is_monitoring,
                },
            )
        },
{
    let was_enabled = detector.get_settings().enabled;
    if settings.poll_interval_secs == 0 {
        return Err(String::from_str("Poll interval must be greater than zero"));
    }
    let now_enabled = settings.enabled;
    detector.set_settings(settings);
    let mut spawn_monitor = false;
    if !was_enabled && now_enabled {
        spawn_monitor = detector.start_monitoring();
    } else if was_enabled && !now_enabled {
        detector.stop_monitoring();
    }
    Ok(ControlOutcome { persist: Some(settings), spawn_monitor })
}

/// What the caller of an operation that set the settings receives, once the
/// host has tried to save them: success, or the description of why they
/// could not be saved. The settings that were set stay in force either way.
pub fn settings_update_result(saved: Result<(), SaveFailure>) -> (answer: Result<(), String>)
    ensures
        saved is Ok ==> answer is Ok,
        saved is Err ==> answer is Err && answer->Err_0@ == save_failure_text(saved->Err_0),
{
    match saved {
        Ok(()) => Ok(()),
        Err(failure) => Err(failure.message()),
    }
}

/// Looks for a meeting once, with the settings in force. Neither the
/// monitoring loop nor the meeting state is touched.
pub fn check_for_active_meeting(detector: &mut MeetingDetector) -> (found: Result<Option<DetectedMeeting>, String>)
    requires
        old(detector).well_formed(),
    ensures
        final(detector).well_formed(),
        final(detector)@ == old(detector)@,
        found is Ok,
        is_detection_result(
            final(detector).process_table(),
            old(detector)@.settings,
            meeting_view(found->Ok_0),
        ),
        follows_priority(
            final(detector).process_table(),
            old(detector)@.settings,
            meeting_view(found->Ok_0),
        ),
{
    let settings = detector.get_settings();
    Ok(detector.detect_meeting(&settings))
}

/// Starts the monitor. Fails if it runs already.
pub fn start_meeting_monitor(detector: &mut MeetingDetector) -> (outcome: Result<ControlOutcome, String>)
    requires
        old(detector).well_formed(),
    ensures
        final(detector).well_formed(),
        final(detector)@ == monitoring_started(old(detector)@),
        old(detector)@.is_monitoring ==> outcome is Err && outcome->Err_0@
            == already_running_text(),
        !old(detector)@.is_monitoring ==> outcome == Ok::<ControlOutcome, String>(
            ControlOutcome { persist: None, spawn_monitor: true },
        ),
{
    if detector.is_monitoring() {
        return Err(String::from_str("Meeting detection is already running"));
    }
    let spawn_monitor = detector.start_monitoring();
    Ok(ControlOutcome { persist: None, spawn_monitor })
}

/// Stops the monitor. Stopping a monitor that does not run succeeds too.
pub fn stop_meeting_monitor(detector: &mut MeetingDetector) -> (outcome: Result<(), String>)
    ensures
        outcome is Ok,
        final(detector)@ == monitoring_stopped(old(detector)@),
        final(detector).well_formed() == old(detector).well_formed(),
{
    detector.stop_monitoring();
    Ok(())
}

/// After detection was switched off, the loop ends at its next poll; after
/// it was switched on again, the detector monitors and its polls scan.
pub proof fn lemma_switch_takes_effect(detector: MeetingDetectorView)
    ensures
        !monitoring_stopped(with_settings(detector, with_enabled(detector.settings, false))).is_monitoring,
        monitoring_started(with_settings(detector, with_enabled(detector.settings, true))).is_monitoring,
        monitoring_started(
            with_settings(detector, with_enabled(detector.settings, true)),
        ).settings.enabled,
        monitoring_stopped(
            with_settings(detector, with_enabled(detector.settings, false)),
        ).tracker == detector.tracker,
{
}

} // verus!

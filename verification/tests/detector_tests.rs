use meeting_detector::commands::{
    check_for_active_meeting, disable_meeting_detection, enable_meeting_detection,
    get_meeting_detection_settings, get_meeting_detection_status, set_meeting_detection_settings,
    settings_update_result, start_meeting_monitor, stop_meeting_monitor, ControlOutcome,
};
use meeting_detector::detection::detect;
use meeting_detector::settings::SaveFailure;
use meeting_detector::detection::DetectedMeeting;
use meeting_detector::detector::{
    detect_meeting_from_system, plan_poll, MeetingDetector, PollOutcome, PollPlan,
};
use meeting_detector::settings::{MeetingDetectionSettings, StoredSettings};

fn meeting(app: &str, process: &str) -> DetectedMeeting {
    DetectedMeeting {
        app_name: app.to_string(),
        process_name: process.to_string(),
        detected_at: "2024-05-01T10:00:00+02:00".to_string(),
        is_active_meeting: true,
    }
}

fn blind(enabled: bool) -> MeetingDetectionSettings {
    MeetingDetectionSettings {
        enabled,
        auto_start_recording: true,
        auto_stop_recording: true,
        detect_zoom: false,
        detect_teams: false,
        detect_google_meet: false,
        notify_on_detection: true,
        poll_interval_secs: 7,
    }
}

#[test]
fn a_new_detector_has_the_loaded_settings_and_does_not_monitor() {
    let detector = MeetingDetector::new(StoredSettings::Missing);
    assert_eq!(detector.get_settings(), MeetingDetectionSettings::default());
    assert!(!detector.is_monitoring());
    let status = detector.get_status();
    assert!(!status.is_monitoring);
    assert!(status.current_meeting.is_none());
    assert!(!status.auto_recording_active);
    assert_eq!(status.settings, MeetingDetectionSettings::default());
    let configured = MeetingDetector::new(StoredSettings::Parsed(blind(true)));
    assert_eq!(configured.get_settings(), blind(true));
    assert!(!configured.is_monitoring());
}

#[test]
fn set_settings_replaces_the_settings_whole() {
    let mut detector = MeetingDetector::new(StoredSettings::Malformed);
    detector.set_settings(blind(true));
    assert_eq!(detector.get_settings(), blind(true));
    assert!(!detector.is_monitoring());
}

#[test]
fn starting_twice_starts_one_loop() {
    let mut detector = MeetingDetector::new(StoredSettings::Missing);
    assert!(detector.start_monitoring());
    assert!(detector.is_monitoring());
    assert!(!detector.start_monitoring());
    assert!(detector.is_monitoring());
    detector.stop_monitoring();
    assert!(!detector.is_monitoring());
    detector.stop_monitoring();
    assert!(!detector.is_monitoring());
    assert!(detector.start_monitoring());
}

#[test]
fn the_poll_plan_follows_the_flags() {
    assert_eq!(plan_poll(false, &blind(true)), PollPlan::Stop);
    assert_eq!(plan_poll(false, &blind(false)), PollPlan::Stop);
    assert_eq!(plan_poll(true, &blind(false)), PollPlan::Wait { secs: 7 });
    assert_eq!(plan_poll(true, &blind(true)), PollPlan::Scan { secs: 7 });
    assert_eq!(plan_poll(true, &MeetingDetectionSettings::default()), PollPlan::Wait { secs: 5 });
}

#[test]
fn a_stopped_detector_ends_the_loop() {
    let mut detector = MeetingDetector::new(StoredSettings::Parsed(blind(true)));
    assert!(matches!(detector.poll(), PollOutcome::Stopped));
}

#[test]
fn a_disabled_detector_only_sleeps() {
    let mut detector = MeetingDetector::new(StoredSettings::Parsed(blind(false)));
    detector.start_monitoring();
    match detector.poll() {
        PollOutcome::Polled { events, sleep_secs } => {
            assert!(events.is_empty());
            assert_eq!(sleep_secs, 7);
        }
        PollOutcome::Stopped => panic!("the loop should go on"),
    }
    assert!(detector.get_status().current_meeting.is_none());
}

#[test]
fn a_scan_with_every_strategy_off_finds_nothing() {
    let mut detector = MeetingDetector::new(StoredSettings::Parsed(blind(true)));
    detector.start_monitoring();
    match detector.poll() {
        PollOutcome::Polled { events, sleep_secs } => {
            assert!(events.is_empty());
            assert_eq!(sleep_secs, 7);
        }
        PollOutcome::Stopped => panic!("the loop should go on"),
    }
    assert!(detector.detect_meeting(&blind(true)).is_none());
    assert!(detector.get_status().current_meeting.is_none());
    assert!(detector.is_monitoring());
    assert_eq!(detector.get_settings(), blind(true));
}

#[test]
fn a_scan_ends_a_meeting_that_is_no_longer_seen() {
    let mut detector = MeetingDetector::new(StoredSettings::Parsed(blind(true)));
    detector.start_monitoring();
    let started = detector.record_detection(Some(meeting("Zoom", "CptHost")));
    assert_eq!(started.len(), 3);
    assert!(detector.get_status().auto_recording_active);
    assert_eq!(detector.get_status().current_meeting.unwrap().app_name, "Zoom");
    match detector.poll() {
        PollOutcome::Polled { events, sleep_secs } => {
            let names: Vec<&str> = events.iter().map(|event| event.name()).collect();
            assert_eq!(names, vec!["meeting-ended", "auto-stop-recording"]);
            assert_eq!(sleep_secs, 7);
        }
        PollOutcome::Stopped => panic!("the loop should go on"),
    }
    let status = detector.get_status();
    assert!(status.current_meeting.is_none());
    assert!(!status.auto_recording_active);
}

#[test]
fn the_process_table_can_be_searched_without_a_refresh() {
    let table = sysinfo::System::new();
    assert!(detect_meeting_from_system(&table, &blind(true)).is_none());
    assert!(detect_meeting_from_system(&table, &MeetingDetectionSettings::default()).is_none());
}

#[test]
fn a_detection_carries_the_time_of_the_scan() {
    let mut detector = MeetingDetector::new(StoredSettings::Missing);
    if let Some(found) = detector.detect_meeting(&MeetingDetectionSettings::default()) {
        assert!(found.is_active_meeting);
        assert!(found.app_name == "Zoom" || found.app_name == "Microsoft Teams");
        assert!(chrono::DateTime::parse_from_rfc3339(&found.detected_at).is_ok());
    }
    assert!(!detector.is_monitoring());
}

#[test]
fn a_restarted_loop_begins_idle_and_keeps_the_last_meeting() {
    let mut detector = MeetingDetector::new(StoredSettings::Parsed(blind(true)));
    detector.start_monitoring();
    detector.record_detection(Some(meeting("Zoom", "CptHost")));
    detector.stop_monitoring();
    assert_eq!(detector.get_status().current_meeting.unwrap().app_name, "Zoom");
    assert!(detector.start_monitoring());
    assert_eq!(detector.get_status().current_meeting.unwrap().app_name, "Zoom");
    let again = detector.record_detection(Some(meeting("Microsoft Teams", "Teams")));
    assert_eq!(again[0].name(), "meeting-detected");
    assert_eq!(detector.get_status().current_meeting.unwrap().app_name, "Microsoft Teams");
}

#[test]
fn enabling_sets_the_switch_and_starts_monitoring() {
    let mut detector = MeetingDetector::new(StoredSettings::Parsed(blind(false)));
    let outcome = enable_meeting_detection(&mut detector);
    assert_eq!(outcome, Ok(ControlOutcome { persist: Some(blind(true)), spawn_monitor: true }));
    assert!(detector.is_monitoring());
    assert_eq!(detector.get_settings(), blind(true));
    let again = enable_meeting_detection(&mut detector);
    assert_eq!(again, Ok(ControlOutcome { persist: Some(blind(true)), spawn_monitor: false }));
}

#[test]
fn disabling_clears_the_switch_and_stops_monitoring() {
    let mut detector = MeetingDetector::new(StoredSettings::Parsed(blind(true)));
    detector.start_monitoring();
    detector.record_detection(Some(meeting("Zoom", "CptHost")));
    let outcome = disable_meeting_detection(&mut detector);
    assert_eq!(outcome, Ok(ControlOutcome { persist: Some(blind(false)), spawn_monitor: false }));
    assert!(!detector.is_monitoring());
    assert_eq!(detector.get_settings(), blind(false));
    assert_eq!(detector.get_status().current_meeting.unwrap().app_name, "Zoom");
    assert!(matches!(detector.poll(), PollOutcome::Stopped));
}

#[test]
fn disabling_and_enabling_again_resumes_detection() {
    let mut detector = MeetingDetector::new(StoredSettings::Parsed(blind(true)));
    assert_eq!(start_meeting_monitor(&mut detector), Ok(ControlOutcome { persist: None, spawn_monitor: true }));
    assert!(matches!(detector.poll(), PollOutcome::Polled { .. }));
    detector.set_settings(blind(false));
    match detector.poll() {
        PollOutcome::Polled { events, sleep_secs } => {
            assert!(events.is_empty());
            assert_eq!(sleep_secs, 7);
        }
        PollOutcome::Stopped => panic!("the loop should go on"),
    }
    detector.set_settings(blind(true));
    assert_eq!(plan_poll(detector.is_monitoring(), &detector.get_settings()), PollPlan::Scan { secs: 7 });
    assert!(matches!(detector.poll(), PollOutcome::Polled { .. }));
}

#[test]
fn setting_the_settings_follows_the_switch() {
    let mut detector = MeetingDetector::new(StoredSettings::Parsed(blind(false)));
    let on = set_meeting_detection_settings(&mut detector, blind(true));
    assert_eq!(on, Ok(ControlOutcome { persist: Some(blind(true)), spawn_monitor: true }));
    assert!(detector.is_monitoring());
    let mut slower = blind(true);
    slower.poll_interval_secs = 60;
    let same = set_meeting_detection_settings(&mut detector, slower);
    assert_eq!(same, Ok(ControlOutcome { persist: Some(slower), spawn_monitor: false }));
    assert!(detector.is_monitoring());
    assert_eq!(get_meeting_detection_settings(&detector), Ok(slower));
    let off = set_meeting_detection_settings(&mut detector, blind(false));
    assert_eq!(off, Ok(ControlOutcome { persist: Some(blind(false)), spawn_monitor: false }));
    assert!(!detector.is_monitoring());
    let still_off = set_meeting_detection_settings(&mut detector, blind(false));
    assert_eq!(still_off, Ok(ControlOutcome { persist: Some(blind(false)), spawn_monitor: false }));
    assert!(!detector.is_monitoring());
}

#[test]
fn starting_a_running_monitor_is_an_error() {
    let mut detector = MeetingDetector::new(StoredSettings::Missing);
    assert_eq!(start_meeting_monitor(&mut detector), Ok(ControlOutcome { persist: None, spawn_monitor: true }));
    assert_eq!(
        start_meeting_monitor(&mut detector),
        Err("Meeting detection is already running".to_string())
    );
    assert!(detector.is_monitoring());
    assert_eq!(stop_meeting_monitor(&mut detector), Ok(()));
    assert_eq!(stop_meeting_monitor(&mut detector), Ok(()));
    assert!(!detector.is_monitoring());
}

#[test]
fn a_manual_check_leaves_the_state_alone() {
    let mut detector = MeetingDetector::new(StoredSettings::Parsed(blind(true)));
    detector.start_monitoring();
    detector.record_detection(Some(meeting("Zoom", "CptHost")));
    let found = check_for_active_meeting(&mut detector).unwrap();
    assert!(found.is_none());
    let status = get_meeting_detection_status(&detector).unwrap();
    assert!(status.is_monitoring);
    assert_eq!(status.current_meeting.unwrap().process_name, "CptHost");
    assert!(status.auto_recording_active);
    assert_eq!(status.settings, blind(true));
}

#[test]
fn a_poll_interval_of_zero_is_refused_and_nothing_changes() {
    let mut detector = MeetingDetector::new(StoredSettings::Parsed(blind(false)));
    let mut spinning = blind(true);
    spinning.poll_interval_secs = 0;
    assert_eq!(
        set_meeting_detection_settings(&mut detector, spinning),
        Err("Poll interval must be greater than zero".to_string())
    );
    assert_eq!(detector.get_settings(), blind(false));
    assert!(detector.get_settings().poll_interval_secs > 0);
    assert!(!detector.is_monitoring());
    detector.start_monitoring();
    let mut off_and_spinning = blind(false);
    off_and_spinning.poll_interval_secs = 0;
    assert!(set_meeting_detection_settings(&mut detector, off_and_spinning).is_err());
    assert!(detector.is_monitoring());
    assert_eq!(detector.get_settings(), blind(false));
}

#[test]
fn a_failed_save_reaches_the_caller_and_the_settings_stay() {
    let mut detector = MeetingDetector::new(StoredSettings::Missing);
    let outcome = set_meeting_detection_settings(&mut detector, blind(true)).unwrap();
    assert_eq!(outcome.persist, Some(blind(true)));
    let answer = settings_update_result(Err(SaveFailure::Write("read-only file system".to_string())));
    assert_eq!(answer, Err("Failed to write settings: read-only file system".to_string()));
    assert_eq!(detector.get_settings(), blind(true));
    assert!(detector.is_monitoring());
    assert_eq!(
        settings_update_result(Err(SaveFailure::CreateDirectory("denied".to_string()))),
        Err("Failed to create settings directory: denied".to_string())
    );
    assert_eq!(
        settings_update_result(Err(SaveFailure::NoPath)),
        Err("Could not determine settings path".to_string())
    );
    assert_eq!(settings_update_result(Ok(())), Ok(()));
}

#[test]
fn the_recording_flag_belongs_to_one_meeting() {
    let mut first = blind(true);
    first.notify_on_detection = false;
    first.detect_zoom = true;
    first.auto_start_recording = true;
    first.auto_stop_recording = false;
    let mut second = first;
    second.auto_start_recording = false;
    second.auto_stop_recording = true;
    let at = || "2024-05-01T10:00:00+02:00".to_string();
    let running = vec!["CptHost".to_string()];
    let none: Vec<String> = Vec::new();
    let mut detector = MeetingDetector::new(StoredSettings::Missing);
    let mut seen: Vec<&'static str> = Vec::new();
    assert!(set_meeting_detection_settings(&mut detector, first).is_ok());
    for snapshot in [&running, &none] {
        let found = detect(snapshot, &detector.get_settings(), at());
        seen.extend(detector.record_detection(found).iter().map(|event| event.name()));
    }
    assert!(set_meeting_detection_settings(&mut detector, second).is_ok());
    for snapshot in [&running, &none] {
        let found = detect(snapshot, &detector.get_settings(), at());
        seen.extend(detector.record_detection(found).iter().map(|event| event.name()));
    }
    assert_eq!(
        seen,
        vec![
            "meeting-detected",
            "auto-start-recording",
            "meeting-ended",
            "meeting-detected",
            "meeting-ended"
        ]
    );
}

use meeting_assistant::detector::{
    detect_google_meet_in_browser, detect_meeting_from_system, detected_meeting, first_meeting,
    meeting_app, system_has_process, MeetingApp, MeetingDetector,
};
use meeting_assistant::settings::MeetingDetectionSettings;

fn names(list: &[&str]) -> Vec<String> {
    list.iter().map(|s| s.to_string()).collect()
}

fn teams() -> Vec<String> {
    names(&["Microsoft Teams", "MSTeams"])
}

#[test]
fn cpthost_means_a_zoom_meeting() {
    let settings = MeetingDetectionSettings::default();
    let processes = names(&["launchd", "zoom.us", "CptHost"]);
    let meeting = detect_meeting_from_system(&processes, &teams(), &settings).unwrap();
    assert_eq!(meeting.app_name, "Zoom");
    assert_eq!(meeting.process_name, "CptHost");
    assert!(meeting.is_active_meeting);
    assert!(chrono::DateTime::parse_from_rfc3339(&meeting.detected_at).is_ok());
}

#[test]
fn zoom_being_open_is_no_meeting() {
    let settings = MeetingDetectionSettings::default();
    let processes = names(&["zoom.us", "ZoomOpener"]);
    assert!(detect_meeting_from_system(&processes, &teams(), &settings).is_none());
    assert!(detect_meeting_from_system(&[], &teams(), &settings).is_none());
}

#[test]
fn teams_is_found_in_any_case() {
    let settings = MeetingDetectionSettings::default();
    let processes = names(&["MICROSOFT TEAMS helper"]);
    let meeting = detect_meeting_from_system(&processes, &teams(), &settings).unwrap();
    assert_eq!(meeting.app_name, "Microsoft Teams");
    assert_eq!(meeting.process_name, "MICROSOFT TEAMS helper");
}

#[test]
fn switched_off_apps_are_not_reported() {
    let mut settings = MeetingDetectionSettings::default();
    settings.detect_zoom = false;
    let processes = names(&["CptHost", "msteams"]);
    assert_eq!(
        first_meeting(&processes, &teams(), &settings),
        Some((1, MeetingApp::MicrosoftTeams))
    );
    settings.detect_teams = false;
    assert_eq!(first_meeting(&processes, &teams(), &settings), None);
}

#[test]
fn first_process_wins() {
    let settings = MeetingDetectionSettings::default();
    let processes = names(&["x", "msteams", "cpthost"]);
    assert_eq!(
        first_meeting(&processes, &teams(), &settings),
        Some((1, MeetingApp::MicrosoftTeams))
    );
}

#[test]
fn zoom_comes_before_teams_for_one_process() {
    let settings = MeetingDetectionSettings::default();
    assert_eq!(
        meeting_app("msteams cpthost", &names(&["msteams"]), &settings),
        Some(MeetingApp::Zoom)
    );
    assert_eq!(meeting_app("safari", &names(&["msteams"]), &settings), None);
    // The names are compared as given, so they have to be in lower case.
    assert_eq!(meeting_app("CptHost", &[], &settings), None);
    // An empty name is part of every name.
    assert_eq!(
        meeting_app("safari", &names(&[""]), &settings),
        Some(MeetingApp::MicrosoftTeams)
    );
}

#[test]
fn both_searches_agree() {
    let detector = MeetingDetector::new(None);
    let settings = detector.get_settings();
    for processes in [names(&["a", "CPTHOST"]), names(&["Google Chrome"]), names(&["MSTeams"])] {
        let a = detector.detect_meeting(&processes, &teams(), &settings);
        let b = detect_meeting_from_system(&processes, &teams(), &settings);
        assert_eq!(a.as_ref().map(|m| &m.app_name), b.as_ref().map(|m| &m.app_name));
        assert_eq!(a.as_ref().map(|m| &m.process_name), b.as_ref().map(|m| &m.process_name));
    }
}

#[test]
fn browsers_give_no_meeting_away() {
    assert!(detect_google_meet_in_browser("google chrome").is_none());
}

#[test]
fn report_names_the_application() {
    let m = detected_meeting(MeetingApp::MicrosoftTeams, "ms-teams", "then".to_string());
    assert_eq!(m.app_name, "Microsoft Teams");
    assert_eq!(m.process_name, "ms-teams");
    assert_eq!(m.detected_at, "then");
    assert!(m.is_active_meeting);
}

#[test]
fn process_names_match_exactly_but_for_ascii_case() {
    let processes = names(&["calendar", "Photos"]);
    assert!(system_has_process(&processes, "Calendar"));
    assert!(system_has_process(&processes, "PHOTOS"));
    assert!(!system_has_process(&processes, "Photo"));
    assert!(!system_has_process(&names(&["CalendarAgent"]), "Calendar"));
    assert!(!system_has_process(&names(&["\u{c4}pfel"]), "\u{e4}pfel"));
    assert!(!system_has_process(&names(&["@"]), "`"));
    assert!(!system_has_process(&[], "Calendar"));
}

#[test]
fn lower_case_of_ascii_names() {
    let settings = MeetingDetectionSettings::default();
    for c in 0u8..128 {
        let given = format!("process {} x", c as char);
        let lowered = format!("process {} x", (c as char).to_ascii_lowercase());
        let found = first_meeting(&[given], &names(&[&lowered]), &settings);
        assert_eq!(found, Some((0, MeetingApp::MicrosoftTeams)));
    }
}

#[test]
fn settings_are_replaced_clamped() {
    let mut detector = MeetingDetector::new(None);
    let mut settings = detector.get_settings();
    settings.enabled = true;
    settings.poll_interval_secs = 0;
    detector.set_settings(settings);
    assert!(detector.get_settings().enabled);
    assert_eq!(detector.get_settings().poll_interval_secs, 1);
}

#[test]
fn status_shows_the_state() {
    let mut detector = MeetingDetector::new(None);
    let status = detector.get_status();
    assert!(!status.is_monitoring);
    assert!(status.current_meeting.is_none());
    assert!(!status.auto_recording_active);
    assert_eq!(status.settings.poll_interval_secs, 5);
    detector.start_monitoring();
    assert!(detector.get_status().clone().is_monitoring);
}

#[test]
fn starting_twice_starts_once() {
    let mut detector = MeetingDetector::new(None);
    let first = detector.start_monitoring().unwrap();
    assert_eq!(first, 1);
    assert!(detector.is_monitoring());
    assert_eq!(detector.start_monitoring(), None);
    assert!(detector.runs(first));
}

#[test]
fn quick_restart_ends_the_old_run() {
    let mut detector = MeetingDetector::new(None);
    let old = detector.start_monitoring().unwrap();
    detector.stop_monitoring();
    assert!(!detector.is_monitoring());
    assert!(!detector.runs(old));
    let new = detector.start_monitoring().unwrap();
    assert_eq!((old, new), (1, 3));
    assert!(detector.runs(new));
    assert!(!detector.runs(old));
}

#[test]
fn generations_wrap_around() {
    let mut detector = MeetingDetector::new(None);
    detector.monitor_generation = u64::MAX;
    assert_eq!(detector.start_monitoring(), Some(0));
    detector.stop_monitoring();
    assert_eq!(detector.monitor_generation, 1);
}

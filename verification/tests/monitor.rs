use meeting_assistant::detector::{detected_meeting, DetectedMeeting, MeetingApp, MeetingDetector};
use meeting_assistant::monitor::{plan_auto_start, MonitorLoop, Observation, Wake, Watch};

const SEC: u64 = 1_000_000_000;

fn zoom(at: &str) -> Option<DetectedMeeting> {
    Some(detected_meeting(MeetingApp::Zoom, "CptHost", at.to_string()))
}

fn monitoring() -> (MeetingDetector, MonitorLoop) {
    let mut detector = MeetingDetector::new(None);
    let mut settings = detector.get_settings();
    settings.enabled = true;
    settings.auto_start_recording = true;
    detector.set_settings(settings);
    let mut run = MonitorLoop::start_monitoring(&mut detector).unwrap();
    assert_eq!(run.wake(&detector), Wake::Poll { ask_recording: false });
    (detector, run)
}

/// A meeting has started at second 0, and a recording for it.
fn recording() -> (MeetingDetector, MonitorLoop) {
    let (mut detector, mut run) = monitoring();
    run.observe(&mut detector, zoom("first"), 0);
    run.auto_start(&mut detector, 0);
    (detector, run)
}

#[test]
fn disabled_detection_sleeps() {
    let mut detector = MeetingDetector::new(None);
    let mut run = MonitorLoop::start_monitoring(&mut detector).unwrap();
    assert_eq!(run.wake(&detector), Wake::Sleep { secs: 5 });
    assert!(MonitorLoop::start_monitoring(&mut detector).is_none());
    detector.stop_monitoring();
    assert_eq!(run.wake(&detector), Wake::Exit);
}

#[test]
fn poll_goes_by_the_settings_of_its_beginning() {
    let (mut detector, mut run) = monitoring();
    let mut settings = detector.get_settings();
    settings.poll_interval_secs = 0;
    detector.set_settings(settings);
    assert_eq!(run.pause_secs(), 5);
    run.wake(&detector);
    assert_eq!(run.pause_secs(), 1);
}

#[test]
fn meeting_start_is_announced() {
    let (mut detector, mut run) = monitoring();
    match run.observe(&mut detector, zoom("first"), 0) {
        Observation::Started { meeting, notice, auto_start } => {
            assert_eq!(meeting.app_name, "Zoom");
            let notice = notice.unwrap();
            assert_eq!(notice.title, "Zoom Meeting Detected");
            assert_eq!(notice.body, "Meetily is starting a recording");
            assert!(auto_start);
        }
        other => panic!("{:?}", other),
    }
    assert_eq!(detector.get_status().current_meeting.unwrap().process_name, "CptHost");
}

#[test]
fn announcement_without_recording() {
    let (mut detector, mut run) = monitoring();
    run.settings.auto_start_recording = false;
    match run.observe(&mut detector, zoom("first"), 0) {
        Observation::Started { notice, auto_start, .. } => {
            assert_eq!(notice.unwrap().body, "Open Meetily to record this meeting");
            assert!(!auto_start);
        }
        other => panic!("{:?}", other),
    }
}

#[test]
fn announcements_can_be_switched_off() {
    let (mut detector, mut run) = monitoring();
    run.settings.notify_on_detection = false;
    match run.observe(&mut detector, zoom("first"), 0) {
        Observation::Started { notice, .. } => assert!(notice.is_none()),
        other => panic!("{:?}", other),
    }
}

#[test]
fn recording_is_named_and_started() {
    let (mut detector, mut run) = monitoring();
    let plan = plan_auto_start("Zoom", Some("Stand-up \"A\"".to_string()));
    assert_eq!(plan.meeting_name, "Stand-up \"A\"");
    assert_eq!(plan.app_name, "Zoom");
    assert_eq!(plan.scripts.len(), 3);
    assert_eq!(
        plan.scripts[1],
        "sessionStorage.setItem('autoStartMeetingTitle', \"Stand-up \\\"A\\\"\")"
    );
    assert!(!detector.auto_recording_active);
    run.auto_start(&mut detector, 5 * SEC);
    assert!(detector.auto_recording_active);
    assert_eq!(run.auto_start_deadline, Some(65_000_000_000));
    let plan = plan_auto_start("Zoom", None);
    assert_eq!(plan.meeting_name, "Zoom Meeting");
}

#[test]
fn no_meeting_is_nothing_new() {
    let (mut detector, mut run) = monitoring();
    assert!(matches!(run.observe(&mut detector, None, 0), Observation::Idle));
    assert!(detector.current_meeting.is_none());
}

#[test]
fn first_sighting_is_kept() {
    let (mut detector, mut run) = monitoring();
    run.observe(&mut detector, zoom("first"), 0);
    assert!(matches!(
        run.observe(&mut detector, zoom("second"), SEC),
        Observation::Continuing
    ));
    assert_eq!(detector.current_meeting.as_ref().unwrap().detected_at, "first");
    let teams = detected_meeting(MeetingApp::MicrosoftTeams, "Teams", "third".to_string());
    run.observe(&mut detector, Some(teams), 2 * SEC);
    assert_eq!(detector.current_meeting.as_ref().unwrap().app_name, "Microsoft Teams");
    assert_eq!(detector.current_meeting.as_ref().unwrap().detected_at, "third");
}

#[test]
fn rejoin_within_grace_is_one_meeting() {
    let (mut detector, mut run) = recording();
    assert!(matches!(run.observe(&mut detector, None, 10 * SEC), Observation::Waiting));
    assert!(matches!(run.observe(&mut detector, None, 39 * SEC), Observation::Waiting));
    assert!(matches!(
        run.observe(&mut detector, zoom("again"), 45 * SEC),
        Observation::Continuing
    ));
    assert!(run.pending_stop_since.is_none());
    assert!(detector.auto_recording_active);
    assert_eq!(detector.current_meeting.as_ref().unwrap().detected_at, "first");
    // The grace period begins anew.
    assert!(matches!(run.observe(&mut detector, None, 50 * SEC), Observation::Waiting));
    assert!(matches!(run.observe(&mut detector, None, 79 * SEC), Observation::Waiting));
    assert!(matches!(
        run.observe(&mut detector, None, 80 * SEC),
        Observation::Ended { auto_stop: true }
    ));
}

#[test]
fn meeting_ends_after_the_grace_period() {
    let (mut detector, mut run) = recording();
    assert!(matches!(run.observe(&mut detector, None, 10 * SEC), Observation::Waiting));
    assert!(matches!(
        run.observe(&mut detector, None, 40 * SEC - 1),
        Observation::Waiting
    ));
    assert!(detector.current_meeting.is_some());
    assert!(matches!(
        run.observe(&mut detector, None, 40 * SEC),
        Observation::Ended { auto_stop: true }
    ));
    assert!(detector.current_meeting.is_none());
    detector.release_recording();
    assert!(!detector.auto_recording_active);
    assert!(matches!(run.observe(&mut detector, None, 41 * SEC), Observation::Idle));
}

#[test]
fn no_grace_period_ends_at_once() {
    let (mut detector, mut run) = recording();
    run.settings.auto_stop_grace_secs = 0;
    run.settings.auto_stop_recording = false;
    assert!(matches!(
        run.observe(&mut detector, None, 10 * SEC),
        Observation::Ended { auto_stop: false }
    ));
}

#[test]
fn endless_grace_period_does_not_overflow() {
    let (mut detector, mut run) = recording();
    run.settings.auto_stop_grace_secs = u64::MAX;
    run.observe(&mut detector, None, 0);
    assert!(matches!(run.observe(&mut detector, None, u64::MAX), Observation::Waiting));
    run.auto_start(&mut detector, u64::MAX);
    assert_eq!(run.auto_start_deadline, Some(u64::MAX as u128 + 60_000_000_000));
}

#[test]
fn manual_stop_hands_the_recording_back() {
    let (mut detector, mut run) = recording();
    assert_eq!(run.wake(&detector), Wake::Poll { ask_recording: true });
    assert!(matches!(
        run.watch_recording(&mut detector, Some(true), SEC),
        Watch::Unchanged
    ));
    assert!(matches!(
        run.watch_recording(&mut detector, Some(false), 2 * SEC),
        Watch::Released
    ));
    assert!(!detector.auto_recording_active);
    run.observe(&mut detector, None, 10 * SEC);
    assert!(matches!(
        run.observe(&mut detector, None, 40 * SEC),
        Observation::Ended { auto_stop: false }
    ));
}

#[test]
fn failed_start_is_reported_once() {
    let (mut detector, mut run) = recording();
    assert!(matches!(
        run.watch_recording(&mut detector, Some(false), 60 * SEC - 1),
        Watch::Unchanged
    ));
    match run.watch_recording(&mut detector, Some(false), 60 * SEC) {
        Watch::GaveUp { notice } => {
            assert_eq!(notice.title, "Meetily couldn't start recording");
            assert_eq!(
                notice.body,
                "A meeting was detected but recording didn't start. Open Meetily to record it."
            );
        }
        other => panic!("{:?}", other),
    }
    assert!(!detector.auto_recording_active);
    assert!(matches!(
        run.watch_recording(&mut detector, Some(false), 61 * SEC),
        Watch::Unchanged
    ));
}

#[test]
fn begun_recording_is_not_reported_failed() {
    let (mut detector, mut run) = recording();
    run.watch_recording(&mut detector, Some(true), 59 * SEC);
    assert!(run.auto_start_deadline.is_none());
    assert!(matches!(
        run.watch_recording(&mut detector, Some(true), 70 * SEC),
        Watch::Unchanged
    ));
    assert!(detector.auto_recording_active);
}

#[test]
fn without_own_recording_nothing_is_watched() {
    let (mut detector, mut run) = recording();
    run.watch_recording(&mut detector, Some(true), SEC);
    detector.release_recording();
    assert!(matches!(
        run.watch_recording(&mut detector, None, 2 * SEC),
        Watch::Unchanged
    ));
    assert!(!run.auto_recording_observed);
    assert!(run.auto_start_deadline.is_none());
}

#[test]
fn starts_and_ends_alternate() {
    let (mut detector, mut run) = monitoring();
    let mut log = String::new();
    let seen = [true, true, false, false, true, false, false, false, true, false];
    for (i, present) in seen.iter().enumerate() {
        let meeting = if *present { zoom("x") } else { None };
        match run.observe(&mut detector, meeting, i as u64 * 20 * SEC) {
            Observation::Started { .. } => log.push('('),
            Observation::Ended { .. } => log.push(')'),
            Observation::Waiting => log.push('.'),
            _ => {}
        }
    }
    assert_eq!(log, "(....)(.");
}

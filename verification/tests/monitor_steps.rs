use meeting_assistant::detector::{detected_meeting, DetectedMeeting, MeetingApp, MeetingDetector};
use meeting_assistant::monitor_steps::{Monitor, MonitorAction, MonitorEvent, Phase};

const SEC: u64 = 1_000_000_000;

fn zoom() -> Option<DetectedMeeting> {
    Some(detected_meeting(MeetingApp::Zoom, "CptHost", "first".to_string()))
}

fn monitor(auto_start: bool, notify: bool) -> (MeetingDetector, Monitor) {
    let mut detector = MeetingDetector::new(None);
    let mut settings = detector.get_settings();
    settings.enabled = true;
    settings.auto_start_recording = auto_start;
    settings.notify_on_detection = notify;
    detector.set_settings(settings);
    let monitor = Monitor::start(&mut detector).unwrap();
    assert!(matches!(monitor.phase, Phase::Sleeping));
    (detector, monitor)
}

fn shown(actions: Vec<MonitorAction>) -> Vec<String> {
    actions
        .into_iter()
        .map(|action| match action {
            MonitorAction::Exit => "exit".to_string(),
            MonitorAction::Sleep { secs } => format!("sleep {}", secs),
            MonitorAction::AskRecording => "ask".to_string(),
            MonitorAction::Scan => "scan".to_string(),
            MonitorAction::RefreshTray => "tray".to_string(),
            MonitorAction::Notify { notice } => format!("notify {}", notice.title),
            MonitorAction::EmitMeetingDetected { meeting } => format!("detected {}", meeting.app_name),
            MonitorAction::FindTitle { timeout_secs } => format!("title {}", timeout_secs),
            MonitorAction::StartRecording { plan } => {
                format!("start {} of {}", plan.meeting_name, plan.app_name)
            }
            MonitorAction::EmitMeetingEnded => "ended".to_string(),
            MonitorAction::StopRecording => "stop".to_string(),
        })
        .collect()
}

fn told(detector: &mut MeetingDetector, monitor: &mut Monitor, event: MonitorEvent) -> Vec<String> {
    shown(monitor.step(detector, event))
}

#[test]
fn meeting_is_recorded_from_start_to_end() {
    let (mut detector, mut monitor) = monitor(true, true);
    let d = &mut detector;
    let m = &mut monitor;
    assert_eq!(told(d, m, MonitorEvent::Woke), ["scan"]);
    assert_eq!(
        told(d, m, MonitorEvent::Scanned { meeting: zoom(), now: 0 }),
        ["detected Zoom", "notify Zoom Meeting Detected", "ask"]
    );
    assert_eq!(told(d, m, MonitorEvent::Recording { active: false, now: 0 }), ["title 3"]);
    assert_eq!(
        told(d, m, MonitorEvent::Title { title: Some("Stand-up".to_string()) }),
        ["start Stand-up of Zoom"]
    );
    assert!(!d.auto_recording_active);
    assert!(m.run.auto_start_deadline.is_none());
    assert_eq!(told(d, m, MonitorEvent::Started { now: 2 * SEC }), ["sleep 5"]);
    assert_eq!(m.run.auto_start_deadline, Some(62 * SEC as u128));
    assert!(d.auto_recording_active);
    assert_eq!(told(d, m, MonitorEvent::Woke), ["ask"]);
    assert_eq!(told(d, m, MonitorEvent::Recording { active: true, now: 6 * SEC }), ["scan"]);
    assert_eq!(
        told(d, m, MonitorEvent::Scanned { meeting: None, now: 10 * SEC }),
        ["sleep 5"]
    );
    assert_eq!(told(d, m, MonitorEvent::Woke), ["ask"]);
    assert_eq!(told(d, m, MonitorEvent::Recording { active: true, now: 40 * SEC }), ["scan"]);
    assert_eq!(
        told(d, m, MonitorEvent::Scanned { meeting: None, now: 40 * SEC }),
        ["ended", "stop"]
    );
    assert!(d.auto_recording_active);
    assert_eq!(told(d, m, MonitorEvent::Stopped), ["sleep 5"]);
    assert!(!d.auto_recording_active);
    d.stop_monitoring();
    assert_eq!(told(d, m, MonitorEvent::Woke), ["exit"]);
    assert!(matches!(m.phase, Phase::Over));
}

#[test]
fn running_recording_is_not_started_again() {
    let (mut detector, mut monitor) = monitor(true, false);
    let d = &mut detector;
    let m = &mut monitor;
    told(d, m, MonitorEvent::Woke);
    assert_eq!(
        told(d, m, MonitorEvent::Scanned { meeting: zoom(), now: 0 }),
        ["detected Zoom", "ask"]
    );
    assert_eq!(told(d, m, MonitorEvent::Recording { active: true, now: 0 }), ["sleep 5"]);
    assert!(!d.auto_recording_active);
    assert_eq!(told(d, m, MonitorEvent::Woke), ["scan"]);
    assert_eq!(
        told(d, m, MonitorEvent::Scanned { meeting: zoom(), now: SEC }),
        ["sleep 5"]
    );
}

#[test]
fn meeting_without_title_is_named_after_the_application() {
    let (mut detector, mut monitor) = monitor(true, false);
    let d = &mut detector;
    let m = &mut monitor;
    told(d, m, MonitorEvent::Woke);
    told(d, m, MonitorEvent::Scanned { meeting: zoom(), now: 0 });
    told(d, m, MonitorEvent::Recording { active: false, now: 0 });
    assert_eq!(
        told(d, m, MonitorEvent::Title { title: None }),
        ["start Zoom Meeting of Zoom"]
    );
}

#[test]
fn meeting_is_only_reported_where_nothing_else_is_wanted() {
    let (mut detector, mut monitor) = monitor(false, true);
    let d = &mut detector;
    let m = &mut monitor;
    told(d, m, MonitorEvent::Woke);
    assert_eq!(
        told(d, m, MonitorEvent::Scanned { meeting: zoom(), now: 0 }),
        ["detected Zoom", "notify Zoom Meeting Detected", "sleep 5"]
    );
    told(d, m, MonitorEvent::Woke);
    told(d, m, MonitorEvent::Scanned { meeting: None, now: 0 });
    told(d, m, MonitorEvent::Woke);
    assert_eq!(
        told(d, m, MonitorEvent::Scanned { meeting: None, now: 30 * SEC }),
        ["ended", "sleep 5"]
    );
}

#[test]
fn start_that_fails_is_given_up() {
    let (mut detector, mut monitor) = monitor(true, false);
    let d = &mut detector;
    let m = &mut monitor;
    told(d, m, MonitorEvent::Woke);
    told(d, m, MonitorEvent::Scanned { meeting: zoom(), now: 0 });
    told(d, m, MonitorEvent::Recording { active: false, now: 0 });
    told(d, m, MonitorEvent::Title { title: None });
    told(d, m, MonitorEvent::Started { now: 0 });
    told(d, m, MonitorEvent::Woke);
    assert_eq!(told(d, m, MonitorEvent::Recording { active: false, now: 59 * SEC }), ["scan"]);
    told(d, m, MonitorEvent::Scanned { meeting: zoom(), now: 59 * SEC });
    told(d, m, MonitorEvent::Woke);
    assert_eq!(
        told(d, m, MonitorEvent::Recording { active: false, now: 60 * SEC }),
        ["tray", "notify Meetily couldn't start recording", "scan"]
    );
    assert!(!d.auto_recording_active);
}

#[test]
fn disabled_monitor_only_sleeps() {
    let (mut detector, mut monitor) = monitor(false, true);
    let mut settings = detector.get_settings();
    settings.enabled = false;
    settings.poll_interval_secs = 7;
    detector.set_settings(settings);
    assert_eq!(told(&mut detector, &mut monitor, MonitorEvent::Woke), ["sleep 7"]);
    assert!(matches!(monitor.phase, Phase::Sleeping));
}

#[test]
fn settings_change_takes_effect_at_the_next_poll() {
    let (mut detector, mut monitor) = monitor(true, false);
    told(&mut detector, &mut monitor, MonitorEvent::Woke);
    let mut settings = detector.get_settings();
    settings.auto_start_recording = false;
    settings.poll_interval_secs = 9;
    detector.set_settings(settings);
    assert_eq!(
        told(&mut detector, &mut monitor, MonitorEvent::Scanned { meeting: zoom(), now: 0 }),
        ["detected Zoom", "ask"]
    );
    assert_eq!(
        told(&mut detector, &mut monitor, MonitorEvent::Recording { active: true, now: 0 }),
        ["sleep 5"]
    );
}

#[test]
fn restarted_detector_ends_the_old_monitor() {
    let (mut detector, mut old) = monitor(false, false);
    assert!(Monitor::start(&mut detector).is_none());
    detector.stop_monitoring();
    let mut new = Monitor::start(&mut detector).unwrap();
    assert_eq!(told(&mut detector, &mut old, MonitorEvent::Woke), ["exit"]);
    assert_eq!(told(&mut detector, &mut new, MonitorEvent::Woke), ["scan"]);
}

#[test]
fn monitor_waits_for_one_event_at_a_time() {
    let (mut detector, mut monitor) = monitor(true, false);
    assert!(monitor.is_awaiting(&MonitorEvent::Woke));
    assert!(!monitor.is_awaiting(&MonitorEvent::Stopped));
    told(&mut detector, &mut monitor, MonitorEvent::Woke);
    assert!(!monitor.is_awaiting(&MonitorEvent::Woke));
    assert!(monitor.is_awaiting(&MonitorEvent::Scanned { meeting: None, now: 0 }));
    told(&mut detector, &mut monitor, MonitorEvent::Scanned { meeting: zoom(), now: 0 });
    assert!(monitor.is_awaiting(&MonitorEvent::Recording { active: true, now: 0 }));
    told(&mut detector, &mut monitor, MonitorEvent::Recording { active: false, now: 0 });
    assert!(monitor.is_awaiting(&MonitorEvent::Title { title: None }));
    told(&mut detector, &mut monitor, MonitorEvent::Title { title: None });
    assert!(monitor.is_awaiting(&MonitorEvent::Started { now: 0 }));
    told(&mut detector, &mut monitor, MonitorEvent::Started { now: 0 });
    detector.stop_monitoring();
    told(&mut detector, &mut monitor, MonitorEvent::Woke);
    assert!(!monitor.is_awaiting(&MonitorEvent::Woke));
}

/// The polls after a meeting was detected at second 0, and its recording begun.
fn recorded() -> (MeetingDetector, Monitor) {
    let (mut detector, mut monitor) = monitor(true, false);
    let d = &mut detector;
    let m = &mut monitor;
    told(d, m, MonitorEvent::Woke);
    told(d, m, MonitorEvent::Scanned { meeting: zoom(), now: 0 });
    told(d, m, MonitorEvent::Recording { active: false, now: 0 });
    told(d, m, MonitorEvent::Title { title: None });
    told(d, m, MonitorEvent::Started { now: 0 });
    (detector, monitor)
}

/// A poll that is told whether something is recorded.
fn polled(
    d: &mut MeetingDetector,
    m: &mut Monitor,
    active: bool,
    meeting: Option<DetectedMeeting>,
    now: u64,
) -> Vec<String> {
    assert_eq!(told(d, m, MonitorEvent::Woke), ["ask"]);
    assert_eq!(told(d, m, MonitorEvent::Recording { active, now }), ["scan"]);
    told(d, m, MonitorEvent::Scanned { meeting, now })
}

#[test]
fn rejoin_over_whole_polls_is_one_meeting() {
    let (mut detector, mut monitor) = recorded();
    let d = &mut detector;
    let m = &mut monitor;
    assert_eq!(polled(d, m, true, None, 10 * SEC), ["sleep 5"]);
    assert_eq!(polled(d, m, true, None, 39 * SEC), ["sleep 5"]);
    let later = detected_meeting(MeetingApp::Zoom, "CptHost", "later".to_string());
    assert_eq!(polled(d, m, true, Some(later), 41 * SEC), ["sleep 5"]);
    assert!(d.auto_recording_active);
    assert_eq!(d.get_status().current_meeting.unwrap().detected_at, "first");
    assert_eq!(polled(d, m, true, None, 50 * SEC), ["sleep 5"]);
    assert_eq!(polled(d, m, true, None, 79 * SEC), ["sleep 5"]);
    assert_eq!(polled(d, m, true, None, 80 * SEC), ["ended", "stop"]);
}

#[test]
fn failed_start_is_not_reported_again() {
    let (mut detector, mut monitor) = recorded();
    let d = &mut detector;
    let m = &mut monitor;
    told(d, m, MonitorEvent::Woke);
    assert_eq!(
        told(d, m, MonitorEvent::Recording { active: false, now: 60 * SEC }),
        ["tray", "notify Meetily couldn't start recording", "scan"]
    );
    told(d, m, MonitorEvent::Scanned { meeting: zoom(), now: 60 * SEC });
    for i in 0..5 {
        assert_eq!(told(d, m, MonitorEvent::Woke), ["scan"]);
        let scanned = MonitorEvent::Scanned { meeting: zoom(), now: (65 + 5 * i) * SEC };
        assert_eq!(told(d, m, scanned), ["sleep 5"]);
    }
}

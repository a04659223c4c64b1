use meeting_assistant::settings::{
    default_auto_stop_grace_secs, MeetingDetectionSettings, SaveNext, SaveStep,
};

#[test]
fn defaults_are_opt_in() {
    let s = MeetingDetectionSettings::default();
    assert!(!s.enabled);
    assert!(!s.auto_start_recording);
    assert!(s.auto_stop_recording);
    assert!(s.detect_zoom && s.detect_teams && s.detect_google_meet);
    assert!(s.notify_on_detection);
    assert_eq!(s.poll_interval_secs, 5);
    assert_eq!(s.auto_stop_grace_secs, 30);
    assert_eq!(default_auto_stop_grace_secs(), 30);
}

#[test]
fn zero_poll_interval_is_clamped() {
    let mut s = MeetingDetectionSettings::default();
    s.poll_interval_secs = 0;
    s.auto_stop_grace_secs = 7;
    let s = s.sanitized();
    assert_eq!(s.poll_interval_secs, 1);
    assert_eq!(s.auto_stop_grace_secs, 7);
    let again = s.clone().sanitized();
    assert_eq!(again.poll_interval_secs, s.poll_interval_secs);
}

#[test]
fn other_poll_intervals_are_kept() {
    let mut s = MeetingDetectionSettings::default();
    s.poll_interval_secs = u64::MAX;
    assert_eq!(s.sanitized().poll_interval_secs, u64::MAX);
}

#[test]
fn loading_falls_back_to_defaults() {
    assert_eq!(MeetingDetectionSettings::load(None).poll_interval_secs, 5);
    let mut stored = MeetingDetectionSettings::default();
    stored.enabled = true;
    stored.poll_interval_secs = 0;
    let loaded = MeetingDetectionSettings::load(Some(stored));
    assert!(loaded.enabled);
    assert_eq!(loaded.poll_interval_secs, 1);
}

#[test]
fn saving_goes_step_by_step() {
    let mut step = SaveStep::FindPath;
    let mut done = vec![step];
    loop {
        match MeetingDetectionSettings::save(step, Ok(())) {
            SaveNext::Continue(next) => {
                step = next;
                done.push(next);
            }
            SaveNext::Saved => break,
            SaveNext::Failed(reason) => panic!("{}", reason),
        }
    }
    assert_eq!(
        done,
        vec![
            SaveStep::FindPath,
            SaveStep::CreateDirectory,
            SaveStep::Serialize,
            SaveStep::WriteFile
        ]
    );
}

fn reason(step: SaveStep) -> String {
    match MeetingDetectionSettings::save(step, Err("disk full".to_string())) {
        SaveNext::Failed(reason) => reason,
        _ => panic!("a failure was not reported"),
    }
}

#[test]
fn saving_says_what_failed() {
    assert_eq!(reason(SaveStep::FindPath), "Could not determine settings path");
    assert_eq!(
        reason(SaveStep::CreateDirectory),
        "Failed to create settings directory: disk full"
    );
    assert_eq!(reason(SaveStep::Serialize), "Failed to serialize settings: disk full");
    assert_eq!(reason(SaveStep::WriteFile), "Failed to write settings: disk full");
}

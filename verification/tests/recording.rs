use meeting_assistant::recording::{
    current_calendar_event_title, may_ask_calendar, name_recording, recording_file_name,
    recording_file_name_at, title_in, trigger_auto_start, trigger_auto_stop, ScriptOutput, StopAction, StopEvent,
};

fn title_script(name: &str) -> String {
    trigger_auto_start(name)[1].clone()
}

#[test]
fn start_scripts_in_order() {
    assert_eq!(
        trigger_auto_start("Zoom Meeting"),
        vec![
            "sessionStorage.setItem('autoStartRecording', 'true')".to_string(),
            "sessionStorage.setItem('autoStartMeetingTitle', \"Zoom Meeting\")".to_string(),
            "window.location.assign('/')".to_string(),
        ]
    );
}

#[test]
fn titles_cannot_break_out() {
    assert_eq!(
        title_script("a\"); alert('x'); (\"\\"),
        "sessionStorage.setItem('autoStartMeetingTitle', \"a\\\"); alert('x'); (\\\"\\\\\")"
    );
    assert_eq!(
        title_script("\u{8}\t\n\u{c}\r\u{0}\u{b}\u{1f}"),
        "sessionStorage.setItem('autoStartMeetingTitle', \"\\b\\t\\n\\f\\r\\u0000\\u000b\\u001f\")"
    );
    assert_eq!(
        title_script("d\u{e9}j\u{e0} \u{1f600}\u{7f}'"),
        "sessionStorage.setItem('autoStartMeetingTitle', \"d\u{e9}j\u{e0} \u{1f600}\u{7f}'\")"
    );
}

#[test]
fn encoded_titles_decode_again() {
    for name in ["", "plain", "\"", "\\", "\\\"", "line\nend", "\u{1}\u{2028}"] {
        let script = title_script(name);
        let head = "sessionStorage.setItem('autoStartMeetingTitle', ";
        let json = &script[head.len()..script.len() - 1];
        let back: String = serde_json::from_str(json).unwrap();
        assert_eq!(back, name);
    }
}

#[test]
fn every_control_character_is_escaped() {
    for c in 0u8..32 {
        let script = title_script(&(c as char).to_string());
        assert!(script.chars().all(|c| c >= ' '));
    }
}

#[test]
fn calendar_titles_come_before_app_names() {
    assert_eq!(name_recording("Zoom", Some("Planning".to_string())), "Planning");
    assert_eq!(name_recording("Zoom", None), "Zoom Meeting");
    assert_eq!(name_recording("Microsoft Teams", None), "Microsoft Teams Meeting");
}

fn printed(text: &[u8]) -> Option<ScriptOutput> {
    Some(ScriptOutput { success: true, stdout: text.to_vec() })
}

#[test]
fn script_output_is_trimmed() {
    assert_eq!(
        current_calendar_event_title(true, printed(b"  Weekly sync \n")),
        Some("Weekly sync".to_string())
    );
    assert_eq!(current_calendar_event_title(true, printed(b" \n")), None);
    assert_eq!(current_calendar_event_title(true, printed(b"")), None);
}

#[test]
fn bytes_that_are_no_text_are_replaced() {
    assert_eq!(
        current_calendar_event_title(true, printed(b"a\xffb")),
        Some("a\u{fffd}b".to_string())
    );
    assert_eq!(
        current_calendar_event_title(true, printed("d\u{e9}j\u{e0}".as_bytes())),
        Some("d\u{e9}j\u{e0}".to_string())
    );
}

#[test]
fn no_title_without_a_working_script() {
    assert_eq!(current_calendar_event_title(false, printed(b"Weekly sync")), None);
    assert_eq!(current_calendar_event_title(true, None), None);
    let failed = ScriptOutput { success: false, stdout: b"Weekly sync".to_vec() };
    assert_eq!(current_calendar_event_title(true, Some(failed)), None);
}

#[test]
fn printed_titles_keep_inner_space() {
    assert_eq!(title_in("\t a  b\u{3000}\n"), Some("a  b".to_string()));
    assert_eq!(title_in("\u{2028}"), None);
}

#[test]
fn recording_files_are_named_by_time() {
    assert_eq!(
        recording_file_name_at("2024-05-06T07-08-09"),
        "recording-2024-05-06T07-08-09.wav"
    );
    let name = recording_file_name();
    let stamp = name.strip_prefix("recording-").unwrap().strip_suffix(".wav").unwrap();
    assert!(chrono::NaiveDateTime::parse_from_str(stamp, "%Y-%m-%dT%H-%M-%S").is_ok());
}

#[test]
fn recording_file_stamps_have_a_fixed_shape() {
    let name = recording_file_name();
    assert_eq!(name.len(), "recording-2024-05-06T07-08-09.wav".len());
    let bytes = name.as_bytes();
    for (i, pattern) in "recording-dddd-dd-ddTdd-dd-dd.wav".bytes().enumerate().skip(10).take(19) {
        if pattern == b'd' {
            assert!(bytes[i].is_ascii_digit());
        } else {
            assert_eq!(bytes[i], pattern);
        }
    }
}

#[test]
fn calendar_is_asked_only_while_it_runs() {
    let running = |names: &[&str]| {
        let names: Vec<String> = names.iter().map(|name| name.to_string()).collect();
        may_ask_calendar(&names)
    };
    assert!(running(&["zoom.us", "calendar"]));
    assert!(!running(&["CalendarAgent"]));
    assert!(!running(&[]));
}

#[test]
fn stopping_step_by_step() {
    assert_eq!(trigger_auto_stop(StopEvent::Recording(true)), StopAction::ShowStopping);
    assert_eq!(trigger_auto_stop(StopEvent::DataDir(true)), StopAction::StopAndSave);
    assert_eq!(trigger_auto_stop(StopEvent::Stopped(true)), StopAction::EmitStopComplete);
}

#[test]
fn tray_is_put_right_when_stopping_fails() {
    assert_eq!(trigger_auto_stop(StopEvent::Recording(false)), StopAction::RefreshTray);
    assert_eq!(trigger_auto_stop(StopEvent::DataDir(false)), StopAction::RefreshTray);
    assert_eq!(trigger_auto_stop(StopEvent::Stopped(false)), StopAction::RefreshTray);
}

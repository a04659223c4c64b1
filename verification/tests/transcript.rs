use meeting_assistant::transcript::{
    build_transcript, format_timestamp, truncate_transcript, LiveTranscriptLine, OMITTED,
};

fn line(text: &str, start: Option<u64>) -> LiveTranscriptLine {
    LiveTranscriptLine { text: text.to_string(), audio_start_time: start }
}

#[test]
fn timestamps() {
    assert_eq!(format_timestamp(0), "0:00");
    assert_eq!(format_timestamp(9), "0:09");
    assert_eq!(format_timestamp(754), "12:34");
    assert_eq!(format_timestamp(3599), "59:59");
    assert_eq!(format_timestamp(3600), "1:00:00");
    assert_eq!(format_timestamp(3725), "1:02:05");
    assert_eq!(format_timestamp(360_000), "100:00:00");
    assert_eq!(format_timestamp(u64::MAX), "5124095576030431:00:15");
}

#[test]
fn lines_with_times() {
    let lines = [
        line("  Hello there  ", Some(5)),
        line("   ", Some(6)),
        line("no time", None),
        line("late", Some(3661)),
    ];
    assert_eq!(build_transcript(&lines), "[0:05] Hello there\nno time\n[1:01:01] late");
}

#[test]
fn blank_lines_make_no_transcript() {
    assert_eq!(build_transcript(&[]), "");
    assert_eq!(build_transcript(&[line(" \t\n", Some(1)), line("", None)]), "");
    assert_eq!(build_transcript(&[line(" x ", None)]), "x");
}

#[test]
fn fitting_transcript_is_whole() {
    assert_eq!(truncate_transcript("hello", 5), "hello");
    assert_eq!(truncate_transcript("", 0), "");
    assert_eq!(
        OMITTED,
        "\n[... middle of the transcript omitted to fit the model's context window ...]\n"
    );
}

#[test]
fn long_transcript_loses_its_middle() {
    let text: String = ('a'..='z').collect();
    assert_eq!(truncate_transcript(&text, 8), format!("ab{}uvwxyz", OMITTED));
    assert_eq!(truncate_transcript(&text, 0), OMITTED);
    assert_eq!(truncate_transcript(&text, 3), format!("{}xyz", OMITTED));
}

#[test]
fn cuts_fall_between_characters() {
    // Two bytes each: a quarter of nine is two bytes, the rest is seven.
    let text = "\u{e4}\u{f6}\u{fc}\u{df}\u{e4}\u{f6}";
    assert_eq!(
        truncate_transcript(text, 9),
        format!("\u{e4}{}\u{df}\u{e4}\u{f6}", OMITTED)
    );
    // A quarter of seven is one byte, less than the first character.
    assert_eq!(
        truncate_transcript(text, 7),
        format!("{}\u{df}\u{e4}\u{f6}", OMITTED)
    );
    let emoji = "\u{1f600}\u{1f601}\u{1f602}";
    assert_eq!(truncate_transcript(emoji, 11), format!("{}\u{1f601}\u{1f602}", OMITTED));
}

#[test]
fn cut_transcript_keeps_to_the_budget() {
    let text = "\u{20ac}uro a\u{308}b ".repeat(50);
    for max in 0..200 {
        let cut = truncate_transcript(&text, max);
        assert!(cut.len() <= max + OMITTED.len());
        let (head, tail) = cut.split_once(OMITTED).unwrap();
        assert!(text.starts_with(head) && text.ends_with(tail));
        assert!(head.len() + tail.len() < text.len());
    }
}

#[test]
fn transcripts_of_parts_join() {
    let part = |text: &str| vec![line(text, Some(5)), line(" ", None)];
    let joined = |a: &[LiveTranscriptLine], b: &[LiveTranscriptLine]| {
        let mut lines = a.to_vec();
        lines.extend_from_slice(b);
        build_transcript(&lines)
    };
    assert_eq!(joined(&part("a"), &part("b")), "[0:05] a\n[0:05] b");
    assert_eq!(joined(&part(" "), &part("b")), "[0:05] b");
    assert_eq!(joined(&part("a"), &part("")), "[0:05] a");
}

#[test]
fn ascii_transcript_is_cut_once() {
    let transcript = "0123456789".repeat(40);
    let cut = truncate_transcript(&transcript, 100);
    assert_eq!(truncate_transcript(&cut, 100), cut);
    let other = "\u{e4}".repeat(200);
    let cut = truncate_transcript(&other, 101);
    assert_eq!(truncate_transcript(&cut, 101) == cut, false);
}

//! The transcript of a meeting as it is shown to the model.

use vstd::prelude::*;
use vstd::string::*;
use vstd::utf8::*;

use crate::text;

verus! {

/// One transcript line from a recording, saved or in progress.
#[derive(Debug)]
pub struct LiveTranscriptLine {
    pub text: String,
    /// Whole seconds from the start of the recording to the line, where known.
    pub audio_start_time: Option<u64>,
}

impl Clone for LiveTranscriptLine {
    fn clone(&self) -> (res: Self)
        ensures
            res == *self,
    {
        LiveTranscriptLine { text: self.text.clone(), audio_start_time: self.audio_start_time }
    }
}

/// The decimal digit for `d`, which is below ten.
pub open spec fn digit(d: nat) -> char {
    ('0' as u32 + d) as char
}

/// `n` in decimal, without leading zeros.
pub open spec fn decimal(n: nat) -> Seq<char>
    decreases n,
{
    if n < 10 {
        seq![digit(n)]
    } else {
        decimal(n / 10).push(digit(n % 10))
    }
}

/// `n`, which is below a hundred, as two decimal digits.
pub open spec fn two_digits(n: nat) -> Seq<char> {
    seq![digit(n / 10), digit(n % 10)]
}

/// A time of so many seconds as `minutes:seconds`, or as
/// `hours:minutes:seconds` from an hour on.
pub open spec fn timestamp(total: nat) -> Seq<char> {
    let hours: nat = total / 3600;
    let minutes: nat = (total % 3600) / 60;
    let seconds: nat = total % 60;
    if hours > 0 {
        decimal(hours) + seq![':'] + two_digits(minutes) + seq![':'] + two_digits(seconds)
    } else {
        decimal(minutes) + seq![':'] + two_digits(seconds)
    }
}

/// The decimal digit for `d` as a text.
fn digit_text(d: u64) -> (res: &'static str)
    requires
        d < 10,
    ensures
        res@ == seq![digit(d as nat)],
{
    proof {
        reveal_strlit("0");
        reveal_strlit("1");
        reveal_strlit("2");
        reveal_strlit("3");
        reveal_strlit("4");
        reveal_strlit("5");
        reveal_strlit("6");
        reveal_strlit("7");
        reveal_strlit("8");
        reveal_strlit("9");
    }
    match d {
        0 => "0",
        1 => "1",
        2 => "2",
        3 => "3",
        4 => "4",
        5 => "5",
        6 => "6",
        7 => "7",
        8 => "8",
        _ => "9",
    }
}

/// Writes `n` in decimal behind what `out` holds.
fn append_decimal(out: &mut String, n: u64)
    ensures
        final(out)@ == old(out)@ + decimal(n as nat),
    decreases n,
{
    if n >= 10 {
        append_decimal(out, n / 10);
    }
    out.append(digit_text(n % 10));
    proof {
        if n >= 10 {
            assert(decimal(n as nat) == decimal((n / 10) as nat).push(digit((n % 10) as nat)));
        }
        assert(out@ =~= old(out)@ + decimal(n as nat));
    }
}

/// Writes `n` as two decimal digits behind what `out` holds.
fn append_two_digits(out: &mut String, n: u64)
    requires
        n < 100,
    ensures
        final(out)@ == old(out)@ + two_digits(n as nat),
{
    out.append(digit_text(n / 10));
    out.append(digit_text(n % 10));
    proof {
        assert(out@ =~= old(out)@ + two_digits(n as nat));
    }
}

/// A time of `total` seconds as `minutes:seconds`, or as
/// `hours:minutes:seconds` from an hour on.
pub fn format_timestamp(total: u64) -> (res: String)
    ensures
        res@ == timestamp(total as nat),
{
    let h: u64 = total / 3600;
    let m: u64 = (total % 3600) / 60;
    let s: u64 = total % 60;
    proof {
        reveal_strlit(":");
    }
    let mut out = String::new();
    if h > 0 {
        append_decimal(&mut out, h);
        out.append(":");
        append_two_digits(&mut out, m);
    } else {
        append_decimal(&mut out, m);
    }
    out.append(":");
    append_two_digits(&mut out, s);
    proof {
        assert(":"@ =~= seq![':']);
        assert(out@ =~= timestamp(total as nat));
    }
    out
}

/// What a line puts before its text: its time in brackets, where it has one.
pub open spec fn stamp(line: LiveTranscriptLine) -> Seq<char> {
    match line.audio_start_time {
        Some(start) => seq!['['] + timestamp(start as nat) + seq![']', ' '],
        None => Seq::empty(),
    }
}

/// A line has no text but white space.
pub open spec fn blank(line: LiveTranscriptLine) -> bool {
    text::trimmed(line.text@).len() == 0
}

/// What a line adds to the transcript: nothing if it is blank.
pub open spec fn rendered_line(line: LiveTranscriptLine) -> Seq<char> {
    if blank(line) {
        Seq::empty()
    } else {
        stamp(line) + text::trimmed(line.text@) + seq!['\n']
    }
}

/// What the lines add to the transcript, one after the other.
pub open spec fn rendered(lines: Seq<LiveTranscriptLine>) -> Seq<char>
    decreases lines.len(),
{
    if lines.len() == 0 {
        Seq::empty()
    } else {
        rendered(lines.drop_last()) + rendered_line(lines.last())
    }
}

/// The transcript that the lines make.
pub open spec fn transcript_text(lines: Seq<LiveTranscriptLine>) -> Seq<char> {
    text::trimmed(rendered(lines))
}

proof fn lemma_rendered_line(line: LiveTranscriptLine)
    requires
        !blank(line),
    ensures
        rendered_line(line).len() >= 2,
        !text::white_space(rendered_line(line).first()),
        rendered_line(line).last() == '\n',
        !text::white_space(rendered_line(line)[rendered_line(line).len() - 2]),
{
    let spoken = text::trimmed(line.text@);
    text::lemma_trimmed(line.text@);
    let whole = rendered_line(line);
    assert(whole =~= (stamp(line) + spoken).push('\n'));
    assert(whole[whole.len() - 2] == spoken.last());
    match line.audio_start_time {
        Some(start) => {
            assert(whole[0] == '[');
        },
        None => {
            assert(whole[0] == spoken.first());
        },
    }
}

proof fn lemma_rendered(lines: Seq<LiveTranscriptLine>)
    ensures
        rendered(lines).len() == 0 <==> (forall|i: int|
            0 <= i < lines.len() ==> blank(#[trigger] lines[i])),
        rendered(lines).len() > 0 ==> {
            &&& rendered(lines).len() >= 2
            &&& !text::white_space(rendered(lines).first())
            &&& rendered(lines).last() == '\n'
            &&& !text::white_space(rendered(lines)[rendered(lines).len() - 2])
        },
    decreases lines.len(),
{
    if lines.len() > 0 {
        let before = lines.drop_last();
        let line = lines.last();
        lemma_rendered(before);
        if blank(line) {
            assert(rendered(lines) =~= rendered(before));
            if rendered(lines).len() == 0 {
                assert forall|i: int| 0 <= i < lines.len() implies blank(#[trigger] lines[i]) by {
                    if i < before.len() {
                        assert(before[i] == lines[i]);
                    }
                }
            } else {
                let j: int = choose|j: int| 0 <= j < before.len() && !blank(before[j]);
                assert(!blank(lines[j]));
            }
        } else {
            lemma_rendered_line(line);
            assert(!blank(lines[lines.len() - 1]));
            let r = rendered(before);
            let l = rendered_line(line);
            assert(rendered(lines)[rendered(lines).len() - 2] == l[l.len() - 2]);
            assert(rendered(lines).last() == l.last());
            if r.len() == 0 {
                assert(rendered(lines).first() == l.first());
            } else {
                assert(rendered(lines).first() == r.first());
            }
        }
    }
}

/// There is nothing to talk about exactly when every line is blank.
pub proof fn law_transcript_empty_iff_all_blank(lines: Seq<LiveTranscriptLine>)
    ensures
        transcript_text(lines).len() == 0 <==> (forall|i: int|
            0 <= i < lines.len() ==> blank(#[trigger] lines[i])),
{
    lemma_rendered(lines);
    if rendered(lines).len() > 0 {
        text::lemma_trimmed_drops_last(rendered(lines));
    }
}

/// Every line that is not blank is in the transcript in full, in order: the
/// transcript is what the lines add, but for the line end after the last.
pub proof fn law_transcript_keeps_every_line(lines: Seq<LiveTranscriptLine>)
    requires
        exists|i: int| 0 <= i < lines.len() && !blank(#[trigger] lines[i]),
    ensures
        transcript_text(lines).push('\n') == rendered(lines),
{
    lemma_rendered(lines);
    text::lemma_trimmed_drops_last(rendered(lines));
    assert(rendered(lines).drop_last().push('\n') =~= rendered(lines));
}

proof fn lemma_rendered_concat(a: Seq<LiveTranscriptLine>, b: Seq<LiveTranscriptLine>)
    ensures
        rendered(a + b) == rendered(a) + rendered(b),
    decreases b.len(),
{
    if b.len() == 0 {
        assert(a + b =~= a);
        assert(rendered(a) + rendered(b) =~= rendered(a));
    } else {
        assert((a + b).drop_last() =~= a + b.drop_last());
        lemma_rendered_concat(a, b.drop_last());
        assert(rendered(a + b) =~= rendered(a) + rendered(b));
    }
}

/// The transcript of lines in two parts is the transcripts of the parts, on
/// lines of their own; a part in which nothing is said adds nothing.
pub proof fn law_transcript_of_joined_lines(
    a: Seq<LiveTranscriptLine>,
    b: Seq<LiveTranscriptLine>,
)
    ensures
        transcript_text(a + b) == if transcript_text(a).len() == 0 {
            transcript_text(b)
        } else if transcript_text(b).len() == 0 {
            transcript_text(a)
        } else {
            transcript_text(a).push('\n') + transcript_text(b)
        },
{
    lemma_rendered_concat(a, b);
    lemma_rendered(a);
    lemma_rendered(b);
    lemma_rendered(a + b);
    if rendered(a).len() == 0 {
        assert(rendered(a + b) =~= rendered(b));
    } else if rendered(b).len() == 0 {
        assert(rendered(a + b) =~= rendered(a));
        text::lemma_trimmed_drops_last(rendered(a));
    } else {
        text::lemma_trimmed_drops_last(rendered(a));
        text::lemma_trimmed_drops_last(rendered(b));
        text::lemma_trimmed_drops_last(rendered(a + b));
        assert(rendered(a).drop_last().push('\n') =~= rendered(a));
        assert((rendered(a) + rendered(b)).drop_last() =~= rendered(a) + rendered(b).drop_last());
    }
}

/// Builds a transcript with timestamps, which let the model answer when
/// something was talked about. Blank lines are left out.
pub fn build_transcript(lines: &[LiveTranscriptLine]) -> (res: String)
    ensures
        res@ == transcript_text(lines@),
{
    let mut transcript = String::new();
    let mut i: usize = 0;
    while i < lines.len()
        invariant
            i <= lines.len(),
            transcript@ == rendered(lines@.take(i as int)),
        decreases lines.len() - i,
    {
        let line = &lines[i];
        let ghost before = transcript@;
        let spoken = line.text.as_str().trim();
        proof {
            reveal_strlit("[");
            reveal_strlit("] ");
            reveal_strlit("\n");
            assert(lines@.take(i + 1).drop_last() =~= lines@.take(i as int));
            assert(lines@.take(i + 1).last() == *line);
        }
        if !spoken.is_empty() {
            if let Some(start) = line.audio_start_time {
                transcript.append("[");
                transcript.append(format_timestamp(start).as_str());
                transcript.append("] ");
            }
            transcript.append(spoken);
            transcript.append("\n");
        }
        proof {
            assert(transcript@ =~= before + rendered_line(*line));
        }
        i = i + 1;
    }
    proof {
        assert(lines@.take(lines@.len() as int) =~= lines@);
    }
    transcript.as_str().trim().to_owned()
}

/// What stands where the middle of a transcript was left out.
pub const OMITTED: &'static str =
    "\n[... middle of the transcript omitted to fit the model's context window ...]\n";

/// A transcript cut to a budget of `max` bytes: whole if it fits, and else a
/// quarter of the budget from its beginning, the mark of what was left out,
/// and the rest of the budget from its end.
pub open spec fn truncated(transcript: Seq<char>, max: nat) -> Seq<char> {
    if text::byte_len(transcript) <= max {
        transcript
    } else {
        text::longest_prefix(transcript, max / 4) + OMITTED@ + text::longest_suffix(
            transcript,
            (max - max / 4) as nat,
        )
    }
}

/// A cut transcript takes no more than the budget and the mark, and shows in
/// full what it keeps: a beginning and an end of the transcript that do not
/// overlap, so that something between them was dropped.
pub proof fn law_truncated_keeps_both_ends(transcript: Seq<char>, max: nat)
    requires
        text::byte_len(transcript) > max,
    ensures
        text::byte_len(truncated(transcript, max)) <= max + text::byte_len(OMITTED@),
        ({
            let head = text::longest_prefix(transcript, max / 4);
            let tail = text::longest_suffix(transcript, (max - max / 4) as nat);
            &&& truncated(transcript, max) == head + OMITTED@ + tail
            &&& head.is_prefix_of(transcript)
            &&& tail.is_suffix_of(transcript)
            &&& text::byte_len(head) <= max / 4
            &&& text::byte_len(tail) <= max - max / 4
            &&& head.len() + tail.len() < transcript.len()
        }),
{
    let head = text::longest_prefix(transcript, max / 4);
    let tail = text::longest_suffix(transcript, (max - max / 4) as nat);
    text::lemma_longest_prefix(transcript, max / 4);
    text::lemma_longest_suffix(transcript, (max - max / 4) as nat);
    text::lemma_encode_concat(head, OMITTED@);
    text::lemma_encode_concat(head + OMITTED@, tail);
    if head.len() + tail.len() >= transcript.len() {
        // Two ends that meet would hold every byte of the transcript.
        let from: int = transcript.len() - tail.len();
        assert(transcript =~= transcript.take(from) + transcript.skip(from));
        assert(tail =~= transcript.skip(from));
        text::lemma_encode_concat(transcript.take(from), transcript.skip(from));
        assert(head =~= transcript.take(from) + head.skip(from));
        text::lemma_encode_concat(transcript.take(from), head.skip(from));
    }
}

/// No more of the end would have fitted: an end of the transcript within its
/// share of the budget is no longer than the end that was kept.
pub proof fn law_truncated_keeps_longest_end(transcript: Seq<char>, max: nat, from: int)
    requires
        0 <= from <= transcript.len(),
        text::byte_len(transcript.skip(from)) <= max - max / 4,
    ensures
        transcript.len() - from <= text::longest_suffix(transcript, (max - max / 4) as nat).len(),
{
    text::lemma_longest_suffix(transcript, (max - max / 4) as nat);
}

/// Cutting a transcript of ASCII characters once is enough: cutting it again to
/// the same budget changes nothing. (Of other characters the beginning may take
/// less than its share, and then part of the mark is taken for it.)
pub proof fn law_ascii_is_cut_once(transcript: Seq<char>, max: nat)
    requires
        is_ascii_chars(transcript),
    ensures
        truncated(truncated(transcript, max), max) == truncated(transcript, max),
{
    is_ascii_chars_encode_utf8(transcript);
    if transcript.len() > max {
        reveal_strlit(
            "\n[... middle of the transcript omitted to fit the model's context window ...]\n",
        );
        let head_len: int = (max / 4) as int;
        let tail_len: int = max - head_len;
        let cut = truncated(transcript, max);
        text::lemma_ascii_ends(transcript, head_len);
        text::lemma_ascii_ends(transcript, tail_len);
        assert(cut == transcript.take(head_len) + OMITTED@ + transcript.skip(
            transcript.len() - tail_len,
        ));
        assert(is_ascii_chars(cut));
        is_ascii_chars_encode_utf8(cut);
        text::lemma_ascii_ends(cut, head_len);
        text::lemma_ascii_ends(cut, tail_len);
        assert(cut.take(head_len) =~= transcript.take(head_len));
        assert(cut.skip(cut.len() - tail_len) =~= transcript.skip(transcript.len() - tail_len));
    }
}

/// The number that decimal digits stand for.
pub open spec fn number_of(digits: Seq<char>) -> int
    decreases digits.len(),
{
    if digits.len() == 0 {
        0
    } else {
        number_of(digits.drop_last()) * 10 + (digits.last() as int - '0' as int)
    }
}

/// One decimal digit or more, and nothing else.
pub open spec fn is_number(digits: Seq<char>) -> bool {
    digits.len() > 0 && forall|i: int|
        0 <= i < digits.len() ==> '0' <= #[trigger] digits[i] <= '9'
}

proof fn lemma_decimal_reads_back(n: nat)
    ensures
        is_number(decimal(n)),
        number_of(decimal(n)) == n,
        decimal(n)[0] == '0' ==> n == 0,
        n < 10 ==> decimal(n).len() == 1,
        n < 100 ==> decimal(n).len() <= 2,
    decreases n,
{
    reveal_with_fuel(number_of, 2);
    if n < 10 {
        assert(decimal(n).drop_last() =~= Seq::<char>::empty());
    } else {
        lemma_decimal_reads_back(n / 10);
        assert(decimal(n).drop_last() =~= decimal(n / 10));
        assert(decimal(n)[0] == decimal(n / 10)[0]);
    }
}

proof fn lemma_two_digits_read_back(n: nat)
    requires
        n < 100,
    ensures
        two_digits(n).len() == 2,
        is_number(two_digits(n)),
        number_of(two_digits(n)) == n,
{
    reveal_with_fuel(number_of, 3);
    let t = two_digits(n);
    assert(t.drop_last() =~= seq![t[0]]);
    assert(seq![t[0]].drop_last() =~= Seq::<char>::empty());
}

/// The numbers in a timestamp give the time when they are read back: seconds
/// below sixty in the last two characters, and before a colon the minutes, or
/// from an hour on minutes below sixty in two characters and the hours before
/// another colon. The number that comes first has no leading zero.
pub proof fn law_timestamp_reads_back(total: nat)
    ensures
        ({
            let t = timestamp(total);
            let n = t.len() as int;
            let seconds = t.skip(n - 2);
            &&& n >= 4
            &&& t[n - 3] == ':'
            &&& is_number(seconds)
            &&& number_of(seconds) < 60
            &&& t[0] == '0' ==> t[1] == ':'
            &&& total < 3600 ==> {
                let minutes = t.take(n - 3);
                &&& n <= 5
                &&& is_number(minutes)
                &&& number_of(minutes) * 60 + number_of(seconds) == total
            }
            &&& total >= 3600 ==> {
                let minutes = t.subrange(n - 5, n - 3);
                let hours = t.take(n - 6);
                &&& n >= 7
                &&& t[n - 6] == ':'
                &&& is_number(minutes)
                &&& number_of(minutes) < 60
                &&& is_number(hours)
                &&& number_of(hours) * 3600 + number_of(minutes) * 60 + number_of(seconds) == total
            }
        }),
{
    let hours: nat = total / 3600;
    let minutes: nat = (total % 3600) / 60;
    let seconds: nat = total % 60;
    let t = timestamp(total);
    let n = t.len() as int;
    lemma_two_digits_read_back(seconds);
    lemma_two_digits_read_back(minutes);
    lemma_decimal_reads_back(minutes);
    lemma_decimal_reads_back(hours);
    assert(t.skip(n - 2) =~= two_digits(seconds));
    if hours > 0 {
        assert(t.subrange(n - 5, n - 3) =~= two_digits(minutes));
        assert(t.take(n - 6) =~= decimal(hours));
        assert(t[0] == decimal(hours)[0]);
    } else {
        assert(t.take(n - 3) =~= decimal(minutes));
        assert(t[0] == decimal(minutes)[0]);
    }
}

/// Two different times never have the same timestamp.
pub proof fn law_timestamps_differ(a: nat, b: nat)
    requires
        a != b,
    ensures
        timestamp(a) != timestamp(b),
{
    law_timestamp_reads_back(a);
    law_timestamp_reads_back(b);
}

/// A line that is not blank is shown whole, without white space around it, and
/// behind its time in brackets where it has one; a blank line is not shown.
pub proof fn law_transcript_of_one_line(line: LiveTranscriptLine)
    ensures
        ({
            let said = text::trimmed(line.text@);
            transcript_text(seq![line]) == if said.len() == 0 {
                Seq::empty()
            } else {
                match line.audio_start_time {
                    Some(start) => seq!['['] + timestamp(start as nat) + seq![']', ' '] + said,
                    None => said,
                }
            }
        }),
{
    let said = text::trimmed(line.text@);
    let lines = seq![line];
    reveal_with_fuel(rendered, 2);
    assert(lines.drop_last() =~= Seq::<LiveTranscriptLine>::empty());
    assert(rendered(lines) =~= rendered_line(line));
    lemma_rendered(lines);
    if said.len() > 0 {
        lemma_rendered_line(line);
        text::lemma_trimmed_drops_last(rendered(lines));
        assert(rendered_line(line).drop_last() =~= stamp(line) + said);
        if line.audio_start_time is None {
            assert(stamp(line) + said =~= said);
        }
    } else {
        assert(transcript_text(lines) =~= Seq::<char>::empty());
    }
}

/// Lines are shown in order: a line that comes after others adds what it shows
/// behind what they show, on a line of its own.
pub proof fn law_next_line_comes_after(lines: Seq<LiveTranscriptLine>, line: LiveTranscriptLine)
    ensures
        ({
            let before = transcript_text(lines);
            let shown = transcript_text(seq![line]);
            transcript_text(lines.push(line)) == if before.len() == 0 {
                shown
            } else if shown.len() == 0 {
                before
            } else {
                before + seq!['\n'] + shown
            }
        }),
{
    law_transcript_of_joined_lines(lines, seq![line]);
    assert(lines + seq![line] =~= lines.push(line));
    assert(transcript_text(lines).push('\n') =~= transcript_text(lines) + seq!['\n']);
}

/// A transcript that fits is not cut, and where one is cut, the mark says so in
/// these words.
pub proof fn law_only_long_transcripts_are_cut(transcript: Seq<char>, max: nat)
    ensures
        text::byte_len(transcript) <= max ==> truncated(transcript, max) == transcript,
        text::byte_len(transcript) > max ==> exists|head: Seq<char>, tail: Seq<char>|
            {
                &&& truncated(transcript, max) == #[trigger] (head
                    + "\n[... middle of the transcript omitted to fit the model's context window ...]\n"@
                    + tail)
                &&& head.is_prefix_of(transcript)
                &&& tail.is_suffix_of(transcript)
                &&& text::byte_len(head) <= max / 4
                &&& head.len() < transcript.len() && text::byte_len(
                    transcript.take(head.len() as int + 1),
                ) > max / 4
                &&& text::byte_len(tail) <= max - max / 4
                &&& tail.len() < transcript.len() && text::byte_len(
                    transcript.skip(transcript.len() - tail.len() - 1),
                ) > max - max / 4
            },
{
    if text::byte_len(transcript) > max {
        let head = text::longest_prefix(transcript, max / 4);
        let tail = text::longest_suffix(transcript, (max - max / 4) as nat);
        law_truncated_keeps_both_ends(transcript, max);
        text::lemma_longest_prefix(transcript, max / 4);
        text::lemma_longest_suffix(transcript, (max - max / 4) as nat);
        assert(truncated(transcript, max) == head
            + "\n[... middle of the transcript omitted to fit the model's context window ...]\n"@
            + tail);
    }
}

/// Keeps the transcript within the model's context budget. When it does not
/// fit, keeps the opening (agenda and participants) and as much of the end as
/// possible, with a mark where the middle was dropped.
pub fn truncate_transcript(transcript: &str, max_chars: usize) -> (res: String)
    ensures
        res@ == truncated(transcript@, max_chars as nat),
{
    if transcript.as_bytes().len() <= max_chars {
        return transcript.to_owned();
    }
    let head_len: usize = max_chars / 4;
    let tail_len: usize = max_chars - head_len;
    let mut out = text::prefix_within(transcript, head_len).to_owned();
    out.append(OMITTED);
    out.append(text::suffix_within(transcript, tail_len));
    out
}

} // verus!

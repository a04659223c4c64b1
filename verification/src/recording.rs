//! Starting and stopping a recording on behalf of the user, and its name.

use vstd::prelude::*;
use vstd::string::*;

use crate::clock;
use crate::detector;
use crate::text;

verus! {

/// A hexadecimal digit in lower case for `d`, which is below sixteen.
pub open spec fn hex_digit(d: int) -> char {
    if d < 10 {
        ('0' as u32 + d) as char
    } else {
        ('a' as u32 + (d - 10)) as char
    }
}

/// A character as it stands in a JSON string: quotes, backslashes and control
/// characters by an escape, any other as it is.
pub open spec fn json_escaped(c: char) -> Seq<char> {
    if c == '"' {
        seq!['\\', '"']
    } else if c == '\\' {
        seq!['\\', '\\']
    } else if c == '\u{8}' {
        seq!['\\', 'b']
    } else if c == '\u{9}' {
        seq!['\\', 't']
    } else if c == '\u{a}' {
        seq!['\\', 'n']
    } else if c == '\u{c}' {
        seq!['\\', 'f']
    } else if c == '\u{d}' {
        seq!['\\', 'r']
    } else if ' ' > c {
        seq!['\\', 'u', '0', '0', hex_digit(c as int / 16), hex_digit(c as int % 16)]
    } else {
        seq![c]
    }
}

/// What stands between the quotes of the JSON string for `s`.
pub open spec fn json_body(s: Seq<char>) -> Seq<char>
    decreases s.len(),
{
    if s.len() == 0 {
        Seq::empty()
    } else {
        json_escaped(s.first()) + json_body(s.drop_first())
    }
}

/// The JSON string for `s`.
pub open spec fn json_string(s: Seq<char>) -> Seq<char> {
    seq!['"'] + json_body(s) + seq!['"']
}

/// `serde_json::Error`.
#[verifier::external_type_specification]
#[verifier::external_body]
pub struct ExJsonError(serde_json::Error);

/// `serde_json::to_string` of a `str`: the JSON string for the text. It never
/// fails on a text, since it writes to memory.
#[verifier::external_body]
fn to_json(s: &str) -> (res: Result<String, serde_json::Error>)
    ensures
        res is Ok,
        res->Ok_0@ == json_string(s@),
{
    serde_json::to_string(s)
}

/// The script that tells the main page to start a recording when it loads.
pub const START_FLAG_SCRIPT: &'static str =
    "sessionStorage.setItem('autoStartRecording', 'true')";

/// The beginning of the script that hands the main page the title to use.
pub const TITLE_SCRIPT_HEAD: &'static str = "sessionStorage.setItem('autoStartMeetingTitle', ";

/// The script that leads to the main page.
pub const HOME_SCRIPT: &'static str = "window.location.assign('/')";

/// The script that hands the main page the title `name`.
pub open spec fn title_script(name: Seq<char>) -> Seq<char> {
    TITLE_SCRIPT_HEAD@ + json_string(name) + ")"@
}

/// The scripts to run in the main window, in this order, to start a recording
/// named `meeting_name` the way the tray does, so that all checks of the model
/// and the audio devices still run. The name is JSON-encoded so that nothing in
/// a calendar title can break out of the string literal.
pub fn trigger_auto_start(meeting_name: &str) -> (res: Vec<String>)
    ensures
        res@.map_values(|script: String| script@) == seq![
            START_FLAG_SCRIPT@,
            title_script(meeting_name@),
            HOME_SCRIPT@,
        ],
{
    let name_json = match to_json(meeting_name) {
        Ok(json) => json,
        Err(_) => "null".to_owned(),
    };
    let mut title = text::joined(TITLE_SCRIPT_HEAD, name_json.as_str());
    title.append(")");
    let mut scripts: Vec<String> = Vec::new();
    scripts.push(START_FLAG_SCRIPT.to_owned());
    scripts.push(title);
    scripts.push(HOME_SCRIPT.to_owned());
    proof {
        assert(scripts@.map_values(|script: String| script@) =~= seq![
            START_FLAG_SCRIPT@,
            title_script(meeting_name@),
            HOME_SCRIPT@,
        ]);
    }
    scripts
}

/// Where the string literal that starts at the beginning of `s` ends: the place
/// behind the first quote after the opening one that no backslash escapes, or
/// nowhere if there is none. `at` is where to look from.
pub open spec fn literal_end(s: Seq<char>, at: int) -> Option<int>
    decreases s.len() + 1 - at,
{
    if at < 0 || at >= s.len() {
        None
    } else if s[at] == '"' {
        Some(at + 1)
    } else if s[at] == '\\' {
        literal_end(s, at + 2)
    } else {
        literal_end(s, at + 1)
    }
}

proof fn lemma_escape_is_skipped(before: Seq<char>, c: char, after: Seq<char>)
    ensures
        literal_end(before + (json_escaped(c) + after), before.len() as int) == literal_end(
            before + (json_escaped(c) + after),
            (before + json_escaped(c)).len() as int,
        ),
        forall|i: int|
            0 <= i < json_escaped(c).len() ==> #[trigger] json_escaped(c)[i] >= ' ',
{
    let e = json_escaped(c);
    let s = before + (e + after);
    let at: int = before.len() as int;
    assert(forall|i: int| 0 <= i < e.len() ==> s[at + i] == #[trigger] e[i]);
    if e.len() == 1 {
        assert(s[at] == e[0]);
    } else {
        assert(s[at] == e[0]);
        assert(e[0] == '\\');
        if e.len() == 6 {
            assert(s[at + 2] == e[2]);
            assert(s[at + 3] == e[3]);
            assert(s[at + 4] == e[4]);
            assert(s[at + 5] == e[5]);
            assert(literal_end(s, at) == literal_end(s, at + 2));
            assert(literal_end(s, at + 2) == literal_end(s, at + 3));
            assert(literal_end(s, at + 3) == literal_end(s, at + 4));
            assert(literal_end(s, at + 4) == literal_end(s, at + 5));
            assert(literal_end(s, at + 5) == literal_end(s, at + 6));
        }
    }
}

proof fn lemma_body_is_skipped(before: Seq<char>, name: Seq<char>, after: Seq<char>)
    ensures
        literal_end(before + json_body(name) + after, before.len() as int) == literal_end(
            before + json_body(name) + after,
            (before + json_body(name)).len() as int,
        ),
        forall|i: int| 0 <= i < json_body(name).len() ==> #[trigger] json_body(name)[i] >= ' ',
    decreases name.len(),
{
    if name.len() > 0 {
        let e = json_escaped(name.first());
        let rest = name.drop_first();
        lemma_escape_is_skipped(before, name.first(), json_body(rest) + after);
        lemma_body_is_skipped(before + e, rest, after);
        assert(before + json_body(name) + after =~= before + (e + (json_body(rest) + after)));
        assert(before + json_body(name) + after =~= (before + e) + json_body(rest) + after);
        assert(before + json_body(name) =~= (before + e) + json_body(rest));
    }
}

/// Nothing in a meeting name can break out of the string literal that it is
/// put into: whatever follows, the literal that opens the encoded name ends
/// with the encoded name, not before and not after, and none of the characters
/// before the space, the line feed among them, is in it.
pub proof fn law_title_stays_in_literal(name: Seq<char>, after: Seq<char>)
    ensures
        json_string(name)[0] == '"',
        literal_end(json_string(name) + after, 1) == Some(json_string(name).len() as int),
        forall|i: int| 0 <= i < json_string(name).len() ==> #[trigger] json_string(name)[i] >= ' ',
{
    let open = seq!['"'];
    lemma_body_is_skipped(open, name, open + after);
    let whole = json_string(name) + after;
    assert(whole =~= open + json_body(name) + (open + after));
    let at: int = (open + json_body(name)).len() as int;
    assert(whole[at] == '"');
}

/// The name for a recording that no calendar entry names.
pub open spec fn fallback_name(app_name: Seq<char>) -> Seq<char> {
    app_name + " Meeting"@
}

/// The name of a recording: the title of the calendar entry that is on now, if
/// there is one, and else a name after the application.
pub open spec fn recording_name(app_name: Seq<char>, title: Option<String>) -> Seq<char> {
    match title {
        Some(t) => t@,
        None => fallback_name(app_name),
    }
}

/// The name of a recording of a meeting of the application `app_name`, given
/// the title that was found in the calendar in time, if any.
pub fn name_recording(app_name: &str, title: Option<String>) -> (res: String)
    ensures
        res@ == recording_name(app_name@, title),
{
    match title {
        Some(t) => t,
        None => text::joined(app_name, " Meeting"),
    }
}

/// The process of the Calendar application. It is asked for the event that is on
/// only while it runs: asking would otherwise launch it, just as a meeting is
/// being joined.
pub const CALENDAR_PROCESS: &'static str = "Calendar";

/// Whether the Calendar application may be asked for the event that is on,
/// given the names of the running processes: it may while it runs.
pub fn may_ask_calendar(processes: &[String]) -> (res: bool)
    ensures
        res == exists|i: int|
            0 <= i < processes@.len() && text::ascii_lower((#[trigger] processes@[i])@)
                == text::ascii_lower(CALENDAR_PROCESS@),
{
    detector::system_has_process(processes, CALENDAR_PROCESS)
}

/// What came of the script that asks the Calendar application for the event
/// that is on now.
#[derive(Debug)]
pub struct ScriptOutput {
    pub success: bool,
    pub stdout: Vec<u8>,
}

/// The title in what a script printed: the text without white space around it,
/// if anything is left.
pub open spec fn printed_title(printed: Seq<char>) -> Option<Seq<char>> {
    if text::trimmed(printed).len() == 0 {
        None
    } else {
        Some(text::trimmed(printed))
    }
}

/// The title in what a script printed, if there is one.
pub fn title_in(printed: &str) -> (res: Option<String>)
    ensures
        match res {
            Some(t) => printed_title(printed@) == Some(t@),
            None => printed_title(printed@) is None,
        },
{
    let title = printed.trim();
    if title.is_empty() {
        None
    } else {
        Some(title.to_owned())
    }
}

/// The title of the calendar event that is on now, as the Calendar application
/// gave it. Nothing where the application does not run, since asking it would
/// launch it, and popping it open while the user joins a meeting is worse than
/// a generic name; where the script could not be run or failed; and where it
/// printed nothing.
pub fn current_calendar_event_title(
    calendar_running: bool,
    script: Option<ScriptOutput>,
) -> (res: Option<String>)
    ensures
        match res {
            Some(t) => calendar_running && script is Some && script->0.success && printed_title(
                text::lossy_utf8(script->0.stdout@),
            ) == Some(t@),
            None => !calendar_running || script is None || !script->0.success || printed_title(
                text::lossy_utf8(script->0.stdout@),
            ) is None,
        },
{
    if !calendar_running {
        return None;
    }
    match script {
        Some(output) => {
            if output.success {
                title_in(text::lossy_text(output.stdout.as_slice()).as_str())
            } else {
                None
            }
        },
        None => None,
    }
}

/// The name of the file for a recording that was stopped at the time `stamp`.
pub open spec fn file_name_at(stamp: Seq<char>) -> Seq<char> {
    "recording-"@ + stamp + ".wav"@
}

/// The name of the file for a recording that was stopped at the time `stamp`.
pub fn recording_file_name_at(stamp: &str) -> (res: String)
    ensures
        res@ == file_name_at(stamp@),
{
    let mut name = text::joined("recording-", stamp);
    name.append(".wav");
    name
}

/// The name of the file for a recording that is stopped now, with the time of
/// the call in it.
pub fn recording_file_name() -> (res: String)
    ensures
        exists|stamp: Seq<char>|
            clock::file_stamp_form(stamp) && res@ == #[trigger] file_name_at(stamp),
{
    let stamp = clock::local_file_stamp();
    recording_file_name_at(stamp.as_str())
}

/// What the one who stops a recording is told.
#[derive(Debug, Clone, Copy, PartialEq, Eq, Structural)]
pub enum StopEvent {
    /// Whether something is being recorded.
    Recording(bool),
    /// Whether the directory for recordings was found.
    DataDir(bool),
    /// Whether the recording was stopped and saved.
    Stopped(bool),
}

/// What is to be done to stop a recording.
#[derive(Debug, Clone, Copy, PartialEq, Eq, Structural)]
pub enum StopAction {
    /// Compute the tray menu anew from what is the case. That ends it.
    RefreshTray,
    /// Show in the tray that the recording is being stopped, and find the
    /// directory for recordings.
    ShowStopping,
    /// Stop the recording and save it in the directory, under the name for now.
    StopAndSave,
    /// Tell the frontend that the recording was stopped, so that it still does
    /// what follows a recording. That ends it.
    EmitStopComplete,
}

/// What follows `event` when a recording is stopped. The tray is put right
/// whenever the recording is not stopped: nothing may be recording because an
/// automatic start never got going, and the tray may still show that it is
/// starting.
pub open spec fn stop_action(event: StopEvent) -> StopAction {
    match event {
        StopEvent::Recording(true) => StopAction::ShowStopping,
        StopEvent::DataDir(true) => StopAction::StopAndSave,
        StopEvent::Stopped(true) => StopAction::EmitStopComplete,
        _ => StopAction::RefreshTray,
    }
}

/// What to do next to stop the active recording, as the tray would, given what
/// came of the step before.
pub fn trigger_auto_stop(event: StopEvent) -> (res: StopAction)
    ensures
        res == stop_action(event),
{
    match event {
        StopEvent::Recording(recording) => if recording {
            StopAction::ShowStopping
        } else {
            StopAction::RefreshTray
        },
        StopEvent::DataDir(found) => if found {
            StopAction::StopAndSave
        } else {
            StopAction::RefreshTray
        },
        StopEvent::Stopped(saved) => if saved {
            StopAction::EmitStopComplete
        } else {
            StopAction::RefreshTray
        },
    }
}

/// What is done to stop a recording, in order, where `recording`, `found` and
/// `saved` are the replies.
pub open spec fn stop_actions(recording: bool, found: bool, saved: bool) -> Seq<StopAction> {
    let first = stop_action(StopEvent::Recording(recording));
    let second = stop_action(StopEvent::DataDir(found));
    let third = stop_action(StopEvent::Stopped(saved));
    if first is RefreshTray {
        seq![first]
    } else if second is RefreshTray {
        seq![first, second]
    } else {
        seq![first, second, third]
    }
}

/// Stopping a recording ends with the frontend told of it exactly when it was
/// stopped and saved, and else with the tray put right; and nothing is stopped
/// where nothing is recorded.
pub proof fn law_stop_ends_in_order(recording: bool, found: bool, saved: bool)
    ensures
        stop_actions(recording, found, saved).last() == if recording && found && saved {
            StopAction::EmitStopComplete
        } else {
            StopAction::RefreshTray
        },
        stop_actions(recording, found, saved).contains(StopAction::StopAndSave) <==> recording
            && found,
{
    if recording && found {
        assert(stop_actions(recording, found, saved)[1] is StopAndSave);
    }
}

/// A recording is called by the title that was found for it, just as it is, and
/// by its application where none was found.
pub proof fn law_title_names_recording(app_name: Seq<char>, title: Option<String>)
    ensures
        match title {
            Some(found) => recording_name(app_name, title) == found@,
            None => recording_name(app_name, title) == app_name + " Meeting"@,
        },
{
}

/// The script that hands the title over holds the JSON string for the name, and
/// sets the item that the main page reads.
pub proof fn law_title_is_handed_over(name: Seq<char>)
    ensures
        title_script(name) == "sessionStorage.setItem('autoStartMeetingTitle', "@ + json_string(
            name,
        ) + ")"@,
{
}

/// The name of a file holds the time between fixed parts.
pub proof fn law_file_name_holds_time(stamp: Seq<char>)
    ensures
        file_name_at(stamp) == "recording-"@ + stamp + ".wav"@,
{
}

/// What a script printed names a meeting exactly where it is not white space
/// throughout, and the title is then all of it but for white space around it.
pub proof fn law_printed_title_is_all_that_was_printed(printed: Seq<char>)
    ensures
        printed_title(printed) is None <==> text::all_white(printed),
        printed_title(printed) matches Some(title) ==> {
            &&& exists|before: Seq<char>, after: Seq<char>|
                printed == #[trigger] (before + title + after) && text::all_white(before)
                    && text::all_white(after)
            &&& title.len() > 0
            &&& !text::white_space(title.first())
            &&& !text::white_space(title.last())
        },
{
    text::lemma_trimmed(printed);
    let around = text::law_trimming_takes_white_space_only(printed);
    if let Some(title) = printed_title(printed) {
        assert(printed == around.0 + title + around.1);
    }
}

/// A recording is stopped only where one runs and there is a place for it; the
/// tray shows that it is being stopped exactly where one runs; and each reply
/// that something is missing ends the matter at once.
pub proof fn law_stop_needs_recording_and_place(recording: bool, found: bool, saved: bool)
    ensures
        stop_actions(recording, found, saved) == if !recording {
            seq![StopAction::RefreshTray]
        } else if !found {
            seq![StopAction::ShowStopping, StopAction::RefreshTray]
        } else if !saved {
            seq![StopAction::ShowStopping, StopAction::StopAndSave, StopAction::RefreshTray]
        } else {
            seq![StopAction::ShowStopping, StopAction::StopAndSave, StopAction::EmitStopComplete]
        },
{
}

/// The Calendar application is known by the name of its process.
pub proof fn law_calendar_is_known_by_name()
    ensures
        CALENDAR_PROCESS@ == "Calendar"@,
{
}

} // verus!

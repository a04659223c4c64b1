//! The prompts by which a question about a meeting is put to the model.

use vstd::prelude::*;
use vstd::string::*;

use crate::text;

verus! {

/// Most recent chat turns that are forwarded to the model for follow-up
/// questions.
pub const MAX_HISTORY_MESSAGES: usize = 12;

/// Cap, in bytes, on any single history message that is forwarded to the model.
pub const MAX_HISTORY_MESSAGE_CHARS: usize = 2000;

/// A turn of a chat.
#[derive(Debug)]
pub struct MeetingChatMessage {
    /// "user" or "assistant".
    pub role: String,
    pub content: String,
}

impl Clone for MeetingChatMessage {
    fn clone(&self) -> (res: Self)
        ensures
            res == *self,
    {
        MeetingChatMessage { role: self.role.clone(), content: self.content.clone() }
    }
}

/// What the model is told of a meeting that goes on.
pub const LIVE_NOTE: &'static str =
    "This meeting is happening RIGHT NOW and the transcript below covers only what has been said so far. Treat it as the meeting up to this moment; more will follow. The user is often catching up on something they just missed, so favour the most recent part of the transcript unless they ask about something earlier.";

/// What the model is told of a meeting that is over.
pub const ENDED_NOTE: &'static str =
    "This meeting has ended and the transcript below is the complete record of it.";

/// The system prompt up to the title of the meeting.
pub const PROMPT_BEFORE_TITLE: &'static str =
    "You are Meetily's meeting assistant. Answer the user's questions about the meeting \"";

/// The system prompt between the title and the note on the transcript.
pub const PROMPT_BEFORE_NOTE: &'static str = "\" using ONLY the transcript below.\n\n";

/// The system prompt between the note and the transcript.
pub const PROMPT_BEFORE_TRANSCRIPT: &'static str =
    "\n\nRules:\n- Ground every answer in the transcript; quote or paraphrase what was actually said.\n- If the transcript does not contain the answer, say so plainly instead of guessing.\n- Lines may start with a timestamp like [12:34] marking when they were said; use timestamps when the user asks when something happened.\n- Be concise and direct.\n\nTRANSCRIPT:\n";

/// What the model is told of the meeting: a transcript of a meeting that goes
/// on is partial, and a question whether something was mentioned is about what
/// has been said so far.
pub open spec fn context_note(live: bool) -> Seq<char> {
    if live {
        LIVE_NOTE@
    } else {
        ENDED_NOTE@
    }
}

/// The system prompt for a meeting.
pub open spec fn system_prompt_for(
    title: Seq<char>,
    live: bool,
    transcript: Seq<char>,
) -> Seq<char> {
    PROMPT_BEFORE_TITLE@ + title + PROMPT_BEFORE_NOTE@ + context_note(live)
        + PROMPT_BEFORE_TRANSCRIPT@ + transcript
}

/// The system prompt for a meeting, given its title, whether it goes on, and
/// its transcript.
pub fn system_prompt(title: &str, live: bool, transcript: &str) -> (res: String)
    ensures
        res@ == system_prompt_for(title@, live, transcript@),
{
    let mut prompt = text::joined(PROMPT_BEFORE_TITLE, title);
    prompt.append(PROMPT_BEFORE_NOTE);
    prompt.append(
        if live {
            LIVE_NOTE
        } else {
            ENDED_NOTE
        },
    );
    prompt.append(PROMPT_BEFORE_TRANSCRIPT);
    prompt.append(transcript);
    prompt
}

/// The question in a chat: the last message, without white space around it, if
/// it is the user's and not blank.
pub open spec fn question_of(messages: Seq<MeetingChatMessage>) -> Option<Seq<char>> {
    if messages.len() > 0 && messages.last().role@ == "user"@ && text::trimmed(
        messages.last().content@,
    ).len() > 0 {
        Some(text::trimmed(messages.last().content@))
    } else {
        None
    }
}

/// The question in a chat, if there is one.
pub fn question(messages: &[MeetingChatMessage]) -> (res: Option<String>)
    ensures
        match res {
            Some(q) => question_of(messages@) == Some(q@),
            None => question_of(messages@) is None,
        },
{
    if messages.len() == 0 {
        return None;
    }
    let last = &messages[messages.len() - 1];
    if !text::same_text(last.role.as_str(), "user") {
        return None;
    }
    let content = last.content.as_str().trim();
    if content.is_empty() {
        return None;
    }
    Some(content.to_owned())
}

/// How a role is shown to the model.
pub open spec fn speaker(role: Seq<char>) -> Seq<char> {
    if role == "assistant"@ {
        "Assistant"@
    } else {
        "User"@
    }
}

/// What is shown of the content of an earlier message: without white space
/// around it, and cut off where it is too long.
pub open spec fn shown_content(content: Seq<char>) -> Seq<char> {
    let whole = text::trimmed(content);
    if text::byte_len(whole) > MAX_HISTORY_MESSAGE_CHARS {
        text::longest_prefix(whole, MAX_HISTORY_MESSAGE_CHARS as nat) + "..."@
    } else {
        whole
    }
}

/// What is shown of an earlier message.
pub open spec fn history_line(message: MeetingChatMessage) -> Seq<char> {
    speaker(message.role@) + ": "@ + shown_content(message.content@) + "\n"@
}

/// What is shown of earlier messages, one after the other.
pub open spec fn history_lines(messages: Seq<MeetingChatMessage>) -> Seq<char>
    decreases messages.len(),
{
    if messages.len() == 0 {
        Seq::empty()
    } else {
        history_lines(messages.drop_last()) + history_line(messages.last())
    }
}

/// The latest of the earlier messages, as many as are shown.
pub open spec fn recent(history: Seq<MeetingChatMessage>) -> Seq<MeetingChatMessage> {
    if history.len() > MAX_HISTORY_MESSAGES {
        history.skip(history.len() - MAX_HISTORY_MESSAGES)
    } else {
        history
    }
}

/// The part of the user prompt before the question, for the earlier messages
/// `history`.
pub open spec fn conversation(history: Seq<MeetingChatMessage>) -> Seq<char> {
    if history.len() == 0 {
        Seq::empty()
    } else {
        "Conversation so far:\n"@ + history_lines(recent(history)) + "\n"@
    }
}

/// The user prompt for a chat that ends with the question `asked`.
pub open spec fn user_prompt_for(messages: Seq<MeetingChatMessage>, asked: Seq<char>) -> Seq<char> {
    conversation(messages.drop_last()) + "Question: "@ + asked
}

/// Writes what is shown of an earlier message behind what `out` holds.
fn append_history_line(out: &mut String, message: &MeetingChatMessage)
    ensures
        final(out)@ == old(out)@ + history_line(*message),
{
    if text::same_text(message.role.as_str(), "assistant") {
        out.append("Assistant");
    } else {
        out.append("User");
    }
    out.append(": ");
    let content = message.content.as_str().trim();
    if content.as_bytes().len() > MAX_HISTORY_MESSAGE_CHARS {
        out.append(text::prefix_within(content, MAX_HISTORY_MESSAGE_CHARS));
        out.append("...");
    } else {
        out.append(content);
    }
    out.append("\n");
    proof {
        assert(out@ =~= old(out)@ + history_line(*message));
    }
}

/// The user prompt for a chat that ends with the question `asked`. Earlier
/// turns are flattened into it, since the model takes a single prompt rather
/// than a list of messages.
pub fn user_prompt(messages: &[MeetingChatMessage], asked: &str) -> (res: String)
    requires
        messages@.len() > 0,
    ensures
        res@ == user_prompt_for(messages@, asked@),
{
    let mut prompt = String::new();
    let count: usize = messages.len() - 1;
    let ghost history = messages@.drop_last();
    if count > 0 {
        prompt.append("Conversation so far:\n");
        let start: usize = if count > MAX_HISTORY_MESSAGES {
            count - MAX_HISTORY_MESSAGES
        } else {
            0
        };
        proof {
            assert(recent(history) =~= history.skip(start as int));
            assert(history.skip(start as int).take(0) =~= Seq::<MeetingChatMessage>::empty());
            assert(prompt@ =~= "Conversation so far:\n"@ + history_lines(
                history.skip(start as int).take(0),
            ));
        }
        let mut i: usize = start;
        while i < count
            invariant
                start <= i <= count,
                count == messages@.len() - 1,
                history == messages@.drop_last(),
                prompt@ == "Conversation so far:\n"@ + history_lines(
                    history.skip(start as int).take(i - start),
                ),
            decreases count - i,
        {
            append_history_line(&mut prompt, &messages[i]);
            proof {
                let shown = history.skip(start as int).take(i - start + 1);
                assert(shown.drop_last() =~= history.skip(start as int).take(i - start));
                assert(shown.last() == messages@[i as int]);
                assert(prompt@ =~= "Conversation so far:\n"@ + history_lines(shown));
            }
            i = i + 1;
        }
        prompt.append("\n");
        proof {
            assert(history.skip(start as int).take(count - start) =~= recent(history));
        }
    }
    prompt.append("Question: ");
    prompt.append(asked);
    proof {
        assert(prompt@ =~= user_prompt_for(messages@, asked@));
    }
    prompt
}

proof fn lemma_shown_content_is_bounded(content: Seq<char>)
    ensures
        text::byte_len(shown_content(content)) <= MAX_HISTORY_MESSAGE_CHARS + 3,
{
    let whole = text::trimmed(content);
    text::lemma_longest_prefix(whole, MAX_HISTORY_MESSAGE_CHARS as nat);
    let kept = text::longest_prefix(whole, MAX_HISTORY_MESSAGE_CHARS as nat);
    text::lemma_encode_concat(kept, "..."@);
    reveal_strlit("...");
    vstd::utf8::is_ascii_chars_encode_utf8("..."@);
}

proof fn lemma_history_line_is_bounded(message: MeetingChatMessage)
    ensures
        text::byte_len(history_line(message)) <= MAX_HISTORY_MESSAGE_CHARS + 15,
{
    let name = speaker(message.role@);
    let content = shown_content(message.content@);
    lemma_shown_content_is_bounded(message.content@);
    reveal_strlit("Assistant");
    reveal_strlit("User");
    reveal_strlit(": ");
    reveal_strlit("\n");
    vstd::utf8::is_ascii_chars_encode_utf8(name);
    vstd::utf8::is_ascii_chars_encode_utf8(": "@);
    vstd::utf8::is_ascii_chars_encode_utf8("\n"@);
    text::lemma_encode_concat(name, ": "@);
    text::lemma_encode_concat(name + ": "@, content);
    text::lemma_encode_concat(name + ": "@ + content, "\n"@);
}

proof fn lemma_history_lines_are_bounded(messages: Seq<MeetingChatMessage>)
    ensures
        text::byte_len(history_lines(messages)) <= messages.len() * (MAX_HISTORY_MESSAGE_CHARS
            + 15),
    decreases messages.len(),
{
    if messages.len() > 0 {
        let before = messages.drop_last();
        lemma_history_lines_are_bounded(before);
        lemma_history_line_is_bounded(messages.last());
        text::lemma_encode_concat(history_lines(before), history_line(messages.last()));
        assert(messages.len() * (MAX_HISTORY_MESSAGE_CHARS + 15) == before.len() * (
        MAX_HISTORY_MESSAGE_CHARS + 15) + (MAX_HISTORY_MESSAGE_CHARS + 15)) by (nonlinear_arith)
            requires
                messages.len() == before.len() + 1,
        ;
    }
}

/// However long a chat gets, the prompt grows only by its latest turns: the
/// part before the question takes at most the cap for each turn shown, with a
/// few bytes around it.
pub proof fn law_conversation_is_bounded(history: Seq<MeetingChatMessage>)
    ensures
        text::byte_len(conversation(history)) <= MAX_HISTORY_MESSAGES * (MAX_HISTORY_MESSAGE_CHARS
            + 15) + 22,
        recent(history).len() <= MAX_HISTORY_MESSAGES,
{
    let shown = recent(history);
    lemma_history_lines_are_bounded(shown);
    assert(shown.len() * (MAX_HISTORY_MESSAGE_CHARS + 15) <= MAX_HISTORY_MESSAGES * (
    MAX_HISTORY_MESSAGE_CHARS + 15)) by (nonlinear_arith)
        requires
            shown.len() <= MAX_HISTORY_MESSAGES,
    ;
    reveal_strlit("Conversation so far:\n");
    reveal_strlit("\n");
    vstd::utf8::is_ascii_chars_encode_utf8("Conversation so far:\n"@);
    vstd::utf8::is_ascii_chars_encode_utf8("\n"@);
    text::lemma_encode_concat("Conversation so far:\n"@, history_lines(shown));
    text::lemma_encode_concat("Conversation so far:\n"@ + history_lines(shown), "\n"@);
}

/// Only the latest turns are shown: turns before them do not change the prompt.
pub proof fn law_old_turns_do_not_matter(
    older: Seq<MeetingChatMessage>,
    latest: Seq<MeetingChatMessage>,
)
    requires
        latest.len() == MAX_HISTORY_MESSAGES,
    ensures
        conversation(older + latest) == conversation(latest),
{
    assert(recent(older + latest) =~= latest);
}

/// The question is what the user wrote, and it comes last in the prompt.
pub proof fn law_prompt_ends_with_question(messages: Seq<MeetingChatMessage>)
    requires
        question_of(messages) is Some,
    ensures
        ({
            let asked = question_of(messages)->0;
            &&& asked == text::trimmed(messages.last().content@)
            &&& asked.len() > 0
            &&& ("Question: "@ + asked).is_suffix_of(user_prompt_for(messages, asked))
        }),
{
    let asked = question_of(messages)->0;
    let before = conversation(messages.drop_last());
    assert(user_prompt_for(messages, asked) =~= before + ("Question: "@ + asked));
    assert((before + ("Question: "@ + asked)).skip(before.len() as int) =~= "Question: "@ + asked);
}

/// `said` is what the model is to see of `content`: all of it but for white
/// space around it, or where that takes more than two thousand bytes, as many
/// of its first characters as fit, and three dots.
pub open spec fn tells_content(said: Seq<char>, content: Seq<char>) -> bool {
    let whole = text::trimmed(content);
    if text::byte_len(whole) <= 2000 {
        said == whole
    } else {
        exists|k: int|
            {
                &&& 0 <= k < whole.len()
                &&& said == #[trigger] whole.take(k) + "..."@
                &&& text::byte_len(whole.take(k)) <= 2000
                &&& text::byte_len(whole.take(k + 1)) > 2000
            }
    }
}

/// `line` tells who said what in `turn`, on a line of its own.
pub open spec fn tells_turn(line: Seq<char>, turn: MeetingChatMessage) -> bool {
    exists|said: Seq<char>|
        {
            &&& #[trigger] tells_content(said, turn.content@)
            &&& line == (if turn.role@ == "assistant"@ {
                "Assistant: "@
            } else {
                "User: "@
            }) + said + "\n"@
        }
}

/// How many of `count` earlier turns the model is to see.
pub open spec fn seen_turns(count: int) -> int {
    if count <= 12 {
        count
    } else {
        12
    }
}

/// `prompt` puts the question `asked` after the latest of the earlier turns, in
/// order, each told on a line of its own.
pub open spec fn puts_question(
    prompt: Seq<char>,
    earlier: Seq<MeetingChatMessage>,
    asked: Seq<char>,
) -> bool {
    if earlier.len() == 0 {
        prompt == "Question: "@ + asked
    } else {
        exists|lines: Seq<Seq<char>>|
            {
                &&& lines.len() == seen_turns(earlier.len() as int)
                &&& forall|k: int|
                    0 <= k < lines.len() ==> tells_turn(
                        #[trigger] lines[k],
                        earlier[earlier.len() - lines.len() + k],
                    )
                &&& prompt == "Conversation so far:\n"@ + #[trigger] lines.flatten() + "\n"@
                    + "Question: "@ + asked
            }
    }
}

proof fn lemma_content_is_told(content: Seq<char>)
    ensures
        tells_content(shown_content(content), content),
{
    let whole = text::trimmed(content);
    if text::byte_len(whole) > 2000 {
        let kept = text::longest_prefix(whole, 2000);
        text::lemma_longest_prefix(whole, 2000);
        let k: int = kept.len() as int;
        assert(kept =~= whole.take(k));
        if k == whole.len() {
            assert(whole.take(k) =~= whole);
        }
    }
}

proof fn lemma_turn_is_told(turn: MeetingChatMessage)
    ensures
        tells_turn(history_line(turn), turn),
{
    lemma_content_is_told(turn.content@);
    let said = shown_content(turn.content@);
    let name = speaker(turn.role@);
    reveal_strlit("Assistant");
    reveal_strlit("User");
    reveal_strlit(": ");
    reveal_strlit("Assistant: ");
    reveal_strlit("User: ");
    if turn.role@ == "assistant"@ {
        assert(name + ": "@ =~= "Assistant: "@);
    } else {
        assert(name + ": "@ =~= "User: "@);
    }
    assert(tells_content(said, turn.content@));
}

/// What is shown of each turn.
spec fn lines_of(turns: Seq<MeetingChatMessage>) -> Seq<Seq<char>> {
    turns.map_values(|turn: MeetingChatMessage| history_line(turn))
}

proof fn lemma_lines_flatten(turns: Seq<MeetingChatMessage>)
    ensures
        lines_of(turns).flatten() == history_lines(turns),
    decreases turns.len(),
{
    if turns.len() == 0 {
        assert(lines_of(turns) =~= Seq::<Seq<char>>::empty());
        assert(lines_of(turns).flatten() =~= Seq::<char>::empty());
    } else {
        let before = turns.drop_last();
        lemma_lines_flatten(before);
        let lines = lines_of(turns);
        assert(lines.drop_last() =~= lines_of(before));
        assert(lines.last() == history_line(turns.last()));
        lines.lemma_flatten_and_flatten_alt_are_equivalent();
        lines.drop_last().lemma_flatten_and_flatten_alt_are_equivalent();
    }
}

/// Earlier turns reach the model: the prompt tells, before the question and in
/// order, who said what in each of the latest twelve of them, or in all where
/// there are no more.
pub proof fn law_earlier_turns_reach_the_model(messages: Seq<MeetingChatMessage>, asked: Seq<char>)
    requires
        messages.len() > 0,
    ensures
        puts_question(user_prompt_for(messages, asked), messages.drop_last(), asked),
{
    let earlier = messages.drop_last();
    let prompt = user_prompt_for(messages, asked);
    if earlier.len() == 0 {
        assert(prompt =~= "Question: "@ + asked);
    } else {
        let shown = recent(earlier);
        let lines = lines_of(shown);
        lemma_lines_flatten(shown);
        assert forall|k: int| 0 <= k < lines.len() implies tells_turn(
            #[trigger] lines[k],
            earlier[earlier.len() - lines.len() + k],
        ) by {
            lemma_turn_is_told(shown[k]);
            assert(shown[k] == earlier[earlier.len() - lines.len() + k]);
        }
        assert(prompt =~= "Conversation so far:\n"@ + lines.flatten() + "\n"@ + "Question: "@
            + asked);
    }
}

proof fn lemma_piece_occurs(lines: Seq<Seq<char>>, k: int)
    requires
        0 <= k < lines.len(),
    ensures
        text::occurs_in(lines[k], lines.flatten()),
    decreases lines.len(),
{
    lines.lemma_flatten_and_flatten_alt_are_equivalent();
    let before = lines.drop_last();
    before.lemma_flatten_and_flatten_alt_are_equivalent();
    let whole = lines.flatten();
    assert(whole == before.flatten() + lines.last());
    if k == lines.len() - 1 {
        assert(whole =~= before.flatten() + lines[k] + Seq::<char>::empty());
        text::law_occurring_is_standing_between(lines[k], whole);
    } else {
        lemma_piece_occurs(before, k);
        text::law_occurring_is_standing_between(lines[k], before.flatten());
        let (a, b): (Seq<char>, Seq<char>) = choose|a: Seq<char>, b: Seq<char>|
            before.flatten() == #[trigger] (a + before[k] + b);
        assert(whole =~= a + lines[k] + (b + lines.last()));
        text::law_occurring_is_standing_between(lines[k], whole);
    }
}

/// What was said in each of the latest twelve earlier turns occurs in the
/// prompt, word for word as far as it is shown.
pub proof fn law_earlier_turn_occurs_in_prompt(
    messages: Seq<MeetingChatMessage>,
    asked: Seq<char>,
    i: int,
) -> (line: Seq<char>)
    requires
        0 <= i < messages.len() - 1,
        messages.len() - 1 - i <= 12,
    ensures
        tells_turn(line, messages[i]),
        text::occurs_in(line, user_prompt_for(messages, asked)),
{
    law_earlier_turns_reach_the_model(messages, asked);
    let earlier = messages.drop_last();
    let prompt = user_prompt_for(messages, asked);
    let lines: Seq<Seq<char>> = choose|lines: Seq<Seq<char>>|
        {
            &&& lines.len() == seen_turns(earlier.len() as int)
            &&& forall|k: int|
                0 <= k < lines.len() ==> tells_turn(
                    #[trigger] lines[k],
                    earlier[earlier.len() - lines.len() + k],
                )
            &&& prompt == "Conversation so far:\n"@ + #[trigger] lines.flatten() + "\n"@
                + "Question: "@ + asked
        };
    let k: int = i - (earlier.len() - lines.len());
    let line = lines[k];
    lemma_piece_occurs(lines, k);
    text::law_occurring_is_standing_between(line, lines.flatten());
    let (a, b): (Seq<char>, Seq<char>) = choose|a: Seq<char>, b: Seq<char>|
        lines.flatten() == #[trigger] (a + line + b);
    assert(prompt =~= ("Conversation so far:\n"@ + a) + line + (b + "\n"@ + "Question: "@ + asked));
    text::law_occurring_is_standing_between(line, prompt);
    line
}

/// There is a question exactly where the last message is the user's and not
/// blank, and it is then that message without white space around it.
pub proof fn law_last_user_message_is_the_question(messages: Seq<MeetingChatMessage>)
    ensures
        question_of(messages) is Some <==> messages.len() > 0 && messages.last().role@ == "user"@
            && !text::all_white(messages.last().content@),
        question_of(messages) matches Some(asked) ==> asked == text::trimmed(
            messages.last().content@,
        ),
{
    if messages.len() > 0 {
        text::lemma_trimmed(messages.last().content@);
    }
}

/// The system prompt tells the title, whether the meeting goes on, the rules to
/// answer by, and the transcript, which comes last.
pub proof fn law_system_prompt_tells_the_meeting(
    title: Seq<char>,
    live: bool,
    transcript: Seq<char>,
)
    ensures
        system_prompt_for(title, live, transcript)
            == "You are Meetily's meeting assistant. Answer the user's questions about the meeting \""@
            + title + "\" using ONLY the transcript below.\n\n"@ + (if live {
            "This meeting is happening RIGHT NOW and the transcript below covers only what has been said so far. Treat it as the meeting up to this moment; more will follow. The user is often catching up on something they just missed, so favour the most recent part of the transcript unless they ask about something earlier."@
        } else {
            "This meeting has ended and the transcript below is the complete record of it."@
        })
            + "\n\nRules:\n- Ground every answer in the transcript; quote or paraphrase what was actually said.\n- If the transcript does not contain the answer, say so plainly instead of guessing.\n- Lines may start with a timestamp like [12:34] marking when they were said; use timestamps when the user asks when something happened.\n- Be concise and direct.\n\nTRANSCRIPT:\n"@
            + transcript,
{
}

} // verus!

use meeting_assistant::chat::{
    answer_question, api_chat_with_live_transcript, api_chat_with_meeting, max_transcript_chars,
    resolve_api_key, AnswerStep, ChatRequest, ChatSession, CustomOpenAIConfig, Lookups,
    ProviderKind, StoredMeeting,
};
use meeting_assistant::prompt::{question, system_prompt, user_prompt, MeetingChatMessage};
use meeting_assistant::transcript::LiveTranscriptLine;

fn message(role: &str, content: &str) -> MeetingChatMessage {
    MeetingChatMessage { role: role.to_string(), content: content.to_string() }
}

fn spoken(text: &str) -> LiveTranscriptLine {
    LiveTranscriptLine { text: text.to_string(), audio_start_time: Some(60) }
}

fn session(messages: Vec<MeetingChatMessage>) -> ChatSession {
    api_chat_with_live_transcript(None, &[spoken("Hi")], "openai".to_string(), messages).unwrap()
}

fn asking() -> ChatSession {
    session(vec![message("user", " What now? ")])
}

fn knowing(kind: ProviderKind) -> Lookups {
    let mut known = Lookups::new();
    known.provider = Some(Ok(kind));
    known
}

fn request(session: &ChatSession, known: &Lookups) -> ChatRequest {
    match answer_question(session, known) {
        AnswerStep::Generate(request) => request,
        other => panic!("{:?}", other),
    }
}

fn failure(session: &ChatSession, known: &Lookups) -> String {
    match answer_question(session, known) {
        AnswerStep::Fail(reason) => reason,
        other => panic!("{:?}", other),
    }
}

#[test]
fn saved_meeting_is_loaded() {
    let meeting = StoredMeeting { title: "Sync".to_string(), lines: vec![spoken("Hi")] };
    let s = api_chat_with_meeting("m1", Ok(Some(meeting)), "ollama".to_string(), vec![]).unwrap();
    assert_eq!(s.title, "Sync");
    assert_eq!(s.transcript, "[1:00] Hi");
    assert_eq!(s.provider, "ollama");
    assert!(!s.live);
}

#[test]
fn saved_meeting_errors() {
    let e = api_chat_with_meeting("m1", Err("locked".to_string()), String::new(), vec![]);
    assert_eq!(e.unwrap_err(), "Failed to load meeting: locked");
    let e = api_chat_with_meeting("m1", Ok(None), String::new(), vec![]);
    assert_eq!(e.unwrap_err(), "Meeting m1 not found");
    let empty = StoredMeeting { title: "Sync".to_string(), lines: vec![spoken("  ")] };
    let e = api_chat_with_meeting("m1", Ok(Some(empty)), String::new(), vec![]);
    assert_eq!(e.unwrap_err(), "This meeting has no transcript to chat about");
}

#[test]
fn live_meeting_sessions() {
    let s = asking();
    assert_eq!(s.title, "the meeting in progress");
    assert!(s.live);
    let s = api_chat_with_live_transcript(
        Some("Sync".to_string()),
        &[spoken("Hi")],
        String::new(),
        vec![],
    );
    assert_eq!(s.unwrap().title, "Sync");
    let e = api_chat_with_live_transcript(None, &[], String::new(), vec![]);
    assert_eq!(e.unwrap_err(), "Nothing has been transcribed yet in this meeting");
}

#[test]
fn questions_are_found() {
    assert_eq!(question(&[message("user", " Why? ")]), Some("Why?".to_string()));
    assert_eq!(question(&[message("assistant", "Why?")]), None);
    assert_eq!(question(&[message("user", " \n")]), None);
    assert_eq!(question(&[message("User", "Why?")]), None);
    assert_eq!(question(&[]), None);
}

#[test]
fn chats_without_question_are_refused() {
    let reason = "The last chat message must be a non-empty user question";
    assert_eq!(failure(&session(vec![]), &Lookups::new()), reason);
    let answered = session(vec![message("user", "a"), message("assistant", "b")]);
    assert_eq!(failure(&answered, &knowing(ProviderKind::BuiltInAI)), reason);
}

#[test]
fn provider_is_identified_first() {
    let s = asking();
    assert!(matches!(
        answer_question(&s, &Lookups::new()),
        AnswerStep::IdentifyProvider
    ));
    let mut known = Lookups::new();
    known.provider = Some(Err("Unsupported LLM provider: x".to_string()));
    assert_eq!(failure(&s, &known), "Unsupported LLM provider: x");
}

#[test]
fn cloud_models_need_a_key() {
    let s = asking();
    let mut known = knowing(ProviderKind::Cloud);
    assert!(matches!(answer_question(&s, &known), AnswerStep::ReadApiKey));
    known.api_key = Some(Err("locked".to_string()));
    assert_eq!(failure(&s, &known), "Failed to retrieve API key for openai: locked");
    known.api_key = Some(Ok(None));
    assert_eq!(failure(&s, &known), "No API key configured for openai");
    known.api_key = Some(Ok(Some(String::new())));
    assert_eq!(failure(&s, &known), "No API key configured for openai");
    known.api_key = Some(Ok(Some("key".to_string())));
    let r = request(&s, &known);
    assert_eq!(r.api_key, "key");
    assert_eq!(r.provider, ProviderKind::Cloud);
    assert_eq!(r.ollama_endpoint, None);
    assert_eq!(r.custom_openai_endpoint, None);
    assert_eq!(r.custom_max_tokens, None);
    assert_eq!(r.user_prompt, "Question: What now?");
}

#[test]
fn keys_are_resolved() {
    assert_eq!(resolve_api_key("groq", &Ok(Some("k".to_string()))), Ok("k".to_string()));
    assert_eq!(
        resolve_api_key("groq", &Ok(None)),
        Err("No API key configured for groq".to_string())
    );
}

#[test]
fn ollama_is_asked_for_its_size() {
    let s = asking();
    let mut known = knowing(ProviderKind::Ollama);
    assert!(matches!(answer_question(&s, &known), AnswerStep::ReadOllamaEndpoint));
    known.ollama_endpoint = Some(Some("http://host".to_string()));
    match answer_question(&s, &known) {
        AnswerStep::ReadContextSize { endpoint } => {
            assert_eq!(endpoint, Some("http://host".to_string()))
        }
        other => panic!("{:?}", other),
    }
    known.context_size = Some(None);
    let r = request(&s, &known);
    assert_eq!(r.api_key, "");
    assert_eq!(r.ollama_endpoint, Some("http://host".to_string()));
}

#[test]
fn custom_server_settings() {
    let s = asking();
    let mut known = knowing(ProviderKind::CustomOpenAI);
    assert!(matches!(answer_question(&s, &known), AnswerStep::ReadCustomConfig));
    known.custom_openai = Some(Err("locked".to_string()));
    assert_eq!(failure(&s, &known), "Failed to retrieve custom OpenAI config: locked");
    known.custom_openai = Some(Ok(None));
    assert_eq!(
        failure(&s, &known),
        "Custom OpenAI provider selected but not configured"
    );
    known.custom_openai = Some(Ok(Some(CustomOpenAIConfig {
        endpoint: "http://me".to_string(),
        api_key: None,
        max_tokens: Some(-1),
    })));
    let r = request(&s, &known);
    assert_eq!(r.custom_openai_endpoint, Some("http://me".to_string()));
    assert_eq!(r.api_key, "");
    assert_eq!(r.custom_max_tokens, Some(u32::MAX));
    known.custom_openai = Some(Ok(Some(CustomOpenAIConfig {
        endpoint: "http://me".to_string(),
        api_key: Some("k".to_string()),
        max_tokens: Some(4096),
    })));
    let r = request(&s, &known);
    assert_eq!(r.api_key, "k");
    assert_eq!(r.custom_max_tokens, Some(4096));
}

#[test]
fn built_in_model_needs_nothing() {
    let r = request(&asking(), &knowing(ProviderKind::BuiltInAI));
    assert_eq!(r.api_key, "");
    assert!(r.system_prompt.ends_with("TRANSCRIPT:\n[1:00] Hi"));
}

#[test]
fn transcript_budgets() {
    let ollama = |size| max_transcript_chars(ProviderKind::Ollama, size);
    assert_eq!(ollama(None), 16_000);
    assert_eq!(ollama(Some(0)), 8_000);
    assert_eq!(ollama(Some(3500)), 8_000);
    assert_eq!(ollama(Some(3501)), 8_004);
    assert_eq!(ollama(Some(usize::MAX)), usize::MAX);
    assert_eq!(max_transcript_chars(ProviderKind::BuiltInAI, None), 24_000);
    assert_eq!(max_transcript_chars(ProviderKind::CustomOpenAI, None), 100_000);
    assert_eq!(max_transcript_chars(ProviderKind::Cloud, Some(1)), 100_000);
}

#[test]
fn long_transcripts_are_cut_for_the_model() {
    let s = api_chat_with_live_transcript(
        None,
        &[spoken(&"x".repeat(30_000))],
        String::new(),
        vec![message("user", "q")],
    )
    .unwrap();
    let r = request(&s, &knowing(ProviderKind::BuiltInAI));
    assert!(r.system_prompt.contains("middle of the transcript omitted"));
    assert!(r.system_prompt.len() < 26_000);
}

#[test]
fn system_prompt_of_an_ended_meeting() {
    assert_eq!(
        system_prompt("Sync {}", false, "[0:01] Hi"),
        "You are Meetily's meeting assistant. Answer the user's questions about the meeting \
         \"Sync {}\" using ONLY the transcript below.\n\
         \n\
         This meeting has ended and the transcript below is the complete record of it.\n\
         \n\
         Rules:\n\
         - Ground every answer in the transcript; quote or paraphrase what was actually said.\n\
         - If the transcript does not contain the answer, say so plainly instead of guessing.\n\
         - Lines may start with a timestamp like [12:34] marking when they were said; use \
         timestamps when the user asks when something happened.\n\
         - Be concise and direct.\n\
         \n\
         TRANSCRIPT:\n\
         [0:01] Hi"
    );
}

#[test]
fn system_prompt_of_a_live_meeting() {
    assert!(system_prompt("Sync", true, "t").contains(
        "\n\nThis meeting is happening RIGHT NOW and the transcript below covers only what has \
         been said so far. Treat it as the meeting up to this moment; more will follow. \
         The user is often catching up on something they just missed, so favour the most \
         recent part of the transcript unless they ask about something earlier.\n\nRules:\n"
    ));
}

#[test]
fn earlier_turns_are_shown() {
    let messages = [
        message("user", " Who? "),
        message("assistant", "Ann."),
        message("system", "x"),
        message("user", "When?"),
    ];
    assert_eq!(
        user_prompt(&messages, "When?"),
        "Conversation so far:\nUser: Who?\nAssistant: Ann.\nUser: x\n\nQuestion: When?"
    );
}

#[test]
fn only_the_latest_turns_are_shown() {
    let mut messages: Vec<MeetingChatMessage> =
        (0..20).map(|i| message("user", &format!("m{}", i))).collect();
    messages.push(message("user", "q"));
    let prompt = user_prompt(&messages, "q");
    assert!(prompt.starts_with("Conversation so far:\nUser: m8\nUser: m9\n"));
    assert!(prompt.ends_with("User: m19\n\nQuestion: q"));
}

#[test]
fn long_turns_are_cut() {
    let exact = "y".repeat(2000);
    let prompt = user_prompt(&[message("user", &exact), message("user", "q")], "q");
    assert!(prompt.contains(&format!("User: {}\n", exact)));
    // The cut would fall into a character of two bytes.
    let long = format!("y{}", "\u{e4}".repeat(1200));
    let prompt = user_prompt(&[message("assistant", &long), message("user", "q")], "q");
    let shown = format!("Assistant: y{}...\n", "\u{e4}".repeat(999));
    assert!(prompt.contains(&shown));
}

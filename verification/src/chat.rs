//! Questions and answers about a meeting, on the basis of its transcript.

use vstd::prelude::*;
use vstd::string::*;

use crate::prompt;
use crate::prompt::MeetingChatMessage;
use crate::text;
use crate::transcript;
use crate::transcript::LiveTranscriptLine;

verus! {

/// A meeting as it was saved.
#[derive(Debug)]
pub struct StoredMeeting {
    pub title: String,
    pub lines: Vec<LiveTranscriptLine>,
}

/// A question about a meeting, before it is put to the model.
#[derive(Debug)]
pub struct ChatSession {
    pub title: String,
    pub transcript: String,
    /// Name of the provider of the model.
    pub provider: String,
    /// The chat in order; the last message is the question.
    pub messages: Vec<MeetingChatMessage>,
    /// Whether the meeting goes on.
    pub live: bool,
}

/// `session` asks about the meeting `title` with the transcript `spoken`.
pub open spec fn asks_about(
    session: ChatSession,
    title: Seq<char>,
    spoken: Seq<char>,
    provider: String,
    messages: Vec<MeetingChatMessage>,
    live: bool,
) -> bool {
    &&& session.title@ == title
    &&& session.transcript@ == spoken
    &&& session.provider == provider
    &&& session.messages == messages
    &&& session.live == live
}

/// Prepares a question about the saved meeting `meeting_id`. `loaded` is what
/// came of loading it: the meeting, if there is one, or the text of the error.
/// `messages` is the chat history in order.
pub fn api_chat_with_meeting(
    meeting_id: &str,
    loaded: Result<Option<StoredMeeting>, String>,
    provider: String,
    messages: Vec<MeetingChatMessage>,
) -> (res: Result<ChatSession, String>)
    ensures
        match loaded {
            Err(error) => res matches Err(m) && m@ == "Failed to load meeting: "@ + error@,
            Ok(None) => res matches Err(m) && m@ == "Meeting "@ + meeting_id@ + " not found"@,
            Ok(Some(meeting)) => {
                let spoken = transcript::transcript_text(meeting.lines@);
                if spoken.len() == 0 {
                    res matches Err(m) && m@ == "This meeting has no transcript to chat about"@
                } else {
                    res matches Ok(session) && asks_about(
                        session,
                        meeting.title@,
                        spoken,
                        provider,
                        messages,
                        false,
                    )
                }
            },
        },
{
    match loaded {
        Err(error) => Err(text::joined("Failed to load meeting: ", error.as_str())),
        Ok(None) => {
            let mut message = text::joined("Meeting ", meeting_id);
            message.append(" not found");
            Err(message)
        },
        Ok(Some(meeting)) => {
            let spoken = transcript::build_transcript(meeting.lines.as_slice());
            if spoken.as_str().is_empty() {
                return Err("This meeting has no transcript to chat about".to_owned());
            }
            Ok(
                ChatSession {
                    title: meeting.title,
                    transcript: spoken,
                    provider,
                    messages,
                    live: false,
                },
            )
        },
    }
}

/// The title of a meeting that has none yet.
pub const LIVE_TITLE: &'static str = "the meeting in progress";

/// Prepares a question about the meeting that is being recorded, on the basis
/// of the lines captured so far.
pub fn api_chat_with_live_transcript(
    title: Option<String>,
    lines: &[LiveTranscriptLine],
    provider: String,
    messages: Vec<MeetingChatMessage>,
) -> (res: Result<ChatSession, String>)
    ensures
        ({
            let spoken = transcript::transcript_text(lines@);
            let named = match title {
                Some(t) => t@,
                None => LIVE_TITLE@,
            };
            if spoken.len() == 0 {
                res matches Err(m) && m@ == "Nothing has been transcribed yet in this meeting"@
            } else {
                res matches Ok(session) && asks_about(
                    session,
                    named,
                    spoken,
                    provider,
                    messages,
                    true,
                )
            }
        }),
{
    let spoken = transcript::build_transcript(lines);
    if spoken.as_str().is_empty() {
        return Err("Nothing has been transcribed yet in this meeting".to_owned());
    }
    let title = match title {
        Some(t) => t,
        None => LIVE_TITLE.to_owned(),
    };
    Ok(ChatSession { title, transcript: spoken, provider, messages, live: true })
}

/// A provider of models, as far as it matters for how a question is put.
#[derive(Debug, Clone, Copy, PartialEq, Eq, Structural)]
pub enum ProviderKind {
    /// A local server, whose models differ in how much they can take in.
    Ollama,
    /// The model that comes with the application.
    BuiltInAI,
    /// A server of the user's choice that speaks the protocol of OpenAI.
    CustomOpenAI,
    /// Any other, reached with an API key.
    Cloud,
}

/// The server of the user's choice.
#[derive(Debug)]
pub struct CustomOpenAIConfig {
    pub endpoint: String,
    pub api_key: Option<String>,
    pub max_tokens: Option<i32>,
}

/// What has been looked up so far for a question. Each field is `None` until it
/// was looked up; an error is given by its text.
#[derive(Debug)]
pub struct Lookups {
    /// What kind of provider the name of the provider stands for.
    pub provider: Option<Result<ProviderKind, String>>,
    /// The API key in the settings, if one is there.
    pub api_key: Option<Result<Option<String>, String>>,
    /// The address of the Ollama server in the settings, if one could be read.
    pub ollama_endpoint: Option<Option<String>>,
    /// The server of the user's choice in the settings, if one is there.
    pub custom_openai: Option<Result<Option<CustomOpenAIConfig>, String>>,
    /// How many tokens the model can take in, if it could be found out.
    pub context_size: Option<Option<usize>>,
}

/// What is put to the model.
#[derive(Debug)]
pub struct ChatRequest {
    pub provider: ProviderKind,
    pub api_key: String,
    pub system_prompt: String,
    pub user_prompt: String,
    pub ollama_endpoint: Option<String>,
    pub custom_openai_endpoint: Option<String>,
    pub custom_max_tokens: Option<u32>,
}

/// What to do next for a question.
#[derive(Debug)]
pub enum AnswerStep {
    IdentifyProvider,
    ReadApiKey,
    ReadOllamaEndpoint,
    ReadCustomConfig,
    /// Find out how many tokens the model can take in, from the Ollama server
    /// at this address, or at the usual one.
    ReadContextSize { endpoint: Option<String> },
    /// Put this to the model.
    Generate(ChatRequest),
    /// The question cannot be answered, for the reason given.
    Fail(String),
}

/// What is put to the model, by content.
pub struct RequestModel {
    pub provider: ProviderKind,
    pub api_key: Seq<char>,
    pub system_prompt: Seq<char>,
    pub user_prompt: Seq<char>,
    pub ollama_endpoint: Option<Seq<char>>,
    pub custom_openai_endpoint: Option<Seq<char>>,
    pub custom_max_tokens: Option<u32>,
}

/// What to do next for a question, by content.
pub enum StepModel {
    IdentifyProvider,
    ReadApiKey,
    ReadOllamaEndpoint,
    ReadCustomConfig,
    ReadContextSize { endpoint: Option<Seq<char>> },
    Generate(RequestModel),
    Fail(Seq<char>),
}

/// A text that may be missing, by content.
pub open spec fn content_of(s: Option<String>) -> Option<Seq<char>> {
    match s {
        Some(t) => Some(t@),
        None => None,
    }
}

impl View for ChatRequest {
    type V = RequestModel;

    open spec fn view(&self) -> RequestModel {
        RequestModel {
            provider: self.provider,
            api_key: self.api_key@,
            system_prompt: self.system_prompt@,
            user_prompt: self.user_prompt@,
            ollama_endpoint: content_of(self.ollama_endpoint),
            custom_openai_endpoint: content_of(self.custom_openai_endpoint),
            custom_max_tokens: self.custom_max_tokens,
        }
    }
}

impl View for AnswerStep {
    type V = StepModel;

    open spec fn view(&self) -> StepModel {
        match *self {
            AnswerStep::IdentifyProvider => StepModel::IdentifyProvider,
            AnswerStep::ReadApiKey => StepModel::ReadApiKey,
            AnswerStep::ReadOllamaEndpoint => StepModel::ReadOllamaEndpoint,
            AnswerStep::ReadCustomConfig => StepModel::ReadCustomConfig,
            AnswerStep::ReadContextSize { endpoint } => StepModel::ReadContextSize {
                endpoint: content_of(endpoint),
            },
            AnswerStep::Generate(request) => StepModel::Generate(request@),
            AnswerStep::Fail(reason) => StepModel::Fail(reason@),
        }
    }
}

/// Why a chat is refused that does not end with a question.
pub const NO_QUESTION: &'static str = "The last chat message must be a non-empty user question";

/// Why a question is refused for a server that the user has not set up.
pub const CUSTOM_NOT_CONFIGURED: &'static str =
    "Custom OpenAI provider selected but not configured";

/// Tokens that are kept free for the system prompt, the history and the answer.
pub const RESERVED_TOKENS: usize = 1500;

/// How much of a transcript, in bytes, a model of this kind is shown, at about
/// four bytes for a token. Local models are the tight case; the others get a
/// generous fixed cap. `context_size` is how many tokens the model can take in,
/// where known.
pub open spec fn transcript_budget(kind: ProviderKind, context_size: Option<usize>) -> nat {
    match kind {
        ProviderKind::Ollama => match context_size {
            Some(tokens) => {
                let free: int = if tokens > RESERVED_TOKENS {
                    tokens - RESERVED_TOKENS
                } else {
                    0
                };
                let bytes: int = if free * 4 > usize::MAX {
                    usize::MAX as int
                } else {
                    free * 4
                };
                if bytes > 8000 {
                    bytes as nat
                } else {
                    8000
                }
            },
            None => 16000,
        },
        ProviderKind::BuiltInAI => 24000,
        ProviderKind::CustomOpenAI => 100000,
        ProviderKind::Cloud => 100000,
    }
}

/// How much of a transcript, in bytes, a model of this kind is shown.
pub fn max_transcript_chars(kind: ProviderKind, context_size: Option<usize>) -> (res: usize)
    ensures
        res == transcript_budget(kind, context_size),
{
    match kind {
        ProviderKind::Ollama => match context_size {
            Some(tokens) => {
                let free: usize = tokens.saturating_sub(RESERVED_TOKENS);
                let bytes: usize = match free.checked_mul(4) {
                    Some(b) => b,
                    None => usize::MAX,
                };
                if bytes > 8000 {
                    bytes
                } else {
                    8000
                }
            },
            None => 16000,
        },
        ProviderKind::BuiltInAI => 24000,
        ProviderKind::CustomOpenAI => 100000,
        ProviderKind::Cloud => 100000,
    }
}

/// The API key for a provider that needs one, given what was found in the
/// settings, or why there is none.
pub open spec fn key_for(
    provider: Seq<char>,
    found: Result<Option<String>, String>,
) -> Result<Seq<char>, Seq<char>> {
    match found {
        Ok(Some(key)) => if key@.len() > 0 {
            Ok(key@)
        } else {
            Err("No API key configured for "@ + provider)
        },
        Ok(None) => Err("No API key configured for "@ + provider),
        Err(error) => Err("Failed to retrieve API key for "@ + provider + ": "@ + error@),
    }
}

/// The API key for the provider named `provider`, which needs one, given what
/// was found in the settings, or why there is none.
pub fn resolve_api_key(provider: &str, found: &Result<Option<String>, String>) -> (res: Result<
    String,
    String,
>)
    ensures
        match res {
            Ok(key) => key_for(provider@, *found) == Ok::<Seq<char>, Seq<char>>(key@),
            Err(reason) => key_for(provider@, *found) == Err::<Seq<char>, Seq<char>>(reason@),
        },
{
    match found {
        Ok(Some(key)) => if key.as_str().is_empty() {
            Err(text::joined("No API key configured for ", provider))
        } else {
            Ok(key.clone())
        },
        Ok(None) => Err(text::joined("No API key configured for ", provider)),
        Err(error) => {
            let mut reason = text::joined("Failed to retrieve API key for ", provider);
            reason.append(": ");
            reason.append(error.as_str());
            Err(reason)
        },
    }
}

/// `tokens` as an unsigned number: one below zero counts down from the top.
pub open spec fn unsigned(tokens: i32) -> u32 {
    if tokens >= 0 {
        tokens as u32
    } else {
        (tokens + 0x1_0000_0000) as u32
    }
}

/// `tokens` as an unsigned number: one below zero counts down from the top.
fn to_unsigned(tokens: i32) -> (res: u32)
    ensures
        res == unsigned(tokens),
{
    if tokens >= 0 {
        tokens as u32
    } else {
        (tokens as i64 + 0x1_0000_0000) as u32
    }
}

/// The server of the user's choice, given what was found in the settings, or
/// why there is none.
pub open spec fn custom_for(
    found: Result<Option<CustomOpenAIConfig>, String>,
) -> Result<CustomOpenAIConfig, Seq<char>> {
    match found {
        Ok(Some(config)) => Ok(config),
        Ok(None) => Err(CUSTOM_NOT_CONFIGURED@),
        Err(error) => Err("Failed to retrieve custom OpenAI config: "@ + error@),
    }
}

/// The system prompt for `session` with as much of the transcript as a model of
/// this kind is shown.
pub open spec fn session_prompt(
    session: ChatSession,
    kind: ProviderKind,
    context_size: Option<usize>,
) -> Seq<char> {
    prompt::system_prompt_for(
        session.title@,
        session.live,
        transcript::truncated(session.transcript@, transcript_budget(kind, context_size)),
    )
}

/// What is put to the model when all that it takes is known. `api_key`,
/// `ollama_endpoint` and `custom` are those of the provider.
pub open spec fn request_for(
    session: ChatSession,
    asked: Seq<char>,
    kind: ProviderKind,
    api_key: Seq<char>,
    ollama_endpoint: Option<Seq<char>>,
    custom: Option<CustomOpenAIConfig>,
    context_size: Option<usize>,
) -> RequestModel {
    RequestModel {
        provider: kind,
        api_key,
        system_prompt: session_prompt(session, kind, context_size),
        user_prompt: prompt::user_prompt_for(session.messages@, asked),
        ollama_endpoint,
        custom_openai_endpoint: match custom {
            Some(config) => Some(config.endpoint@),
            None => None,
        },
        custom_max_tokens: match custom {
            Some(config) => match config.max_tokens {
                Some(tokens) => Some(unsigned(tokens)),
                None => None,
            },
            None => None,
        },
    }
}

/// The next step for the question `asked` to a provider of this kind.
pub open spec fn step_for_kind(
    session: ChatSession,
    asked: Seq<char>,
    kind: ProviderKind,
    known: Lookups,
) -> StepModel {
    match kind {
        ProviderKind::Cloud => match known.api_key {
            None => StepModel::ReadApiKey,
            Some(found) => match key_for(session.provider@, found) {
                Err(reason) => StepModel::Fail(reason),
                Ok(key) => StepModel::Generate(
                    request_for(session, asked, kind, key, None, None, None),
                ),
            },
        },
        ProviderKind::Ollama => match (known.ollama_endpoint, known.context_size) {
            (None, _) => StepModel::ReadOllamaEndpoint,
            (Some(endpoint), None) => StepModel::ReadContextSize {
                endpoint: content_of(endpoint),
            },
            (Some(endpoint), Some(size)) => StepModel::Generate(
                request_for(
                    session,
                    asked,
                    kind,
                    Seq::empty(),
                    content_of(endpoint),
                    None,
                    size,
                ),
            ),
        },
        ProviderKind::CustomOpenAI => match known.custom_openai {
            None => StepModel::ReadCustomConfig,
            Some(found) => match custom_for(found) {
                Err(reason) => StepModel::Fail(reason),
                Ok(config) => StepModel::Generate(
                    request_for(
                        session,
                        asked,
                        kind,
                        match config.api_key {
                            Some(key) => key@,
                            None => Seq::empty(),
                        },
                        None,
                        Some(config),
                        None,
                    ),
                ),
            },
        },
        ProviderKind::BuiltInAI => StepModel::Generate(
            request_for(session, asked, kind, Seq::empty(), None, None, None),
        ),
    }
}

/// The next step for the question of `session`, given what is known.
pub open spec fn next_step(session: ChatSession, known: Lookups) -> StepModel {
    match prompt::question_of(session.messages@) {
        None => StepModel::Fail(NO_QUESTION@),
        Some(asked) => match known.provider {
            None => StepModel::IdentifyProvider,
            Some(Err(reason)) => StepModel::Fail(reason@),
            Some(Ok(kind)) => step_for_kind(session, asked, kind, known),
        },
    }
}

impl Lookups {
    /// Nothing was looked up yet.
    pub fn new() -> (res: Self)
        ensures
            res == (Lookups {
                provider: None,
                api_key: None,
                ollama_endpoint: None,
                custom_openai: None,
                context_size: None,
            }),
    {
        Lookups {
            provider: None,
            api_key: None,
            ollama_endpoint: None,
            custom_openai: None,
            context_size: None,
        }
    }
}

/// What is put to the model when all that it takes is known.
fn build_request(
    session: &ChatSession,
    asked: &str,
    kind: ProviderKind,
    api_key: String,
    ollama_endpoint: Option<String>,
    custom: Option<&CustomOpenAIConfig>,
    context_size: Option<usize>,
) -> (res: ChatRequest)
    requires
        session.messages@.len() > 0,
    ensures
        res@ == request_for(
            *session,
            asked@,
            kind,
            api_key@,
            content_of(ollama_endpoint),
            match custom {
                Some(config) => Some(*config),
                None => None,
            },
            context_size,
        ),
{
    let budget: usize = max_transcript_chars(kind, context_size);
    let shown = transcript::truncate_transcript(session.transcript.as_str(), budget);
    let (endpoint, max_tokens) = match custom {
        Some(config) => (
            Some(config.endpoint.clone()),
            match config.max_tokens {
                Some(tokens) => Some(to_unsigned(tokens)),
                None => None,
            },
        ),
        None => (None, None),
    };
    ChatRequest {
        provider: kind,
        api_key,
        system_prompt: prompt::system_prompt(
            session.title.as_str(),
            session.live,
            shown.as_str(),
        ),
        user_prompt: prompt::user_prompt(session.messages.as_slice(), asked),
        ollama_endpoint,
        custom_openai_endpoint: endpoint,
        custom_max_tokens: max_tokens,
    }
}

/// What to do next to answer the question of `session`, given what was looked
/// up so far. Asking again after each step, with what the step has brought,
/// leads to what is put to the model, or to the reason why nothing is.
pub fn answer_question(session: &ChatSession, known: &Lookups) -> (res: AnswerStep)
    ensures
        res@ == next_step(*session, *known),
{
    let asked = match prompt::question(session.messages.as_slice()) {
        Some(q) => q,
        None => {
            return AnswerStep::Fail(NO_QUESTION.to_owned());
        },
    };
    let kind = match &known.provider {
        None => {
            return AnswerStep::IdentifyProvider;
        },
        Some(Err(reason)) => {
            return AnswerStep::Fail(reason.clone());
        },
        Some(Ok(kind)) => *kind,
    };
    match kind {
        ProviderKind::Cloud => match &known.api_key {
            None => AnswerStep::ReadApiKey,
            Some(found) => match resolve_api_key(session.provider.as_str(), found) {
                Err(reason) => AnswerStep::Fail(reason),
                Ok(key) => AnswerStep::Generate(
                    build_request(session, asked.as_str(), kind, key, None, None, None),
                ),
            },
        },
        ProviderKind::Ollama => match &known.ollama_endpoint {
            None => AnswerStep::ReadOllamaEndpoint,
            Some(endpoint) => match known.context_size {
                None => AnswerStep::ReadContextSize { endpoint: endpoint.clone() },
                Some(size) => AnswerStep::Generate(
                    build_request(
                        session,
                        asked.as_str(),
                        kind,
                        String::new(),
                        endpoint.clone(),
                        None,
                        size,
                    ),
                ),
            },
        },
        ProviderKind::CustomOpenAI => match &known.custom_openai {
            None => AnswerStep::ReadCustomConfig,
            Some(Err(error)) => AnswerStep::Fail(
                text::joined("Failed to retrieve custom OpenAI config: ", error.as_str()),
            ),
            Some(Ok(None)) => AnswerStep::Fail(CUSTOM_NOT_CONFIGURED.to_owned()),
            Some(Ok(Some(config))) => {
                let key = match &config.api_key {
                    Some(key) => key.clone(),
                    None => String::new(),
                };
                AnswerStep::Generate(
                    build_request(session, asked.as_str(), kind, key, None, Some(config), None),
                )
            },
        },
        ProviderKind::BuiltInAI => AnswerStep::Generate(
            build_request(session, asked.as_str(), kind, String::new(), None, None, None),
        ),
    }
}

/// A chat that does not end with a question is refused at once: nothing is
/// looked up for it.
pub proof fn law_no_question_no_lookup(session: ChatSession, known: Lookups)
    requires
        prompt::question_of(session.messages@) is None,
    ensures
        next_step(session, known) == StepModel::Fail(NO_QUESTION@),
{
}

/// A step is an end: the question is put to the model, or refused.
pub open spec fn is_end(step: StepModel) -> bool {
    step is Generate || step is Fail
}

/// Each step asks for something that is not known yet, and there is an end once
/// everything is known: answering step by step comes to an end.
pub proof fn law_steps_come_to_an_end(session: ChatSession, known: Lookups)
    ensures
        match next_step(session, known) {
            StepModel::IdentifyProvider => known.provider is None,
            StepModel::ReadApiKey => known.api_key is None,
            StepModel::ReadOllamaEndpoint => known.ollama_endpoint is None,
            StepModel::ReadCustomConfig => known.custom_openai is None,
            StepModel::ReadContextSize { .. } => known.context_size is None,
            StepModel::Generate(_) => true,
            StepModel::Fail(_) => true,
        },
        (known.provider is Some && known.api_key is Some && known.ollama_endpoint is Some
            && known.custom_openai is Some && known.context_size is Some) ==> is_end(
            next_step(session, known),
        ),
{
}

/// `more` knows all that `known` knows.
pub open spec fn extends(more: Lookups, known: Lookups) -> bool {
    &&& known.provider is Some ==> more.provider == known.provider
    &&& known.api_key is Some ==> more.api_key == known.api_key
    &&& known.ollama_endpoint is Some ==> more.ollama_endpoint == known.ollama_endpoint
    &&& known.custom_openai is Some ==> more.custom_openai == known.custom_openai
    &&& known.context_size is Some ==> more.context_size == known.context_size
}

/// What is put to the model, or refused, rests on what was asked for alone:
/// knowing more would not have changed it.
pub proof fn law_end_is_final(session: ChatSession, known: Lookups, more: Lookups)
    requires
        is_end(next_step(session, known)),
        extends(more, known),
    ensures
        next_step(session, more) == next_step(session, known),
{
}

/// Models that run locally need no API key: none is read for them and none is
/// sent.
pub proof fn law_local_models_need_no_key(session: ChatSession, known: Lookups)
    requires
        known.provider == Some(Ok::<ProviderKind, String>(ProviderKind::Ollama)) || known.provider
            == Some(Ok::<ProviderKind, String>(ProviderKind::BuiltInAI)),
    ensures
        !(next_step(session, known) is ReadApiKey),
        next_step(session, known) matches StepModel::Generate(request) ==> request.api_key.len()
            == 0,
{
}

/// A question never goes to another kind of provider without a key: it is put
/// to the model only with a key that is not empty.
pub proof fn law_cloud_models_get_a_key(session: ChatSession, known: Lookups)
    requires
        known.provider == Some(Ok::<ProviderKind, String>(ProviderKind::Cloud)),
    ensures
        next_step(session, known) matches StepModel::Generate(request) ==> request.api_key.len()
            > 0,
{
}

/// Whatever the size of a model, it is shown a useful part of the transcript,
/// and a larger model is never shown less.
pub proof fn law_budget_grows_with_model(smaller: usize, larger: usize)
    requires
        smaller <= larger,
    ensures
        8000 <= transcript_budget(ProviderKind::Ollama, Some(smaller)) <= transcript_budget(
            ProviderKind::Ollama,
            Some(larger),
        ) <= usize::MAX,
{
}

/// The transcript that the model is shown keeps to the budget, with the mark of
/// what was left out where it was cut; and one that fits is shown whole.
pub proof fn law_shown_transcript_keeps_to_budget(
    session: ChatSession,
    kind: ProviderKind,
    context_size: Option<usize>,
)
    ensures
        ({
            let budget = transcript_budget(kind, context_size);
            let whole = session.transcript@;
            let shown = transcript::truncated(whole, budget);
            &&& session_prompt(session, kind, context_size) == prompt::system_prompt_for(
                session.title@,
                session.live,
                shown,
            )
            &&& text::byte_len(whole) <= budget ==> shown == whole
            &&& text::byte_len(shown) <= budget + text::byte_len(transcript::OMITTED@)
        }),
{
    let budget = transcript_budget(kind, context_size);
    if text::byte_len(session.transcript@) > budget {
        transcript::law_truncated_keeps_both_ends(session.transcript@, budget);
    }
}

/// There is a session exactly when something was said: a chat about a meeting
/// in which every line is blank is refused.
pub proof fn law_session_needs_spoken_line(lines: Seq<LiveTranscriptLine>)
    ensures
        transcript::transcript_text(lines).len() > 0 <==> exists|i: int|
            0 <= i < lines.len() && !transcript::blank(#[trigger] lines[i]),
{
    transcript::law_transcript_empty_iff_all_blank(lines);
}

/// Whatever is put to the model, its prompt ends with the question of the user,
/// and before it, in order, tells each of the latest twelve earlier turns.
pub proof fn law_request_holds_the_conversation(session: ChatSession, known: Lookups)
    requires
        next_step(session, known) is Generate,
    ensures
        session.messages@.len() > 0,
        session.messages@.last().role@ == "user"@,
        prompt::puts_question(
            next_step(session, known)->Generate_0.user_prompt,
            session.messages@.drop_last(),
            text::trimmed(session.messages@.last().content@),
        ),
{
    prompt::law_last_user_message_is_the_question(session.messages@);
    prompt::law_earlier_turns_reach_the_model(
        session.messages@,
        text::trimmed(session.messages@.last().content@),
    );
}

/// What was said in an earlier turn, one of the latest twelve, occurs in what is
/// put to the model.
pub proof fn law_request_tells_each_earlier_turn(
    session: ChatSession,
    known: Lookups,
    i: int,
) -> (line: Seq<char>)
    requires
        next_step(session, known) is Generate,
        0 <= i < session.messages@.len() - 1,
        session.messages@.len() - 1 - i <= 12,
    ensures
        prompt::tells_turn(line, session.messages@[i]),
        text::occurs_in(line, next_step(session, known)->Generate_0.user_prompt),
{
    prompt::law_last_user_message_is_the_question(session.messages@);
    prompt::law_earlier_turn_occurs_in_prompt(
        session.messages@,
        text::trimmed(session.messages@.last().content@),
        i,
    )
}

/// How many bytes of the transcript the model is to be shown: four for each
/// token that a model of Ollama has beyond fifteen hundred, eight thousand at
/// least, and sixteen thousand where its size is not known; and fixed amounts
/// for the others.
pub proof fn law_budget_of_each_kind(tokens: usize)
    ensures
        ({
            let budget = transcript_budget(ProviderKind::Ollama, Some(tokens)) as int;
            let fitting = (tokens - 1500) * 4;
            &&& fitting <= 8000 ==> budget == 8000
            &&& 8000 < fitting <= usize::MAX ==> budget == fitting
            &&& fitting > usize::MAX ==> budget == usize::MAX
        }),
        transcript_budget(ProviderKind::Ollama, None) == 16000,
        forall|size: Option<usize>|
            #[trigger] transcript_budget(ProviderKind::BuiltInAI, size) == 24000,
        forall|size: Option<usize>|
            #[trigger] transcript_budget(ProviderKind::CustomOpenAI, size) == 100000,
        forall|size: Option<usize>|
            #[trigger] transcript_budget(ProviderKind::Cloud, size) == 100000,
{
}

/// The size of the model that the budget goes by: for Ollama the one that was
/// found, and for no other kind one.
pub open spec fn size_found(known: Lookups) -> Option<usize> {
    match (known.provider, known.context_size) {
        (Some(Ok(ProviderKind::Ollama)), Some(size)) => size,
        _ => None,
    }
}

/// What is put to the model tells it of the meeting of the session, with as much
/// of its transcript as a model of that kind and size is to be shown.
pub proof fn law_request_tells_the_meeting(session: ChatSession, known: Lookups)
    requires
        next_step(session, known) is Generate,
    ensures
        known.provider == Some(
            Ok::<ProviderKind, String>(next_step(session, known)->Generate_0.provider),
        ),
        ({
            let request = next_step(session, known)->Generate_0;
            request.system_prompt == prompt::system_prompt_for(
                session.title@,
                session.live,
                transcript::truncated(
                    session.transcript@,
                    transcript_budget(request.provider, size_found(known)),
                ),
            )
        }),
{
}

/// What is put to the model carries what was found for its provider, and
/// nothing that belongs to another: the key in the settings or that of the
/// user's server, the addresses, and the cap on tokens as the same number in 32
/// bits.
pub proof fn law_request_carries_what_was_found(session: ChatSession, known: Lookups)
    requires
        next_step(session, known) is Generate,
    ensures
        ({
            let request = next_step(session, known)->Generate_0;
            match request.provider {
                ProviderKind::Cloud => {
                    &&& known.api_key matches Some(Ok(Some(key))) && request.api_key == key@
                    &&& request.ollama_endpoint is None
                    &&& request.custom_openai_endpoint is None
                    &&& request.custom_max_tokens is None
                },
                ProviderKind::Ollama => {
                    &&& request.api_key.len() == 0
                    &&& known.ollama_endpoint matches Some(endpoint) && match endpoint {
                        Some(address) => request.ollama_endpoint == Some(address@),
                        None => request.ollama_endpoint is None,
                    }
                    &&& known.context_size is Some
                    &&& request.custom_openai_endpoint is None
                    &&& request.custom_max_tokens is None
                },
                ProviderKind::CustomOpenAI => {
                    &&& known.custom_openai matches Some(Ok(Some(config)))
                    &&& request.custom_openai_endpoint == Some(config.endpoint@)
                    &&& match config.api_key {
                        Some(key) => request.api_key == key@,
                        None => request.api_key.len() == 0,
                    }
                    &&& match config.max_tokens {
                        Some(tokens) => request.custom_max_tokens matches Some(cap) && (cap
                            == tokens || cap == tokens + 0x1_0000_0000),
                        None => request.custom_max_tokens is None,
                    }
                    &&& request.ollama_endpoint is None
                },
                ProviderKind::BuiltInAI => {
                    &&& request.api_key.len() == 0
                    &&& request.ollama_endpoint is None
                    &&& request.custom_openai_endpoint is None
                    &&& request.custom_max_tokens is None
                },
            }
        }),
{
}

/// A question is refused for one of these reasons, and for no other: there is
/// none, the provider is unknown, or what the provider needs could not be read
/// or is not there.
pub proof fn law_refusals_have_their_reason(session: ChatSession, known: Lookups)
    requires
        next_step(session, known) is Fail,
    ensures
        ({
            let reason = next_step(session, known)->Fail_0;
            let messages = session.messages@;
            ||| reason == "The last chat message must be a non-empty user question"@ && (
            messages.len() == 0 || messages.last().role@ != "user"@ || text::all_white(
                messages.last().content@,
            ))
            ||| known.provider matches Some(Err(error)) && reason == error@
            ||| known.provider == Some(Ok::<ProviderKind, String>(ProviderKind::Cloud)) && (
            known.api_key matches Some(Err(error)) && reason == "Failed to retrieve API key for "@
                + session.provider@ + ": "@ + error@)
            ||| known.provider == Some(Ok::<ProviderKind, String>(ProviderKind::Cloud)) && (
            known.api_key matches Some(Ok(key)) && (key is None || key->0@.len() == 0) && reason
                == "No API key configured for "@ + session.provider@)
            ||| known.provider == Some(Ok::<ProviderKind, String>(ProviderKind::CustomOpenAI)) && (
            known.custom_openai matches Some(Err(error)) && reason
                == "Failed to retrieve custom OpenAI config: "@ + error@)
            ||| known.provider == Some(Ok::<ProviderKind, String>(ProviderKind::CustomOpenAI)) && (
            known.custom_openai matches Some(Ok(config)) && config is None && reason
                == "Custom OpenAI provider selected but not configured"@)
        }),
{
    prompt::law_last_user_message_is_the_question(session.messages@);
}

/// A chat without a question is refused for that; and one with a question is
/// answered once all that its provider needs was found.
pub proof fn law_question_is_answered_when_all_is_found(session: ChatSession, known: Lookups)
    ensures
        ({
            let messages = session.messages@;
            let asks = messages.len() > 0 && messages.last().role@ == "user"@ && !text::all_white(
                messages.last().content@,
            );
            let step = next_step(session, known);
            &&& !asks ==> step == StepModel::Fail(
                "The last chat message must be a non-empty user question"@,
            )
            &&& asks ==> (step is Generate <==> match known.provider {
                Some(Ok(ProviderKind::BuiltInAI)) => true,
                Some(Ok(ProviderKind::Ollama)) => known.ollama_endpoint is Some
                    && known.context_size is Some,
                Some(Ok(ProviderKind::CustomOpenAI)) => known.custom_openai matches Some(
                    Ok(Some(_)),
                ),
                Some(Ok(ProviderKind::Cloud)) => known.api_key matches Some(Ok(Some(key)))
                    && key@.len() > 0,
                _ => false,
            })
        }),
{
    prompt::law_last_user_message_is_the_question(session.messages@);
}

/// Only what the provider needs is looked up, and only what is not known: its
/// kind first, then a key for a provider that needs one, or the address and
/// then the size of the model at that address for Ollama, or the server of the
/// user's choice.
pub proof fn law_lookups_serve_the_provider(session: ChatSession, known: Lookups)
    ensures
        match next_step(session, known) {
            StepModel::IdentifyProvider => known.provider is None,
            StepModel::ReadApiKey => known.provider == Some(
                Ok::<ProviderKind, String>(ProviderKind::Cloud),
            ) && known.api_key is None,
            StepModel::ReadOllamaEndpoint => known.provider == Some(
                Ok::<ProviderKind, String>(ProviderKind::Ollama),
            ) && known.ollama_endpoint is None,
            StepModel::ReadContextSize { endpoint } => known.provider == Some(
                Ok::<ProviderKind, String>(ProviderKind::Ollama),
            ) && known.context_size is None && (known.ollama_endpoint matches Some(found)
                && match found {
                Some(address) => endpoint == Some(address@),
                None => endpoint is None,
            }),
            StepModel::ReadCustomConfig => known.provider == Some(
                Ok::<ProviderKind, String>(ProviderKind::CustomOpenAI),
            ) && known.custom_openai is None,
            _ => true,
        },
{
}

/// A session is about the meeting that it was made for: its title, what was
/// said, the chat and the provider, and whether it goes on.
pub proof fn law_session_is_about_its_meeting(
    session: ChatSession,
    title: Seq<char>,
    spoken: Seq<char>,
    provider: String,
    messages: Vec<MeetingChatMessage>,
    live: bool,
)
    requires
        asks_about(session, title, spoken, provider, messages, live),
    ensures
        session.title@ == title,
        session.transcript@ == spoken,
        session.provider@ == provider@,
        session.messages@ == messages@,
        session.live == live,
        LIVE_TITLE@ == "the meeting in progress"@,
{
}

/// A key is used just as it was found, and only one that is not empty.
pub proof fn law_key_is_used_as_found(provider: Seq<char>, found: Result<Option<String>, String>)
    ensures
        match found {
            Ok(Some(key)) => (key@.len() > 0 ==> key_for(provider, found) == Ok::<
                Seq<char>,
                Seq<char>,
            >(key@)) && (key@.len() == 0 ==> key_for(provider, found) == Err::<
                Seq<char>,
                Seq<char>,
            >("No API key configured for "@ + provider)),
            Ok(None) => key_for(provider, found) == Err::<Seq<char>, Seq<char>>(
                "No API key configured for "@ + provider,
            ),
            Err(error) => key_for(provider, found) == Err::<Seq<char>, Seq<char>>(
                "Failed to retrieve API key for "@ + provider + ": "@ + error@,
            ),
        },
{
}

/// The content of a request is that of its parts, each in its place.
pub proof fn law_request_content_is_that_of_its_parts(request: ChatRequest)
    ensures
        request@.provider == request.provider,
        request@.api_key == request.api_key@,
        request@.system_prompt == request.system_prompt@,
        request@.user_prompt == request.user_prompt@,
        request.ollama_endpoint matches Some(s) ==> request@.ollama_endpoint == Some(s@),
        request.ollama_endpoint is None ==> request@.ollama_endpoint is None,
        request.custom_openai_endpoint matches Some(s) ==> request@.custom_openai_endpoint
            == Some(s@),
        request.custom_openai_endpoint is None ==> request@.custom_openai_endpoint is None,
        request@.custom_max_tokens == request.custom_max_tokens,
{
}

/// The content of a step tells steps of different kinds apart, and is that of
/// what the step holds.
pub proof fn law_step_content_is_that_of_the_step(step: AnswerStep)
    ensures
        step is IdentifyProvider <==> step@ is IdentifyProvider,
        step is ReadApiKey <==> step@ is ReadApiKey,
        step is ReadOllamaEndpoint <==> step@ is ReadOllamaEndpoint,
        step is ReadCustomConfig <==> step@ is ReadCustomConfig,
        step is ReadContextSize <==> step@ is ReadContextSize,
        step matches AnswerStep::ReadContextSize { endpoint } ==> match endpoint {
            Some(s) => step@->endpoint == Some(s@),
            None => step@->endpoint is None,
        },
        step is Generate <==> step@ is Generate,
        step matches AnswerStep::Generate(request) ==> step@->Generate_0 == request@,
        step is Fail <==> step@ is Fail,
        step matches AnswerStep::Fail(reason) ==> step@->Fail_0 == reason@,
{
}

} // verus!

//! Planning a translation request from the configuration, and collecting the
//! streamed answer.

use vstd::prelude::*;
use vstd::string::StringExecFns;
use crate::config::{AppConfig, ConfigModel};
use crate::text::{contains_text, text_contains, text_eq, trim_whitespace, trim_ws};

verus! {

broadcast use vstd::string::group_string_axioms;

/// The model asked when the configuration names none.
pub const DEFAULT_MODEL: &'static str = "deepseek-v4-flash";

/// The endpoint for the default model when the configuration names none.
pub const DEEPSEEK_BASE_URL: &'static str = "https://api.deepseek.com/v1";

/// The text whose presence in a model name marks a DeepSeek model.
pub const DEEPSEEK_MARK: &'static str = "deepseek";

/// The endpoint for any other model when the configuration names none.
pub const OPENAI_BASE_URL: &'static str = "https://api.openai.com/v1";

/// The instructions sent ahead of the text to translate.
pub const SYSTEM_PROMPT: &'static str = "
你是一个翻译助手，专门帮助用户将文本从一种语言翻译成简体中文。
请根据用户提供的文本进行翻译，并确保翻译结果准确、流畅且符合语法和文化习惯。
注意：请只提供翻译结果，不要包含任何解释、评论或原文。
对原文可能出现的专业术语、俚语或文化特定的表达进行适当的翻译，以确保译文在中文环境中易于理解。
";

/// Shown in place of a translation when no API key is configured.
pub const MISSING_API_KEY_TEXT: &'static str = "（未配置 API Key）";

/// Shown in place of a translation when the request fails.
pub const TRANSLATION_FAILED_TEXT: &'static str = "（翻译失败）";

/// Who a chat message comes from.
#[derive(Clone, Copy, Debug, PartialEq, Eq)]
pub enum Role {
    System,
    User,
}

/// One message of the chat sent to the model.
#[derive(Clone, Debug)]
pub struct ChatMessage {
    pub role: Role,
    pub content: String,
}

/// Everything the chat completion call is given.
#[derive(Clone, Debug)]
pub struct TranslationRequest {
    pub model: String,
    pub api_key: String,
    pub base_url: String,
    pub messages: Vec<ChatMessage>,
    /// Whether the request asks the model not to think first
    /// (`"thinking": {"type": "disabled"}`): so for DeepSeek models.
    pub disable_thinking: bool,
}

/// Why no translation came back.
#[derive(Clone, Copy, Debug, PartialEq, Eq)]
pub enum TranslationFailure {
    /// The configuration holds no API key, or an empty one.
    MissingApiKey,
    /// The streamed request could not be made.
    StreamFailed,
}

pub struct RequestModel {
    pub model: Seq<char>,
    pub api_key: Seq<char>,
    pub base_url: Seq<char>,
    pub messages: Seq<(Role, Seq<char>)>,
    pub disable_thinking: bool,
}

impl View for TranslationRequest {
    type V = RequestModel;

    open spec fn view(&self) -> RequestModel {
        RequestModel {
            model: self.model@,
            api_key: self.api_key@,
            base_url: self.base_url@,
            messages: self.messages@.map_values(|m: ChatMessage| (m.role, m.content@)),
            disable_thinking: self.disable_thinking,
        }
    }
}

/// The model asked: the configured one, else the default.
pub open spec fn chosen_model(c: ConfigModel) -> Seq<char> {
    match c.model {
        Some(m) => m,
        None => DEFAULT_MODEL@,
    }
}

/// The API key used: the configured one, else the empty text.
pub open spec fn chosen_api_key(c: ConfigModel) -> Seq<char> {
    match c.api_key {
        Some(k) => k,
        None => Seq::empty(),
    }
}

/// The endpoint used: the configured one when it is not empty, else the one
/// that goes with the chosen model.
pub open spec fn chosen_base_url(c: ConfigModel) -> Seq<char> {
    match c.base_url {
        Some(u) if u.len() > 0 => u,
        _ => if chosen_model(c) == DEFAULT_MODEL@ {
            DEEPSEEK_BASE_URL@
        } else {
            OPENAI_BASE_URL@
        },
    }
}

/// A DeepSeek model is one whose name contains `deepseek`.
pub open spec fn is_deepseek_model(model: Seq<char>) -> bool {
    contains_text(model, DEEPSEEK_MARK@)
}

/// The request that translates `input` under configuration `c`.
pub open spec fn request_for(c: ConfigModel, input: Seq<char>) -> RequestModel {
    RequestModel {
        model: chosen_model(c),
        api_key: chosen_api_key(c),
        base_url: chosen_base_url(c),
        messages: seq![(Role::System, SYSTEM_PROMPT@), (Role::User, input)],
        disable_thinking: is_deepseek_model(chosen_model(c)),
    }
}

/// The endpoint of a request: a configured, non-empty endpoint is always
/// used, whatever the model; without one, the DeepSeek endpoint serves the
/// default model and the OpenAI endpoint any other model.
pub proof fn lemma_request_endpoint(c: ConfigModel, input: Seq<char>)
    ensures
        forall|u: Seq<char>|
            c.base_url == Some(u) && u.len() > 0 ==> #[trigger] request_for(c, input).base_url
                == u,
        (c.base_url is None || c.base_url == Some(Seq::<char>::empty())) ==> request_for(
            c,
            input,
        ).base_url == if request_for(c, input).model == DEFAULT_MODEL@ {
            DEEPSEEK_BASE_URL@
        } else {
            OPENAI_BASE_URL@
        },
{
}

/// The model, key, messages and thinking switch of a request: the configured
/// model, else the default one; the configured key; the system prompt then
/// the user's text; and thinking disabled exactly when the model's name has
/// `deepseek` in it.
pub proof fn lemma_request_fields(c: ConfigModel, input: Seq<char>)
    ensures
        c.model matches Some(m) ==> request_for(c, input).model == m,
        c.model is None ==> request_for(c, input).model == DEFAULT_MODEL@,
        c.api_key matches Some(k) ==> request_for(c, input).api_key == k,
        c.api_key is None ==> request_for(c, input).api_key.len() == 0,
        chosen_api_key(c) == request_for(c, input).api_key,
        request_for(c, input).messages.len() == 2,
        request_for(c, input).messages[0] == (Role::System, SYSTEM_PROMPT@),
        request_for(c, input).messages[1] == (Role::User, input),
        request_for(c, input).disable_thinking <==> exists|i: int|
            0 <= i && i + DEEPSEEK_MARK@.len() <= request_for(c, input).model.len()
                && #[trigger] request_for(c, input).model.subrange(i, i + DEEPSEEK_MARK@.len())
                == DEEPSEEK_MARK@,
{
    let m = request_for(c, input).model;
    let d = DEEPSEEK_MARK@;
    if contains_text(m, d) {
        let i = choose|i: int| 0 <= i && i + d.len() <= m.len() && #[trigger] m.subrange(i, i + d.len()) == d;
        assert(m.subrange(i, i + d.len()) == d);
    }
    if exists|i: int| 0 <= i && i + d.len() <= m.len() && #[trigger] m.subrange(i, i + d.len()) == d {
        let i = choose|i: int| 0 <= i && i + d.len() <= m.len() && #[trigger] m.subrange(i, i + d.len()) == d;
        assert(contains_text(m, d));
    }
}

/// The request that translates `input`, or `MissingApiKey` when the
/// configuration holds no usable API key.
pub fn plan_request(cfg: &AppConfig, input: &str) -> (r: Result<TranslationRequest, TranslationFailure>)
    ensures
        r is Err <==> chosen_api_key(cfg@).len() == 0,
        r matches Err(f) ==> f == TranslationFailure::MissingApiKey,
        r matches Ok(q) ==> q@ == request_for(cfg@, input@),
{
    let model: String = match &cfg.translation_model {
        Some(m) => m.clone(),
        None => String::from_str(DEFAULT_MODEL),
    };
    let api_key: String = match &cfg.translation_api_key {
        Some(k) => k.clone(),
        None => String::new(),
    };
    let base_url: String = match &cfg.translation_base_url {
        Some(u) if !u.as_str().is_empty() => u.clone(),
        _ => if text_eq(model.as_str(), DEFAULT_MODEL) {
            String::from_str(DEEPSEEK_BASE_URL)
        } else {
            String::from_str(OPENAI_BASE_URL)
        },
    };
    if api_key.as_str().is_empty() {
        return Err(TranslationFailure::MissingApiKey);
    }
    let messages = vec![
        ChatMessage { role: Role::System, content: String::from_str(SYSTEM_PROMPT) },
        ChatMessage { role: Role::User, content: String::from_str(input) },
    ];
    let disable_thinking = text_contains(model.as_str(), DEEPSEEK_MARK);
    let q = TranslationRequest { model, api_key, base_url, messages, disable_thinking };
    assert(q@.messages =~= seq![(Role::System, SYSTEM_PROMPT@), (Role::User, input@)]);
    Ok(q)
}

/// The text shown for a failed translation.
pub fn failure_text(f: TranslationFailure) -> (r: String)
    ensures
        f == TranslationFailure::MissingApiKey ==> r@ == MISSING_API_KEY_TEXT@,
        f == TranslationFailure::StreamFailed ==> r@ == TRANSLATION_FAILED_TEXT@,
{
    match f {
        TranslationFailure::MissingApiKey => String::from_str(MISSING_API_KEY_TEXT),
        TranslationFailure::StreamFailed => String::from_str(TRANSLATION_FAILED_TEXT),
    }
}

/// How a translation ended.
#[derive(Clone, Debug)]
pub enum TranslationOutcome {
    /// The model answered with this text.
    Translated(String),
    /// No answer came.
    Failed(TranslationFailure),
}

/// The text shown for an outcome.
pub open spec fn shown(o: TranslationOutcome) -> Seq<char> {
    match o {
        TranslationOutcome::Translated(t) => t@,
        TranslationOutcome::Failed(TranslationFailure::MissingApiKey) => MISSING_API_KEY_TEXT@,
        TranslationOutcome::Failed(TranslationFailure::StreamFailed) => TRANSLATION_FAILED_TEXT@,
    }
}

/// What an outcome adds to the history: a translation that is not empty.
pub open spec fn history_entry(o: TranslationOutcome) -> Option<Seq<char>> {
    match o {
        TranslationOutcome::Translated(t) => if t@.len() > 0 {
            Some(t@)
        } else {
            None
        },
        TranslationOutcome::Failed(_) => None,
    }
}

impl TranslationOutcome {
    /// The text shown in the translator window.
    pub fn shown_text(&self) -> (r: String)
        ensures
            r@ == shown(*self),
    {
        match self {
            TranslationOutcome::Translated(t) => t.clone(),
            TranslationOutcome::Failed(f) => failure_text(*f),
        }
    }

    /// The record that the outcome adds to the history, if any.
    pub fn history_entry(&self) -> (r: Option<String>)
        ensures
            match history_entry(*self) {
                Some(e) => r is Some && r->0@ == e,
                None => r is None,
            },
    {
        match self {
            TranslationOutcome::Translated(t) => if t.as_str().is_empty() {
                None
            } else {
                Some(t.clone())
            },
            TranslationOutcome::Failed(_) => None,
        }
    }
}

/// A translation is shown as it came and recorded when it is not empty; a
/// failure is shown as its message and never recorded.
pub proof fn lemma_outcome(t: String, f: TranslationFailure)
    ensures
        shown(TranslationOutcome::Translated(t)) == t@,
        t@.len() > 0 ==> history_entry(TranslationOutcome::Translated(t)) == Some(t@),
        t@.len() == 0 ==> history_entry(TranslationOutcome::Translated(t)) is None,
        history_entry(TranslationOutcome::Failed(f)) is None,
        shown(TranslationOutcome::Failed(TranslationFailure::MissingApiKey))
            == MISSING_API_KEY_TEXT@,
        shown(TranslationOutcome::Failed(TranslationFailure::StreamFailed))
            == TRANSLATION_FAILED_TEXT@,
{
}

/// What the stream does after handing a piece to the translator window.
#[derive(Clone, Copy, Debug, PartialEq, Eq)]
pub enum StreamStep {
    /// Wait for the next piece.
    Continue,
    /// Stop receiving: the window is gone.
    Stop,
}

/// The stream goes on while the translator window takes the pieces, and
/// stops at the first piece it could not take.
pub fn after_emit(emitted: bool) -> (r: StreamStep)
    ensures
        r == (if emitted {
            StreamStep::Continue
        } else {
            StreamStep::Stop
        }),
{
    if emitted {
        StreamStep::Continue
    } else {
        StreamStep::Stop
    }
}

/// The answer of a streamed translation, as its pieces arrive.
pub struct TranslationStream {
    received: String,
}

impl View for TranslationStream {
    type V = Seq<char>;

    closed spec fn view(&self) -> Seq<char> {
        self.received@
    }
}

impl TranslationStream {
    /// A stream that has received nothing.
    pub fn new() -> (r: TranslationStream)
        ensures
            r@ == Seq::<char>::empty(),
    {
        TranslationStream { received: String::new() }
    }

    /// Records the next piece of the answer.
    pub fn push_delta(&mut self, content: &str)
        ensures
            final(self)@ == old(self)@ + content@,
    {
        self.received.append(content);
    }

    /// The text received so far.
    pub fn received(&self) -> (r: &str)
        ensures
            r@ == self@,
    {
        self.received.as_str()
    }

    /// The translation: what was received, trimmed of white space.
    pub fn finish(self) -> (r: TranslationOutcome)
        ensures
            r matches TranslationOutcome::Translated(t) && t@ == trim_ws(self@),
    {
        TranslationOutcome::Translated(trim_whitespace(self.received.as_str()))
    }
}

} // verus!

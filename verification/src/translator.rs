//! The translation exchange: the request that is built from a text, what is
//! read from the answer, and what a failure is taken for.
//!
//! Sending the request is not part of this module. It builds the request,
//! and takes what came back.

use crate::error::ErrorKind;
use crate::text::{
    contains, is_blank, is_blank_str, is_whitespace, join, joined, lemma_blank_parts,
    lemma_joined_contains_part, lemma_trimmed_empty_iff_blank, str_contains, trim, trimmed,
};
use async_openai::error::OpenAIError;
use async_openai::types::chat::{
    ChatCompletionRequestMessage, ChatCompletionRequestUserMessageArgs,
    CreateChatCompletionRequest, CreateChatCompletionRequestArgs, CreateChatCompletionResponse,
};
use vstd::prelude::*;
use vstd::string::StringExecFns;

verus! {

/// The instruction that goes before the text where none is given: translate
/// between Chinese and English, and answer with the translation alone.
pub const PROMPT: &'static str =
    "你是一个极简翻译工具，接下来我将输入一段内容，请按照以下规则将它翻译：1、如果输入内容是中文则翻译成英文，反之亦然。2、仅输出翻译后的内容，不要携带其他内容。3、如果翻译后的内容是单个词语，则首字母不需要大写。";

/// `async_openai::error::OpenAIError`, the error of the chat client. Nothing
/// is known of what a value of it holds.
#[verifier::external_type_specification]
#[verifier::external_body]
pub struct ExOpenAIError(OpenAIError);

/// `async_openai::types::chat::ChatCompletionRequestMessage`, one message of
/// a chat request. Nothing is known of what a value of it holds.
#[verifier::external_type_specification]
#[verifier::external_body]
pub struct ExChatCompletionRequestMessage(ChatCompletionRequestMessage);

/// `async_openai::types::chat::CreateChatCompletionRequest`, a chat request.
/// Nothing is known of what a value of it holds.
#[verifier::external_type_specification]
#[verifier::external_body]
pub struct ExCreateChatCompletionRequest(CreateChatCompletionRequest);

/// `async_openai::types::chat::CreateChatCompletionResponse`, the answer to
/// a chat request. Nothing is known of what a value of it holds.
#[verifier::external_type_specification]
#[verifier::external_body]
pub struct ExCreateChatCompletionResponse(CreateChatCompletionResponse);

/// The text that a message carries, for a message as the builder of user
/// messages makes it from a text: the text of its content.
pub uninterp spec fn message_content(message: ChatCompletionRequestMessage) -> Seq<char>;

/// The model that a request is addressed to: its field `model`.
pub uninterp spec fn request_model(request: CreateChatCompletionRequest) -> Seq<char>;

/// The messages of a request, in their order: its field `messages`.
pub uninterp spec fn request_messages(request: CreateChatCompletionRequest) -> Seq<
    ChatCompletionRequestMessage,
>;

/// The content of each choice of an answer, in the answer's order: the field
/// `message.content` of each item of its field `choices`.
pub uninterp spec fn response_contents(response: CreateChatCompletionResponse) -> Seq<
    Option<Seq<char>>,
>;

/// A user message with the given content, built by
/// `ChatCompletionRequestUserMessageArgs`. The builder has a default for
/// every field and checks nothing, so it always succeeds; the message is a
/// user message whose content is the given text.
#[verifier::external_body]
fn user_message(content: &str) -> (r: Result<ChatCompletionRequestMessage, OpenAIError>)
    ensures
        r is Ok,
        message_content(r->Ok_0) == content@,
{
    ChatCompletionRequestUserMessageArgs::default().content(content).build().map(|m| m.into())
}

/// A chat request to `model` with the given messages, built by
/// `CreateChatCompletionRequestArgs`. The builder has a default for every
/// field and checks nothing, so it always succeeds; the request holds the
/// model and the messages as they were given, and a default in every other
/// field.
#[verifier::external_body]
fn chat_request(model: &str, messages: Vec<ChatCompletionRequestMessage>) -> (r: Result<
    CreateChatCompletionRequest,
    OpenAIError,
>)
    ensures
        r is Ok,
        request_model(r->Ok_0) == model@,
        request_messages(r->Ok_0) == messages@,
{
    CreateChatCompletionRequestArgs::default().model(model).messages(messages).build()
}

/// The text that `OpenAIError` shows of itself through `Display`. Nothing is
/// stated of the text: an error that carries an input or output error shows
/// that error's text, which the platform words.
#[verifier::external_body]
fn service_error_text(e: &OpenAIError) -> (r: String) {
    format!("{}", e)
}

/// The content of each choice of the answer, in the answer's order: a copy
/// of the field `message.content` of each item of `choices`.
#[verifier::external_body]
fn choice_contents(response: &CreateChatCompletionResponse) -> (r: Vec<Option<String>>)
    ensures
        r.deep_view() == response_contents(*response),
{
    response.choices.iter().map(|choice| choice.message.content.clone()).collect()
}

/// Why a translation failed.
#[derive(Debug, Clone)]
pub enum TranslateError {
    /// The text is empty or nothing but whitespace.
    EmptyText,
    /// The message that carries the instruction could not be built.
    PromptMessage { detail: String },
    /// The message that carries the text could not be built.
    UserMessage { detail: String },
    /// The request could not be built.
    Request { detail: String },
    /// The provider turned the credential down.
    Authentication { detail: String },
    /// The provider knows no such model.
    ModelNotFound { detail: String, model: String },
    /// Nothing answers at the endpoint for what was asked of it.
    EndpointNotFound { detail: String, model: String },
    /// The provider limits the rate of requests.
    RateLimit { detail: String },
    /// The provider could not be reached in time.
    Network { detail: String },
    /// The request failed in another way.
    Api { detail: String },
    /// The answer holds no choice: an empty result.
    NoChoices,
    /// The answer holds choices, none of them with text: an empty result.
    EmptyTranslation,
}

/// A `TranslateError`, as sequences of characters.
pub enum TranslateErrorView {
    EmptyText,
    PromptMessage { detail: Seq<char> },
    UserMessage { detail: Seq<char> },
    Request { detail: Seq<char> },
    Authentication { detail: Seq<char> },
    ModelNotFound { detail: Seq<char>, model: Seq<char> },
    EndpointNotFound { detail: Seq<char>, model: Seq<char> },
    RateLimit { detail: Seq<char> },
    Network { detail: Seq<char> },
    Api { detail: Seq<char> },
    NoChoices,
    EmptyTranslation,
}

impl View for TranslateError {
    type V = TranslateErrorView;

    open spec fn view(&self) -> TranslateErrorView {
        match self {
            TranslateError::EmptyText => TranslateErrorView::EmptyText,
            TranslateError::PromptMessage { detail } => TranslateErrorView::PromptMessage {
                detail: detail@,
            },
            TranslateError::UserMessage { detail } => TranslateErrorView::UserMessage {
                detail: detail@,
            },
            TranslateError::Request { detail } => TranslateErrorView::Request { detail: detail@ },
            TranslateError::Authentication { detail } => TranslateErrorView::Authentication {
                detail: detail@,
            },
            TranslateError::ModelNotFound { detail, model } => TranslateErrorView::ModelNotFound {
                detail: detail@,
                model: model@,
            },
            TranslateError::EndpointNotFound {
                detail,
                model,
            } => TranslateErrorView::EndpointNotFound { detail: detail@, model: model@ },
            TranslateError::RateLimit { detail } => TranslateErrorView::RateLimit {
                detail: detail@,
            },
            TranslateError::Network { detail } => TranslateErrorView::Network { detail: detail@ },
            TranslateError::Api { detail } => TranslateErrorView::Api { detail: detail@ },
            TranslateError::NoChoices => TranslateErrorView::NoChoices,
            TranslateError::EmptyTranslation => TranslateErrorView::EmptyTranslation,
        }
    }
}

/// The message about a text that is blank.
pub const EMPTY_TEXT: &'static str =
    "Translation text cannot be empty.\n\nPlease provide non-empty text to translate.";

/// The advice after an instruction that could not be made a message.
pub const PROMPT_ADVICE: &'static str =
    "\n\nThis is likely due to an invalid prompt format. Please check your prompt content.";

/// The advice after a text that could not be made a message.
pub const USER_ADVICE: &'static str =
    "\n\nThis is likely due to invalid text content. Please check your input text.";

/// The advice after a request that could not be built.
pub const REQUEST_ADVICE: &'static str =
    "\n\nThis may be due to invalid model name or request parameters. Please check your configuration.";

/// The advice after a credential that was turned down.
pub const AUTHENTICATION_ADVICE: &'static str =
    "\n\nPlease check that your API key is correct and has the necessary permissions.\nFor OpenAI: Ensure your API key starts with 'sk-'\nFor Gemini: Ensure you're using a valid Google AI API key";

/// The advice after a model that was not found, up to the model's name.
pub const MODEL_NOT_FOUND_ADVICE_HEAD: &'static str =
    "\n\nPlease verify that:\n- The model name '";

/// The rest of that advice.
pub const MODEL_NOT_FOUND_ADVICE_TAIL: &'static str =
    "' is correct and available\n- You have permission to use this model";

/// The advice after an endpoint that was not found, up to the model's name.
pub const ENDPOINT_NOT_FOUND_ADVICE_HEAD: &'static str =
    "\n\nPlease verify that:\n- The API endpoint is accessible\n- The model '";

/// The rest of that advice.
pub const ENDPOINT_NOT_FOUND_ADVICE_TAIL: &'static str = "' is served by this endpoint";

/// The advice after a request that the rate limit stopped.
pub const RATE_LIMIT_ADVICE: &'static str =
    "\n\nPlease wait a moment before trying again. Consider upgrading your API plan if this happens frequently.";

/// The advice after a provider that could not be reached.
pub const NETWORK_ADVICE: &'static str =
    "\n\nPlease check your internet connection and try again.\nIf the problem persists, the API service may be temporarily unavailable.";

/// The advice after any other failure.
pub const API_ADVICE: &'static str =
    "\n\nPlease check your network connection, API key, and model name.\nIf the problem persists, the AI service may be temporarily unavailable.";

/// The message about an answer without choices.
pub const NO_CHOICES: &'static str =
    "No translation results in API response.\n\nThis may indicate an issue with the AI model or service. Please try again or use a different model.";

/// The message about an answer without text.
pub const EMPTY_TRANSLATION: &'static str =
    "Translation result is empty.\n\nThe AI model returned an empty response. This may be due to:\n- The input text being unclear or untranslatable\n- Issues with the model or prompt\n- Temporary service problems\n\nPlease try again with different text or check the model status.";

impl TranslateErrorView {
    /// The kind of the error. A text, an instruction or a request that was
    /// refused before anything was sent is a matter of validation; a model
    /// that the provider does not know is a model not found; what the
    /// provider turned down for any other reason but the credential is a
    /// failed call; an answer without choices and one without text are both
    /// an empty result.
    pub open spec fn kind(self) -> ErrorKind {
        match self {
            TranslateErrorView::EmptyText => ErrorKind::ValidationError,
            TranslateErrorView::PromptMessage { .. } => ErrorKind::ValidationError,
            TranslateErrorView::UserMessage { .. } => ErrorKind::ValidationError,
            TranslateErrorView::Request { .. } => ErrorKind::ValidationError,
            TranslateErrorView::Authentication { .. } => ErrorKind::AuthenticationError,
            TranslateErrorView::ModelNotFound { .. } => ErrorKind::ModelNotFound,
            TranslateErrorView::EndpointNotFound { .. } => ErrorKind::ApiCallFailed,
            TranslateErrorView::RateLimit { .. } => ErrorKind::ApiCallFailed,
            TranslateErrorView::Network { .. } => ErrorKind::NetworkError,
            TranslateErrorView::Api { .. } => ErrorKind::ApiCallFailed,
            TranslateErrorView::NoChoices => ErrorKind::EmptyResult,
            TranslateErrorView::EmptyTranslation => ErrorKind::EmptyResult,
        }
    }

    /// The message of the error: what went wrong, the detail that came with
    /// it, and what to do. The detail and the model's name stand in it as
    /// they came; the words around them are fixed and hold no credential.
    pub open spec fn message(self) -> Seq<char> {
        match self {
            TranslateErrorView::EmptyText => EMPTY_TEXT@,
            TranslateErrorView::PromptMessage { detail } => "Failed to build prompt message: "@
                + detail + PROMPT_ADVICE@,
            TranslateErrorView::UserMessage { detail } => "Failed to build user message: "@
                + detail + USER_ADVICE@,
            TranslateErrorView::Request { detail } => "Failed to build chat request: "@ + detail
                + REQUEST_ADVICE@,
            TranslateErrorView::Authentication { detail } => "Authentication failed: "@ + detail
                + AUTHENTICATION_ADVICE@,
            TranslateErrorView::ModelNotFound { detail, model } => "Model not found: "@ + detail
                + MODEL_NOT_FOUND_ADVICE_HEAD@ + model + MODEL_NOT_FOUND_ADVICE_TAIL@,
            TranslateErrorView::EndpointNotFound { detail, model } => "Endpoint not found: "@
                + detail + ENDPOINT_NOT_FOUND_ADVICE_HEAD@ + model
                + ENDPOINT_NOT_FOUND_ADVICE_TAIL@,
            TranslateErrorView::RateLimit { detail } => "Rate limit exceeded: "@ + detail
                + RATE_LIMIT_ADVICE@,
            TranslateErrorView::Network { detail } => "Network error: "@ + detail
                + NETWORK_ADVICE@,
            TranslateErrorView::Api { detail } => "API request failed: "@ + detail + API_ADVICE@,
            TranslateErrorView::NoChoices => NO_CHOICES@,
            TranslateErrorView::EmptyTranslation => EMPTY_TRANSLATION@,
        }
    }
}

/// `head`, `detail` and `advice` in one string.
fn advise(head: &str, detail: &str, advice: &str) -> (r: String)
    ensures
        r@ == head@ + detail@ + advice@,
{
    let mut out = String::from_str(head);
    out.append(detail);
    out.append(advice);
    out
}

impl TranslateError {
    /// The kind of the error.
    pub fn kind(&self) -> (r: ErrorKind)
        ensures
            r == self@.kind(),
    {
        match self {
            TranslateError::EmptyText => ErrorKind::ValidationError,
            TranslateError::PromptMessage { .. } => ErrorKind::ValidationError,
            TranslateError::UserMessage { .. } => ErrorKind::ValidationError,
            TranslateError::Request { .. } => ErrorKind::ValidationError,
            TranslateError::Authentication { .. } => ErrorKind::AuthenticationError,
            TranslateError::ModelNotFound { .. } => ErrorKind::ModelNotFound,
            TranslateError::EndpointNotFound { .. } => ErrorKind::ApiCallFailed,
            TranslateError::RateLimit { .. } => ErrorKind::ApiCallFailed,
            TranslateError::Network { .. } => ErrorKind::NetworkError,
            TranslateError::Api { .. } => ErrorKind::ApiCallFailed,
            TranslateError::NoChoices => ErrorKind::EmptyResult,
            TranslateError::EmptyTranslation => ErrorKind::EmptyResult,
        }
    }

    /// The message of the error.
    pub fn to_string(&self) -> (r: String)
        ensures
            r@ == self@.message(),
    {
        match self {
            TranslateError::EmptyText => String::from_str(EMPTY_TEXT),
            TranslateError::PromptMessage { detail } => advise(
                "Failed to build prompt message: ",
                detail.as_str(),
                PROMPT_ADVICE,
            ),
            TranslateError::UserMessage { detail } => advise(
                "Failed to build user message: ",
                detail.as_str(),
                USER_ADVICE,
            ),
            TranslateError::Request { detail } => advise(
                "Failed to build chat request: ",
                detail.as_str(),
                REQUEST_ADVICE,
            ),
            TranslateError::Authentication { detail } => advise(
                "Authentication failed: ",
                detail.as_str(),
                AUTHENTICATION_ADVICE,
            ),
            TranslateError::ModelNotFound { detail, model } => {
                let mut out = String::from_str("Model not found: ");
                out.append(detail.as_str());
                out.append(MODEL_NOT_FOUND_ADVICE_HEAD);
                out.append(model.as_str());
                out.append(MODEL_NOT_FOUND_ADVICE_TAIL);
                assert(out@ =~= self@.message());
                out
            },
            TranslateError::EndpointNotFound { detail, model } => {
                let mut out = String::from_str("Endpoint not found: ");
                out.append(detail.as_str());
                out.append(ENDPOINT_NOT_FOUND_ADVICE_HEAD);
                out.append(model.as_str());
                out.append(ENDPOINT_NOT_FOUND_ADVICE_TAIL);
                assert(out@ =~= self@.message());
                out
            },
            TranslateError::RateLimit { detail } => advise(
                "Rate limit exceeded: ",
                detail.as_str(),
                RATE_LIMIT_ADVICE,
            ),
            TranslateError::Network { detail } => advise(
                "Network error: ",
                detail.as_str(),
                NETWORK_ADVICE,
            ),
            TranslateError::Api { detail } => advise(
                "API request failed: ",
                detail.as_str(),
                API_ADVICE,
            ),
            TranslateError::NoChoices => String::from_str(NO_CHOICES),
            TranslateError::EmptyTranslation => String::from_str(EMPTY_TRANSLATION),
        }
    }
}

/// What a failure is taken for, judged by the text of its error. The rules
/// are tried in this order and the first that matches decides: a text that
/// mentions `401` or `authentication` is a credential that was turned down;
/// `404` or `not found`, something that was not found: the model where the
/// text mentions `model` as well, the endpoint where it does not; `429` or
/// `rate limit`, a rate limit; `timeout` or `connection`, the network; any
/// other text, a failure of another kind. The text is searched as it stands,
/// so a text that mentions one of these by chance is taken for it too.
pub open spec fn classified(error_text: Seq<char>, model: Seq<char>) -> TranslateErrorView {
    if contains(error_text, "401"@) || contains(error_text, "authentication"@) {
        TranslateErrorView::Authentication { detail: error_text }
    } else if contains(error_text, "404"@) || contains(error_text, "not found"@) {
        if contains(error_text, "model"@) {
            TranslateErrorView::ModelNotFound { detail: error_text, model }
        } else {
            TranslateErrorView::EndpointNotFound { detail: error_text, model }
        }
    } else if contains(error_text, "429"@) || contains(error_text, "rate limit"@) {
        TranslateErrorView::RateLimit { detail: error_text }
    } else if contains(error_text, "timeout"@) || contains(error_text, "connection"@) {
        TranslateErrorView::Network { detail: error_text }
    } else {
        TranslateErrorView::Api { detail: error_text }
    }
}

/// What a failure with the given error text is taken for, when it came up in
/// a request to `model`.
pub fn classify(error_text: &str, model: &str) -> (r: TranslateError)
    ensures
        r@ == classified(error_text@, model@),
{
    if str_contains(error_text, "401") || str_contains(error_text, "authentication") {
        TranslateError::Authentication { detail: error_text.to_owned() }
    } else if str_contains(error_text, "404") || str_contains(error_text, "not found") {
        if str_contains(error_text, "model") {
            TranslateError::ModelNotFound {
                detail: error_text.to_owned(),
                model: model.to_owned(),
            }
        } else {
            TranslateError::EndpointNotFound {
                detail: error_text.to_owned(),
                model: model.to_owned(),
            }
        }
    } else if str_contains(error_text, "429") || str_contains(error_text, "rate limit") {
        TranslateError::RateLimit { detail: error_text.to_owned() }
    } else if str_contains(error_text, "timeout") || str_contains(error_text, "connection") {
        TranslateError::Network { detail: error_text.to_owned() }
    } else {
        TranslateError::Api { detail: error_text.to_owned() }
    }
}

/// The contents of the choices that hold any: those that are there and not
/// empty, in the order of the choices.
pub open spec fn present_contents(choices: Seq<Option<Seq<char>>>) -> Seq<Seq<char>>
    decreases choices.len(),
{
    if choices.len() == 0 {
        Seq::empty()
    } else {
        let before = present_contents(choices.drop_last());
        match choices.last() {
            Some(content) => if content.len() > 0 {
                before.push(content)
            } else {
                before
            },
            None => before,
        }
    }
}

/// Whether no choice holds text: each is without content, or its content is
/// blank.
pub open spec fn all_blank(choices: Seq<Option<Seq<char>>>) -> bool {
    forall|i: int|
        0 <= i < choices.len() ==> match #[trigger] choices[i] {
            Some(content) => is_blank(content),
            None => true,
        }
}

/// The translation that the choices of an answer make: their contents, as
/// far as there are any, one to a line and trimmed as a whole. An answer
/// without choices and one whose choices hold no text are two different
/// errors.
pub open spec fn translation(choices: Seq<Option<Seq<char>>>) -> Result<
    Seq<char>,
    TranslateErrorView,
> {
    if choices.len() == 0 {
        Err(TranslateErrorView::NoChoices)
    } else if all_blank(choices) {
        Err(TranslateErrorView::EmptyTranslation)
    } else {
        Ok(trimmed(joined(present_contents(choices), "\n"@)))
    }
}

/// A result with a string or an error in it, as sequences of characters.
pub open spec fn translation_view(r: Result<String, TranslateError>) -> Result<
    Seq<char>,
    TranslateErrorView,
> {
    match r {
        Ok(text) => Ok(text@),
        Err(e) => Err(e@),
    }
}

/// The translation that the contents of the choices of an answer make.
pub fn collect_translation(choices: &Vec<Option<String>>) -> (r: Result<String, TranslateError>)
    ensures
        translation_view(r) == translation(choices.deep_view()),
{
    if choices.len() == 0 {
        return Err(TranslateError::NoChoices);
    }
    let ghost all = choices.deep_view();
    let mut parts: Vec<String> = Vec::new();
    let mut blank: bool = true;
    let mut i: usize = 0;
    while i < choices.len()
        invariant
            i <= choices@.len(),
            all == choices.deep_view(),
            parts.deep_view() == present_contents(all.take(i as int)),
            blank == all_blank(all.take(i as int)),
        decreases choices@.len() - i,
    {
        let ghost upto = all.take(i + 1);
        assert(upto.drop_last() =~= all.take(i as int));
        assert(upto.last() == all[i as int]);
        assert(all[i as int] == choices@[i as int].deep_view());
        assert(all_blank(upto) == (all_blank(all.take(i as int)) && match all[i as int] {
            Some(content) => is_blank(content),
            None => true,
        })) by {
            if all_blank(upto) {
                assert forall|k: int| 0 <= k < i implies match #[trigger] all.take(i as int)[k] {
                    Some(content) => is_blank(content),
                    None => true,
                } by {
                    assert(upto[k] == all.take(i as int)[k]);
                }
                assert(upto[i as int] == all[i as int]);
            } else {
                if all_blank(all.take(i as int)) {
                    let k = choose|k: int|
                        0 <= k < upto.len() && !(match #[trigger] upto[k] {
                            Some(content) => is_blank(content),
                            None => true,
                        });
                    if k < i {
                        assert(all.take(i as int)[k] == upto[k]);
                    }
                }
            }
        }
        match &choices[i] {
            Some(content) => {
                if !is_blank_str(content.as_str()) {
                    blank = false;
                }
                if content.as_str().unicode_len() > 0 {
                    let ghost before = parts.deep_view();
                    parts.push(content.clone());
                    assert(parts.deep_view() =~= before.push(content@));
                }
            },
            None => {},
        }
        i += 1;
    }
    assert(all.take(choices@.len() as int) =~= all);
    if blank {
        return Err(TranslateError::EmptyTranslation);
    }
    let lines = join(&parts, "\n");
    Ok(trim(lines.as_str()).to_owned())
}

/// What a translator holds, as sequences of characters.
pub struct TranslatorView {
    pub api_key: Seq<char>,
    pub api_base: Seq<char>,
    pub model: Seq<char>,
}

/// A translator: the endpoint to ask, the credential to show, and the model
/// to ask for.
#[derive(Debug, Clone)]
pub struct Translator {
    api_key: String,
    api_base: String,
    model: String,
}

impl View for Translator {
    type V = TranslatorView;

    closed spec fn view(&self) -> TranslatorView {
        TranslatorView { api_key: self.api_key@, api_base: self.api_base@, model: self.model@ }
    }
}

/// The contents of the messages of a request, in their order: the
/// instruction first, the given one or else `PROMPT`, then the text.
pub open spec fn message_contents(text: Seq<char>, prompt: Option<Seq<char>>) -> Seq<Seq<char>> {
    seq![
        match prompt {
            Some(given) => given,
            None => PROMPT@,
        },
        text,
    ]
}

/// Whether `request` asks `model`, with one message for each of `contents`,
/// in their order, each carrying its content as it stands.
pub open spec fn asks(
    request: CreateChatCompletionRequest,
    model: Seq<char>,
    contents: Seq<Seq<char>>,
) -> bool {
    &&& request_model(request) == model
    &&& request_messages(request).len() == contents.len()
    &&& forall|k: int|
        0 <= k < contents.len() ==> message_content(#[trigger] request_messages(request)[k])
            == contents[k]
}

/// The contents of the messages of a request for `text`, in their order.
pub fn messages_for(text: &str, prompt: Option<&str>) -> (r: Vec<String>)
    ensures
        r.deep_view() == message_contents(text@, prompt.deep_view()),
{
    let instruction = match prompt {
        Some(given) => given,
        None => PROMPT,
    };
    let r = vec![instruction.to_owned(), text.to_owned()];
    assert(r.deep_view() =~= message_contents(text@, prompt.deep_view()));
    r
}

impl Translator {
    /// A translator that asks `api_base` for `model` and shows `api_key`.
    pub fn new(api_key: String, api_base: String, model: String) -> (r: Self)
        ensures
            r@ == (TranslatorView { api_key: api_key@, api_base: api_base@, model: model@ }),
    {
        Translator { api_key, api_base, model }
    }

    /// The model that is asked for.
    pub fn model_name(&self) -> (r: &str)
        ensures
            r@ == self@.model,
    {
        self.model.as_str()
    }

    /// The credential that is shown.
    pub fn api_key(&self) -> (r: &str)
        ensures
            r@ == self@.api_key,
    {
        self.api_key.as_str()
    }

    /// The endpoint that is asked.
    pub fn api_base(&self) -> (r: &str)
        ensures
            r@ == self@.api_base,
    {
        self.api_base.as_str()
    }

    /// The request that asks the model to translate `text`. A blank text is
    /// turned down before anything is built. For any other text the request
    /// is addressed to the translator's model and holds two messages: the
    /// instruction first, the given one or else `PROMPT`, then the text.
    pub fn build_request(&self, text: &str, prompt: Option<&str>) -> (r: Result<
        CreateChatCompletionRequest,
        TranslateError,
    >)
        ensures
            is_blank(text@) ==> (r matches Err(e) && e@ == TranslateErrorView::EmptyText),
            !is_blank(text@) ==> (r matches Ok(request) && asks(
                request,
                self@.model,
                message_contents(text@, prompt.deep_view()),
            )),
    {
        if is_blank_str(text) {
            return Err(TranslateError::EmptyText);
        }
        let contents = messages_for(text, prompt);
        let mut messages: Vec<ChatCompletionRequestMessage> = Vec::new();
        let mut i: usize = 0;
        assert(contents.deep_view().len() == contents@.len());
        while i < contents.len()
            invariant
                i <= contents@.len(),
                contents@.len() == 2,
                !is_blank(text@),
                messages@.len() == i,
                forall|k: int|
                    0 <= k < i ==> message_content(#[trigger] messages@[k])
                        == contents.deep_view()[k],
            decreases contents@.len() - i,
        {
            assert(contents.deep_view()[i as int] == contents@[i as int]@);
            match user_message(contents[i].as_str()) {
                Ok(message) => {
                    messages.push(message);
                },
                Err(e) => {
                    let detail = service_error_text(&e);
                    if i == 0 {
                        return Err(TranslateError::PromptMessage { detail });
                    } else {
                        return Err(TranslateError::UserMessage { detail });
                    }
                },
            }
            i += 1;
        }
        match chat_request(self.model.as_str(), messages) {
            Ok(request) => Ok(request),
            Err(e) => Err(TranslateError::Request { detail: service_error_text(&e) }),
        }
    }

    /// What a failure of the request is taken for: the text that the error
    /// shows of itself is judged as `classified` says. Which text that is
    /// is not stated, since an error may show text that the platform words;
    /// `classify` says what each text is taken for.
    pub fn explain(&self, error: &OpenAIError) -> (r: TranslateError)
        ensures
            exists|error_text: Seq<char>| r@ == classified(error_text, self@.model),
    {
        let error_text = service_error_text(error);
        let r = classify(error_text.as_str(), self.model.as_str());
        assert(r@ == classified(error_text@, self@.model));
        r
    }

    /// The translation in an answer: what `translation` makes of the
    /// contents of its choices.
    pub fn read_response(&self, response: &CreateChatCompletionResponse) -> (r: Result<
        String,
        TranslateError,
    >)
        ensures
            translation_view(r) == translation(response_contents(*response)),
    {
        let choices = choice_contents(response);
        collect_translation(&choices)
    }

    /// The end of the exchange, given what came back for the request: the
    /// translation of an answer, or what a failure is taken for.
    pub fn complete(&self, outcome: Result<CreateChatCompletionResponse, OpenAIError>) -> (r:
        Result<String, TranslateError>)
        ensures
            outcome matches Ok(response) ==> translation_view(r) == translation(
                response_contents(response),
            ),
            outcome is Err ==> r is Err && exists|error_text: Seq<char>|
                r->Err_0@ == classified(error_text, self@.model),
    {
        match outcome {
            Ok(response) => self.read_response(&response),
            Err(error) => {
                let e = self.explain(&error);
                let ghost error_text = choose|error_text: Seq<char>|
                    e@ == classified(error_text, self@.model);
                let r = Err(e);
                assert(r->Err_0@ == classified(error_text, self@.model));
                r
            },
        }
    }
}

/// An answer with two choices, each with a content that is not empty and at
/// least one of them with text, gives the two contents in their order with
/// one newline between them, trimmed as a whole.
pub proof fn lemma_two_choices_joined(first: Seq<char>, second: Seq<char>)
    requires
        first.len() > 0,
        second.len() > 0,
        !is_blank(first) || !is_blank(second),
    ensures
        translation(seq![Some(first), Some(second)]) == Ok::<Seq<char>, TranslateErrorView>(
            trimmed(first + "\n"@ + second),
        ),
{
    let choices = seq![Some(first), Some(second)];
    assert(choices[0] == Some(first));
    assert(choices[1] == Some(second));
    assert(!all_blank(choices));
    assert(choices.drop_last() =~= seq![Some(first)]);
    assert(choices.drop_last().drop_last() =~= Seq::<Option<Seq<char>>>::empty());
    reveal_with_fuel(present_contents, 3);
    assert(present_contents(choices) =~= seq![first, second]);
    assert(seq![first, second].drop_last() =~= seq![first]);
    reveal_with_fuel(joined, 3);
    assert(joined(seq![first, second], "\n"@) =~= first + "\n"@ + second);
}

/// Each content that is not empty is one of the contents that are joined.
proof fn lemma_present_contents_hold(choices: Seq<Option<Seq<char>>>, i: int)
    requires
        0 <= i < choices.len(),
        choices[i].is_some(),
        choices[i].unwrap().len() > 0,
    ensures
        present_contents(choices).contains(choices[i].unwrap()),
    decreases choices.len(),
{
    let before = present_contents(choices.drop_last());
    if i == choices.len() - 1 {
        assert(present_contents(choices) == before.push(choices[i].unwrap()));
        assert(present_contents(choices)[before.len() as int] == choices[i].unwrap());
    } else {
        lemma_present_contents_hold(choices.drop_last(), i);
        assert(choices.drop_last()[i] == choices[i]);
        let k = choose|k: int| 0 <= k < before.len() && before[k] == choices[i].unwrap();
        assert(present_contents(choices)[k] == before[k]);
    }
}

/// A translation is never empty: where one is given it holds text, and
/// neither begins nor ends with whitespace.
pub proof fn lemma_translation_holds_text(choices: Seq<Option<Seq<char>>>)
    requires
        translation(choices).is_ok(),
    ensures
        translation(choices)->Ok_0.len() > 0,
        !is_whitespace(translation(choices)->Ok_0.first()),
        !is_whitespace(translation(choices)->Ok_0.last()),
{
    let parts = present_contents(choices);
    let lines = joined(parts, "\n"@);
    let i = choose|i: int|
        0 <= i < choices.len() && !(match #[trigger] choices[i] {
            Some(content) => is_blank(content),
            None => true,
        });
    let content = choices[i].unwrap();
    lemma_present_contents_hold(choices, i);
    let k = choose|k: int| 0 <= k < parts.len() && parts[k] == content;
    lemma_joined_contains_part(parts, "\n"@, k);
    if is_blank(lines) {
        lemma_blank_parts(lines, content);
    }
    lemma_trimmed_empty_iff_blank(lines);
}

/// An answer without choices and an answer whose choices hold no text both
/// fail with an empty result, and with different errors.
pub proof fn lemma_empty_results_differ(choices: Seq<Option<Seq<char>>>)
    ensures
        choices.len() == 0 ==> translation(choices) == Err::<Seq<char>, TranslateErrorView>(
            TranslateErrorView::NoChoices,
        ),
        choices.len() > 0 && all_blank(choices) ==> translation(choices) == Err::<
            Seq<char>,
            TranslateErrorView,
        >(TranslateErrorView::EmptyTranslation),
        TranslateErrorView::NoChoices.kind() == ErrorKind::EmptyResult,
        TranslateErrorView::EmptyTranslation.kind() == ErrorKind::EmptyResult,
        TranslateErrorView::NoChoices != TranslateErrorView::EmptyTranslation,
        TranslateErrorView::NoChoices.message() != TranslateErrorView::EmptyTranslation.message(),
{
    reveal_strlit(
        "No translation results in API response.\n\nThis may indicate an issue with the AI model or service. Please try again or use a different model.",
    );
    reveal_strlit(
        "Translation result is empty.\n\nThe AI model returned an empty response. This may be due to:\n- The input text being unclear or untranslatable\n- Issues with the model or prompt\n- Temporary service problems\n\nPlease try again with different text or check the model status.",
    );
    assert(NO_CHOICES@[0] != EMPTY_TRANSLATION@[0]);
}

} // verus!

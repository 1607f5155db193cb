//! The command line's settings and what is resolved from them: the
//! credential, the endpoint, and whether a translation can be asked for.

use crate::config::{
    create_model_error_message, credential_variable, get_env_var_name_for_model, get_model_url,
    is_model_supported, list_models, lookup, model_error_message, model_url, models_listing,
};
use crate::error::ErrorKind;
use crate::text::{is_blank, is_blank_str, str_eq};
use vstd::prelude::*;
use vstd::string::StringExecFns;

verus! {

/// The environment variables that a resolution may read, as they were when
/// the snapshot was taken. Where a name is bound more than once, the first
/// binding counts.
#[derive(Debug, Clone)]
pub struct Environment {
    pub vars: Vec<(String, String)>,
}

impl View for Environment {
    type V = Seq<(Seq<char>, Seq<char>)>;

    open spec fn view(&self) -> Seq<(Seq<char>, Seq<char>)> {
        Seq::new(self.vars@.len(), |i: int| (self.vars@[i].0@, self.vars@[i].1@))
    }
}

impl Environment {
    /// The value of the variable `name`, if it is set.
    pub open spec fn value_of(&self, name: Seq<char>) -> Option<Seq<char>> {
        lookup(self@, name)
    }

    /// The environment in which no variable is set.
    pub fn new() -> (r: Self)
        ensures
            r@ == Seq::<(Seq<char>, Seq<char>)>::empty(),
    {
        let r = Environment { vars: Vec::new() };
        assert(r@ =~= Seq::<(Seq<char>, Seq<char>)>::empty());
        r
    }

    /// Sets the variable `name` to `value`; every other variable stays as it
    /// is.
    pub fn set(&mut self, name: &str, value: &str)
        ensures
            final(self)@ == seq![(name@, value@)] + old(self)@,
            final(self).value_of(name@) == Some(value@),
            forall|other: Seq<char>|
                other != name@ ==> final(self).value_of(other) == old(self).value_of(other),
    {
        self.vars.insert(0, (name.to_owned(), value.to_owned()));
        assert(self@ =~= seq![(name@, value@)] + old(self)@);
        assert(self@.drop_first() =~= old(self)@);
    }

    /// The value of the variable `name`, or `None` where it is not set.
    pub fn get(&self, name: &str) -> (r: Option<String>)
        ensures
            r.deep_view() == self.value_of(name@),
    {
        let n: usize = self.vars.len();
        let mut i: usize = 0;
        assert(self@.subrange(0, n as int) =~= self@);
        while i < n
            invariant
                i <= n,
                n == self.vars@.len(),
                self.value_of(name@) == lookup(self@.subrange(i as int, n as int), name@),
            decreases n - i,
        {
            let ghost rest = self@.subrange(i as int, n as int);
            assert(rest[0] == (self.vars@[i as int].0@, self.vars@[i as int].1@));
            assert(rest.drop_first() =~= self@.subrange(i + 1, n as int));
            if str_eq(self.vars[i].0.as_str(), name) {
                return Some(self.vars[i].1.clone());
            }
            i += 1;
        }
        None
    }
}

/// Why no credential could be resolved.
#[derive(Debug, Clone)]
pub enum KeyError {
    /// No variable is known to hold the credential for the model.
    NoSource { model: String },
    /// The variable that holds the credential for the model is not set.
    NotSet { variable: String, model: String },
    /// The variable is set, to nothing but whitespace.
    Empty { variable: String, model: String },
}

/// A `KeyError`, as sequences of characters.
pub enum KeyErrorView {
    NoSource { model: Seq<char> },
    NotSet { variable: Seq<char>, model: Seq<char> },
    Empty { variable: Seq<char>, model: Seq<char> },
}

impl View for KeyError {
    type V = KeyErrorView;

    open spec fn view(&self) -> KeyErrorView {
        match self {
            KeyError::NoSource { model } => KeyErrorView::NoSource { model: model@ },
            KeyError::NotSet { variable, model } => KeyErrorView::NotSet {
                variable: variable@,
                model: model@,
            },
            KeyError::Empty { variable, model } => KeyErrorView::Empty {
                variable: variable@,
                model: model@,
            },
        }
    }
}

/// What follows the first sentence of the message about a variable that is
/// not set or empty, up to the model's name.
pub const KEY_REMEDY_HEAD: &'static str = "\n\n解决方法：\n1. 设置环境变量: export ";

/// The part between the variable and the model's name.
pub const KEY_REMEDY_MIDDLE: &'static str =
    "=<your_api_key>\n2. 或者手动提供密钥: transome -k <your_api_key> -m ";

/// The end of the message: where a credential can be had.
pub const KEY_REMEDY_TAIL: &'static str =
    " <文本>\n\n获取 API 密钥的方法：\n- OpenAI API 密钥: https://platform.openai.com/api-keys\n- Google AI API 密钥: https://aistudio.google.com/app/apikey";

/// What follows the model's name in the message about a model whose
/// credential has no known source, up to the model's name again.
pub const NO_SOURCE_MIDDLE: &'static str =
    "' 确定对应的环境变量。\n\n支持的模型及其环境变量：\n- OpenAI 模型 (gpt-4, gpt-4o, gpt-3.5-turbo 等): OPENAI_API_KEY\n- Google Gemini 模型 (gemini-2.5-flash, gemini-1.5-pro 等): GOOGLE_AI_API_KEY\n\n解决方法：\n1. 使用支持的模型: transome -m <支持的模型名称> <文本>\n2. 手动提供 API 密钥: transome -k <your_api_key> -m ";

/// The end of that message.
pub const NO_SOURCE_TAIL: &'static str = " <文本>\n3. 查看所有支持的模型: transome --list-models";

impl KeyErrorView {
    /// The kind of the error: a credential whose source cannot be told is a
    /// matter of configuration, one that is missing or empty a matter of
    /// authentication.
    pub open spec fn kind(self) -> ErrorKind {
        match self {
            KeyErrorView::NoSource { .. } => ErrorKind::ConfigError,
            KeyErrorView::NotSet { .. } => ErrorKind::AuthenticationError,
            KeyErrorView::Empty { .. } => ErrorKind::AuthenticationError,
        }
    }

    /// How to set the variable or pass the credential by hand, and where a
    /// credential can be had.
    pub open spec fn remedy(variable: Seq<char>, model: Seq<char>) -> Seq<char> {
        KEY_REMEDY_HEAD@ + variable + KEY_REMEDY_MIDDLE@ + model + KEY_REMEDY_TAIL@
    }

    /// The message of the error. It names the variable to set and the flag
    /// that passes a credential by hand, and never holds a credential.
    pub open spec fn message(self) -> Seq<char> {
        match self {
            KeyErrorView::NoSource { model } => "无法为模型 '"@ + model + NO_SOURCE_MIDDLE@
                + model + NO_SOURCE_TAIL@,
            KeyErrorView::NotSet { variable, model } => "环境变量 "@ + variable + " 未设置。"@
                + Self::remedy(variable, model),
            KeyErrorView::Empty { variable, model } => "环境变量 "@ + variable
                + " 已设置但为空。"@ + Self::remedy(variable, model),
        }
    }
}

impl KeyError {
    /// The kind of the error.
    pub fn kind(&self) -> (r: ErrorKind)
        ensures
            r == self@.kind(),
    {
        match self {
            KeyError::NoSource { .. } => ErrorKind::ConfigError,
            KeyError::NotSet { .. } => ErrorKind::AuthenticationError,
            KeyError::Empty { .. } => ErrorKind::AuthenticationError,
        }
    }

    /// The message of the error.
    pub fn to_string(&self) -> (r: String)
        ensures
            r@ == self@.message(),
    {
        match self {
            KeyError::NoSource { model } => {
                let mut out = String::from_str("无法为模型 '");
                out.append(model.as_str());
                out.append(NO_SOURCE_MIDDLE);
                out.append(model.as_str());
                out.append(NO_SOURCE_TAIL);
                assert(out@ =~= self@.message());
                out
            },
            KeyError::NotSet { variable, model } => {
                let mut out = String::from_str("环境变量 ");
                out.append(variable.as_str());
                out.append(" 未设置。");
                out.append(KEY_REMEDY_HEAD);
                out.append(variable.as_str());
                out.append(KEY_REMEDY_MIDDLE);
                out.append(model.as_str());
                out.append(KEY_REMEDY_TAIL);
                assert(out@ =~= self@.message());
                out
            },
            KeyError::Empty { variable, model } => {
                let mut out = String::from_str("环境变量 ");
                out.append(variable.as_str());
                out.append(" 已设置但为空。");
                out.append(KEY_REMEDY_HEAD);
                out.append(variable.as_str());
                out.append(KEY_REMEDY_MIDDLE);
                out.append(model.as_str());
                out.append(KEY_REMEDY_TAIL);
                assert(out@ =~= self@.message());
                out
            },
        }
    }
}

/// Why the settings do not allow a translation.
#[derive(Debug, Clone)]
pub enum CliError {
    /// No text was given.
    TextMissing,
    /// The text is empty or nothing but whitespace.
    TextBlank,
    /// No credential could be resolved.
    Key { reason: KeyError },
    /// No endpoint was given and the registry does not know the model.
    ModelNotFound { model: String },
}

/// A `CliError`, as sequences of characters.
pub enum CliErrorView {
    TextMissing,
    TextBlank,
    Key { reason: KeyErrorView },
    ModelNotFound { model: Seq<char> },
}

impl View for CliError {
    type V = CliErrorView;

    open spec fn view(&self) -> CliErrorView {
        match self {
            CliError::TextMissing => CliErrorView::TextMissing,
            CliError::TextBlank => CliErrorView::TextBlank,
            CliError::Key { reason } => CliErrorView::Key { reason: reason@ },
            CliError::ModelNotFound { model } => CliErrorView::ModelNotFound { model: model@ },
        }
    }
}

/// How the tool is called, as the end of the messages about the text.
pub const TEXT_USAGE: &'static str =
    "\n\n使用方法: transome [选项] <文本>\n\n获取更多信息，使用: transome --help";

/// The end of the message about a credential that could not be resolved.
pub const KEY_CHECK_TAIL: &'static str =
    "\n\n请确保为所选模型设置了正确的环境变量或通过 -k 参数提供密钥。";

impl CliErrorView {
    /// The kind of the error.
    pub open spec fn kind(self) -> ErrorKind {
        match self {
            CliErrorView::TextMissing => ErrorKind::ValidationError,
            CliErrorView::TextBlank => ErrorKind::ValidationError,
            CliErrorView::Key { reason } => reason.kind(),
            CliErrorView::ModelNotFound { .. } => ErrorKind::ModelNotFound,
        }
    }

    /// The message of the error, with what to do about it.
    pub open spec fn message(self) -> Seq<char> {
        match self {
            CliErrorView::TextMissing => "要翻译的文本是必需的"@ + TEXT_USAGE@,
            CliErrorView::TextBlank => "要翻译的文本不能为空"@ + TEXT_USAGE@,
            CliErrorView::Key { reason } => "API 密钥验证失败："@ + reason.message()
                + KEY_CHECK_TAIL@,
            CliErrorView::ModelNotFound { model } => model_error_message(model),
        }
    }
}

impl CliError {
    /// The kind of the error.
    pub fn kind(&self) -> (r: ErrorKind)
        ensures
            r == self@.kind(),
    {
        match self {
            CliError::TextMissing => ErrorKind::ValidationError,
            CliError::TextBlank => ErrorKind::ValidationError,
            CliError::Key { reason } => reason.kind(),
            CliError::ModelNotFound { .. } => ErrorKind::ModelNotFound,
        }
    }

    /// The message of the error.
    pub fn to_string(&self) -> (r: String)
        ensures
            r@ == self@.message(),
    {
        match self {
            CliError::TextMissing => {
                let mut out = String::from_str("要翻译的文本是必需的");
                out.append(TEXT_USAGE);
                out
            },
            CliError::TextBlank => {
                let mut out = String::from_str("要翻译的文本不能为空");
                out.append(TEXT_USAGE);
                out
            },
            CliError::Key { reason } => {
                let inner = reason.to_string();
                let mut out = String::from_str("API 密钥验证失败：");
                out.append(inner.as_str());
                out.append(KEY_CHECK_TAIL);
                out
            },
            CliError::ModelNotFound { model } => create_model_error_message(model.as_str()),
        }
    }
}

/// The credential that the settings resolve to: one given by hand comes
/// first, whatever the environment holds; else the variable of the model's
/// provider is read, and its value must hold more than whitespace.
pub open spec fn resolved_key(
    key: Option<Seq<char>>,
    model: Seq<char>,
    env: Seq<(Seq<char>, Seq<char>)>,
) -> Result<Seq<char>, KeyErrorView> {
    match key {
        Some(given) => Ok(given),
        None => match credential_variable(model) {
            None => Err(KeyErrorView::NoSource { model }),
            Some(variable) => match lookup(env, variable) {
                None => Err(KeyErrorView::NotSet { variable, model }),
                Some(value) => if is_blank(value) {
                    Err(KeyErrorView::Empty { variable, model })
                } else {
                    Ok(value)
                },
            },
        },
    }
}

/// The endpoint that the settings resolve to: one given by hand comes first,
/// whatever the model; else the registry is asked for the model's endpoint.
pub open spec fn resolved_url(url: Option<Seq<char>>, model: Seq<char>) -> Result<
    Seq<char>,
    CliErrorView,
> {
    match url {
        Some(given) => Ok(given),
        None => match model_url(model) {
            Some(known) => Ok(known),
            None => Err(CliErrorView::ModelNotFound { model }),
        },
    }
}

/// What a command line holds, as sequences of characters.
pub struct CliView {
    pub text: Option<Seq<char>>,
    pub model: Seq<char>,
    pub url: Option<Seq<char>>,
    pub key: Option<Seq<char>>,
    pub prompt: Seq<char>,
    pub list_models: bool,
}

/// Whether the settings allow what they ask for. Listing the models needs
/// nothing. A translation needs, in this order: a text that is not blank, a
/// credential, and, where no endpoint is given, a model that the registry
/// knows. The first that is missing is the error.
pub open spec fn validated(cli: CliView, env: Seq<(Seq<char>, Seq<char>)>) -> Result<
    (),
    CliErrorView,
> {
    if cli.list_models {
        Ok(())
    } else {
        match cli.text {
            None => Err(CliErrorView::TextMissing),
            Some(text) => if is_blank(text) {
                Err(CliErrorView::TextBlank)
            } else {
                match resolved_key(cli.key, cli.model, env) {
                    Err(reason) => Err(CliErrorView::Key { reason }),
                    Ok(_) => if cli.url.is_none() && model_url(cli.model).is_none() {
                        Err(CliErrorView::ModelNotFound { model: cli.model })
                    } else {
                        Ok(())
                    },
                }
            },
        }
    }
}

/// A result with a string or an error in it, as sequences of characters.
pub open spec fn key_result_view(r: Result<String, KeyError>) -> Result<Seq<char>, KeyErrorView> {
    match r {
        Ok(key) => Ok(key@),
        Err(e) => Err(e@),
    }
}

/// A result with a string or an error in it, as sequences of characters.
pub open spec fn url_result_view(r: Result<String, CliError>) -> Result<Seq<char>, CliErrorView> {
    match r {
        Ok(url) => Ok(url@),
        Err(e) => Err(e@),
    }
}

/// A result with an error in it, as sequences of characters.
pub open spec fn check_result_view(r: Result<(), CliError>) -> Result<(), CliErrorView> {
    match r {
        Ok(_) => Ok(()),
        Err(e) => Err(e@),
    }
}

/// The settings of one call of the tool.
#[derive(Debug, Clone)]
pub struct Cli {
    /// The text to translate.
    pub text: Option<String>,
    /// The model that translates.
    pub model: String,
    /// An endpoint given by hand.
    pub url: Option<String>,
    /// A credential given by hand.
    pub key: Option<String>,
    /// The instruction that goes before the text.
    pub prompt: String,
    /// Whether the models are to be listed.
    pub list_models: bool,
}

impl View for Cli {
    type V = CliView;

    open spec fn view(&self) -> CliView {
        CliView {
            text: self.text.deep_view(),
            model: self.model@,
            url: self.url.deep_view(),
            key: self.key.deep_view(),
            prompt: self.prompt@,
            list_models: self.list_models,
        }
    }
}

impl Cli {
    /// The credential to use, read from the settings and, where they hold
    /// none, from `env`.
    pub fn resolve_api_key(&self, env: &Environment) -> (r: Result<String, KeyError>)
        ensures
            key_result_view(r) == resolved_key(self@.key, self@.model, env@),
    {
        if let Some(key) = &self.key {
            return Ok(key.clone());
        }
        let variable = match get_env_var_name_for_model(self.model.as_str()) {
            Some(variable) => variable,
            None => {
                return Err(KeyError::NoSource { model: self.model.clone() });
            },
        };
        match env.get(variable) {
            Some(value) => {
                if is_blank_str(value.as_str()) {
                    Err(
                        KeyError::Empty {
                            variable: variable.to_owned(),
                            model: self.model.clone(),
                        },
                    )
                } else {
                    Ok(value)
                }
            },
            None => Err(
                KeyError::NotSet { variable: variable.to_owned(), model: self.model.clone() },
            ),
        }
    }

    /// The endpoint to use: the one given by hand, else the one of the model.
    pub fn resolve_url(&self) -> (r: Result<String, CliError>)
        ensures
            url_result_view(r) == resolved_url(self@.url, self@.model),
    {
        if let Some(url) = &self.url {
            Ok(url.clone())
        } else if let Some(url) = get_model_url(self.model.as_str()) {
            Ok(url)
        } else {
            Err(CliError::ModelNotFound { model: self.model.clone() })
        }
    }

    /// The listing of all models with the usage notes, ready to be printed.
    pub fn list_all_models() -> (r: String)
        ensures
            r@ == models_listing(),
    {
        list_models()
    }

    /// Checks that the settings allow what they ask for, and says what is
    /// missing first where they do not.
    pub fn validate(&self, env: &Environment) -> (r: Result<(), CliError>)
        ensures
            check_result_view(r) == validated(self@, env@),
    {
        if self.list_models {
            return Ok(());
        }
        match &self.text {
            Some(text) => {
                if is_blank_str(text.as_str()) {
                    return Err(CliError::TextBlank);
                }
            },
            None => {
                return Err(CliError::TextMissing);
            },
        }
        match self.resolve_api_key(env) {
            Ok(_) => {},
            Err(reason) => {
                return Err(CliError::Key { reason });
            },
        }
        if self.url.is_none() && !is_model_supported(self.model.as_str()) {
            return Err(CliError::ModelNotFound { model: self.model.clone() });
        }
        Ok(())
    }
}

/// A credential given by hand is the one that is resolved, whatever the
/// model is and whatever the environment holds.
pub proof fn lemma_given_key_wins(
    key: Seq<char>,
    model: Seq<char>,
    env: Seq<(Seq<char>, Seq<char>)>,
)
    ensures
        resolved_key(Some(key), model, env) == Ok::<Seq<char>, KeyErrorView>(key),
{
}

/// Without a credential given by hand, a variable that holds nothing but
/// whitespace is refused as one that is not set is, and each with an error of
/// its own: a blank value is never taken for a credential.
pub proof fn lemma_blank_credential_is_refused(
    model: Seq<char>,
    variable: Seq<char>,
    env: Seq<(Seq<char>, Seq<char>)>,
)
    requires
        credential_variable(model) == Some(variable),
    ensures
        lookup(env, variable).is_none() ==> resolved_key(None, model, env) == Err::<
            Seq<char>,
            KeyErrorView,
        >(KeyErrorView::NotSet { variable, model }),
        lookup(env, variable).is_some() && is_blank(lookup(env, variable).unwrap())
            ==> resolved_key(None, model, env) == Err::<Seq<char>, KeyErrorView>(
            KeyErrorView::Empty { variable, model },
        ),
        (KeyErrorView::NotSet { variable, model }) != (KeyErrorView::Empty { variable, model }),
{
}

/// A translation whose text is blank fails on the text, before the
/// credential and the model are looked at: whatever they and the environment
/// are, the error is the one about the text.
pub proof fn lemma_blank_text_fails_first(cli: CliView, env: Seq<(Seq<char>, Seq<char>)>)
    requires
        !cli.list_models,
        cli.text.is_some(),
        is_blank(cli.text.unwrap()),
    ensures
        validated(cli, env) == Err::<(), CliErrorView>(CliErrorView::TextBlank),
{
}

/// A translation for a model that the registry does not know, with no
/// endpoint given, fails for every environment: on the text, on the
/// credential, or on the model.
pub proof fn lemma_unknown_model_fails(cli: CliView, env: Seq<(Seq<char>, Seq<char>)>)
    requires
        !cli.list_models,
        cli.url.is_none(),
        model_url(cli.model).is_none(),
    ensures
        validated(cli, env).is_err(),
        resolved_url(cli.url, cli.model) == Err::<Seq<char>, CliErrorView>(
            CliErrorView::ModelNotFound { model: cli.model },
        ),
{
}

} // verus!

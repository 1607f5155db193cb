//! The library's error type, with the technical message and the short
//! message for the user of each error.

use crate::text::{decimal, decimal_string, join, joined};
use vstd::prelude::*;
use vstd::std_specs::convert::FromSpecImpl;
use vstd::string::StringExecFns;

verus! {

/// `reqwest::Error`, the error of the HTTP transport. Nothing is known of
/// what a value of it holds.
#[verifier::external_type_specification]
#[verifier::external_body]
pub struct ExReqwestError(reqwest::Error);

/// `serde_json::Error`, the error of JSON reading and writing. Nothing is
/// known of what a value of it holds.
#[verifier::external_type_specification]
#[verifier::external_body]
pub struct ExJsonError(serde_json::Error);

/// `std::io::Error`. Nothing is known of what a value of it holds.
#[verifier::external_type_specification]
#[verifier::external_body]
pub struct ExIoError(std::io::Error);

/// Whether a transport error came up while connecting: whether one of the
/// errors behind it is a connect error of the HTTP client.
pub uninterp spec fn connect_failed(e: reqwest::Error) -> bool;

/// Whether a transport error is a timeout: whether it or one of the errors
/// behind it says that the time ran out.
pub uninterp spec fn timed_out(e: reqwest::Error) -> bool;

/// The text that a transport error shows of itself: what kind of error it
/// is and, where it has one, the URL that it came up for.
pub uninterp spec fn transport_text(e: reqwest::Error) -> Seq<char>;

/// `reqwest::Error::is_connect`: whether the error came up while connecting.
/// It returns for every error, and its answer is fixed by the error.
pub assume_specification[ reqwest::Error::is_connect ](e: &reqwest::Error) -> (r: bool)
    ensures
        r == connect_failed(*e),
;

/// `reqwest::Error::is_timeout`: whether the error is a timeout. It returns
/// for every error, and its answer is fixed by the error.
pub assume_specification[ reqwest::Error::is_timeout ](e: &reqwest::Error) -> (r: bool)
    ensures
        r == timed_out(*e),
;

/// The text that `reqwest::Error` shows of itself through `Display`, which
/// is fixed by the error.
#[verifier::external_body]
fn transport_error_text(e: &reqwest::Error) -> (r: String)
    ensures
        r@ == transport_text(*e),
{
    format!("{}", e)
}

/// The text that `serde_json::Error` shows of itself through `Display`.
/// Nothing is stated of the text: an error that carries an input or output
/// error shows that error's text, which the platform words.
#[verifier::external_body]
fn json_error_text(e: &serde_json::Error) -> (r: String) {
    format!("{}", e)
}

/// The text that `std::io::Error` shows of itself through `Display`. Nothing
/// is stated of the text, which the platform words.
#[verifier::external_body]
fn io_error_text(e: &std::io::Error) -> (r: String) {
    format!("{}", e)
}

/// The kinds of failure that a translation can end in.
#[derive(Debug, Clone, Copy, PartialEq, Eq, Structural)]
pub enum ErrorKind {
    /// No endpoint is known for the model.
    ModelNotFound,
    /// It cannot be told where the credential is to come from.
    ConfigError,
    /// The credential is not set, is empty, or was turned down.
    AuthenticationError,
    /// The provider answered with a failure.
    ApiCallFailed,
    /// The provider could not be reached in time.
    NetworkError,
    /// The answer holds no translation.
    EmptyResult,
    /// An input was refused before anything was sent.
    ValidationError,
}

/// What can go wrong in the library.
#[derive(Debug)]
#[allow(inconsistent_fields)]
pub enum TransomeError {
    /// The registry does not know the model.
    ModelNotFound { model_name: String, available_models: Vec<String> },
    /// The endpoint answered with a failure.
    ApiCallFailed { endpoint: String, status_code: Option<u16>, message: String },
    /// The transport failed.
    NetworkError { source: reqwest::Error },
    /// JSON could not be read or written.
    JsonError { source: serde_json::Error, context: String },
    /// Input or output failed.
    IoError { source: std::io::Error, context: String },
    /// The credential is missing or was turned down.
    AuthenticationError { message: String },
    /// A setting is wrong.
    ConfigError { field: String, message: String },
    /// An input is not what it has to be.
    ValidationError { field: String, expected: String, actual: String },
    /// A model could not be loaded.
    ModelLoadError { model_path: String, reason: String },
    /// The translation service failed.
    TranslationServiceError { service: String, message: String },
    /// Anything else, with its message.
    General { message: String },
}

impl TransomeError {
    /// Whether the error carries the error of an outside library, whose text
    /// is part of the technical message.
    pub open spec fn carries_source(&self) -> bool {
        self is NetworkError || self is JsonError || self is IoError
    }

    /// The technical message, where `detail` is the text of the error that
    /// this one carries, if it carries one.
    pub open spec fn display(&self, detail: Seq<char>) -> Seq<char> {
        match self {
            TransomeError::ModelNotFound { model_name, available_models } => "未找到模型 '"@
                + model_name@ + "'。可用模型：["@ + joined(available_models.deep_view(), ", "@)
                + "]"@,
            TransomeError::ApiCallFailed { endpoint, status_code, message } => match status_code {
                Some(code) => "API 调用 '"@ + endpoint@ + "' 失败，状态码 "@ + decimal(
                    *code as nat,
                ) + "："@ + message@,
                None => "API 调用 '"@ + endpoint@ + "' 失败："@ + message@,
            },
            TransomeError::NetworkError { source } => "网络错误："@ + detail,
            TransomeError::JsonError { source, context } => context@ + " 中的 JSON 错误："@
                + detail,
            TransomeError::IoError { source, context } => context@ + " 中的 IO 错误："@ + detail,
            TransomeError::AuthenticationError { message } => "认证失败："@ + message@,
            TransomeError::ConfigError { field, message } => "配置字段 '"@ + field@ + "' 错误："@
                + message@,
            TransomeError::ValidationError { field, expected, actual } => "验证字段 '"@ + field@
                + "' 错误：期望 "@ + expected@ + "，实际 "@ + actual@,
            TransomeError::ModelLoadError { model_path, reason } => "从 '"@ + model_path@
                + "' 加载模型失败："@ + reason@,
            TransomeError::TranslationServiceError { service, message } => "翻译服务 '"@
                + service@ + "' 错误："@ + message@,
            TransomeError::General { message } => message@,
        }
    }

    /// The short message for the user, where `connect` and `timeout` say of a
    /// transport error whether it came up while connecting and whether it is
    /// a timeout.
    pub open spec fn friendly(&self, connect: bool, timeout: bool) -> Seq<char> {
        match self {
            TransomeError::ModelNotFound { model_name, available_models } => {
                if available_models@.len() == 0 {
                    "找不到模型 '"@ + model_name@ + "'，当前没有可用的模型"@
                } else {
                    "找不到模型 '"@ + model_name@ + "'，可用的模型有："@ + joined(
                        available_models.deep_view(),
                        "、"@,
                    )
                }
            },
            TransomeError::ApiCallFailed { endpoint, status_code, message } => match status_code {
                Some(code) => {
                    if 400 <= *code < 500 {
                        "请求错误 ("@ + decimal(*code as nat) + "): 请检查参数或权限配置"@
                    } else if *code >= 500 {
                        "服务器错误 ("@ + decimal(*code as nat) + "): 请稍后重试"@
                    } else {
                        "API调用失败: "@ + message@
                    }
                },
                None => "API调用失败: "@ + message@,
            },
            TransomeError::NetworkError { source } => {
                if connect {
                    "网络连接失败，请检查网络设置"@
                } else if timeout {
                    "请求超时，请稍后重试"@
                } else {
                    "网络错误，请检查网络连接"@
                }
            },
            TransomeError::AuthenticationError { message } => "认证失败，请检查API密钥或凭据配置"@,
            TransomeError::ConfigError { field, message } => "配置错误：请检查 '"@ + field@
                + "' 字段的设置"@,
            TransomeError::ValidationError { field, expected, actual } => "参数错误：'"@ + field@
                + "' 字段应为 "@ + expected@,
            TransomeError::ModelLoadError { model_path, reason } => "模型加载失败：无法从 '"@
                + model_path@ + "' 加载模型"@,
            TransomeError::TranslationServiceError { service, message } => "翻译服务 '"@
                + service@ + "' 暂时不可用，请稍后重试"@,
            _ => "操作失败，请重试"@,
        }
    }

    /// The short message for the user: for a transport error by what the
    /// transport library tells of it, for every other error by the error
    /// alone.
    pub open spec fn friendly_text(&self) -> Seq<char> {
        match self {
            TransomeError::NetworkError { source } => self.friendly(
                connect_failed(*source),
                timed_out(*source),
            ),
            _ => self.friendly(false, false),
        }
    }

    /// The error of a model that the registry does not know.
    pub fn model_not_found(model_name: &str, available_models: Vec<String>) -> (r: Self)
        ensures
            r matches TransomeError::ModelNotFound { model_name: name, available_models: models }
                && name@ == model_name@ && models == available_models,
    {
        TransomeError::ModelNotFound { model_name: model_name.to_owned(), available_models }
    }

    /// The error of a call that the endpoint answered with a failure.
    pub fn api_call_failed(endpoint: &str, status_code: Option<u16>, message: &str) -> (r: Self)
        ensures
            r matches TransomeError::ApiCallFailed { endpoint: e, status_code: c, message: m }
                && e@ == endpoint@ && c == status_code && m@ == message@,
    {
        TransomeError::ApiCallFailed {
            endpoint: endpoint.to_owned(),
            status_code,
            message: message.to_owned(),
        }
    }

    /// A JSON error, with the place where it came up.
    pub fn json_error_with_context(error: serde_json::Error, context: &str) -> (r: Self)
        ensures
            r matches TransomeError::JsonError { source: s, context: c } && s == error && c@
                == context@,
    {
        TransomeError::JsonError { source: error, context: context.to_owned() }
    }

    /// An input or output error, with the place where it came up.
    pub fn io_error_with_context(error: std::io::Error, context: &str) -> (r: Self)
        ensures
            r matches TransomeError::IoError { source: s, context: c } && s == error && c@
                == context@,
    {
        TransomeError::IoError { source: error, context: context.to_owned() }
    }

    /// The error of a credential that is missing or was turned down.
    pub fn authentication_error(message: &str) -> (r: Self)
        ensures
            r matches TransomeError::AuthenticationError { message: m } && m@ == message@,
    {
        TransomeError::AuthenticationError { message: message.to_owned() }
    }

    /// The error of a wrong setting.
    pub fn config_error(field: &str, message: &str) -> (r: Self)
        ensures
            r matches TransomeError::ConfigError { field: f, message: m } && f@ == field@ && m@
                == message@,
    {
        TransomeError::ConfigError { field: field.to_owned(), message: message.to_owned() }
    }

    /// The error of an input that is not what it has to be.
    pub fn validation_error(field: &str, expected: &str, actual: &str) -> (r: Self)
        ensures
            r matches TransomeError::ValidationError { field: f, expected: e, actual: a } && f@
                == field@ && e@ == expected@ && a@ == actual@,
    {
        TransomeError::ValidationError {
            field: field.to_owned(),
            expected: expected.to_owned(),
            actual: actual.to_owned(),
        }
    }

    /// The error of a model that could not be loaded.
    pub fn model_load_error(model_path: &str, reason: &str) -> (r: Self)
        ensures
            r matches TransomeError::ModelLoadError { model_path: p, reason: s } && p@
                == model_path@ && s@ == reason@,
    {
        TransomeError::ModelLoadError {
            model_path: model_path.to_owned(),
            reason: reason.to_owned(),
        }
    }

    /// The error of a translation service that failed.
    pub fn translation_service_error(service: &str, message: &str) -> (r: Self)
        ensures
            r matches TransomeError::TranslationServiceError { service: s, message: m } && s@
                == service@ && m@ == message@,
    {
        TransomeError::TranslationServiceError {
            service: service.to_owned(),
            message: message.to_owned(),
        }
    }

    /// Whether the transport failed.
    pub fn is_network_error(&self) -> (r: bool)
        ensures
            r == (self is NetworkError),
    {
        match self {
            TransomeError::NetworkError { .. } => true,
            _ => false,
        }
    }

    /// Whether the credential is missing or was turned down.
    pub fn is_auth_error(&self) -> (r: bool)
        ensures
            r == (self is AuthenticationError),
    {
        match self {
            TransomeError::AuthenticationError { .. } => true,
            _ => false,
        }
    }

    /// Whether a setting is wrong.
    pub fn is_config_error(&self) -> (r: bool)
        ensures
            r == (self is ConfigError),
    {
        match self {
            TransomeError::ConfigError { .. } => true,
            _ => false,
        }
    }

    /// The technical message of the error, given the text of the error that
    /// it carries. An error that carries none does not read `detail`.
    pub fn render(&self, detail: &str) -> (r: String)
        ensures
            r@ == self.display(detail@),
    {
        match self {
            TransomeError::ModelNotFound { model_name, available_models } => {
                let list = join(available_models, ", ");
                let mut out = String::from_str("未找到模型 '");
                out.append(model_name.as_str());
                out.append("'。可用模型：[");
                out.append(list.as_str());
                out.append("]");
                assert(out@ =~= self.display(detail@));
                out
            },
            TransomeError::ApiCallFailed { endpoint, status_code, message } => {
                let mut out = String::from_str("API 调用 '");
                out.append(endpoint.as_str());
                match status_code {
                    Some(code) => {
                        let number = decimal_string(*code);
                        out.append("' 失败，状态码 ");
                        out.append(number.as_str());
                        out.append("：");
                    },
                    None => {
                        out.append("' 失败：");
                    },
                }
                out.append(message.as_str());
                assert(out@ =~= self.display(detail@));
                out
            },
            TransomeError::NetworkError { source } => {
                let mut out = String::from_str("网络错误：");
                out.append(detail);
                out
            },
            TransomeError::JsonError { source, context } => {
                let mut out = context.clone();
                out.append(" 中的 JSON 错误：");
                out.append(detail);
                out
            },
            TransomeError::IoError { source, context } => {
                let mut out = context.clone();
                out.append(" 中的 IO 错误：");
                out.append(detail);
                out
            },
            TransomeError::AuthenticationError { message } => {
                let mut out = String::from_str("认证失败：");
                out.append(message.as_str());
                out
            },
            TransomeError::ConfigError { field, message } => {
                let mut out = String::from_str("配置字段 '");
                out.append(field.as_str());
                out.append("' 错误：");
                out.append(message.as_str());
                out
            },
            TransomeError::ValidationError { field, expected, actual } => {
                let mut out = String::from_str("验证字段 '");
                out.append(field.as_str());
                out.append("' 错误：期望 ");
                out.append(expected.as_str());
                out.append("，实际 ");
                out.append(actual.as_str());
                assert(out@ =~= self.display(detail@));
                out
            },
            TransomeError::ModelLoadError { model_path, reason } => {
                let mut out = String::from_str("从 '");
                out.append(model_path.as_str());
                out.append("' 加载模型失败：");
                out.append(reason.as_str());
                out
            },
            TransomeError::TranslationServiceError { service, message } => {
                let mut out = String::from_str("翻译服务 '");
                out.append(service.as_str());
                out.append("' 错误：");
                out.append(message.as_str());
                out
            },
            TransomeError::General { message } => message.clone(),
        }
    }

    /// The text of the error that this one carries; empty where it carries
    /// none. The text of a JSON error or an input or output error is what
    /// the outside library shows of it, of which nothing is stated.
    fn source_text(&self) -> (r: String)
        ensures
            !self.carries_source() ==> r@ == Seq::<char>::empty(),
            self matches TransomeError::NetworkError { source } ==> r@ == transport_text(*source),
    {
        match self {
            TransomeError::NetworkError { source } => transport_error_text(source),
            TransomeError::JsonError { source, .. } => json_error_text(source),
            TransomeError::IoError { source, .. } => io_error_text(source),
            _ => String::new(),
        }
    }

    /// The technical message of the error. Where the error carries the error
    /// of an outside library, that error's own text stands in it as the
    /// detail: for a transport error the text that it shows of itself, for a
    /// JSON error or an input or output error a text that is not stated,
    /// since the platform may word it. Every other message is fixed by the
    /// error alone.
    pub fn to_string(&self) -> (r: String)
        ensures
            exists|detail: Seq<char>| r@ == self.display(detail),
            !self.carries_source() ==> r@ == self.display(Seq::empty()),
            self matches TransomeError::NetworkError { source } ==> r@ == self.display(
                transport_text(*source),
            ),
    {
        let detail = self.source_text();
        let r = self.render(detail.as_str());
        assert(r@ == self.display(detail@));
        r
    }

    /// The short message for the user, given what is known of a transport
    /// error. An error of another kind reads neither flag.
    pub fn friendly_message(&self, connect: bool, timeout: bool) -> (r: String)
        ensures
            r@ == self.friendly(connect, timeout),
    {
        match self {
            TransomeError::ModelNotFound { model_name, available_models } => {
                let mut out = String::from_str("找不到模型 '");
                out.append(model_name.as_str());
                if available_models.len() == 0 {
                    out.append("'，当前没有可用的模型");
                } else {
                    let list = join(available_models, "、");
                    out.append("'，可用的模型有：");
                    out.append(list.as_str());
                }
                assert(out@ =~= self.friendly(connect, timeout));
                out
            },
            TransomeError::ApiCallFailed { endpoint, status_code, message } => {
                match status_code {
                    Some(code) if *code >= 400 && *code < 500 => {
                        let number = decimal_string(*code);
                        let mut out = String::from_str("请求错误 (");
                        out.append(number.as_str());
                        out.append("): 请检查参数或权限配置");
                        out
                    },
                    Some(code) if *code >= 500 => {
                        let number = decimal_string(*code);
                        let mut out = String::from_str("服务器错误 (");
                        out.append(number.as_str());
                        out.append("): 请稍后重试");
                        out
                    },
                    _ => {
                        let mut out = String::from_str("API调用失败: ");
                        out.append(message.as_str());
                        out
                    },
                }
            },
            TransomeError::NetworkError { source } => {
                if connect {
                    String::from_str("网络连接失败，请检查网络设置")
                } else if timeout {
                    String::from_str("请求超时，请稍后重试")
                } else {
                    String::from_str("网络错误，请检查网络连接")
                }
            },
            TransomeError::AuthenticationError { .. } => String::from_str(
                "认证失败，请检查API密钥或凭据配置",
            ),
            TransomeError::ConfigError { field, .. } => {
                let mut out = String::from_str("配置错误：请检查 '");
                out.append(field.as_str());
                out.append("' 字段的设置");
                out
            },
            TransomeError::ValidationError { field, expected, .. } => {
                let mut out = String::from_str("参数错误：'");
                out.append(field.as_str());
                out.append("' 字段应为 ");
                out.append(expected.as_str());
                out
            },
            TransomeError::ModelLoadError { model_path, .. } => {
                let mut out = String::from_str("模型加载失败：无法从 '");
                out.append(model_path.as_str());
                out.append("' 加载模型");
                out
            },
            TransomeError::TranslationServiceError { service, .. } => {
                let mut out = String::from_str("翻译服务 '");
                out.append(service.as_str());
                out.append("' 暂时不可用，请稍后重试");
                out
            },
            _ => String::from_str("操作失败，请重试"),
        }
    }

    /// The short message for the user. Of a transport error it says whether
    /// connecting failed, the request timed out, or neither, as the transport
    /// library tells; every other message is fixed by the error alone.
    pub fn user_friendly_message(&self) -> (r: String)
        ensures
            r@ == self.friendly_text(),
    {
        match self {
            TransomeError::NetworkError { source } => {
                let connect = source.is_connect();
                let timeout = source.is_timeout();
                self.friendly_message(connect, timeout)
            },
            _ => self.friendly_message(false, false),
        }
    }
}

impl From<reqwest::Error> for TransomeError {
    /// A transport error.
    fn from(error: reqwest::Error) -> (r: Self) {
        TransomeError::NetworkError { source: error }
    }
}

impl FromSpecImpl<reqwest::Error> for TransomeError {
    open spec fn obeys_from_spec() -> bool {
        true
    }

    open spec fn from_spec(error: reqwest::Error) -> Self {
        TransomeError::NetworkError { source: error }
    }
}

impl From<serde_json::Error> for TransomeError {
    /// A JSON error whose place is not known.
    fn from(error: serde_json::Error) -> (r: Self)
        ensures
            r matches TransomeError::JsonError { source: s, context: c } && s == error && c@
                == "未知"@,
    {
        TransomeError::JsonError { source: error, context: String::from_str("未知") }
    }
}

impl FromSpecImpl<serde_json::Error> for TransomeError {
    /// The context is a string made on the way, so `from` states its result
    /// in its own `ensures` and not as one value.
    open spec fn obeys_from_spec() -> bool {
        false
    }

    open spec fn from_spec(error: serde_json::Error) -> Self {
        TransomeError::JsonError { source: error, context: arbitrary() }
    }
}

impl From<std::io::Error> for TransomeError {
    /// An input or output error whose place is not known.
    fn from(error: std::io::Error) -> (r: Self)
        ensures
            r matches TransomeError::IoError { source: s, context: c } && s == error && c@
                == "未知"@,
    {
        TransomeError::IoError { source: error, context: String::from_str("未知") }
    }
}

impl FromSpecImpl<std::io::Error> for TransomeError {
    /// As for a JSON error: `from` states its result in its own `ensures`.
    open spec fn obeys_from_spec() -> bool {
        false
    }

    open spec fn from_spec(error: std::io::Error) -> Self {
        TransomeError::IoError { source: error, context: arbitrary() }
    }
}

impl From<String> for TransomeError {
    /// An error that is nothing but its message.
    fn from(message: String) -> (r: Self) {
        TransomeError::General { message }
    }
}

impl FromSpecImpl<String> for TransomeError {
    open spec fn obeys_from_spec() -> bool {
        true
    }

    open spec fn from_spec(message: String) -> Self {
        TransomeError::General { message }
    }
}

impl<'a> From<&'a str> for TransomeError {
    /// An error that is nothing but its message.
    fn from(message: &'a str) -> (r: Self)
        ensures
            r matches TransomeError::General { message: m } && m@ == message@,
    {
        TransomeError::General { message: message.to_owned() }
    }
}

impl<'a> FromSpecImpl<&'a str> for TransomeError {
    /// The message is copied into a new string, so `from` states its result
    /// in its own `ensures` and not as one value.
    open spec fn obeys_from_spec() -> bool {
        false
    }

    open spec fn from_spec(message: &'a str) -> Self {
        TransomeError::General { message: arbitrary() }
    }
}

} // verus!

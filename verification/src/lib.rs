//! A command-line translator's library: the registry of models, the
//! resolution of credential and endpoint, the translation exchange, and the
//! errors with their messages.

use vstd::prelude::*;

pub mod cli;
pub mod config;
pub mod error;
pub mod text;
pub mod translator;

pub use cli::Cli;
pub use config::{
    create_model_error_message, get_all_models, get_model_url, get_provider_name,
    get_supported_model_names, is_model_supported as config_is_model_supported, list_models,
    ModelConfig,
};
pub use error::TransomeError;
pub use translator::{Translator, PROMPT};

use config::{model_table, model_url, names_of, provider_of};
use translator::TranslatorView;

verus! {

/// The version of the library.
pub const VERSION: &'static str = "0.2.0";

/// The name of the library, and of the tool.
pub const NAME: &'static str = "transome";

/// What the tool is, in a line.
pub const DESCRIPTION: &'static str = "一个简单的命令行翻译工具";

/// The provider name of a model that the registry does not know.
pub const UNKNOWN: &'static str = "Unknown";

/// A result of the library.
pub type LibResult<T> = Result<T, TransomeError>;

/// A translator for `model` that shows `api_key`. It asks the endpoint given
/// by hand, whatever the model; without one, the model's own endpoint, and a
/// model that the registry does not know is an error that names the models
/// it knows.
pub fn create_translator(api_key: String, model: String, custom_url: Option<String>) -> (r:
    LibResult<Translator>)
    ensures
        custom_url matches Some(url) ==> (r matches Ok(t) && t@ == (TranslatorView {
            api_key: api_key@,
            api_base: url@,
            model: model@,
        })),
        custom_url is None ==> match model_url(model@) {
            Some(url) => (r matches Ok(t) && t@ == (TranslatorView {
                api_key: api_key@,
                api_base: url,
                model: model@,
            })),
            None => (r matches Err(
                TransomeError::ModelNotFound { model_name, available_models },
            ) && model_name@ == model@ && available_models.deep_view() == names_of(
                model_table(),
            )),
        },
{
    let api_base = match custom_url {
        Some(url) => url,
        None => match get_model_url(model.as_str()) {
            Some(url) => url,
            None => {
                let available_models = get_supported_model_names();
                return Err(TransomeError::model_not_found(model.as_str(), available_models));
            },
        },
    };
    Ok(Translator::new(api_key, api_base, model))
}

/// The names of all models of the registry, ordered by provider and then by
/// name.
pub fn get_supported_models() -> (r: Vec<String>)
    ensures
        r.deep_view() == names_of(model_table()),
{
    get_supported_model_names()
}

/// Whether the registry knows `model_name`.
pub fn is_model_supported(model_name: &str) -> (r: bool)
    ensures
        r == model_url(model_name@).is_some(),
{
    config_is_model_supported(model_name)
}

/// The provider of a model of the registry, and `"Unknown"` for any other
/// name.
pub fn get_model_provider(model_name: &str) -> (r: &'static str)
    ensures
        r@ == if model_url(model_name@).is_some() {
            provider_of(model_name@)
        } else {
            UNKNOWN@
        },
{
    if is_model_supported(model_name) {
        get_provider_name(model_name)
    } else {
        UNKNOWN
    }
}

} // verus!

use transome::error::ErrorKind;
use transome::cli::{Cli, CliError, Environment, KeyError};

fn create_test_cli(model: &str) -> Cli {
    Cli {
        text: Some("test text".to_string()),
        model: model.to_string(),
        url: None,
        key: None,
        prompt: "test prompt".to_string(),
        list_models: false,
    }
}

fn create_test_cli_with_key(model: &str, key: &str) -> Cli {
    Cli {
        text: Some("test text".to_string()),
        model: model.to_string(),
        url: None,
        key: Some(key.to_string()),
        prompt: "test prompt".to_string(),
        list_models: false,
    }
}

fn with_env_var(env: &Environment, key: &str, value: &str) -> Environment {
    let mut env = env.clone();
    env.set(key, value);
    env
}

fn without_env_vars() -> Environment {
    Environment::new()
}

#[test]
fn test_manual_key_priority() {
    let cli = create_test_cli_with_key("gpt-4", "manual-key-123");

    let env = with_env_var(&without_env_vars(), "OPENAI_API_KEY", "env-key-456");
    let result = cli.resolve_api_key(&env).unwrap();
    assert_eq!(result, "manual-key-123");
}

#[test]
fn test_resolve_api_key_openai_env_var() {
    let cli = create_test_cli("gpt-4");

    let env = with_env_var(&without_env_vars(), "OPENAI_API_KEY", "openai-test-key");
    let result = cli.resolve_api_key(&env).unwrap();
    assert_eq!(result, "openai-test-key");
}

#[test]
fn test_resolve_api_key_google_env_var() {
    let cli = create_test_cli("gemini-2.5-flash");

    let env = with_env_var(&without_env_vars(), "GOOGLE_AI_API_KEY", "google-test-key");
    let result = cli.resolve_api_key(&env).unwrap();
    assert_eq!(result, "google-test-key");
}

#[test]
fn test_resolve_api_key_different_openai_models() {
    let openai_models = vec![
        "gpt-4",
        "gpt-4o",
        "gpt-3.5-turbo",
        "gpt-4-turbo",
        "gpt-4o-mini",
    ];

    for model in openai_models {
        let cli = create_test_cli(model);

        let env = with_env_var(&without_env_vars(), "OPENAI_API_KEY", "openai-key");
        let result = cli.resolve_api_key(&env).unwrap();
        assert_eq!(result, "openai-key", "模型 {} 失败", model);
    }
}

#[test]
fn test_resolve_api_key_different_gemini_models() {
    let gemini_models = vec![
        "gemini-2.5-pro",
        "gemini-2.5-flash",
        "gemini-1.5-pro",
        "gemini-1.5-flash",
    ];

    for model in gemini_models {
        let cli = create_test_cli(model);

        let env = with_env_var(&without_env_vars(), "GOOGLE_AI_API_KEY", "google-key");
        let result = cli.resolve_api_key(&env).unwrap();
        assert_eq!(result, "google-key", "模型 {} 失败", model);
    }
}

#[test]
fn test_resolve_api_key_unsupported_model_error() {
    let cli = create_test_cli("unsupported-model");

    let result = cli.resolve_api_key(&without_env_vars());
    assert!(result.is_err());

    let error_msg = result.unwrap_err().to_string();
    assert!(error_msg.contains("无法为模型 'unsupported-model' 确定对应的环境变量"));
    assert!(error_msg.contains("OpenAI 模型"));
    assert!(error_msg.contains("Google Gemini 模型"));
    assert!(error_msg.contains("OPENAI_API_KEY"));
    assert!(error_msg.contains("GOOGLE_AI_API_KEY"));
}

#[test]
fn test_resolve_api_key_env_var_not_set() {
    let cli = create_test_cli("gpt-4");

    let result = cli.resolve_api_key(&without_env_vars());
    assert!(result.is_err());

    let error_msg = result.unwrap_err().to_string();
    assert!(error_msg.contains("环境变量 OPENAI_API_KEY 未设置"));
    assert!(error_msg.contains("export OPENAI_API_KEY=<your_api_key>"));
    assert!(error_msg.contains("transome -k <your_api_key>"));
    assert!(error_msg.contains("https://platform.openai.com/api-keys"));
}

#[test]
fn test_resolve_api_key_env_var_empty() {
    let cli = create_test_cli("gpt-4");

    let env = with_env_var(&without_env_vars(), "OPENAI_API_KEY", "");
    let result = cli.resolve_api_key(&env);
    assert!(result.is_err());

    let error_msg = result.unwrap_err().to_string();
    assert!(error_msg.contains("环境变量 OPENAI_API_KEY 已设置但为空"));
}

#[test]
fn test_resolve_api_key_env_var_whitespace_only() {
    let cli = create_test_cli("gpt-4");

    let env = with_env_var(&without_env_vars(), "OPENAI_API_KEY", "   \t\n   ");
    let result = cli.resolve_api_key(&env);
    assert!(result.is_err());

    let error_msg = result.unwrap_err().to_string();
    assert!(error_msg.contains("环境变量 OPENAI_API_KEY 已设置但为空"));
}

#[test]
fn test_resolve_api_key_gemini_env_var_not_set() {
    let cli = create_test_cli("gemini-2.5-flash");

    let result = cli.resolve_api_key(&without_env_vars());
    assert!(result.is_err());

    let error_msg = result.unwrap_err().to_string();
    assert!(error_msg.contains("环境变量 GOOGLE_AI_API_KEY 未设置"));
    assert!(error_msg.contains("https://aistudio.google.com/app/apikey"));
}

#[test]
fn test_resolve_url_custom_url_priority() {
    let mut cli = create_test_cli("gpt-4");
    cli.url = Some("https://custom.api.com/v1".to_string());

    let result = cli.resolve_url().unwrap();
    assert_eq!(result, "https://custom.api.com/v1");
}

#[test]
fn test_resolve_url_model_default() {
    let cli = create_test_cli("gpt-4");

    let result = cli.resolve_url().unwrap();
    assert_eq!(result, "https://api.openai.com/v1");
}

#[test]
fn test_resolve_url_unsupported_model() {
    let cli = create_test_cli("unsupported-model");

    let result = cli.resolve_url();
    assert!(result.is_err());

    let error_msg = result.unwrap_err().to_string();
    assert!(error_msg.contains("找不到模型 'unsupported-model'"));
}

#[test]
fn test_manual_key_overrides_env_different_providers() {
    let cli = create_test_cli_with_key("gpt-4", "manual-openai-key");

    let env = with_env_var(&without_env_vars(), "GOOGLE_AI_API_KEY", "google-env-key");
    let result = cli.resolve_api_key(&env).unwrap();
    assert_eq!(result, "manual-openai-key");

    let cli = create_test_cli_with_key("gemini-2.5-flash", "manual-gemini-key");

    let env = with_env_var(&without_env_vars(), "OPENAI_API_KEY", "openai-env-key");
    let result = cli.resolve_api_key(&env).unwrap();
    assert_eq!(result, "manual-gemini-key");
}

#[test]
fn test_automatic_env_var_selection() {
    let env = with_env_var(&without_env_vars(), "OPENAI_API_KEY", "openai-key");
    let env = with_env_var(&env, "GOOGLE_AI_API_KEY", "google-key");

    let openai_cli = create_test_cli("gpt-4");
    let result = openai_cli.resolve_api_key(&env).unwrap();
    assert_eq!(result, "openai-key");

    let gemini_cli = create_test_cli("gemini-2.5-flash");
    let result = gemini_cli.resolve_api_key(&env).unwrap();
    assert_eq!(result, "google-key");
}

#[test]
fn test_validate_list_models_skips_validation() {
    let mut cli = create_test_cli("unsupported-model");
    cli.list_models = true;
    cli.text = None;

    let result = cli.validate(&without_env_vars());
    assert!(result.is_ok());
}

#[test]
fn environment_set_shadows_an_earlier_value() {
    let mut env = Environment::new();
    assert_eq!(env.get("A"), None);
    env.set("A", "1");
    env.set("B", "2");
    env.set("A", "3");
    assert_eq!(env.get("A"), Some("3".to_string()));
    assert_eq!(env.get("B"), Some("2".to_string()));
    assert_eq!(env.get("a"), None);
}

#[test]
fn explicit_key_wins_whatever_the_model() {
    let cli = create_test_cli_with_key("unsupported-model", "X");
    let env = with_env_var(&without_env_vars(), "OPENAI_API_KEY", "env");
    assert_eq!(cli.resolve_api_key(&env).unwrap(), "X");
    let cli = create_test_cli_with_key("gpt-4", "   ");
    assert_eq!(cli.resolve_api_key(&env).unwrap(), "   ");
}

#[test]
fn whitespace_credential_is_an_error_of_its_own() {
    let cli = create_test_cli("gpt-4");
    let env = with_env_var(&without_env_vars(), "OPENAI_API_KEY", "   ");
    match cli.resolve_api_key(&env) {
        Err(KeyError::Empty { variable, model }) => {
            assert_eq!(variable, "OPENAI_API_KEY");
            assert_eq!(model, "gpt-4");
        }
        other => panic!("expected the empty-credential error, got {:?}", other),
    }
    match cli.resolve_api_key(&without_env_vars()) {
        Err(KeyError::NotSet { variable, model }) => {
            assert_eq!(variable, "OPENAI_API_KEY");
            assert_eq!(model, "gpt-4");
        }
        other => panic!("expected the not-set error, got {:?}", other),
    }
}

#[test]
fn key_error_messages_are_exact() {
    let not_set = KeyError::NotSet {
        variable: "OPENAI_API_KEY".to_string(),
        model: "gpt-4".to_string(),
    };
    assert_eq!(
        not_set.to_string(),
        "环境变量 OPENAI_API_KEY 未设置。\n\n解决方法：\n1. 设置环境变量: export OPENAI_API_KEY=<your_api_key>\n2. 或者手动提供密钥: transome -k <your_api_key> -m gpt-4 <文本>\n\n获取 API 密钥的方法：\n- OpenAI API 密钥: https://platform.openai.com/api-keys\n- Google AI API 密钥: https://aistudio.google.com/app/apikey"
    );
    let empty = KeyError::Empty {
        variable: "GOOGLE_AI_API_KEY".to_string(),
        model: "gemini-1.5-pro".to_string(),
    };
    assert_eq!(
        empty.to_string(),
        "环境变量 GOOGLE_AI_API_KEY 已设置但为空。\n\n解决方法：\n1. 设置环境变量: export GOOGLE_AI_API_KEY=<your_api_key>\n2. 或者手动提供密钥: transome -k <your_api_key> -m gemini-1.5-pro <文本>\n\n获取 API 密钥的方法：\n- OpenAI API 密钥: https://platform.openai.com/api-keys\n- Google AI API 密钥: https://aistudio.google.com/app/apikey"
    );
    let no_source = KeyError::NoSource {
        model: "m".to_string(),
    };
    assert_eq!(
        no_source.to_string(),
        "无法为模型 'm' 确定对应的环境变量。\n\n支持的模型及其环境变量：\n- OpenAI 模型 (gpt-4, gpt-4o, gpt-3.5-turbo 等): OPENAI_API_KEY\n- Google Gemini 模型 (gemini-2.5-flash, gemini-1.5-pro 等): GOOGLE_AI_API_KEY\n\n解决方法：\n1. 使用支持的模型: transome -m <支持的模型名称> <文本>\n2. 手动提供 API 密钥: transome -k <your_api_key> -m m <文本>\n3. 查看所有支持的模型: transome --list-models"
    );
}

#[test]
fn validate_checks_text_then_key_then_model() {
    let env = with_env_var(&without_env_vars(), "OPENAI_API_KEY", "sk-test");

    let mut cli = create_test_cli("unsupported-model");
    cli.text = None;
    assert!(matches!(cli.validate(&env), Err(CliError::TextMissing)));

    cli.text = Some("   ".to_string());
    assert!(matches!(cli.validate(&env), Err(CliError::TextBlank)));
    assert!(matches!(
        cli.validate(&without_env_vars()),
        Err(CliError::TextBlank)
    ));

    cli.text = Some("hello".to_string());
    assert!(matches!(
        cli.validate(&env),
        Err(CliError::Key {
            reason: KeyError::NoSource { .. }
        })
    ));

    cli.key = Some("k".to_string());
    match cli.validate(&env) {
        Err(CliError::ModelNotFound { model }) => assert_eq!(model, "unsupported-model"),
        other => panic!("expected the unknown-model error, got {:?}", other),
    }

    cli.url = Some("https://custom.api.com/v1".to_string());
    assert!(cli.validate(&env).is_ok());

    let cli = create_test_cli("gpt-4");
    assert!(cli.validate(&env).is_ok());
    assert!(matches!(
        cli.validate(&without_env_vars()),
        Err(CliError::Key {
            reason: KeyError::NotSet { .. }
        })
    ));
}

#[test]
fn validation_messages_are_exact() {
    assert_eq!(
        CliError::TextMissing.to_string(),
        "要翻译的文本是必需的\n\n使用方法: transome [选项] <文本>\n\n获取更多信息，使用: transome --help"
    );
    assert_eq!(
        CliError::TextBlank.to_string(),
        "要翻译的文本不能为空\n\n使用方法: transome [选项] <文本>\n\n获取更多信息，使用: transome --help"
    );
    let key = CliError::Key {
        reason: KeyError::NoSource {
            model: "m".to_string(),
        },
    };
    let message = key.to_string();
    assert!(message.starts_with("API 密钥验证失败：无法为模型 'm' 确定对应的环境变量。"));
    assert!(message.ends_with(
        "transome --list-models\n\n请确保为所选模型设置了正确的环境变量或通过 -k 参数提供密钥。"
    ));
}

#[test]
fn unknown_model_without_url_fails_with_both_groups() {
    let mut cli = create_test_cli("unknown-model");
    cli.key = Some("k".to_string());
    let error = cli.validate(&without_env_vars()).unwrap_err();
    let message = error.to_string();
    assert!(message.contains("unknown-model"));
    assert!(message.contains("\n\nOpenAI: "));
    assert!(message.contains("\n\nGoogle Gemini: "));
    let error = cli.resolve_url().unwrap_err();
    assert_eq!(error.to_string(), message);
}

#[test]
fn list_all_models_gives_the_listing() {
    let listing = Cli::list_all_models();
    assert!(listing.starts_with("\n支持的模型:\n"));
    assert!(listing.contains("\nOpenAI (https://api.openai.com/v1):\n  - gpt-3.5-turbo\n"));
    assert_eq!(listing, transome::config::list_models());
}

#[test]
fn resolver_errors_have_their_kinds() {
    assert_eq!(CliError::TextMissing.kind(), ErrorKind::ValidationError);
    assert_eq!(CliError::TextBlank.kind(), ErrorKind::ValidationError);
    let no_source = KeyError::NoSource {
        model: "m".to_string(),
    };
    assert_eq!(no_source.kind(), ErrorKind::ConfigError);
    let not_set = KeyError::NotSet {
        variable: "V".to_string(),
        model: "m".to_string(),
    };
    assert_eq!(not_set.kind(), ErrorKind::AuthenticationError);
    let empty = KeyError::Empty {
        variable: "V".to_string(),
        model: "m".to_string(),
    };
    assert_eq!(empty.kind(), ErrorKind::AuthenticationError);
    assert_eq!(
        (CliError::Key { reason: empty }).kind(),
        ErrorKind::AuthenticationError
    );
    let unknown = CliError::ModelNotFound {
        model: "m".to_string(),
    };
    assert_eq!(unknown.kind(), ErrorKind::ModelNotFound);
}

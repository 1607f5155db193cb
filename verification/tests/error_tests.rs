use transome::error::TransomeError;

#[test]
fn test_model_not_found_error() {
    let error = TransomeError::model_not_found("gpt-4", vec!["gpt-3.5".to_string()]);
    assert!(error.to_string().contains("gpt-4"));
    assert!(error.to_string().contains("gpt-3.5"));
}

#[test]
fn test_api_call_failed_error() {
    let error = TransomeError::api_call_failed("/api/translate", Some(404), "Not found");
    assert!(error.to_string().contains("404"));
    assert!(error.to_string().contains("/api/translate"));
}

#[test]
fn test_user_friendly_message() {
    let error = TransomeError::model_not_found("gpt-4", vec!["gpt-3.5".to_string()]);
    let friendly = error.user_friendly_message();
    assert!(friendly.contains("找不到模型"));
    assert!(friendly.contains("可用的模型"));
}

#[test]
fn test_error_type_checks() {
    let auth_error = TransomeError::authentication_error("Invalid key");
    assert!(auth_error.is_auth_error());

    let config_error = TransomeError::config_error("api_key", "Missing");
    assert!(config_error.is_config_error());

    let general_error = TransomeError::General {
        message: "test".to_string(),
    };
    assert!(!general_error.is_network_error());
}

#[test]
fn test_from_conversions() {
    let string_error: TransomeError = "test error".into();
    assert!(matches!(string_error, TransomeError::General { .. }));

    let owned_string_error: TransomeError = "test error".to_string().into();
    assert!(matches!(owned_string_error, TransomeError::General { .. }));
}

#[test]
fn technical_messages_are_exact() {
    assert_eq!(
        TransomeError::model_not_found("m", vec!["a".to_string(), "b".to_string()]).to_string(),
        "未找到模型 'm'。可用模型：[a, b]"
    );
    assert_eq!(
        TransomeError::model_not_found("m", vec![]).to_string(),
        "未找到模型 'm'。可用模型：[]"
    );
    assert_eq!(
        TransomeError::api_call_failed("/api/translate", Some(404), "Not found").to_string(),
        "API 调用 '/api/translate' 失败，状态码 404：Not found"
    );
    assert_eq!(
        TransomeError::api_call_failed("/x", None, "down").to_string(),
        "API 调用 '/x' 失败：down"
    );
    assert_eq!(
        TransomeError::authentication_error("Invalid key").to_string(),
        "认证失败：Invalid key"
    );
    assert_eq!(
        TransomeError::config_error("api_key", "Missing").to_string(),
        "配置字段 'api_key' 错误：Missing"
    );
    assert_eq!(
        TransomeError::validation_error("text", "non-empty", "empty").to_string(),
        "验证字段 'text' 错误：期望 non-empty，实际 empty"
    );
    assert_eq!(
        TransomeError::model_load_error("/models/a", "missing").to_string(),
        "从 '/models/a' 加载模型失败：missing"
    );
    assert_eq!(
        TransomeError::translation_service_error("svc", "busy").to_string(),
        "翻译服务 'svc' 错误：busy"
    );
    assert_eq!(TransomeError::from("plain").to_string(), "plain");
}

#[test]
fn status_codes_are_written_in_decimal() {
    for (code, text) in [
        (0u16, "0"),
        (7, "7"),
        (10, "10"),
        (99, "99"),
        (100, "100"),
        (429, "429"),
        (5000, "5000"),
        (65535, "65535"),
    ] {
        assert_eq!(
            TransomeError::api_call_failed("e", Some(code), "m").to_string(),
            format!("API 调用 'e' 失败，状态码 {}：m", text)
        );
    }
}

#[test]
fn friendly_messages_are_exact() {
    assert_eq!(
        TransomeError::model_not_found("m", vec![]).user_friendly_message(),
        "找不到模型 'm'，当前没有可用的模型"
    );
    assert_eq!(
        TransomeError::model_not_found("m", vec!["a".to_string(), "b".to_string()])
            .user_friendly_message(),
        "找不到模型 'm'，可用的模型有：a、b"
    );
    assert_eq!(
        TransomeError::api_call_failed("e", Some(399), "boom").user_friendly_message(),
        "API调用失败: boom"
    );
    assert_eq!(
        TransomeError::api_call_failed("e", Some(400), "boom").user_friendly_message(),
        "请求错误 (400): 请检查参数或权限配置"
    );
    assert_eq!(
        TransomeError::api_call_failed("e", Some(499), "boom").user_friendly_message(),
        "请求错误 (499): 请检查参数或权限配置"
    );
    assert_eq!(
        TransomeError::api_call_failed("e", Some(500), "boom").user_friendly_message(),
        "服务器错误 (500): 请稍后重试"
    );
    assert_eq!(
        TransomeError::api_call_failed("e", None, "boom").user_friendly_message(),
        "API调用失败: boom"
    );
    assert_eq!(
        TransomeError::authentication_error("x").user_friendly_message(),
        "认证失败，请检查API密钥或凭据配置"
    );
    assert_eq!(
        TransomeError::config_error("api_key", "x").user_friendly_message(),
        "配置错误：请检查 'api_key' 字段的设置"
    );
    assert_eq!(
        TransomeError::validation_error("text", "non-empty", "empty").user_friendly_message(),
        "参数错误：'text' 字段应为 non-empty"
    );
    assert_eq!(
        TransomeError::model_load_error("/models/a", "x").user_friendly_message(),
        "模型加载失败：无法从 '/models/a' 加载模型"
    );
    assert_eq!(
        TransomeError::translation_service_error("svc", "x").user_friendly_message(),
        "翻译服务 'svc' 暂时不可用，请稍后重试"
    );
    assert_eq!(
        TransomeError::from("plain").user_friendly_message(),
        "操作失败，请重试"
    );
}

#[test]
fn network_messages_follow_what_is_known_of_the_error() {
    let error = TransomeError::from("x");
    assert_eq!(error.friendly_message(true, true), "操作失败，请重试");
    let auth = TransomeError::authentication_error("x");
    assert_eq!(
        auth.friendly_message(true, false),
        "认证失败，请检查API密钥或凭据配置"
    );
}

#[test]
fn json_error_carries_its_text_and_context() {
    let source = serde_json::from_str::<serde_json::Value>("{").unwrap_err();
    let text = source.to_string();
    assert!(!text.is_empty());
    let error = TransomeError::json_error_with_context(source, "config.json");
    assert_eq!(
        error.to_string(),
        format!("config.json 中的 JSON 错误：{}", text)
    );
    assert_eq!(error.user_friendly_message(), "操作失败，请重试");
    assert_eq!(error.render("d"), "config.json 中的 JSON 错误：d");

    let source = serde_json::from_str::<serde_json::Value>("[").unwrap_err();
    let text = source.to_string();
    let error: TransomeError = source.into();
    assert_eq!(error.to_string(), format!("未知 中的 JSON 错误：{}", text));
}

#[test]
fn io_error_carries_its_text_and_context() {
    let source = std::io::Error::new(std::io::ErrorKind::Other, "disk gone");
    let error = TransomeError::io_error_with_context(source, "cache");
    assert_eq!(error.to_string(), "cache 中的 IO 错误：disk gone");
    assert_eq!(error.user_friendly_message(), "操作失败，请重试");

    let source = std::io::Error::new(std::io::ErrorKind::Other, "disk gone");
    let error: TransomeError = source.into();
    assert_eq!(error.to_string(), "未知 中的 IO 错误：disk gone");
    assert!(!error.is_network_error());
}

#[test]
fn transport_error_is_a_network_error() {
    let source = reqwest::Client::new().get("not a url").build().unwrap_err();
    let text = source.to_string();
    assert!(!text.is_empty());
    let connect = source.is_connect();
    let timeout = source.is_timeout();
    assert!(!connect);
    assert!(!timeout);
    let error: TransomeError = source.into();
    assert!(error.is_network_error());
    assert!(!error.is_auth_error());
    assert_eq!(error.to_string(), format!("网络错误：{}", text));
    assert_eq!(error.user_friendly_message(), "网络错误，请检查网络连接");
    assert_eq!(
        error.friendly_message(true, false),
        "网络连接失败，请检查网络设置"
    );
    assert_eq!(error.friendly_message(false, true), "请求超时，请稍后重试");
    assert_eq!(
        error.friendly_message(true, true),
        "网络连接失败，请检查网络设置"
    );
}

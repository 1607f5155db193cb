use transome::{
    create_translator, get_model_provider, get_supported_models, is_model_supported,
    TransomeError, DESCRIPTION, NAME, VERSION,
};

#[test]
fn test_version_constants() {
    assert!(!VERSION.is_empty());
    assert!(!NAME.is_empty());
    assert_eq!(NAME, "transome");
}

#[test]
fn test_get_supported_models() {
    let models = get_supported_models();
    assert!(!models.is_empty());
    assert!(models.contains(&"gpt-4".to_string()));
    assert!(models.contains(&"gemini-2.5-flash".to_string()));
}

#[test]
fn lib_test_is_model_supported() {
    assert!(is_model_supported("gpt-4"));
    assert!(is_model_supported("gemini-2.5-flash"));
    assert!(!is_model_supported("nonexistent-model"));
}

#[test]
fn test_get_model_provider() {
    assert_eq!(get_model_provider("gpt-4"), "OpenAI");
    assert_eq!(get_model_provider("gemini-2.5-flash"), "Google Gemini");
    assert_eq!(get_model_provider("nonexistent-model"), "Unknown");
}

#[test]
fn test_create_translator_with_valid_model() {
    let result = create_translator("test-key".to_string(), "gpt-4".to_string(), None);
    assert!(result.is_ok());
}

#[test]
fn test_create_translator_with_invalid_model() {
    let result = create_translator(
        "test-key".to_string(),
        "nonexistent-model".to_string(),
        None,
    );
    assert!(result.is_err());

    if let Err(TransomeError::ModelNotFound { model_name, .. }) = result {
        assert_eq!(model_name, "nonexistent-model");
    } else {
        panic!("Expected ModelNotFound error");
    }
}

#[test]
fn test_create_translator_with_custom_url() {
    let result = create_translator(
        "test-key".to_string(),
        "custom-model".to_string(),
        Some("https://custom.api.com/v1".to_string()),
    );
    assert!(result.is_ok());
}

#[test]
fn created_translator_holds_what_was_resolved() {
    let translator =
        create_translator("test-key".to_string(), "gpt-4".to_string(), None).unwrap();
    assert_eq!(translator.api_key(), "test-key");
    assert_eq!(translator.api_base(), "https://api.openai.com/v1");
    assert_eq!(translator.model_name(), "gpt-4");

    let translator = create_translator(
        "k".to_string(),
        "gpt-4".to_string(),
        Some("https://custom.api.com/v1".to_string()),
    )
    .unwrap();
    assert_eq!(translator.api_base(), "https://custom.api.com/v1");
}

#[test]
fn unknown_model_error_names_the_registry() {
    let error = create_translator("k".to_string(), "nope".to_string(), None).unwrap_err();
    match &error {
        TransomeError::ModelNotFound {
            available_models, ..
        } => {
            assert_eq!(available_models, &get_supported_models());
            assert_eq!(available_models.len(), 11);
        }
        other => panic!("expected the unknown-model error, got {:?}", other),
    }
    assert!(error
        .to_string()
        .starts_with("未找到模型 'nope'。可用模型：[gemini-1.5-flash, gemini-1.5-pro, "));
}

#[test]
fn provider_of_a_url_is_unknown_to_the_library() {
    assert_eq!(get_model_provider("https://api.openai.com/v1"), "Unknown");
    assert_eq!(get_model_provider(""), "Unknown");
    assert!(!DESCRIPTION.is_empty());
}

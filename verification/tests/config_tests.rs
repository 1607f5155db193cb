use transome::config::{
    create_model_error_message, get_all_models, get_env_var_name_for_model, get_model_to_url,
    get_model_url, get_provider_name, get_sorted_providers_with_models,
    get_supported_model_names, group_models_by_provider, is_model_supported, list_models,
    ModelConfig,
};

#[test]
fn test_get_model_url() {
    assert_eq!(
        get_model_url("gpt-4"),
        Some("https://api.openai.com/v1".to_string())
    );
    assert_eq!(
        get_model_url("gemini-2.5-flash"),
        Some("https://generativelanguage.googleapis.com/v1beta/openai".to_string())
    );
    assert_eq!(get_model_url("nonexistent"), None);
}

#[test]
fn config_test_is_model_supported() {
    assert!(is_model_supported("gpt-4"));
    assert!(is_model_supported("gemini-2.5-flash"));
    assert!(!is_model_supported("nonexistent-model"));
}

#[test]
fn test_get_supported_model_names() {
    let models = get_supported_model_names();
    assert!(!models.is_empty());
    assert!(models.contains(&"gpt-4".to_string()));
    assert!(models.contains(&"gemini-2.5-flash".to_string()));
}

#[test]
fn test_get_provider_name() {
    assert_eq!(get_provider_name("gpt-4"), "OpenAI");
    assert_eq!(get_provider_name("gemini-2.5-flash"), "Google Gemini");
    assert_eq!(get_provider_name("https://api.openai.com/v1"), "OpenAI");
    assert_eq!(get_provider_name("https://custom.api.com"), "Other");
}

#[test]
fn test_get_all_models() {
    let models = get_all_models();
    assert!(!models.is_empty());

    let has_openai = models.iter().any(|m| m.provider == "OpenAI");
    let has_gemini = models.iter().any(|m| m.provider == "Google Gemini");
    assert!(has_openai);
    assert!(has_gemini);
}

#[test]
fn test_model_config() {
    let config = ModelConfig::new("test-model", "https://test.com", "TestProvider");
    assert_eq!(config.name, "test-model");
    assert_eq!(config.url, "https://test.com");
    assert_eq!(config.provider, "TestProvider");
}

#[test]
fn test_group_models_by_provider() {
    let providers = group_models_by_provider();
    assert!(!providers.is_empty());
    assert!(providers.iter().any(|(provider, _)| *provider == "OpenAI"));
    assert!(providers.iter().any(|(provider, _)| *provider == "Google Gemini"));
}

#[test]
fn test_get_sorted_providers_with_models() {
    let sorted_providers = get_sorted_providers_with_models();
    assert!(!sorted_providers.is_empty());

    for i in 1..sorted_providers.len() {
        assert!(sorted_providers[i - 1].0 <= sorted_providers[i].0);
    }

    for (_, models) in sorted_providers {
        for i in 1..models.len() {
            assert!(models[i - 1].0 <= models[i].0);
        }
    }
}

#[test]
fn test_create_model_error_message() {
    let error_msg = create_model_error_message("nonexistent-model");
    assert!(error_msg.contains("nonexistent-model"));
    assert!(error_msg.contains("找不到模型"));
    assert!(error_msg.contains("支持的模型"));
    assert!(error_msg.contains("OpenAI"));
    assert!(error_msg.contains("Google Gemini"));
    assert!(error_msg.contains("使用方法"));
}

#[test]
fn test_get_env_var_name_for_model() {
    assert_eq!(get_env_var_name_for_model("gpt-4"), Some("OPENAI_API_KEY"));
    assert_eq!(get_env_var_name_for_model("gpt-4o"), Some("OPENAI_API_KEY"));
    assert_eq!(
        get_env_var_name_for_model("gpt-3.5-turbo"),
        Some("OPENAI_API_KEY")
    );
    assert_eq!(
        get_env_var_name_for_model("gpt-4-turbo"),
        Some("OPENAI_API_KEY")
    );
    assert_eq!(
        get_env_var_name_for_model("gpt-4o-mini"),
        Some("OPENAI_API_KEY")
    );
    assert_eq!(
        get_env_var_name_for_model("gpt-3.5-turbo-16k"),
        Some("OPENAI_API_KEY")
    );

    assert_eq!(
        get_env_var_name_for_model("gemini-2.5-flash"),
        Some("GOOGLE_AI_API_KEY")
    );
    assert_eq!(
        get_env_var_name_for_model("gemini-1.5-pro"),
        Some("GOOGLE_AI_API_KEY")
    );
    assert_eq!(
        get_env_var_name_for_model("gemini-2.5-pro"),
        Some("GOOGLE_AI_API_KEY")
    );
    assert_eq!(
        get_env_var_name_for_model("gemini-2.5-flash-lite"),
        Some("GOOGLE_AI_API_KEY")
    );
    assert_eq!(
        get_env_var_name_for_model("gemini-1.5-flash"),
        Some("GOOGLE_AI_API_KEY")
    );

    assert_eq!(get_env_var_name_for_model("nonexistent-model"), None);
    assert_eq!(get_env_var_name_for_model("palm-2"), None);
    assert_eq!(get_env_var_name_for_model("llama-2"), None);

    assert_eq!(get_env_var_name_for_model("https://custom.api.com"), None);
    assert_eq!(get_env_var_name_for_model("http://localhost:8080"), None);
}

#[test]
fn test_get_env_var_name_for_model_comprehensive() {
    let openai_models = vec![
        "gpt-4",
        "gpt-4-turbo",
        "gpt-4o",
        "gpt-4o-mini",
        "gpt-3.5-turbo",
        "gpt-3.5-turbo-16k",
    ];
    let gemini_models = vec![
        "gemini-2.5-pro",
        "gemini-2.5-flash",
        "gemini-2.5-flash-lite",
        "gemini-1.5-pro",
        "gemini-1.5-flash",
    ];

    for model in openai_models {
        assert_eq!(
            get_env_var_name_for_model(model),
            Some("OPENAI_API_KEY"),
            "Model {} should return OPENAI_API_KEY",
            model
        );
    }

    for model in gemini_models {
        assert_eq!(
            get_env_var_name_for_model(model),
            Some("GOOGLE_AI_API_KEY"),
            "Model {} should return GOOGLE_AI_API_KEY",
            model
        );
    }
}

#[test]
fn test_get_env_var_name_for_model_edge_cases() {
    assert_eq!(get_env_var_name_for_model(""), None);

    assert_eq!(get_env_var_name_for_model("gpt"), None);
    assert_eq!(get_env_var_name_for_model("gemini"), None);
    assert_eq!(get_env_var_name_for_model("gpt-5"), None);

    assert_eq!(get_env_var_name_for_model("GPT-4"), None);
    assert_eq!(get_env_var_name_for_model("GEMINI-2.5-FLASH"), None);

    assert_eq!(get_env_var_name_for_model(" gpt-4 "), None);
    assert_eq!(get_env_var_name_for_model("gpt-4\n"), None);
}

#[test]
fn registry_holds_eleven_models_with_unique_names() {
    let table = get_model_to_url();
    assert_eq!(table.len(), 11);
    for i in 0..table.len() {
        for j in (i + 1)..table.len() {
            assert_ne!(table[i].0, table[j].0);
        }
    }
}

#[test]
fn every_registered_model_resolves() {
    for (model, url) in get_model_to_url() {
        assert_eq!(get_model_url(model), Some(url.to_string()));
        assert!(!url.is_empty());
        let variable = get_env_var_name_for_model(model);
        assert!(variable == Some("OPENAI_API_KEY") || variable == Some("GOOGLE_AI_API_KEY"));
    }
}

#[test]
fn all_models_are_sorted_by_provider_then_name() {
    let models = get_all_models();
    let names: Vec<&str> = models.iter().map(|m| m.name.as_str()).collect();
    assert_eq!(
        names,
        vec![
            "gemini-1.5-flash",
            "gemini-1.5-pro",
            "gemini-2.5-flash",
            "gemini-2.5-flash-lite",
            "gemini-2.5-pro",
            "gpt-3.5-turbo",
            "gpt-3.5-turbo-16k",
            "gpt-4",
            "gpt-4-turbo",
            "gpt-4o",
            "gpt-4o-mini",
        ]
    );
    for i in 1..models.len() {
        let before = (&models[i - 1].provider, &models[i - 1].name);
        let after = (&models[i].provider, &models[i].name);
        assert!(before < after);
    }
    assert_eq!(models[0].provider, "Google Gemini");
    assert_eq!(
        models[0].url,
        "https://generativelanguage.googleapis.com/v1beta/openai"
    );
    assert_eq!(models[10].provider, "OpenAI");
    assert_eq!(models[10].url, "https://api.openai.com/v1");
}

#[test]
fn groups_hold_each_provider_once_with_its_models() {
    let groups = group_models_by_provider();
    assert_eq!(groups.len(), 2);
    assert_eq!(groups[0].0, "Google Gemini");
    assert_eq!(groups[0].1.len(), 5);
    assert_eq!(groups[1].0, "OpenAI");
    assert_eq!(groups[1].1.len(), 6);
    assert_eq!(
        groups[1].1[2],
        ("gpt-4", "https://api.openai.com/v1")
    );
}

#[test]
fn model_error_message_is_exact() {
    let expected = "找不到模型 'x'\n\n支持的模型:\n\nGoogle Gemini: gemini-1.5-flash, gemini-1.5-pro, gemini-2.5-flash, gemini-2.5-flash-lite, gemini-2.5-pro\n\nOpenAI: gpt-3.5-turbo, gpt-3.5-turbo-16k, gpt-4, gpt-4-turbo, gpt-4o, gpt-4o-mini\n\n使用方法:\n  使用支持的模型: transome -m <模型名称> \"<文本>\"\n  或提供自定义 URL: transome -u <URL> -m <模型名称> \"<文本>\"\n  列出所有模型: transome --list-models";
    assert_eq!(create_model_error_message("x"), expected);
}

#[test]
fn model_error_message_lists_every_registered_model() {
    let message = create_model_error_message("unknown-model");
    for (model, _) in get_model_to_url() {
        assert!(message.contains(model));
    }
}

#[test]
fn listing_is_exact() {
    let expected = "\n支持的模型:\n\nGoogle Gemini (https://generativelanguage.googleapis.com/v1beta/openai):\n  - gemini-1.5-flash\n  - gemini-1.5-pro\n  - gemini-2.5-flash\n  - gemini-2.5-flash-lite\n  - gemini-2.5-pro\n\nOpenAI (https://api.openai.com/v1):\n  - gpt-3.5-turbo\n  - gpt-3.5-turbo-16k\n  - gpt-4\n  - gpt-4-turbo\n  - gpt-4o\n  - gpt-4o-mini\n\n使用方法:\n  transome [选项] [文本]\n\n选项:\n  -m, --model <模型>    使用上述列表中的支持模型\n  -u, --url <地址>      使用自定义 API 地址（覆盖模型选择）\n\n示例:\n  transome -m gpt-4 \"Hello world\"\n  transome -u https://custom.api.com/v1 -m custom-model \"Hello world\"\n";
    assert_eq!(list_models(), expected);
}

#[test]
fn provider_is_judged_by_the_host_in_a_url() {
    assert_eq!(
        get_provider_name("https://generativelanguage.googleapis.com/v1beta"),
        "Google Gemini"
    );
    assert_eq!(get_provider_name("api.openai.com"), "OpenAI");
    assert_eq!(get_provider_name(""), "Other");
    assert_eq!(
        get_env_var_name_for_model("https://api.openai.com/v1"),
        Some("OPENAI_API_KEY")
    );
}

use opencode_old_macos::provider::{Provider, ProviderError, PROVIDER_ENV};

#[test]
fn parses_names_case_insensitive() {
    for (input, expect) in [
        ("openai", Provider::Openai),
        ("QWEN", Provider::Qwen),
        ("  zen  ", Provider::Zen),
        ("gigachat", Provider::Gigachat),
        ("yandexgpt", Provider::Yandexgpt),
        ("yandex", Provider::Yandexgpt),
    ] {
        assert_eq!(Provider::parse(input).unwrap(), expect, "для '{input}'");
    }
}

#[test]
fn rejects_unknown() {
    assert!(Provider::parse("mistral").is_err());
}

#[test]
fn builds_chat_urls() {
    assert_eq!(
        Provider::Openai.chat_url("https://api.openai.com/v1"),
        "https://api.openai.com/v1/chat/completions"
    );
    assert_eq!(
        Provider::Zen.chat_url("https://opencode.ai/zen/v1"),
        "https://opencode.ai/zen/v1/chat/completions"
    );
    assert_eq!(
        Provider::Yandexgpt.chat_url("https://llm.api.cloud.yandex.net/foundationModels"),
        "https://llm.api.cloud.yandex.net/foundationModels/v1/completion"
    );
    assert_eq!(
        Provider::Openai.chat_url("https://api.openai.com/v1/"),
        "https://api.openai.com/v1/chat/completions"
    );
}

#[test]
fn unknown_name_is_reported_normalized() {
    match Provider::parse("  Mistral\t") {
        Err(ProviderError::Unknown { name }) => assert_eq!(name, "mistral"),
        other => panic!("unexpected {:?}", other),
    }
}

#[test]
fn unicode_whitespace_is_trimmed() {
    assert_eq!(Provider::parse("\u{3000}Qwen\u{a0}\n").unwrap(), Provider::Qwen);
    assert!(Provider::parse("q wen").is_err());
    assert!(Provider::parse("").is_err());
}

#[test]
fn non_ascii_letters_are_not_folded() {
    // Only ASCII letters change case: the Kelvin sign is not a 'k'.
    assert!(Provider::parse("YANDEX").is_ok());
    assert!(Provider::parse("ZEN\u{212a}").is_err());
}

#[test]
fn every_canonical_name_parses_back() {
    for p in [
        Provider::Openai,
        Provider::Qwen,
        Provider::Zen,
        Provider::Gigachat,
        Provider::Yandexgpt,
    ] {
        assert_eq!(Provider::parse(p.name()).unwrap(), p);
        assert_eq!(Provider::parse(&p.name().to_uppercase()).unwrap(), p);
    }
}

#[test]
fn names_and_prefixes() {
    assert_eq!(Provider::Openai.name(), "openai");
    assert_eq!(Provider::Yandexgpt.name(), "yandexgpt");
    assert_eq!(Provider::Qwen.env_prefix(), "DASHSCOPE");
    assert_eq!(Provider::Gigachat.env_prefix(), "GIGACHAT");
    assert_eq!(Provider::Yandexgpt.env_prefix(), "YANDEX");
}

#[test]
fn key_env_is_absent_only_for_gigachat() {
    assert_eq!(Provider::Openai.key_env(), Some("OPENAI_API_KEY"));
    assert_eq!(Provider::Qwen.key_env(), Some("DASHSCOPE_API_KEY"));
    assert_eq!(Provider::Zen.key_env(), Some("OPENCODE_API_KEY"));
    assert_eq!(Provider::Gigachat.key_env(), None);
    assert_eq!(Provider::Yandexgpt.key_env(), Some("YANDEX_API_KEY"));
}

#[test]
fn defaults() {
    assert_eq!(Provider::Qwen.default_base_url(), "https://dashscope.aliyuncs.com/compatible-mode/v1");
    assert_eq!(Provider::Gigachat.default_base_url(), "https://gigachat.devices.sberbank.ru/api/v1");
    assert_eq!(Provider::Zen.default_model(), "mimo-v2.5-free");
    assert_eq!(Provider::Gigachat.default_model(), "GigaChat-Max");
    assert_eq!(Provider::Openai.default_model(), "gpt-4o-mini");
}

#[test]
fn chat_url_strips_every_trailing_slash() {
    assert_eq!(Provider::Qwen.chat_url("https://x//"), "https://x/chat/completions");
    assert_eq!(Provider::Gigachat.chat_url(""), "/chat/completions");
    assert_eq!(
        Provider::Yandexgpt.chat_url("https://y/"),
        Provider::Yandexgpt.chat_url("https://y")
    );
}

#[test]
fn names_list_the_canonical_names_in_order() {
    assert_eq!(Provider::NAMES, ["openai", "qwen", "zen", "gigachat", "yandexgpt"]);
    let variants = [
        Provider::Openai,
        Provider::Qwen,
        Provider::Zen,
        Provider::Gigachat,
        Provider::Yandexgpt,
    ];
    for (name, p) in Provider::NAMES.iter().zip(variants) {
        assert_eq!(Provider::parse(name).unwrap(), p);
        assert_eq!(p.name(), *name);
    }
}

#[test]
fn select_prefers_argument_then_environment_then_openai() {
    assert_eq!(PROVIDER_ENV, "PROVIDER");
    assert_eq!(Provider::select(Some("qwen"), Some("zen")).unwrap(), Provider::Qwen);
    assert_eq!(Provider::select(None, Some(" ZEN")).unwrap(), Provider::Zen);
    assert_eq!(Provider::select(None, None).unwrap(), Provider::Openai);
    assert!(Provider::select(Some("nope"), Some("zen")).is_err());
}

#[test]
fn env_names_follow_the_prefix() {
    let n = Provider::Openai.env_names();
    assert_eq!(n.base_url, "OPENAI_BASE_URL");
    assert_eq!(n.api_key.as_deref(), Some("OPENAI_API_KEY"));
    assert_eq!(n.model, "OPENAI_MODEL");
    let n = Provider::Gigachat.env_names();
    assert_eq!(n.api_key, None);
    assert_eq!(n.client_id, "GIGACHAT_CLIENT_ID");
    assert_eq!(n.client_secret, "GIGACHAT_CLIENT_SECRET");
    let n = Provider::Yandexgpt.env_names();
    assert_eq!(n.folder_id, "YANDEX_FOLDER_ID");
    assert_eq!(n.api_key.as_deref(), Some("YANDEX_API_KEY"));
}

use opencode_old_macos::config::{resolve_settings, CliValues, Config, ConfigError, EnvValues};
use opencode_old_macos::provider::Provider;

#[test]
fn strips_trailing_slash() {
    let mut cfg = Config {
        base_url: "https://example.test/v1/".to_string(),
        api_key: "k".to_string(),
        model: "m".to_string(),
    };
    cfg.base_url = cfg.base_url.trim_end_matches('/').to_string();
    assert_eq!(cfg.chat_url(), "https://example.test/v1/chat/completions");
}

#[test]
fn load_uses_defaults() {
    let cfg = Config::load(None, Some(" key\n"), None, None, None, None).unwrap();
    assert_eq!(cfg.base_url, "https://api.openai.com/v1");
    assert_eq!(cfg.api_key, "key");
    assert_eq!(cfg.model, "gpt-4o-mini");
}

#[test]
fn load_prefers_command_line_over_environment() {
    let cfg = Config::load(
        Some("https://cli.test/v1//"),
        Some("cli-key"),
        Some("cli-model"),
        Some("https://env.test/v1"),
        Some("env-key"),
        Some("env-model"),
    )
    .unwrap();
    assert_eq!(cfg.base_url, "https://cli.test/v1");
    assert_eq!(cfg.api_key, "cli-key");
    assert_eq!(cfg.model, "cli-model");
}

#[test]
fn load_falls_back_to_environment() {
    let cfg = Config::load(
        None,
        None,
        None,
        Some("https://env.test/v1/"),
        Some("env-key"),
        Some("env-model"),
    )
    .unwrap();
    assert_eq!(cfg.base_url, "https://env.test/v1");
    assert_eq!(cfg.api_key, "env-key");
    assert_eq!(cfg.model, "env-model");
    assert_eq!(cfg.chat_url(), "https://env.test/v1/chat/completions");
}

#[test]
fn load_requires_a_key() {
    assert_eq!(
        Config::load(Some("https://x"), None, None, None, None, None).unwrap_err(),
        ConfigError::MissingApiKey
    );
}

#[test]
fn load_refuses_a_blank_key() {
    assert_eq!(
        Config::load(None, Some(" \t "), None, None, Some("env-key"), None).unwrap_err(),
        ConfigError::EmptyApiKey
    );
}

#[test]
fn config_chat_url_agrees_with_openai_provider() {
    let cfg = Config::load(Some("https://a.test/base///"), Some("k"), None, None, None, None).unwrap();
    assert_eq!(cfg.chat_url(), Provider::Openai.chat_url(&cfg.base_url));
    assert_eq!(cfg.chat_url(), Provider::Openai.chat_url("https://a.test/base///"));
}

fn no_cli() -> CliValues {
    CliValues {
        base_url: None,
        api_key: None,
        model: None,
        client_id: None,
        client_secret: None,
        folder_id: None,
        iam_token: false,
        max_tokens: 2048,
    }
}

fn no_env() -> EnvValues {
    EnvValues {
        base_url: None,
        api_key: None,
        model: None,
        client_id: None,
        client_secret: None,
        folder_id: None,
    }
}

#[test]
fn settings_fall_back_to_provider_defaults() {
    let s = resolve_settings(Provider::Qwen, &no_cli(), &no_env()).unwrap();
    assert_eq!(s.base_url, "https://dashscope.aliyuncs.com/compatible-mode/v1");
    assert_eq!(s.model, "qwen-plus");
    assert_eq!(s.api_key, None);
    assert_eq!(s.max_tokens, 2048);
}

#[test]
fn settings_prefer_command_line_then_environment() {
    let mut cli = no_cli();
    cli.base_url = Some("https://cli/".to_string());
    cli.folder_id = Some("cli-folder".to_string());
    let mut env = no_env();
    env.base_url = Some("https://env".to_string());
    env.api_key = Some("  env-key ".to_string());
    env.model = Some("env-model".to_string());
    env.folder_id = Some("env-folder".to_string());
    env.client_id = Some("env-id".to_string());
    let s = resolve_settings(Provider::Yandexgpt, &cli, &env).unwrap();
    assert_eq!(s.base_url, "https://cli");
    assert_eq!(s.api_key.as_deref(), Some("env-key"));
    assert_eq!(s.model, "env-model");
    assert_eq!(s.folder_id.as_deref(), Some("cli-folder"));
    assert_eq!(s.client_id.as_deref(), Some("env-id"));
}

#[test]
fn settings_refuse_a_blank_key() {
    let mut cli = no_cli();
    cli.api_key = Some(" ".to_string());
    let err = resolve_settings(Provider::Openai, &cli, &no_env()).unwrap_err();
    assert_eq!(err, ConfigError::EmptyApiKey);
}

#[test]
fn openai_settings_agree_with_load() {
    let mut cli = no_cli();
    cli.base_url = Some("https://a/v1//".to_string());
    let mut env = no_env();
    env.api_key = Some(" k ".to_string());
    env.model = Some("m".to_string());
    let s = resolve_settings(Provider::Openai, &cli, &env).unwrap();
    let c = Config::load(Some("https://a/v1//"), None, None, None, Some(" k "), Some("m")).unwrap();
    assert_eq!(s.base_url, c.base_url);
    assert_eq!(s.api_key.as_deref(), Some(c.api_key.as_str()));
    assert_eq!(s.model, c.model);
}

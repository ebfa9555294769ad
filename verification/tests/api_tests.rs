use opencode_old_macos::api::{
    compat_body, decimal_text, first_step, interactive_step, model_uri, next_step, plan_chat,
    read_access_token, read_completion, read_yandex_completion, status_error, truncate,
    yandex_body, Authorization, Awaiting, ChatError, ChatPlan, ChatSettings, ChatStep,
    FORM_CONTENT_TYPE, GIGACHAT_OAUTH_URL, GIGACHAT_TOKEN_BODY, JSON_CONTENT_TYPE,
};
use opencode_old_macos::provider::Provider;

#[test]
fn truncate_shortens() {
    let s = "abcdefghij";
    assert_eq!(truncate(s, 5), "abcde…");
    assert_eq!(truncate(s, 50), s);
}

#[test]
fn model_uri_builds_from_folder_and_model() {
    assert_eq!(
        model_uri("b1g", "yandexgpt/latest"),
        "gpt://b1g/yandexgpt/latest"
    );
}

#[test]
fn model_uri_passes_full_uri_through() {
    assert_eq!(
        model_uri("b1g", "ds://b1g/full-model"),
        "ds://b1g/full-model"
    );
}

#[test]
fn truncate_edges() {
    assert_eq!(truncate("abcde", 5), "abcde");
    assert_eq!(truncate("", 0), "");
    assert_eq!(truncate("ab", 0), "…");
    // Characters, not bytes, are counted.
    assert_eq!(truncate("чёрный", 3), "чёр…");
    // Truncating again with the same limit changes nothing.
    assert_eq!(truncate(&truncate("abcdefghij", 5), 5), "abcde…");
}

#[test]
fn model_uri_trims_and_is_idempotent() {
    assert_eq!(model_uri("f", "  lite \n"), "gpt://f/lite");
    assert_eq!(model_uri("f", " gpt://x/y "), "gpt://x/y");
    let once = model_uri("b1g", "yandexgpt/latest");
    assert_eq!(model_uri("b1g", &once), once);
}

#[test]
fn decimal_text_writes_digits() {
    assert_eq!(decimal_text(0), "0");
    assert_eq!(decimal_text(7), "7");
    assert_eq!(decimal_text(2048), "2048");
    assert_eq!(decimal_text(u32::MAX), "4294967295");
}

#[test]
fn compat_body_matches_serde_json() {
    let body = compat_body("gpt-4o-mini", "say \"hi\"\n\\ \u{1}", 2048);
    assert_eq!(
        body,
        "{\"max_tokens\":2048,\"messages\":[{\"content\":\"say \\\"hi\\\"\\n\\\\ \\u0001\",\"role\":\"user\"}],\"model\":\"gpt-4o-mini\",\"stream\":false}"
    );
    let value: serde_json::Value = serde_json::from_str(&body).unwrap();
    assert_eq!(value["messages"][0]["content"], "say \"hi\"\n\\ \u{1}");
    assert_eq!(value["max_tokens"], 2048);
}

#[test]
fn yandex_body_matches_serde_json() {
    let body = yandex_body("gpt://f/m", "привет\t", 100);
    assert_eq!(
        body,
        "{\"completionOptions\":{\"maxTokens\":100,\"stream\":false,\"temperature\":0.3},\"messages\":[{\"role\":\"user\",\"text\":\"привет\\t\"}],\"modelUri\":\"gpt://f/m\"}"
    );
    let value: serde_json::Value = serde_json::from_str(&body).unwrap();
    assert_eq!(value["completionOptions"]["temperature"], 0.3);
    assert_eq!(value["messages"][0]["text"], "привет\t");
}

fn settings(provider: Provider) -> ChatSettings {
    ChatSettings {
        provider,
        base_url: "https://api.test/v1/".to_string(),
        api_key: Some("key".to_string()),
        model: "m".to_string(),
        client_id: None,
        client_secret: None,
        folder_id: None,
        iam_token: false,
        max_tokens: 16,
    }
}

#[test]
fn plan_compatible() {
    match plan_chat(&settings(Provider::Qwen), "q").unwrap() {
        ChatPlan::Compatible { url, key, body } => {
            assert_eq!(url, "https://api.test/v1/chat/completions");
            assert_eq!(key, "key");
            assert_eq!(body, compat_body("m", "q", 16));
        }
        other => panic!("unexpected {:?}", other),
    }
    let mut s = settings(Provider::Openai);
    s.api_key = None;
    assert!(matches!(plan_chat(&s, "q"), Err(ChatError::MissingApiKey)));
}

#[test]
fn plan_gigachat() {
    let mut s = settings(Provider::Gigachat);
    s.api_key = None;
    assert!(matches!(plan_chat(&s, "q"), Err(ChatError::MissingClientId)));
    s.client_secret = Some("secret".to_string());
    assert!(matches!(plan_chat(&s, "q"), Err(ChatError::MissingClientId)));
    s.client_secret = None;
    s.client_id = Some("id".to_string());
    assert!(matches!(plan_chat(&s, "q"), Err(ChatError::MissingClientSecret)));
    s.client_secret = Some("secret".to_string());
    match plan_chat(&s, "q").unwrap() {
        ChatPlan::Gigachat { token_authorization, url, body } => {
            match token_authorization {
                Authorization::Basic { user, password } => {
                    assert_eq!(user, "id");
                    assert_eq!(password, "secret");
                }
                other => panic!("unexpected {:?}", other),
            }
            assert_eq!(url, "https://api.test/v1/chat/completions");
            assert_eq!(body, compat_body("m", "q", 16));
        }
        other => panic!("unexpected {:?}", other),
    }
    assert_eq!(GIGACHAT_OAUTH_URL, "https://ngw.devices.sberbank.ru:9443/api/v2/oauth");
    assert_eq!(GIGACHAT_TOKEN_BODY, "scope=GIGACHAT_API_PERS");
}

#[test]
fn plan_yandex() {
    let mut s = settings(Provider::Yandexgpt);
    assert!(matches!(plan_chat(&s, "q"), Err(ChatError::MissingFolderId)));
    s.api_key = None;
    s.folder_id = Some("b1g".to_string());
    assert!(matches!(plan_chat(&s, "q"), Err(ChatError::MissingYandexKey)));
    s.api_key = Some("key".to_string());
    s.model = " yandexgpt/latest ".to_string();
    match plan_chat(&s, "q").unwrap() {
        ChatPlan::Yandex { url, authorization, body } => {
            assert_eq!(url, "https://api.test/v1/v1/completion");
            match authorization {
                Authorization::Header(h) => assert_eq!(h, "Api-Key key"),
                other => panic!("unexpected {:?}", other),
            }
            assert_eq!(body, yandex_body("gpt://b1g/yandexgpt/latest", "q", 16));
        }
        other => panic!("unexpected {:?}", other),
    }
    s.iam_token = true;
    match plan_chat(&s, "q").unwrap() {
        ChatPlan::Yandex { authorization: Authorization::Bearer(t), .. } => assert_eq!(t, "key"),
        other => panic!("unexpected {:?}", other),
    }
}

#[test]
fn status_errors_carry_a_snippet() {
    assert!(status_error(200, b"whatever").is_none());
    assert!(status_error(299, b"").is_none());
    match status_error(404, b"not here") {
        Some(ChatError::Status { status, snippet }) => {
            assert_eq!(status, 404);
            assert_eq!(snippet, "not here");
        }
        other => panic!("unexpected {:?}", other),
    }
    let long = vec![b'x'; 600];
    match status_error(500, &long) {
        Some(ChatError::Status { snippet, .. }) => {
            assert_eq!(snippet.chars().count(), 513);
            assert!(snippet.ends_with('…'));
        }
        other => panic!("unexpected {:?}", other),
    }
    match status_error(199, b"a\xffb") {
        Some(ChatError::Status { snippet, .. }) => assert_eq!(snippet, "a\u{fffd}b"),
        other => panic!("unexpected {:?}", other),
    }
}

#[test]
fn reads_completion_text() {
    let body = br#"{"choices":[{"message":{"content":"  Hello!\n"}}],"usage":{}}"#;
    assert_eq!(read_completion(200, body).unwrap(), "Hello!");
    assert!(matches!(read_completion(200, b"not json"), Err(ChatError::InvalidJson)));
    assert!(matches!(read_completion(200, br#"{"choices":[]}"#), Err(ChatError::NoContent)));
    assert!(matches!(
        read_completion(200, br#"{"choices":[{"message":{"content":5}}]}"#),
        Err(ChatError::NoContent)
    ));
    assert!(matches!(
        read_completion(401, body),
        Err(ChatError::Status { status: 401, .. })
    ));
}

#[test]
fn reads_yandex_text() {
    let body = r#"{"result":{"alternatives":[{"message":{"role":"assistant","text":"Ответ "}}]}}"#;
    assert_eq!(read_yandex_completion(200, body.as_bytes()).unwrap(), "Ответ");
    assert!(matches!(
        read_yandex_completion(200, br#"{"result":{}}"#),
        Err(ChatError::NoYandexText)
    ));
}

#[test]
fn reads_access_token() {
    let body = br#"{"access_token":" tok ","expires_at":1}"#;
    assert_eq!(read_access_token(200, body).unwrap(), " tok ");
    assert!(matches!(read_access_token(200, b"[1]"), Err(ChatError::NoAccessToken)));
    assert!(matches!(read_access_token(200, b"{"), Err(ChatError::InvalidJson)));
    assert!(matches!(
        read_access_token(403, body),
        Err(ChatError::Status { status: 403, .. })
    ));
}

#[test]
fn gigachat_ready_key_is_used_without_credentials() {
    let mut s = settings(Provider::Gigachat);
    s.api_key = Some("aWQ6c2VjcmV0".to_string());
    for (id, secret) in [(None, None), (Some("id"), None), (None, Some("secret"))] {
        s.client_id = id.map(str::to_string);
        s.client_secret = secret.map(str::to_string);
        match plan_chat(&s, "q").unwrap() {
            ChatPlan::Gigachat { token_authorization: Authorization::Header(h), .. } => {
                assert_eq!(h, "Basic aWQ6c2VjcmV0")
            }
            other => panic!("unexpected {:?}", other),
        }
    }
    // Both credentials given: they are used.
    s.client_id = Some("id".to_string());
    s.client_secret = Some("secret".to_string());
    assert!(matches!(
        plan_chat(&s, "q").unwrap(),
        ChatPlan::Gigachat { token_authorization: Authorization::Basic { .. }, .. }
    ));
}

#[test]
fn gigachat_exchange_gets_a_token_then_chats() {
    let mut s = settings(Provider::Gigachat);
    s.api_key = Some("k".to_string());
    let step = first_step(plan_chat(&s, "q").unwrap());
    let awaiting = match step {
        ChatStep::Send { request, awaiting } => {
            assert_eq!(request.url, GIGACHAT_OAUTH_URL);
            assert_eq!(request.body, GIGACHAT_TOKEN_BODY);
            assert_eq!(request.content_type, FORM_CONTENT_TYPE);
            assert!(request.request_id);
            assert!(matches!(request.authorization, Authorization::Header(ref h) if h == "Basic k"));
            awaiting
        }
        other => panic!("unexpected {:?}", other),
    };
    let step = next_step(awaiting, 200, br#"{"access_token":"tok"}"#);
    let awaiting = match step {
        ChatStep::Send { request, awaiting } => {
            assert_eq!(request.url, "https://api.test/v1/chat/completions");
            assert_eq!(request.content_type, JSON_CONTENT_TYPE);
            assert_eq!(request.body, compat_body("m", "q", 16));
            assert!(!request.request_id);
            assert!(matches!(request.authorization, Authorization::Bearer(ref t) if t == "tok"));
            awaiting
        }
        other => panic!("unexpected {:?}", other),
    };
    match next_step(awaiting, 200, br#"{"choices":[{"message":{"content":" A "}}]}"#) {
        ChatStep::Done(Ok(text)) => assert_eq!(text, "A"),
        other => panic!("unexpected {:?}", other),
    }
}

#[test]
fn failed_token_ends_the_exchange() {
    let awaiting = Awaiting::Token { url: "u".to_string(), body: "b".to_string() };
    assert!(matches!(
        next_step(awaiting.clone(), 401, b"no"),
        ChatStep::Done(Err(ChatError::Status { status: 401, .. }))
    ));
    assert!(matches!(
        next_step(awaiting, 200, b"{}"),
        ChatStep::Done(Err(ChatError::NoAccessToken))
    ));
}

#[test]
fn compatible_and_yandex_exchanges_take_one_request() {
    let step = first_step(plan_chat(&settings(Provider::Zen), "q").unwrap());
    match step {
        ChatStep::Send { request, awaiting: Awaiting::Completion } => {
            assert!(matches!(request.authorization, Authorization::Bearer(ref k) if k == "key"));
            assert_eq!(request.content_type, JSON_CONTENT_TYPE);
        }
        other => panic!("unexpected {:?}", other),
    }
    let mut s = settings(Provider::Yandexgpt);
    s.folder_id = Some("f".to_string());
    let step = first_step(plan_chat(&s, "q").unwrap());
    match step {
        ChatStep::Send { request, awaiting: Awaiting::YandexCompletion } => {
            assert_eq!(request.url, "https://api.test/v1/v1/completion");
            assert!(matches!(request.authorization, Authorization::Header(ref h) if h == "Api-Key key"));
        }
        other => panic!("unexpected {:?}", other),
    }
    assert!(matches!(
        next_step(Awaiting::YandexCompletion, 500, b"x"),
        ChatStep::Done(Err(ChatError::Status { status: 500, .. }))
    ));
}

#[test]
fn interactive_lines() {
    assert_eq!(interactive_step(None), None);
    assert_eq!(interactive_step(Some("\n")), None);
    assert_eq!(interactive_step(Some("  \t\n")), None);
    assert_eq!(interactive_step(Some(" hello \n")), Some("hello".to_string()));
}

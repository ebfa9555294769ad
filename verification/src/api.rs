//! Request and response logic of the chat providers.
//!
//! The common path is the OpenAI-compatible `/chat/completions` endpoint
//! (openai, qwen, zen, gigachat). GigaChat first exchanges client
//! credentials for an access token (OAuth2); Yandex GPT uses its native
//! `/foundationModels/v1/completion` scheme. Only non-streaming replies: the
//! whole answer comes in one response.

use vstd::prelude::*;
use crate::json::{
    json_key_finds, json_node_text, json_parses, json_pointer_finds, json_quoted,
    json_quoted_injective, json_quoted_value, json_string_literal, json_string_value, JsonDoc,
};
use crate::provider::{chat_url_for, Provider};
use crate::text::{
    chars_of, has_prefix, lemma_trimmed_edges, lemma_trimmed_fixed,
    lemma_trimmed_idempotent, opt_string, push_char, starts_with, string_from_chars, trim, trimmed,
};

verus! {

/// `s` cut to its first `max` characters, with `…` appended when anything
/// was cut.
pub open spec fn truncated(s: Seq<char>, max: nat) -> Seq<char> {
    if s.len() <= max {
        s
    } else {
        s.take(max as int) + "…"@
    }
}

/// The Yandex `modelUri`: a model given as a full URI (`gpt://…` or `ds://…`)
/// is kept, any other becomes `gpt://<folder_id>/<model>`; the model is
/// trimmed first.
pub open spec fn model_uri_for(folder_id: Seq<char>, model: Seq<char>) -> Seq<char> {
    let m = trimmed(model);
    if has_prefix(m, "gpt://"@) || has_prefix(m, "ds://"@) {
        m
    } else {
        "gpt://"@ + folder_id + "/"@ + m
    }
}

/// The character of decimal digit `d`.
pub open spec fn digit_char(d: nat) -> char {
    (d + 48) as char
}

/// The decimal notation of `n`.
pub open spec fn decimal(n: nat) -> Seq<char>
    decreases n,
{
    if n < 10 {
        seq![digit_char(n)]
    } else {
        decimal(n / 10).push(digit_char(n % 10))
    }
}

/// Cuts `s` to at most `max` characters, marking a cut with `…`.
pub fn truncate(s: &str, max: usize) -> (r: String)
    ensures
        r@ == truncated(s@, max as nat),
{
    let v = chars_of(s);
    if v.len() <= max {
        String::from_str(s)
    } else {
        let head = string_from_chars(&v, 0, max);
        head.concat("…")
    }
}

/// The Yandex `modelUri` for `model` in the catalogue `folder_id`.
pub fn model_uri(folder_id: &str, model: &str) -> (r: String)
    ensures
        r@ == model_uri_for(folder_id@, model@),
{
    let m = trim(model);
    let mv = chars_of(m.as_str());
    if starts_with(&mv, "gpt://") || starts_with(&mv, "ds://") {
        m
    } else {
        String::from_str("gpt://").concat(folder_id).concat("/").concat(m.as_str())
    }
}

/// The decimal notation of `n`.
pub fn decimal_text(n: u32) -> (r: String)
    ensures
        r@ == decimal(n as nat),
    decreases n,
{
    let d: u8 = (n % 10) as u8;
    let c: char = (d + 48) as char;
    if n < 10 {
        let mut r = String::new();
        push_char(&mut r, c);
        r
    } else {
        let mut r = decimal_text(n / 10);
        push_char(&mut r, c);
        r
    }
}

/// The body of an OpenAI-compatible `/chat/completions` request: one user
/// message, no streaming. Keys stand in the order in which `serde_json`
/// writes an object (sorted), without spaces.
pub open spec fn compat_body_text(model: Seq<char>, prompt: Seq<char>, max_tokens: nat) -> Seq<
    char,
> {
    "{\"max_tokens\":"@ + decimal(max_tokens) + ",\"messages\":[{\"content\":"@ + json_quoted(prompt)
        + ",\"role\":\"user\"}],\"model\":"@ + json_quoted(model) + ",\"stream\":false}"@
}

/// The body of a Yandex GPT completion request: one user message, no
/// streaming, temperature 0.3.
pub open spec fn yandex_body_text(model_uri: Seq<char>, prompt: Seq<char>, max_tokens: nat) -> Seq<
    char,
> {
    "{\"completionOptions\":{\"maxTokens\":"@ + decimal(max_tokens)
        + ",\"stream\":false,\"temperature\":0.3},\"messages\":[{\"role\":\"user\",\"text\":"@
        + json_quoted(prompt) + "}],\"modelUri\":"@ + json_quoted(model_uri) + "}"@
}

/// The JSON body of an OpenAI-compatible chat request.
pub fn compat_body(model: &str, prompt: &str, max_tokens: u32) -> (r: String)
    ensures
        r@ == compat_body_text(model@, prompt@, max_tokens as nat),
{
    let n = decimal_text(max_tokens);
    let p = json_string_literal(prompt);
    let m = json_string_literal(model);
    String::from_str("{\"max_tokens\":").concat(n.as_str()).concat(
        ",\"messages\":[{\"content\":",
    ).concat(p.as_str()).concat(",\"role\":\"user\"}],\"model\":").concat(m.as_str()).concat(
        ",\"stream\":false}",
    )
}

/// The JSON body of a Yandex GPT completion request.
pub fn yandex_body(model_uri: &str, prompt: &str, max_tokens: u32) -> (r: String)
    ensures
        r@ == yandex_body_text(model_uri@, prompt@, max_tokens as nat),
{
    let n = decimal_text(max_tokens);
    let p = json_string_literal(prompt);
    let u = json_string_literal(model_uri);
    String::from_str("{\"completionOptions\":{\"maxTokens\":").concat(n.as_str()).concat(
        ",\"stream\":false,\"temperature\":0.3},\"messages\":[{\"role\":\"user\",\"text\":",
    ).concat(p.as_str()).concat("}],\"modelUri\":").concat(u.as_str()).concat("}")
}

/// What a chat request reads from the configuration.
#[derive(Debug, Clone)]
pub struct ChatSettings {
    pub provider: Provider,
    pub base_url: String,
    /// The provider's key; for GigaChat a ready authorization key (the base64
    /// of `client_id:client_secret`), used when the id or the secret is absent.
    pub api_key: Option<String>,
    pub model: String,
    /// GigaChat: the application id.
    pub client_id: Option<String>,
    /// GigaChat: the application secret.
    pub client_secret: Option<String>,
    /// Yandex GPT: the catalogue (folder) id.
    pub folder_id: Option<String>,
    /// Yandex GPT: the key is an IAM token (sent as Bearer) rather than an API key.
    pub iam_token: bool,
    /// The largest number of tokens in the answer.
    pub max_tokens: u32,
}

/// How a request is authorised.
#[derive(Debug, Clone)]
pub enum Authorization {
    /// `Authorization: Bearer <token>`.
    Bearer(String),
    /// `Authorization: <value>`, sent as it stands.
    Header(String),
    /// HTTP Basic with a user and a password (encoded by the HTTP client).
    Basic { user: String, password: String },
}

/// The requests that answer one prompt.
#[derive(Debug, Clone)]
pub enum ChatPlan {
    /// POST `body` to `url` with the Bearer `key`; the answer is read with
    /// `read_completion`.
    Compatible { url: String, key: String, body: String },
    /// Get an access token at `GIGACHAT_OAUTH_URL` with
    /// `token_authorization` (read with `read_access_token`), then POST
    /// `body` to `url` with that token as Bearer; the answer is read with
    /// `read_completion`.
    Gigachat { token_authorization: Authorization, url: String, body: String },
    /// POST `body` to `url` with `authorization`; the answer is read with
    /// `read_yandex_completion`.
    Yandex { url: String, authorization: Authorization, body: String },
}

/// Why a prompt got no answer.
#[derive(Debug, Clone)]
pub enum ChatError {
    /// No API key for the provider.
    MissingApiKey,
    /// GigaChat without a client id.
    MissingClientId,
    /// GigaChat without a client secret.
    MissingClientSecret,
    /// Yandex GPT without a key.
    MissingYandexKey,
    /// Yandex GPT without a folder id.
    MissingFolderId,
    /// The API answered with a status outside 200..=299; `snippet` is the
    /// start of the body.
    Status { status: u16, snippet: String },
    /// The body is not JSON.
    InvalidJson,
    /// No `/choices/0/message/content` string in the answer.
    NoContent,
    /// No `/result/alternatives/0/message/text` string in the Yandex answer.
    NoYandexText,
    /// No `access_token` string in the GigaChat token answer.
    NoAccessToken,
}

/// The header value of a Yandex API key.
pub open spec fn api_key_header(key: Seq<char>) -> Seq<char> {
    "Api-Key "@ + key
}

/// The header value of a ready GigaChat authorization key (the base64 of
/// `client_id:client_secret`).
pub open spec fn basic_key_header(key: Seq<char>) -> Seq<char> {
    "Basic "@ + key
}

/// The outcome `plan_chat` owes for `s` and `prompt`.
pub open spec fn plan_outcome(s: ChatSettings, prompt: Seq<char>, r: Result<ChatPlan, ChatError>) -> bool {
    let url = chat_url_for(s.provider, s.base_url@);
    match s.provider {
        Provider::Gigachat => match (
            opt_string(s.client_id),
            opt_string(s.client_secret),
            opt_string(s.api_key),
        ) {
            (Some(id), Some(secret), _) => r matches Ok(
                ChatPlan::Gigachat { token_authorization, url: u, body },
            ) && u@ == url && body@ == compat_body_text(s.model@, prompt, s.max_tokens as nat) && (
            token_authorization matches Authorization::Basic { user, password } && user@ == id
                && password@ == secret),
            (_, _, Some(key)) => r matches Ok(ChatPlan::Gigachat { token_authorization, url: u, body })
                && u@ == url && body@ == compat_body_text(s.model@, prompt, s.max_tokens as nat) && (
            token_authorization matches Authorization::Header(h) && h@ == basic_key_header(key)),
            (None, _, None) => r matches Err(ChatError::MissingClientId),
            (Some(_), None, None) => r matches Err(ChatError::MissingClientSecret),
        },
        Provider::Yandexgpt => match (opt_string(s.api_key), opt_string(s.folder_id)) {
            (None, _) => r matches Err(ChatError::MissingYandexKey),
            (Some(_), None) => r matches Err(ChatError::MissingFolderId),
            (Some(key), Some(folder)) => r matches Ok(ChatPlan::Yandex { url: u, authorization, body })
                && u@ == url && body@ == yandex_body_text(
                model_uri_for(folder, s.model@),
                prompt,
                s.max_tokens as nat,
            ) && if s.iam_token {
                authorization matches Authorization::Bearer(t) && t@ == key
            } else {
                authorization matches Authorization::Header(h) && h@ == api_key_header(key)
            },
        },
        _ => match opt_string(s.api_key) {
            None => r matches Err(ChatError::MissingApiKey),
            Some(key) => r matches Ok(ChatPlan::Compatible { url: u, key: k, body }) && u@ == url
                && k@ == key && body@ == compat_body_text(s.model@, prompt, s.max_tokens as nat),
        },
    }
}

/// Decides the requests that answer `prompt` with the settings `s`.
pub fn plan_chat(s: &ChatSettings, prompt: &str) -> (r: Result<ChatPlan, ChatError>)
    ensures
        plan_outcome(*s, prompt@, r),
{
    let url = s.provider.chat_url(s.base_url.as_str());
    match s.provider {
        Provider::Gigachat => {
            let token_authorization = match (&s.client_id, &s.client_secret, &s.api_key) {
                (Some(id), Some(secret), _) => Authorization::Basic {
                    user: id.clone(),
                    password: secret.clone(),
                },
                (_, _, Some(key)) => Authorization::Header(
                    String::from_str("Basic ").concat(key.as_str()),
                ),
                (None, _, None) => {
                    return Err(ChatError::MissingClientId);
                },
                (Some(_), None, None) => {
                    return Err(ChatError::MissingClientSecret);
                },
            };
            let body = compat_body(s.model.as_str(), prompt, s.max_tokens);
            Ok(ChatPlan::Gigachat { token_authorization, url, body })
        },
        Provider::Yandexgpt => {
            let key = match &s.api_key {
                Some(v) => v.clone(),
                None => {
                    return Err(ChatError::MissingYandexKey);
                },
            };
            let folder = match &s.folder_id {
                Some(v) => v.clone(),
                None => {
                    return Err(ChatError::MissingFolderId);
                },
            };
            let uri = model_uri(folder.as_str(), s.model.as_str());
            let body = yandex_body(uri.as_str(), prompt, s.max_tokens);
            let authorization = if s.iam_token {
                Authorization::Bearer(key)
            } else {
                Authorization::Header(String::from_str("Api-Key ").concat(key.as_str()))
            };
            Ok(ChatPlan::Yandex { url, authorization, body })
        },
        _ => {
            let key = match &s.api_key {
                Some(v) => v.clone(),
                None => {
                    return Err(ChatError::MissingApiKey);
                },
            };
            let body = compat_body(s.model.as_str(), prompt, s.max_tokens);
            Ok(ChatPlan::Compatible { url, key, body })
        },
    }
}

/// The GigaChat endpoint that exchanges client credentials for an access token.
pub const GIGACHAT_OAUTH_URL: &'static str = "https://ngw.devices.sberbank.ru:9443/api/v2/oauth";

/// The form body of the GigaChat token request (personal API scope).
pub const GIGACHAT_TOKEN_BODY: &'static str = "scope=GIGACHAT_API_PERS";

/// Where an OpenAI-compatible answer holds its text.
pub const COMPLETION_POINTER: &'static str = "/choices/0/message/content";

/// Where a Yandex GPT answer holds its text.
pub const YANDEX_TEXT_POINTER: &'static str = "/result/alternatives/0/message/text";

/// The member of a GigaChat token answer that holds the token.
pub const ACCESS_TOKEN_KEY: &'static str = "access_token";

/// How many characters of an error body are kept.
pub const ERROR_SNIPPET_CHARS: usize = 512;

/// Whether an HTTP status means success (2xx).
pub open spec fn is_success(status: u16) -> bool {
    200 <= status && status <= 299
}

/// What `String::from_utf8_lossy` makes of `bytes`.
pub uninterp spec fn utf8_lossy_text(bytes: Seq<u8>) -> Seq<char>;

/// `String::from_utf8_lossy`: the bytes as text, each invalid sequence
/// replaced by U+FFFD. Valid UTF-8 is decoded exactly, as the
/// documentation says; what the replacement looks like is left unsaid.
#[verifier::external_body]
fn lossy_text(bytes: &[u8]) -> (r: String)
    ensures
        r@ == utf8_lossy_text(bytes@),
        vstd::utf8::valid_utf8(bytes@) ==> r@ == vstd::utf8::decode_utf8(bytes@),
{
    String::from_utf8_lossy(bytes).into_owned()
}

/// The part of an error body that an error reports.
pub open spec fn error_snippet(body: Seq<u8>) -> Seq<char> {
    truncated(utf8_lossy_text(body), 512)
}

/// The string at `pointer` in the JSON document `body`, if there is one.
pub open spec fn text_at_pointer(body: Seq<u8>, pointer: Seq<char>) -> Option<Seq<char>> {
    if json_pointer_finds(body, pointer) {
        json_node_text(body, false, pointer)
    } else {
        None
    }
}

/// The string member `key` of the JSON document `body`, if there is one.
pub open spec fn text_at_key(body: Seq<u8>, key: Seq<char>) -> Option<Seq<char>> {
    if json_key_finds(body, key) {
        json_node_text(body, true, key)
    } else {
        None
    }
}

/// `t` trimmed, if present.
pub open spec fn trimmed_opt(t: Option<Seq<char>>) -> Option<Seq<char>> {
    match t {
        Some(x) => Some(trimmed(x)),
        None => None,
    }
}

/// The outcome a reader owes for an answer with `status` and `body`, when
/// `text` is the answer's text (`None` when the document has none) and
/// `missing` the error for a missing text.
pub open spec fn reply_outcome(
    status: u16,
    body: Seq<u8>,
    text: Option<Seq<char>>,
    missing: ChatError,
    r: Result<String, ChatError>,
) -> bool {
    if !is_success(status) {
        r matches Err(ChatError::Status { status: s, snippet }) && s == status && snippet@
            == error_snippet(body)
    } else if !json_parses(body) {
        r matches Err(ChatError::InvalidJson)
    } else {
        match text {
            None => r == Err::<String, ChatError>(missing),
            Some(t) => r matches Ok(x) && x@ == t,
        }
    }
}

/// The error for an unsuccessful status: the status and the start of the body.
pub fn status_error(status: u16, body: &[u8]) -> (r: Option<ChatError>)
    ensures
        is_success(status) ==> r is None,
        !is_success(status) ==> (r matches Some(ChatError::Status { status: s, snippet }) && s
            == status && snippet@ == error_snippet(body@)),
{
    if 200 <= status && status <= 299 {
        None
    } else {
        let text = lossy_text(body);
        Some(ChatError::Status { status, snippet: truncate(text.as_str(), ERROR_SNIPPET_CHARS) })
    }
}

/// The text of an OpenAI-compatible answer: the string at
/// `/choices/0/message/content`, trimmed.
pub fn read_completion(status: u16, body: &[u8]) -> (r: Result<String, ChatError>)
    ensures
        reply_outcome(
            status,
            body@,
            trimmed_opt(text_at_pointer(body@, COMPLETION_POINTER@)),
            ChatError::NoContent,
            r,
        ),
{
    if let Some(e) = status_error(status, body) {
        return Err(e);
    }
    let doc = match JsonDoc::parse(body) {
        Some(d) => d,
        None => {
            return Err(ChatError::InvalidJson);
        },
    };
    match doc.pointer(COMPLETION_POINTER) {
        Some(node) => match node.as_str() {
            Some(t) => Ok(trim(t)),
            None => Err(ChatError::NoContent),
        },
        None => Err(ChatError::NoContent),
    }
}

/// The text of a Yandex GPT answer: the string at
/// `/result/alternatives/0/message/text`, trimmed.
pub fn read_yandex_completion(status: u16, body: &[u8]) -> (r: Result<String, ChatError>)
    ensures
        reply_outcome(
            status,
            body@,
            trimmed_opt(text_at_pointer(body@, YANDEX_TEXT_POINTER@)),
            ChatError::NoYandexText,
            r,
        ),
{
    if let Some(e) = status_error(status, body) {
        return Err(e);
    }
    let doc = match JsonDoc::parse(body) {
        Some(d) => d,
        None => {
            return Err(ChatError::InvalidJson);
        },
    };
    match doc.pointer(YANDEX_TEXT_POINTER) {
        Some(node) => match node.as_str() {
            Some(t) => Ok(trim(t)),
            None => Err(ChatError::NoYandexText),
        },
        None => Err(ChatError::NoYandexText),
    }
}

/// The access token of a GigaChat token answer: the string member
/// `access_token`, as it stands.
pub fn read_access_token(status: u16, body: &[u8]) -> (r: Result<String, ChatError>)
    ensures
        reply_outcome(
            status,
            body@,
            text_at_key(body@, ACCESS_TOKEN_KEY@),
            ChatError::NoAccessToken,
            r,
        ),
{
    if let Some(e) = status_error(status, body) {
        return Err(e);
    }
    let doc = match JsonDoc::parse(body) {
        Some(d) => d,
        None => {
            return Err(ChatError::InvalidJson);
        },
    };
    match doc.get(ACCESS_TOKEN_KEY) {
        Some(node) => match node.as_str() {
            Some(t) => Ok(String::from_str(t)),
            None => Err(ChatError::NoAccessToken),
        },
        None => Err(ChatError::NoAccessToken),
    }
}

/// The content type of a JSON body.
pub const JSON_CONTENT_TYPE: &'static str = "application/json";

/// The content type of the GigaChat token request.
pub const FORM_CONTENT_TYPE: &'static str = "application/x-www-form-urlencoded";

/// One HTTP POST of a chat exchange.
#[derive(Debug, Clone)]
pub struct HttpRequest {
    pub url: String,
    pub authorization: Authorization,
    pub content_type: String,
    pub body: String,
    /// Whether the request carries a fresh random `RqUID` header.
    pub request_id: bool,
}

/// How the answer to the request in flight is read.
#[derive(Debug, Clone)]
pub enum Awaiting {
    /// A GigaChat access token; with it, `body` is then posted to `url`.
    Token { url: String, body: String },
    /// An OpenAI-compatible answer.
    Completion,
    /// A Yandex GPT answer.
    YandexCompletion,
}

/// What to do next in a chat exchange.
#[derive(Debug)]
pub enum ChatStep {
    /// Send `request`, then hand its status and body to `next_step` with `awaiting`.
    Send { request: HttpRequest, awaiting: Awaiting },
    /// The exchange is over, with this answer or error.
    Done(Result<String, ChatError>),
}

/// Whether `q` is a POST to `url` with `authorization`, a body and a content type.
pub open spec fn is_request(
    q: HttpRequest,
    url: Seq<char>,
    authorization: Authorization,
    content_type: Seq<char>,
    body: Seq<char>,
    request_id: bool,
) -> bool {
    &&& q.url@ == url
    &&& q.authorization == authorization
    &&& q.content_type@ == content_type
    &&& q.body@ == body
    &&& q.request_id == request_id
}

/// The token that a GigaChat token answer yields, if it yields one.
pub open spec fn token_of(status: u16, body: Seq<u8>) -> Option<Seq<char>> {
    if is_success(status) && json_parses(body) {
        text_at_key(body, ACCESS_TOKEN_KEY@)
    } else {
        None
    }
}

/// A JSON POST of `body` to `url` with `authorization`.
fn json_request(url: String, authorization: Authorization, body: String) -> (q: HttpRequest)
    ensures
        is_request(q, url@, authorization, JSON_CONTENT_TYPE@, body@, false),
{
    HttpRequest {
        url,
        authorization,
        content_type: String::from_str(JSON_CONTENT_TYPE),
        body,
        request_id: false,
    }
}

/// The first request of a plan.
pub fn first_step(plan: ChatPlan) -> (r: ChatStep)
    ensures
        match plan {
            ChatPlan::Compatible { url, key, body } => r matches ChatStep::Send {
                request,
                awaiting: Awaiting::Completion,
            } && request.authorization matches Authorization::Bearer(t) && t@ == key@
                && request.url@ == url@ && request.content_type@ == JSON_CONTENT_TYPE@
                && request.body@ == body@ && !request.request_id,
            ChatPlan::Gigachat { token_authorization, url, body } => r matches ChatStep::Send {
                request,
                awaiting: Awaiting::Token { url: u, body: b },
            } && is_request(
                request,
                GIGACHAT_OAUTH_URL@,
                token_authorization,
                FORM_CONTENT_TYPE@,
                GIGACHAT_TOKEN_BODY@,
                true,
            ) && u@ == url@ && b@ == body@,
            ChatPlan::Yandex { url, authorization, body } => r matches ChatStep::Send {
                request,
                awaiting: Awaiting::YandexCompletion,
            } && is_request(request, url@, authorization, JSON_CONTENT_TYPE@, body@, false),
        },
{
    match plan {
        ChatPlan::Compatible { url, key, body } => ChatStep::Send {
            request: json_request(url, Authorization::Bearer(key), body),
            awaiting: Awaiting::Completion,
        },
        ChatPlan::Gigachat { token_authorization, url, body } => ChatStep::Send {
            request: HttpRequest {
                url: String::from_str(GIGACHAT_OAUTH_URL),
                authorization: token_authorization,
                content_type: String::from_str(FORM_CONTENT_TYPE),
                body: String::from_str(GIGACHAT_TOKEN_BODY),
                request_id: true,
            },
            awaiting: Awaiting::Token { url, body },
        },
        ChatPlan::Yandex { url, authorization, body } => ChatStep::Send {
            request: json_request(url, authorization, body),
            awaiting: Awaiting::YandexCompletion,
        },
    }
}

/// The step after an answer with `status` and `body` to the request that
/// `awaiting` describes: a GigaChat token leads to the chat request, any
/// other answer ends the exchange.
pub fn next_step(awaiting: Awaiting, status: u16, body: &[u8]) -> (r: ChatStep)
    ensures
        match awaiting {
            Awaiting::Token { url, body: chat_body } => match token_of(status, body@) {
                Some(t) => r matches ChatStep::Send { request, awaiting: Awaiting::Completion }
                    && request.authorization matches Authorization::Bearer(x) && x@ == t
                    && request.url@ == url@ && request.content_type@ == JSON_CONTENT_TYPE@
                    && request.body@ == chat_body@ && !request.request_id,
                None => r matches ChatStep::Done(res) && reply_outcome(
                    status,
                    body@,
                    text_at_key(body@, ACCESS_TOKEN_KEY@),
                    ChatError::NoAccessToken,
                    res,
                ),
            },
            Awaiting::Completion => r matches ChatStep::Done(res) && reply_outcome(
                status,
                body@,
                trimmed_opt(text_at_pointer(body@, COMPLETION_POINTER@)),
                ChatError::NoContent,
                res,
            ),
            Awaiting::YandexCompletion => r matches ChatStep::Done(res) && reply_outcome(
                status,
                body@,
                trimmed_opt(text_at_pointer(body@, YANDEX_TEXT_POINTER@)),
                ChatError::NoYandexText,
                res,
            ),
        },
{
    match awaiting {
        Awaiting::Token { url, body: chat_body } => match read_access_token(status, body) {
            Ok(token) => ChatStep::Send {
                request: json_request(url, Authorization::Bearer(token), chat_body),
                awaiting: Awaiting::Completion,
            },
            Err(e) => ChatStep::Done(Err(e)),
        },
        Awaiting::Completion => ChatStep::Done(read_completion(status, body)),
        Awaiting::YandexCompletion => ChatStep::Done(read_yandex_completion(status, body)),
    }
}

/// What one line of interactive input asks for: the prompt it holds, or
/// `None` (end of input, or an empty line) to stop.
pub fn interactive_step(line: Option<&str>) -> (r: Option<String>)
    ensures
        r is None <==> (line is None || trimmed(line->0@).len() == 0),
        r matches Some(p) ==> p@ == trimmed(line->0@),
{
    match line {
        None => None,
        Some(l) => {
            let p = trim(l);
            if p.as_str().unicode_len() == 0 {
                None
            } else {
                Some(p)
            }
        },
    }
}

/// Truncating keeps at most `max` characters of the text and adds at most
/// the one mark, and what it keeps is the start of the text.
pub proof fn truncate_bounds(s: Seq<char>, max: nat)
    ensures
        truncated(s, max).len() <= max + 1,
        s.len() <= max ==> truncated(s, max) == s,
        s.len() > max ==> truncated(s, max).take(max as int) == s.take(max as int),
{
    reveal_strlit("…");
    if s.len() > max {
        assert(truncated(s, max).take(max as int) =~= s.take(max as int));
    }
}

/// Truncating twice with the same limit is truncating once.
pub proof fn truncate_idempotent(s: Seq<char>, max: nat)
    ensures
        truncated(truncated(s, max), max) == truncated(s, max),
{
    reveal_strlit("…");
    if s.len() > max {
        let t = truncated(s, max);
        assert(t.take(max as int) =~= s.take(max as int));
    }
}

/// A `modelUri` is passed through unchanged: building it twice is building
/// it once.
pub proof fn model_uri_idempotent(folder_id: Seq<char>, model: Seq<char>)
    ensures
        model_uri_for(folder_id, model_uri_for(folder_id, model)) == model_uri_for(
            folder_id,
            model,
        ),
{
    reveal_strlit("gpt://");
    reveal_strlit("ds://");
    reveal_strlit("/");
    let m = trimmed(model);
    let u = model_uri_for(folder_id, model);
    lemma_trimmed_idempotent(model);
    lemma_trimmed_edges(model);
    if !(has_prefix(m, "gpt://"@) || has_prefix(m, "ds://"@)) {
        let g = "gpt://"@ + folder_id + "/"@;
        assert(u == g + m);
        assert(u[0] == 'g');
        if m.len() > 0 {
            assert(u.last() == m.last());
        } else {
            assert(u.last() == '/');
        }
        lemma_trimmed_fixed(u);
        assert(u.subrange(0, 6) =~= "gpt://"@);
    }
}

/// The number that the decimal digits `s` spell.
pub open spec fn digits_value(s: Seq<char>) -> int
    decreases s.len(),
{
    if s.len() == 0 {
        0
    } else {
        digits_value(s.drop_last()) * 10 + ((s.last() as int) - 48)
    }
}

/// `decimal(n)` is a non-empty run of decimal digits that spells `n`.
pub proof fn decimal_value(n: nat)
    ensures
        decimal(n).len() > 0,
        forall|i: int| 0 <= i < decimal(n).len() ==> '0' <= #[trigger] decimal(n)[i] && decimal(n)[i] <= '9',
        digits_value(decimal(n)) == n,
    decreases n,
{
    assert((digit_char(n % 10) as int) == (n % 10) + 48);
    if n < 10 {
        assert(decimal(n).drop_last() =~= Seq::<char>::empty());
        assert((digit_char(n) as int) == n + 48);
        assert(decimal(n).last() == digit_char(n));
        assert(digits_value(decimal(n).drop_last()) == 0);
        assert(digits_value(decimal(n)) == 0 * 10 + ((digit_char(n) as int) - 48));
    } else {
        decimal_value(n / 10);
        assert((n / 10) * 10 + n % 10 == n);
        assert(decimal(n).last() == digit_char(n % 10));
        let dn = decimal(n);
        assert(dn.drop_last() =~= decimal(n / 10));
        assert(dn.len() > 0);
        assert(digits_value(dn) == digits_value(dn.drop_last()) * 10 + ((dn.last() as int) - 48));
        assert(digits_value(dn.drop_last()) == n / 10);
        assert(decimal(n).drop_last() =~= decimal(n / 10));
        assert forall|i: int| 0 <= i < decimal(n).len() implies '0' <= #[trigger] decimal(n)[i]
            && decimal(n)[i] <= '9' by {
            if i < decimal(n / 10).len() {
                assert(decimal(n)[i] == decimal(n / 10)[i]);
            }
        }
    }
}

/// The start of an OpenAI-compatible body, up to the prompt.
pub open spec fn compat_head(max_tokens: nat) -> Seq<char> {
    "{\"max_tokens\":"@ + decimal(max_tokens) + ",\"messages\":[{\"content\":"@
}

/// The end of an OpenAI-compatible body, after the prompt.
pub open spec fn compat_tail(model: Seq<char>) -> Seq<char> {
    ",\"role\":\"user\"}],\"model\":"@ + json_quoted(model) + ",\"stream\":false}"@
}

/// An OpenAI-compatible body carries the prompt as given: its single user
/// message's `content` is a JSON string that stands for exactly the prompt,
/// `max_tokens` spells the limit, and the model follows as a JSON string.
pub proof fn compat_body_carries_prompt(model: Seq<char>, prompt: Seq<char>, max_tokens: nat)
    ensures
        ({
            let body = compat_body_text(model, prompt, max_tokens);
            let h = compat_head(max_tokens).len() as int;
            let q = json_quoted(prompt).len() as int;
            let d = decimal(max_tokens).len() as int;
            &&& body == compat_head(max_tokens) + json_quoted(prompt) + compat_tail(model)
            &&& json_string_value(body.subrange(h, h + q)) == prompt
            &&& digits_value(body.subrange(14, 14 + d)) == max_tokens
            &&& json_string_value(
                body.subrange(body.len() - 16 - json_quoted(model).len(), body.len() - 16),
            ) == model
        }),
{
    reveal_strlit("{\"max_tokens\":");
    reveal_strlit(",\"stream\":false}");
    let body = compat_body_text(model, prompt, max_tokens);
    let h = compat_head(max_tokens).len() as int;
    let q = json_quoted(prompt).len() as int;
    let d = decimal(max_tokens).len() as int;
    assert(body =~= compat_head(max_tokens) + json_quoted(prompt) + compat_tail(model));
    assert(body.subrange(h, h + q) =~= json_quoted(prompt));
    json_quoted_value(prompt);
    assert(body.subrange(14, 14 + d) =~= decimal(max_tokens));
    decimal_value(max_tokens);
    let m = json_quoted(model).len() as int;
    assert(body.subrange(body.len() - 16 - m, body.len() - 16) =~= json_quoted(model));
    json_quoted_value(model);
}

/// Different prompts give different OpenAI-compatible bodies (for the same
/// model and limit): the prompt reaches the body unchanged.
pub proof fn compat_body_distinguishes_prompts(
    model: Seq<char>,
    prompt1: Seq<char>,
    prompt2: Seq<char>,
    max_tokens: nat,
)
    requires
        compat_body_text(model, prompt1, max_tokens) == compat_body_text(
            model,
            prompt2,
            max_tokens,
        ),
    ensures
        prompt1 == prompt2,
{
    compat_body_carries_prompt(model, prompt1, max_tokens);
    compat_body_carries_prompt(model, prompt2, max_tokens);
    let body = compat_body_text(model, prompt1, max_tokens);
    let h = compat_head(max_tokens).len() as int;
    let t = compat_tail(model).len() as int;
    assert(json_quoted(prompt1) =~= body.subrange(h, body.len() - t));
    assert(json_quoted(prompt2) =~= body.subrange(h, body.len() - t));
    json_quoted_injective(prompt1, prompt2);
}

/// Different models give different OpenAI-compatible bodies (for the same
/// prompt and limit).
pub proof fn compat_body_distinguishes_models(
    model1: Seq<char>,
    model2: Seq<char>,
    prompt: Seq<char>,
    max_tokens: nat,
)
    requires
        compat_body_text(model1, prompt, max_tokens) == compat_body_text(
            model2,
            prompt,
            max_tokens,
        ),
    ensures
        model1 == model2,
{
    reveal_strlit(",\"role\":\"user\"}],\"model\":");
    reveal_strlit(",\"stream\":false}");
    compat_body_carries_prompt(model1, prompt, max_tokens);
    compat_body_carries_prompt(model2, prompt, max_tokens);
    let body = compat_body_text(model1, prompt, max_tokens);
    let front = compat_head(max_tokens) + json_quoted(prompt) + ",\"role\":\"user\"}],\"model\":"@;
    let k = front.len() as int;
    assert(body =~= front + json_quoted(model1) + ",\"stream\":false}"@);
    assert(compat_body_text(model2, prompt, max_tokens) =~= front + json_quoted(model2)
        + ",\"stream\":false}"@);
    assert(json_quoted(model1) =~= body.subrange(k, body.len() - 16));
    assert(json_quoted(model2) =~= body.subrange(k, body.len() - 16));
    json_quoted_injective(model1, model2);
}

/// The start of a Yandex GPT body, up to the prompt.
pub open spec fn yandex_head(max_tokens: nat) -> Seq<char> {
    "{\"completionOptions\":{\"maxTokens\":"@ + decimal(max_tokens)
        + ",\"stream\":false,\"temperature\":0.3},\"messages\":[{\"role\":\"user\",\"text\":"@
}

/// The end of a Yandex GPT body, after the prompt.
pub open spec fn yandex_tail(model_uri: Seq<char>) -> Seq<char> {
    "}],\"modelUri\":"@ + json_quoted(model_uri) + "}"@
}

/// A Yandex GPT body carries the prompt as given: its single user message's
/// `text` is a JSON string that stands for exactly the prompt, `maxTokens`
/// spells the limit, and `modelUri` is a JSON string for the model URI.
pub proof fn yandex_body_carries_prompt(model_uri: Seq<char>, prompt: Seq<char>, max_tokens: nat)
    ensures
        ({
            let body = yandex_body_text(model_uri, prompt, max_tokens);
            let h = yandex_head(max_tokens).len() as int;
            let q = json_quoted(prompt).len() as int;
            let d = decimal(max_tokens).len() as int;
            &&& body == yandex_head(max_tokens) + json_quoted(prompt) + yandex_tail(model_uri)
            &&& json_string_value(body.subrange(h, h + q)) == prompt
            &&& digits_value(body.subrange(34, 34 + d)) == max_tokens
            &&& json_string_value(
                body.subrange(body.len() - 1 - json_quoted(model_uri).len(), body.len() - 1),
            ) == model_uri
        }),
{
    reveal_strlit("{\"completionOptions\":{\"maxTokens\":");
    reveal_strlit("}");
    let body = yandex_body_text(model_uri, prompt, max_tokens);
    let h = yandex_head(max_tokens).len() as int;
    let q = json_quoted(prompt).len() as int;
    let d = decimal(max_tokens).len() as int;
    assert(body =~= yandex_head(max_tokens) + json_quoted(prompt) + yandex_tail(model_uri));
    assert(body.subrange(h, h + q) =~= json_quoted(prompt));
    json_quoted_value(prompt);
    assert(body.subrange(34, 34 + d) =~= decimal(max_tokens));
    decimal_value(max_tokens);
    let m = json_quoted(model_uri).len() as int;
    assert(body.subrange(body.len() - 1 - m, body.len() - 1) =~= json_quoted(model_uri));
    json_quoted_value(model_uri);
}

/// Different prompts give different Yandex GPT bodies (for the same model
/// URI and limit): the prompt reaches the body unchanged.
pub proof fn yandex_body_distinguishes_prompts(
    model_uri: Seq<char>,
    prompt1: Seq<char>,
    prompt2: Seq<char>,
    max_tokens: nat,
)
    requires
        yandex_body_text(model_uri, prompt1, max_tokens) == yandex_body_text(
            model_uri,
            prompt2,
            max_tokens,
        ),
    ensures
        prompt1 == prompt2,
{
    yandex_body_carries_prompt(model_uri, prompt1, max_tokens);
    yandex_body_carries_prompt(model_uri, prompt2, max_tokens);
    let body = yandex_body_text(model_uri, prompt1, max_tokens);
    let h = yandex_head(max_tokens).len() as int;
    let t = yandex_tail(model_uri).len() as int;
    assert(json_quoted(prompt1) =~= body.subrange(h, body.len() - t));
    assert(json_quoted(prompt2) =~= body.subrange(h, body.len() - t));
    json_quoted_injective(prompt1, prompt2);
}

} // verus!

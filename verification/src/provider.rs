//! Model providers and their protocols: canonical names, environment
//! variable names, default endpoints and models, and the chat endpoint URL.
//!
//! Supported: `openai` (any OpenAI-compatible `/chat/completions`), `qwen`
//! (DashScope in compatible mode), `zen` (the OpenCode Zen gateway),
//! `gigachat` (OAuth2 client credentials, then `/chat/completions`) and
//! `yandexgpt` (the native `/foundationModels/v1/completion` scheme).

use vstd::prelude::*;
use crate::text::{
    ascii_lower, chars_equal, chars_of, opt_string, opt_text, lemma_lower_idempotent, lemma_lower_trimmed,
    lemma_trimmed_fixed, lemma_trimmed_idempotent, lower_ascii, string_from_chars,
    strip_trailing_slashes, trim, trim_end_slashes, trimmed,
};

verus! {

/// A model provider.
#[derive(Debug, Clone, Copy, PartialEq, Eq, Structural)]
pub enum Provider {
    Openai,
    Qwen,
    Zen,
    Gigachat,
    Yandexgpt,
}

/// Why a provider name was refused.
#[derive(Debug, Clone)]
pub enum ProviderError {
    /// The name, trimmed and lower-cased, names no provider.
    Unknown { name: String },
}

/// The form in which a provider name is matched: trimmed, ASCII lower case.
pub open spec fn normalized_name(s: Seq<char>) -> Seq<char> {
    ascii_lower(trimmed(s))
}

/// The provider that a normalized name denotes; `yandex` is an alias of `yandexgpt`.
pub open spec fn provider_for_name(n: Seq<char>) -> Option<Provider> {
    if n == "openai"@ {
        Some(Provider::Openai)
    } else if n == "qwen"@ {
        Some(Provider::Qwen)
    } else if n == "zen"@ {
        Some(Provider::Zen)
    } else if n == "gigachat"@ {
        Some(Provider::Gigachat)
    } else if n == "yandexgpt"@ || n == "yandex"@ {
        Some(Provider::Yandexgpt)
    } else {
        None
    }
}

/// The canonical name of a provider.
pub open spec fn provider_name(p: Provider) -> Seq<char> {
    match p {
        Provider::Openai => "openai"@,
        Provider::Qwen => "qwen"@,
        Provider::Zen => "zen"@,
        Provider::Gigachat => "gigachat"@,
        Provider::Yandexgpt => "yandexgpt"@,
    }
}

/// The upper-case prefix of a provider's environment variables.
pub open spec fn provider_env_prefix(p: Provider) -> Seq<char> {
    match p {
        Provider::Openai => "OPENAI"@,
        Provider::Qwen => "DASHSCOPE"@,
        Provider::Zen => "ZEN"@,
        Provider::Gigachat => "GIGACHAT"@,
        Provider::Yandexgpt => "YANDEX"@,
    }
}

/// The environment variable that holds a provider's main secret, if it has one.
pub open spec fn provider_key_env(p: Provider) -> Option<Seq<char>> {
    match p {
        Provider::Openai => Some("OPENAI_API_KEY"@),
        Provider::Qwen => Some("DASHSCOPE_API_KEY"@),
        Provider::Zen => Some("OPENCODE_API_KEY"@),
        Provider::Gigachat => None,
        Provider::Yandexgpt => Some("YANDEX_API_KEY"@),
    }
}

/// A provider's default base URL.
pub open spec fn provider_default_base_url(p: Provider) -> Seq<char> {
    match p {
        Provider::Openai => "https://api.openai.com/v1"@,
        Provider::Qwen => "https://dashscope.aliyuncs.com/compatible-mode/v1"@,
        Provider::Zen => "https://opencode.ai/zen/v1"@,
        Provider::Gigachat => "https://gigachat.devices.sberbank.ru/api/v1"@,
        Provider::Yandexgpt => "https://llm.api.cloud.yandex.net/foundationModels"@,
    }
}

/// A provider's default model.
pub open spec fn provider_default_model(p: Provider) -> Seq<char> {
    match p {
        Provider::Openai => "gpt-4o-mini"@,
        Provider::Qwen => "qwen-plus"@,
        Provider::Zen => "mimo-v2.5-free"@,
        Provider::Gigachat => "GigaChat-Max"@,
        Provider::Yandexgpt => "yandexgpt/latest"@,
    }
}

/// The path that a provider's chat endpoint adds to the base URL.
pub open spec fn chat_path(p: Provider) -> Seq<char> {
    match p {
        Provider::Yandexgpt => "/v1/completion"@,
        _ => "/chat/completions"@,
    }
}

/// The chat endpoint of provider `p` under `base_url`: the base without its
/// trailing slashes, then the provider's chat path.
pub open spec fn chat_url_for(p: Provider, base_url: Seq<char>) -> Seq<char> {
    trim_end_slashes(base_url) + chat_path(p)
}

/// The names of the environment variables that a provider's settings are
/// read from: `<PREFIX>_BASE_URL`, the key variable (`key_env`),
/// `<PREFIX>_MODEL`, `<PREFIX>_CLIENT_ID`, `<PREFIX>_CLIENT_SECRET` and
/// `<PREFIX>_FOLDER_ID`, with `<PREFIX>` from `env_prefix`.
#[derive(Debug, Clone)]
pub struct EnvNames {
    pub base_url: String,
    pub api_key: Option<String>,
    pub model: String,
    pub client_id: String,
    pub client_secret: String,
    pub folder_id: String,
}

/// The environment variable that names the provider when no argument does.
pub const PROVIDER_ENV: &'static str = "PROVIDER";

/// The provider name used when neither the argument nor `PROVIDER` gives one.
pub open spec fn chosen_provider_name(cli: Option<Seq<char>>, env: Option<Seq<char>>) -> Seq<char> {
    match cli {
        Some(v) => v,
        None => match env {
            Some(v) => v,
            None => "openai"@,
        },
    }
}

/// The providers in declaration order.
pub open spec fn provider_at(i: int) -> Provider {
    if i == 0 {
        Provider::Openai
    } else if i == 1 {
        Provider::Qwen
    } else if i == 2 {
        Provider::Zen
    } else if i == 3 {
        Provider::Gigachat
    } else {
        Provider::Yandexgpt
    }
}

impl Provider {
    /// The accepted provider names (for reference): the canonical names, in
    /// declaration order.
    pub const NAMES: [&'static str; 5] = ["openai", "qwen", "zen", "gigachat", "yandexgpt"];

    /// Parses a provider name, ignoring surrounding whitespace and ASCII case.
    pub fn parse(name: &str) -> (r: Result<Provider, ProviderError>)
        ensures
            match r {
                Ok(p) => provider_for_name(normalized_name(name@)) == Some(p),
                Err(ProviderError::Unknown { name: other }) => {
                    &&& provider_for_name(normalized_name(name@)) is None
                    &&& other@ == normalized_name(name@)
                },
            },
    {
        let t = trim(name);
        let tv = chars_of(t.as_str());
        let low = lower_ascii(&tv);
        if chars_equal(&low, "openai") {
            Ok(Provider::Openai)
        } else if chars_equal(&low, "qwen") {
            Ok(Provider::Qwen)
        } else if chars_equal(&low, "zen") {
            Ok(Provider::Zen)
        } else if chars_equal(&low, "gigachat") {
            Ok(Provider::Gigachat)
        } else if chars_equal(&low, "yandexgpt") || chars_equal(&low, "yandex") {
            Ok(Provider::Yandexgpt)
        } else {
            let other = string_from_chars(&low, 0, low.len());
            assert(low@.subrange(0, low@.len() as int) =~= low@);
            Err(ProviderError::Unknown { name: other })
        }
    }

    /// The canonical name.
    pub fn name(self) -> (r: &'static str)
        ensures
            r@ == provider_name(self),
    {
        match self {
            Provider::Openai => "openai",
            Provider::Qwen => "qwen",
            Provider::Zen => "zen",
            Provider::Gigachat => "gigachat",
            Provider::Yandexgpt => "yandexgpt",
        }
    }

    /// The upper-case prefix for environment variables.
    pub fn env_prefix(self) -> (r: &'static str)
        ensures
            r@ == provider_env_prefix(self),
    {
        match self {
            Provider::Openai => "OPENAI",
            Provider::Qwen => "DASHSCOPE",
            Provider::Zen => "ZEN",
            Provider::Gigachat => "GIGACHAT",
            Provider::Yandexgpt => "YANDEX",
        }
    }

    /// The environment variable of the main secret (GigaChat has none).
    pub fn key_env(self) -> (r: Option<&'static str>)
        ensures
            match (r, provider_key_env(self)) {
                (Some(k), Some(e)) => k@ == e,
                (None, None) => true,
                _ => false,
            },
    {
        match self {
            Provider::Openai => Some("OPENAI_API_KEY"),
            Provider::Qwen => Some("DASHSCOPE_API_KEY"),
            Provider::Zen => Some("OPENCODE_API_KEY"),
            Provider::Gigachat => None,
            Provider::Yandexgpt => Some("YANDEX_API_KEY"),
        }
    }

    /// The default base URL.
    pub fn default_base_url(self) -> (r: &'static str)
        ensures
            r@ == provider_default_base_url(self),
    {
        match self {
            Provider::Openai => "https://api.openai.com/v1",
            Provider::Qwen => "https://dashscope.aliyuncs.com/compatible-mode/v1",
            Provider::Zen => "https://opencode.ai/zen/v1",
            Provider::Gigachat => "https://gigachat.devices.sberbank.ru/api/v1",
            Provider::Yandexgpt => "https://llm.api.cloud.yandex.net/foundationModels",
        }
    }

    /// The default model.
    pub fn default_model(self) -> (r: &'static str)
        ensures
            r@ == provider_default_model(self),
    {
        match self {
            Provider::Openai => "gpt-4o-mini",
            Provider::Qwen => "qwen-plus",
            Provider::Zen => "mimo-v2.5-free",
            Provider::Gigachat => "GigaChat-Max",
            Provider::Yandexgpt => "yandexgpt/latest",
        }
    }

    /// Chooses the provider: the argument if given, else the value of
    /// `PROVIDER`, else `openai`; the chosen name is parsed as `parse` does.
    pub fn select(cli: Option<&str>, env: Option<&str>) -> (r: Result<Provider, ProviderError>)
        ensures
            match r {
                Ok(p) => provider_for_name(
                    normalized_name(chosen_provider_name(opt_text(cli), opt_text(env))),
                ) == Some(p),
                Err(ProviderError::Unknown { name: other }) => {
                    &&& provider_for_name(
                        normalized_name(chosen_provider_name(opt_text(cli), opt_text(env))),
                    ) is None
                    &&& other@ == normalized_name(chosen_provider_name(opt_text(cli), opt_text(env)))
                },
            },
    {
        match cli {
            Some(n) => Provider::parse(n),
            None => match env {
                Some(n) => Provider::parse(n),
                None => Provider::parse("openai"),
            },
        }
    }

    /// The environment variables this provider's settings are read from.
    pub fn env_names(self) -> (r: EnvNames)
        ensures
            r.base_url@ == provider_env_prefix(self) + "_BASE_URL"@,
            opt_string(r.api_key) == provider_key_env(self),
            r.model@ == provider_env_prefix(self) + "_MODEL"@,
            r.client_id@ == provider_env_prefix(self) + "_CLIENT_ID"@,
            r.client_secret@ == provider_env_prefix(self) + "_CLIENT_SECRET"@,
            r.folder_id@ == provider_env_prefix(self) + "_FOLDER_ID"@,
    {
        let prefix = self.env_prefix();
        EnvNames {
            base_url: String::from_str(prefix).concat("_BASE_URL"),
            api_key: match self.key_env() {
                Some(k) => Some(String::from_str(k)),
                None => None,
            },
            model: String::from_str(prefix).concat("_MODEL"),
            client_id: String::from_str(prefix).concat("_CLIENT_ID"),
            client_secret: String::from_str(prefix).concat("_CLIENT_SECRET"),
            folder_id: String::from_str(prefix).concat("_FOLDER_ID"),
        }
    }

    /// The URL of the chat endpoint under `base_url`.
    pub fn chat_url(self, base_url: &str) -> (r: String)
        ensures
            r@ == chat_url_for(self, base_url@),
    {
        let base = strip_trailing_slashes(base_url);
        match self {
            Provider::Yandexgpt => base.concat("/v1/completion"),
            _ => base.concat("/chat/completions"),
        }
    }
}

/// A name with no whitespace at its ends and no ASCII upper-case letter is
/// its own normalized form.
proof fn lemma_plain_name_normalized(n: Seq<char>)
    requires
        n.len() > 0,
        forall|i: int| 0 <= i < n.len() ==> 'a' <= #[trigger] n[i] && n[i] <= 'z',
    ensures
        normalized_name(n) == n,
{
    lemma_trimmed_fixed(n);
    assert(ascii_lower(n) =~= n);
}

/// Parsing the canonical name of a provider gives that provider back.
pub proof fn parse_name_roundtrip(p: Provider)
    ensures
        provider_for_name(normalized_name(provider_name(p))) == Some(p),
{
    reveal_strlit("openai");
    reveal_strlit("qwen");
    reveal_strlit("zen");
    reveal_strlit("gigachat");
    reveal_strlit("yandexgpt");
    reveal_strlit("yandex");
    lemma_plain_name_normalized(provider_name(p));
}

/// `NAMES` lists the canonical names in declaration order, so each entry
/// parses to the provider it names.
pub proof fn names_are_canonical()
    ensures
        Provider::NAMES@.len() == 5,
        forall|i: int| 0 <= i < 5 ==> (#[trigger] Provider::NAMES@[i])@ == provider_name(provider_at(i)),
        forall|i: int|
            0 <= i < 5 ==> provider_for_name(normalized_name((#[trigger] Provider::NAMES@[i])@))
                == Some(provider_at(i)),
{
    assert forall|i: int| 0 <= i < 5 implies (#[trigger] Provider::NAMES@[i])@ == provider_name(
        provider_at(i),
    ) by {
        assert(Provider::NAMES@[0] == "openai");
        assert(Provider::NAMES@[1] == "qwen");
        assert(Provider::NAMES@[2] == "zen");
        assert(Provider::NAMES@[3] == "gigachat");
        assert(Provider::NAMES@[4] == "yandexgpt");
    }
    assert forall|i: int|
        0 <= i < 5 implies provider_for_name(normalized_name((#[trigger] Provider::NAMES@[i])@))
        == Some(provider_at(i)) by {
        parse_name_roundtrip(provider_at(i));
        assert(Provider::NAMES@[i]@ == provider_name(provider_at(i)));
    }
}

/// Names that differ only in the case of ASCII letters parse alike.
pub proof fn parse_ignores_ascii_case(s: Seq<char>, t: Seq<char>)
    requires
        ascii_lower(s) == ascii_lower(t),
    ensures
        normalized_name(s) == normalized_name(t),
{
    lemma_lower_trimmed(s);
    lemma_lower_trimmed(t);
}

/// A name parses as its normalized form does (so the name an error reports
/// is refused again).
pub proof fn parse_normalized_name(s: Seq<char>)
    ensures
        normalized_name(normalized_name(s)) == normalized_name(s),
{
    let u = trimmed(s);
    lemma_lower_trimmed(u);
    lemma_lower_idempotent(trimmed(u));
    lemma_trimmed_idempotent(s);
}

/// A trailing slash on the base URL does not change the chat URL.
pub proof fn chat_url_ignores_trailing_slash(p: Provider, base_url: Seq<char>)
    ensures
        chat_url_for(p, base_url.push('/')) == chat_url_for(p, base_url),
{
    assert(base_url.push('/').drop_last() =~= base_url);
}

/// On a base URL that does not end with `/`, the chat URL is the base URL
/// followed by the provider's chat path.
pub proof fn chat_url_appends_path(p: Provider, base_url: Seq<char>)
    requires
        base_url.len() > 0 ==> base_url.last() != '/',
    ensures
        chat_url_for(p, base_url) == base_url + chat_path(p),
{
}

proof fn lemma_no_trailing_slash(s: Seq<char>)
    requires
        s.len() > 0,
        s.last() != '/',
    ensures
        trim_end_slashes(s) == s,
{
}

/// The default base URLs lead to the documented chat endpoints: the OpenAI
/// API, DashScope's compatible mode, the OpenCode Zen gateway, GigaChat's
/// API and Yandex's foundation models.
pub proof fn default_chat_endpoints()
    ensures
        chat_url_for(Provider::Openai, provider_default_base_url(Provider::Openai))
            == "https://api.openai.com/v1/chat/completions"@,
        chat_url_for(Provider::Qwen, provider_default_base_url(Provider::Qwen))
            == "https://dashscope.aliyuncs.com/compatible-mode/v1/chat/completions"@,
        chat_url_for(Provider::Zen, provider_default_base_url(Provider::Zen))
            == "https://opencode.ai/zen/v1/chat/completions"@,
        chat_url_for(Provider::Gigachat, provider_default_base_url(Provider::Gigachat))
            == "https://gigachat.devices.sberbank.ru/api/v1/chat/completions"@,
        chat_url_for(Provider::Yandexgpt, provider_default_base_url(Provider::Yandexgpt))
            == "https://llm.api.cloud.yandex.net/foundationModels/v1/completion"@,
{
    reveal_strlit("https://api.openai.com/v1");
    reveal_strlit("https://dashscope.aliyuncs.com/compatible-mode/v1");
    reveal_strlit("https://opencode.ai/zen/v1");
    reveal_strlit("https://gigachat.devices.sberbank.ru/api/v1");
    reveal_strlit("https://llm.api.cloud.yandex.net/foundationModels");
    reveal_strlit("/chat/completions");
    reveal_strlit("/v1/completion");
    reveal_strlit("https://api.openai.com/v1/chat/completions");
    reveal_strlit("https://dashscope.aliyuncs.com/compatible-mode/v1/chat/completions");
    reveal_strlit("https://opencode.ai/zen/v1/chat/completions");
    reveal_strlit("https://gigachat.devices.sberbank.ru/api/v1/chat/completions");
    reveal_strlit("https://llm.api.cloud.yandex.net/foundationModels/v1/completion");
    lemma_no_trailing_slash("https://api.openai.com/v1"@);
    lemma_no_trailing_slash("https://dashscope.aliyuncs.com/compatible-mode/v1"@);
    lemma_no_trailing_slash("https://opencode.ai/zen/v1"@);
    lemma_no_trailing_slash("https://gigachat.devices.sberbank.ru/api/v1"@);
    lemma_no_trailing_slash("https://llm.api.cloud.yandex.net/foundationModels"@);
    assert("https://api.openai.com/v1"@ + "/chat/completions"@
        =~= "https://api.openai.com/v1/chat/completions"@);
    assert("https://dashscope.aliyuncs.com/compatible-mode/v1"@ + "/chat/completions"@
        =~= "https://dashscope.aliyuncs.com/compatible-mode/v1/chat/completions"@);
    assert("https://opencode.ai/zen/v1"@ + "/chat/completions"@
        =~= "https://opencode.ai/zen/v1/chat/completions"@);
    assert("https://gigachat.devices.sberbank.ru/api/v1"@ + "/chat/completions"@
        =~= "https://gigachat.devices.sberbank.ru/api/v1/chat/completions"@);
    assert("https://llm.api.cloud.yandex.net/foundationModels"@ + "/v1/completion"@
        =~= "https://llm.api.cloud.yandex.net/foundationModels/v1/completion"@);
}

/// The environment prefix of a provider is its canonical name in upper case,
/// except for Qwen, whose variables are DashScope's, and Yandex GPT, whose
/// prefix is the company name at the start of its canonical name.
pub proof fn env_prefix_follows_name(p: Provider)
    ensures
        p != Provider::Qwen && p != Provider::Yandexgpt ==> ascii_lower(provider_env_prefix(p))
            == provider_name(p),
        p == Provider::Yandexgpt ==> provider_name(p).subrange(
            0,
            provider_env_prefix(p).len() as int,
        ) == ascii_lower(provider_env_prefix(p)),
        p == Provider::Qwen ==> ascii_lower(provider_env_prefix(p)) == "dashscope"@,
{
    reveal_strlit("OPENAI");
    reveal_strlit("DASHSCOPE");
    reveal_strlit("ZEN");
    reveal_strlit("GIGACHAT");
    reveal_strlit("YANDEX");
    reveal_strlit("openai");
    reveal_strlit("dashscope");
    reveal_strlit("zen");
    reveal_strlit("gigachat");
    reveal_strlit("yandexgpt");
    match p {
        Provider::Openai => assert(ascii_lower("OPENAI"@) =~= "openai"@),
        Provider::Qwen => assert(ascii_lower("DASHSCOPE"@) =~= "dashscope"@),
        Provider::Zen => assert(ascii_lower("ZEN"@) =~= "zen"@),
        Provider::Gigachat => assert(ascii_lower("GIGACHAT"@) =~= "gigachat"@),
        Provider::Yandexgpt => assert(ascii_lower("YANDEX"@) =~= "yandexgpt"@.subrange(0, 6)),
    }
}

/// The key variable is `<PREFIX>_API_KEY`, except for Zen, whose key is the
/// OpenCode key, and GigaChat, which has none; OpenAI's variables are
/// `OPENAI_BASE_URL`, `OPENAI_API_KEY` and `OPENAI_MODEL`.
pub proof fn key_env_follows_prefix(p: Provider)
    ensures
        p != Provider::Zen && p != Provider::Gigachat ==> provider_key_env(p) == Some(
            provider_env_prefix(p) + "_API_KEY"@,
        ),
        p == Provider::Zen ==> provider_key_env(p) == Some("OPENCODE_API_KEY"@),
        p == Provider::Gigachat ==> provider_key_env(p) is None,
        provider_env_prefix(Provider::Openai) + "_BASE_URL"@ == "OPENAI_BASE_URL"@,
        provider_env_prefix(Provider::Openai) + "_MODEL"@ == "OPENAI_MODEL"@,
{
    reveal_strlit("OPENAI");
    reveal_strlit("DASHSCOPE");
    reveal_strlit("YANDEX");
    reveal_strlit("_API_KEY");
    reveal_strlit("_BASE_URL");
    reveal_strlit("_MODEL");
    reveal_strlit("OPENAI_API_KEY");
    reveal_strlit("DASHSCOPE_API_KEY");
    reveal_strlit("YANDEX_API_KEY");
    reveal_strlit("OPENAI_BASE_URL");
    reveal_strlit("OPENAI_MODEL");
    assert("OPENAI"@ + "_API_KEY"@ =~= "OPENAI_API_KEY"@);
    assert("DASHSCOPE"@ + "_API_KEY"@ =~= "DASHSCOPE_API_KEY"@);
    assert("YANDEX"@ + "_API_KEY"@ =~= "YANDEX_API_KEY"@);
    assert("OPENAI"@ + "_BASE_URL"@ =~= "OPENAI_BASE_URL"@);
    assert("OPENAI"@ + "_MODEL"@ =~= "OPENAI_MODEL"@);
}

/// The default models: OpenAI's `gpt-4o-mini`, Qwen's `qwen-plus`, Zen's
/// free `mimo-v2.5-free`, `GigaChat-Max`, and Yandex GPT's latest
/// `yandexgpt` as a `<model>/<version>` path.
pub proof fn default_models()
    ensures
        provider_default_model(Provider::Openai) == "gpt-4o-mini"@,
        provider_default_model(Provider::Qwen) == "qwen-plus"@,
        provider_default_model(Provider::Zen) == "mimo-v2.5-free"@,
        provider_default_model(Provider::Gigachat) == "GigaChat-Max"@,
        provider_default_model(Provider::Yandexgpt) == provider_name(Provider::Yandexgpt)
            + "/latest"@,
{
    reveal_strlit("yandexgpt");
    reveal_strlit("/latest");
    reveal_strlit("yandexgpt/latest");
    assert("yandexgpt"@ + "/latest"@ =~= "yandexgpt/latest"@);
}

} // verus!

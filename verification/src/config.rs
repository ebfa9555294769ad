//! Access settings for an OpenAI-compatible API.
//!
//! Priority: command-line arguments, then environment variables, then the
//! defaults.

use vstd::prelude::*;
use crate::api::ChatSettings;
use crate::provider::{
    chat_url_appends_path, chat_url_for, provider_default_base_url, provider_default_model,
    Provider,
};
use crate::text::{
    lemma_trim_end_slashes_shape, opt_string, opt_text, strip_trailing_slashes, trim,
    trim_end_slashes, trimmed,
};

verus! {

/// Access settings for a provider.
#[derive(Debug, Clone)]
pub struct Config {
    pub base_url: String,
    pub api_key: String,
    pub model: String,
}

/// Why no configuration could be assembled.
#[derive(Debug, Clone, Copy, PartialEq, Eq, Structural)]
pub enum ConfigError {
    /// Neither `--api-key` nor `OPENAI_API_KEY` was given.
    MissingApiKey,
    /// The API key is empty once surrounding whitespace is removed.
    EmptyApiKey,
}

/// The base URL used when none is given.
pub open spec fn default_base_url() -> Seq<char> {
    "https://api.openai.com/v1"@
}

/// The model used when none is given.
pub open spec fn default_model() -> Seq<char> {
    "gpt-4o-mini"@
}

/// The first of a command-line value and an environment value that is present.
pub open spec fn first_given(cli: Option<Seq<char>>, env: Option<Seq<char>>) -> Option<Seq<char>> {
    match cli {
        Some(v) => Some(v),
        None => env,
    }
}

/// The base URL that `Config::load` settles on: the given or default one,
/// without trailing slashes.
pub open spec fn resolved_base_url(cli: Option<Seq<char>>, env: Option<Seq<char>>) -> Seq<char> {
    trim_end_slashes(
        match first_given(cli, env) {
            Some(v) => v,
            None => default_base_url(),
        },
    )
}

/// The model that `Config::load` settles on.
pub open spec fn resolved_model(cli: Option<Seq<char>>, env: Option<Seq<char>>) -> Seq<char> {
    match first_given(cli, env) {
        Some(v) => v,
        None => default_model(),
    }
}

/// The URL of the `/chat/completions` endpoint under `base_url`.
pub open spec fn config_chat_url(base_url: Seq<char>) -> Seq<char> {
    base_url + "/chat/completions"@
}

/// Picks the command-line value if there is one, else the environment value.
fn pick<'a>(cli: Option<&'a str>, env: Option<&'a str>) -> (r: Option<&'a str>)
    ensures
        opt_text(r) == first_given(opt_text(cli), opt_text(env)),
{
    match cli {
        Some(v) => Some(v),
        None => env,
    }
}

impl Config {
    /// Assembles the configuration from command-line values and the values
    /// of `OPENAI_BASE_URL`, `OPENAI_API_KEY` and `OPENAI_MODEL`.
    pub fn load(
        base_url: Option<&str>,
        api_key: Option<&str>,
        model: Option<&str>,
        env_base_url: Option<&str>,
        env_api_key: Option<&str>,
        env_model: Option<&str>,
    ) -> (r: Result<Config, ConfigError>)
        ensures
            match first_given(opt_text(api_key), opt_text(env_api_key)) {
                None => r == Err::<Config, ConfigError>(ConfigError::MissingApiKey),
                Some(k) => if trimmed(k).len() == 0 {
                    r == Err::<Config, ConfigError>(ConfigError::EmptyApiKey)
                } else {
                    &&& r is Ok
                    &&& r->Ok_0.base_url@ == resolved_base_url(opt_text(base_url), opt_text(env_base_url))
                    &&& r->Ok_0.api_key@ == trimmed(k)
                    &&& r->Ok_0.model@ == resolved_model(opt_text(model), opt_text(env_model))
                },
            },
    {
        let base = match pick(base_url, env_base_url) {
            Some(v) => strip_trailing_slashes(v),
            None => strip_trailing_slashes("https://api.openai.com/v1"),
        };
        let key = match pick(api_key, env_api_key) {
            Some(k) => trim(k),
            None => {
                return Err(ConfigError::MissingApiKey);
            },
        };
        if key.as_str().unicode_len() == 0 {
            return Err(ConfigError::EmptyApiKey);
        }
        let model = match pick(model, env_model) {
            Some(m) => String::from_str(m),
            None => String::from_str("gpt-4o-mini"),
        };
        Ok(Config { base_url: base, api_key: key, model })
    }

    /// The URL of the `/chat/completions` endpoint.
    pub fn chat_url(&self) -> (r: String)
        ensures
            r@ == config_chat_url(self.base_url@),
    {
        self.base_url.clone().concat("/chat/completions")
    }
}

/// The base URL of a loaded configuration never ends with `/`.
pub proof fn loaded_base_url_has_no_trailing_slash(cli: Option<Seq<char>>, env: Option<Seq<char>>)
    ensures
        resolved_base_url(cli, env).len() > 0 ==> resolved_base_url(cli, env).last() != '/',
{
    lemma_trim_end_slashes_shape(
        match first_given(cli, env) {
            Some(v) => v,
            None => default_base_url(),
        },
    );
}

/// The chat URL of a loaded configuration is the one the `openai` provider
/// builds from its base URL.
pub proof fn config_chat_url_is_openai_chat_url(cli: Option<Seq<char>>, env: Option<Seq<char>>)
    ensures
        config_chat_url(resolved_base_url(cli, env)) == chat_url_for(
            Provider::Openai,
            resolved_base_url(cli, env),
        ),
{
    loaded_base_url_has_no_trailing_slash(cli, env);
    chat_url_appends_path(Provider::Openai, resolved_base_url(cli, env));
}

/// The command-line values that chat settings are made from.
#[derive(Debug, Clone)]
pub struct CliValues {
    pub base_url: Option<String>,
    pub api_key: Option<String>,
    pub model: Option<String>,
    pub client_id: Option<String>,
    pub client_secret: Option<String>,
    pub folder_id: Option<String>,
    pub iam_token: bool,
    pub max_tokens: u32,
}

/// The values of the environment variables that `Provider::env_names`
/// names (absent when unset).
#[derive(Debug, Clone)]
pub struct EnvValues {
    pub base_url: Option<String>,
    pub api_key: Option<String>,
    pub model: Option<String>,
    pub client_id: Option<String>,
    pub client_secret: Option<String>,
    pub folder_id: Option<String>,
}

/// The value given first, on the command line or in the environment.
fn pick_string(cli: &Option<String>, env: &Option<String>) -> (r: Option<String>)
    ensures
        opt_string(r) == first_given(opt_string(*cli), opt_string(*env)),
{
    match cli {
        Some(v) => Some(v.clone()),
        None => match env {
            Some(v) => Some(v.clone()),
            None => None,
        },
    }
}

/// The outcome `resolve_settings` owes: the base URL and the model fall back
/// to the provider's defaults, the base URL loses its trailing slashes, a
/// given key is trimmed and must not be blank, the other values are taken
/// as given; the command line comes before the environment.
pub open spec fn settings_outcome(
    provider: Provider,
    cli: CliValues,
    env: EnvValues,
    r: Result<ChatSettings, ConfigError>,
) -> bool {
    let key = first_given(opt_string(cli.api_key), opt_string(env.api_key));
    if key matches Some(k) && trimmed(k).len() == 0 {
        r == Err::<ChatSettings, ConfigError>(ConfigError::EmptyApiKey)
    } else {
        r matches Ok(s) && {
            &&& s.provider == provider
            &&& s.base_url@ == trim_end_slashes(
                match first_given(opt_string(cli.base_url), opt_string(env.base_url)) {
                    Some(v) => v,
                    None => provider_default_base_url(provider),
                },
            )
            &&& opt_string(s.api_key) == match key {
                Some(k) => Some(trimmed(k)),
                None => None,
            }
            &&& s.model@ == match first_given(opt_string(cli.model), opt_string(env.model)) {
                Some(v) => v,
                None => provider_default_model(provider),
            }
            &&& opt_string(s.client_id) == first_given(
                opt_string(cli.client_id),
                opt_string(env.client_id),
            )
            &&& opt_string(s.client_secret) == first_given(
                opt_string(cli.client_secret),
                opt_string(env.client_secret),
            )
            &&& opt_string(s.folder_id) == first_given(
                opt_string(cli.folder_id),
                opt_string(env.folder_id),
            )
            &&& s.iam_token == cli.iam_token
            &&& s.max_tokens == cli.max_tokens
        }
    }
}

/// Assembles the chat settings of `provider` from command-line values and
/// the values of its environment variables.
pub fn resolve_settings(provider: Provider, cli: &CliValues, env: &EnvValues) -> (r: Result<
    ChatSettings,
    ConfigError,
>)
    ensures
        settings_outcome(provider, *cli, *env, r),
{
    let base_url = match pick_string(&cli.base_url, &env.base_url) {
        Some(v) => strip_trailing_slashes(v.as_str()),
        None => strip_trailing_slashes(provider.default_base_url()),
    };
    let api_key = match pick_string(&cli.api_key, &env.api_key) {
        Some(k) => {
            let t = trim(k.as_str());
            if t.as_str().unicode_len() == 0 {
                return Err(ConfigError::EmptyApiKey);
            }
            Some(t)
        },
        None => None,
    };
    let model = match pick_string(&cli.model, &env.model) {
        Some(v) => v,
        None => String::from_str(provider.default_model()),
    };
    Ok(
        ChatSettings {
            provider,
            base_url,
            api_key,
            model,
            client_id: pick_string(&cli.client_id, &env.client_id),
            client_secret: pick_string(&cli.client_secret, &env.client_secret),
            folder_id: pick_string(&cli.folder_id, &env.folder_id),
            iam_token: cli.iam_token,
            max_tokens: cli.max_tokens,
        },
    )
}

/// For `openai` with a key, the settings agree with `Config::load` on the
/// base URL, the key and the model.
pub proof fn openai_settings_agree_with_config(cli: CliValues, env: EnvValues)
    requires
        first_given(opt_string(cli.api_key), opt_string(env.api_key)) is Some,
    ensures
        ({
            let key = first_given(opt_string(cli.api_key), opt_string(env.api_key))->0;
            forall|r: Result<ChatSettings, ConfigError>|
                #![trigger settings_outcome(Provider::Openai, cli, env, r)]
                settings_outcome(Provider::Openai, cli, env, r) && trimmed(key).len() > 0 ==> (
                r matches Ok(s) && s.base_url@ == resolved_base_url(
                    opt_string(cli.base_url),
                    opt_string(env.base_url),
                ) && opt_string(s.api_key) == Some(trimmed(key)) && s.model@ == resolved_model(
                    opt_string(cli.model),
                    opt_string(env.model),
                ))
        }),
{
}

/// Settings keep what the command line gives: the token limit, the IAM
/// switch, and every value given there, before anything in the environment.
pub proof fn settings_keep_command_line(
    provider: Provider,
    cli: CliValues,
    env: EnvValues,
    r: Result<ChatSettings, ConfigError>,
)
    requires
        settings_outcome(provider, cli, env, r),
        r is Ok,
    ensures
        r->Ok_0.provider == provider,
        r->Ok_0.max_tokens == cli.max_tokens,
        r->Ok_0.iam_token == cli.iam_token,
        cli.base_url matches Some(b) ==> r->Ok_0.base_url@ == trim_end_slashes(b@),
        cli.api_key matches Some(k) ==> opt_string(r->Ok_0.api_key) == Some(trimmed(k@)),
        cli.model matches Some(m) ==> r->Ok_0.model@ == m@,
        cli.client_id matches Some(v) ==> opt_string(r->Ok_0.client_id) == Some(v@),
        cli.client_secret matches Some(v) ==> opt_string(r->Ok_0.client_secret) == Some(v@),
        cli.folder_id matches Some(v) ==> opt_string(r->Ok_0.folder_id) == Some(v@),
{
}

/// With no base URL and no model given anywhere, the settings use the
/// provider's default base URL (without trailing slashes) and default model;
/// with no key given anywhere there is no key.
pub proof fn settings_fall_back_to_defaults(
    provider: Provider,
    cli: CliValues,
    env: EnvValues,
    r: Result<ChatSettings, ConfigError>,
)
    requires
        settings_outcome(provider, cli, env, r),
    ensures
        cli.api_key is None && env.api_key is None ==> r is Ok && r->Ok_0.api_key is None,
        r is Ok && cli.base_url is None && env.base_url is None ==> r->Ok_0.base_url@
            == trim_end_slashes(provider_default_base_url(provider)),
        r is Ok && cli.model is None && env.model is None ==> r->Ok_0.model@
            == provider_default_model(provider),
{
}

} // verus!

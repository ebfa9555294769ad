# opencode_old_macos

A thin command-line AI agent for old macOS releases, speaking to
OpenAI-compatible chat APIs (openai, qwen, zen), GigaChat and Yandex GPT.

- `src/` is the verified library (Verus):
  - `text.rs`: Unicode whitespace trimming, ASCII lower-casing, prefixes,
    trailing-slash removal, with their specifications and lemmas;
  - `provider.rs`: the provider catalogue, name parsing and chat endpoint URLs;
  - `config.rs`: assembling the access settings from arguments, environment
    values and defaults;
  - `json.rs`: JSON string quoting and reading through `serde_json`;
  - `api.rs`: request bodies, the choice of requests for a prompt, and
    reading answers and errors.
- `app/` is the binary: arguments (clap), `.env` (dotenvy), HTTP (reqwest on
  tokio), the terminal and logging.
- `tests/` runs the library on concrete values.

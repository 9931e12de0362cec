//! Choosing and configuring the AI provider.
use vstd::prelude::*;
use vstd::string::StringExecFns;

use crate::ai::providers::{
    claude_label, claude_label_spec, default_language, ClaudeCliProvider, CliProvider, CliType, API_BATCH_CHAR_LIMIT, API_MIN_CONTENT_LENGTH,
    DEFAULT_BATCH_CHAR_LIMIT, LARGE_BATCH_CHAR_LIMIT,
};
use crate::config::AppConfig;
use crate::error::Error;
use crate::text::str_eq;

verus! {

/// The settings of an API provider.
#[derive(Debug, Clone)]
pub struct ApiSettings {
    pub api_key: String,
    pub model: String,
    pub language: String,
    pub summary_max_tokens: u32,
}

/// The configured AI provider.
#[derive(Debug, Clone)]
pub enum Provider {
    OpenAi(ApiSettings),
    GeminiApi(ApiSettings),
    ClaudeApi(ApiSettings),
    Cli(CliProvider),
    ClaudeCli(ClaudeCliProvider),
}

impl Provider {
    /// Character limit of one batch request.
    pub fn batch_char_limit(&self) -> (n: usize)
        ensures
            n == match *self {
                Provider::OpenAi(_) | Provider::GeminiApi(_) => API_BATCH_CHAR_LIMIT,
                Provider::ClaudeApi(_) | Provider::Cli(_) => LARGE_BATCH_CHAR_LIMIT,
                Provider::ClaudeCli(_) => DEFAULT_BATCH_CHAR_LIMIT,
            },
    {
        match self {
            Provider::OpenAi(_) | Provider::GeminiApi(_) => API_BATCH_CHAR_LIMIT,
            Provider::ClaudeApi(_) | Provider::Cli(_) => LARGE_BATCH_CHAR_LIMIT,
            Provider::ClaudeCli(_) => DEFAULT_BATCH_CHAR_LIMIT,
        }
    }

    /// The language the provider summarizes in: the configured one, but
    /// English for the `claude_cli` provider.
    pub fn language(&self) -> (s: &str)
        ensures
            s@ == match *self {
                Provider::OpenAi(p) | Provider::GeminiApi(p) | Provider::ClaudeApi(p) => p.language@,
                Provider::Cli(p) => p.language@,
                Provider::ClaudeCli(_) => default_language(),
            },
    {
        match self {
            Provider::OpenAi(p) | Provider::GeminiApi(p) | Provider::ClaudeApi(p) => p.language.as_str(),
            Provider::Cli(p) => p.language.as_str(),
            Provider::ClaudeCli(p) => p.language(),
        }
    }

    /// Minimum content length that the provider summarizes.
    pub fn min_content_length(&self) -> (n: usize)
        ensures
            n == match *self {
                Provider::Cli(p) => p.min_content_length,
                _ => API_MIN_CONTENT_LENGTH,
            },
    {
        match self {
            Provider::Cli(p) => p.min_content_length,
            _ => API_MIN_CONTENT_LENGTH,
        }
    }
}

/// The AI summarizer: the configured provider and how many requests may run
/// at once.
#[derive(Debug, Clone)]
pub struct Summarizer {
    pub provider: Provider,
    pub concurrency: usize,
}

/// The provider that the configured name selects; unknown names fall back
/// to the `claude_cli` provider.
pub open spec fn provider_choice(name: Seq<char>) -> int {
    if name == "openai"@ {
        0
    } else if name == "gemini_api"@ {
        1
    } else if name == "claude_api"@ {
        2
    } else if name == "gemini_cli"@ {
        3
    } else if name == "codex_cli"@ {
        4
    } else {
        5
    }
}

/// The provider names the configuration documents.
pub open spec fn is_provider_name(name: Seq<char>) -> bool {
    ||| name == "openai"@
    ||| name == "gemini_api"@
    ||| name == "claude_api"@
    ||| name == "gemini_cli"@
    ||| name == "codex_cli"@
    ||| name == "claude_cli"@
}

/// The documented provider names differ from one another.
proof fn lemma_provider_names_differ()
    ensures
        "openai"@ != "gemini_api"@, "openai"@ != "claude_api"@, "openai"@ != "gemini_cli"@,
        "openai"@ != "codex_cli"@, "openai"@ != "claude_cli"@,
        "gemini_api"@ != "claude_api"@, "gemini_api"@ != "gemini_cli"@, "gemini_api"@ != "codex_cli"@,
        "gemini_api"@ != "claude_cli"@,
        "claude_api"@ != "gemini_cli"@, "claude_api"@ != "codex_cli"@, "claude_api"@ != "claude_cli"@,
        "gemini_cli"@ != "codex_cli"@, "gemini_cli"@ != "claude_cli"@,
        "codex_cli"@ != "claude_cli"@,
{
    reveal_strlit("openai");
    reveal_strlit("gemini_api");
    reveal_strlit("claude_api");
    reveal_strlit("gemini_cli");
    reveal_strlit("codex_cli");
    reveal_strlit("claude_cli");
    assert("openai"@.len() == 6 && "codex_cli"@.len() == 9 && "gemini_api"@.len() == 10);
    assert("claude_api"@.len() == 10 && "gemini_cli"@.len() == 10 && "claude_cli"@.len() == 10);
    assert("gemini_api"@[0] != "claude_api"@[0]);
    assert("gemini_api"@[7] != "gemini_cli"@[7]);
    assert("gemini_api"@[0] != "claude_cli"@[0]);
    assert("claude_api"@[0] != "gemini_cli"@[0]);
    assert("claude_api"@[7] != "claude_cli"@[7]);
    assert("gemini_cli"@[0] != "claude_cli"@[0]);
}

/// Distinct documented provider names select distinct providers.
pub proof fn distinct_provider_names(a: Seq<char>, b: Seq<char>)
    requires
        is_provider_name(a),
        is_provider_name(b),
        a != b,
    ensures
        provider_choice(a) != provider_choice(b),
{
    lemma_provider_names_differ();
}

pub open spec fn at_least_one_u32(n: u32) -> u32 {
    if n >= 1 { n } else { 1 }
}

pub open spec fn at_least_one(n: usize) -> usize {
    if n >= 1 { n } else { 1 }
}

fn api_settings(api_key: &String, model: &String, language: &String, max_tokens: u32) -> (s: ApiSettings)
    ensures
        s.api_key@ == api_key@,
        s.model@ == model@,
        s.language@ == language@,
        s.summary_max_tokens == max_tokens,
{
    ApiSettings {
        api_key: String::from_str(api_key.as_str()),
        model: String::from_str(model.as_str()),
        language: String::from_str(language.as_str()),
        summary_max_tokens: max_tokens,
    }
}

impl Summarizer {
    /// Builds the summarizer that the configuration asks for. An API provider
    /// needs its key; the token budget and the concurrency are at least 1.
    pub fn new(config: &AppConfig) -> (r: Result<Self, Error>)
        ensures
            ({
                let ai = config.ai;
                let choice = provider_choice(ai.provider@);
                &&& r is Err <==> ((choice == 0 && ai.openai_api_key is None)
                    || (choice == 1 && ai.gemini_api_key is None)
                    || (choice == 2 && ai.claude_api_key is None))
                &&& r matches Ok(s) ==> {
                    &&& s.concurrency == at_least_one(ai.concurrency)
                    &&& choice == 0 ==> (s.provider matches Provider::OpenAi(p) && p.api_key@ == ai.openai_api_key->0@
                        && p.model@ == ai.openai_model@ && p.language@ == ai.summary_language@
                        && p.summary_max_tokens == at_least_one_u32(ai.max_summary_tokens))
                    &&& choice == 1 ==> (s.provider matches Provider::GeminiApi(p) && p.api_key@ == ai.gemini_api_key->0@
                        && p.model@ == ai.gemini_model@ && p.language@ == ai.summary_language@
                        && p.summary_max_tokens == at_least_one_u32(ai.max_summary_tokens))
                    &&& choice == 2 ==> (s.provider matches Provider::ClaudeApi(p) && p.api_key@ == ai.claude_api_key->0@
                        && p.model@ == ai.claude_model@ && p.language@ == ai.summary_language@
                        && p.summary_max_tokens == at_least_one_u32(ai.max_summary_tokens))
                    &&& choice == 3 ==> (s.provider matches Provider::Cli(p) && p.cli_type == CliType::Gemini
                        && p.language@ == ai.summary_language@ && p.summary_max_length == ai.max_summary_length
                        && p.min_content_length == ai.min_summarize_length)
                    &&& choice == 4 ==> (s.provider matches Provider::Cli(p) && p.cli_type == CliType::Codex
                        && p.language@ == ai.summary_language@ && p.summary_max_length == ai.max_summary_length
                        && p.min_content_length == ai.min_summarize_length)
                    &&& choice == 5 ==> (s.provider is ClaudeCli)
                }
                &&& ai.provider@ == "gemini_cli"@ ==> (r matches Ok(s) && s.provider matches Provider::Cli(p)
                    && p.cli_type == CliType::Gemini)
                &&& ai.provider@ == "codex_cli"@ ==> (r matches Ok(s) && s.provider matches Provider::Cli(p)
                    && p.cli_type == CliType::Codex)
                &&& ai.provider@ == "claude_cli"@ ==> (r matches Ok(s) && s.provider is ClaudeCli)
                &&& r matches Err(e) ==> e matches Error::Config(m) && (
                    (choice == 0 && m@ == "OpenAI API key not configured"@)
                    || (choice == 1 && m@ == "Gemini API key not configured"@)
                    || (choice == 2 && m@ == claude_label_spec() + " API key not configured"@))
            }),
    {
        proof {
            lemma_provider_names_differ();
        }
        let ai = &config.ai;
        let language = &ai.summary_language;
        let max_tokens = if ai.max_summary_tokens >= 1 { ai.max_summary_tokens } else { 1 };
        let concurrency = if ai.concurrency >= 1 { ai.concurrency } else { 1 };
        let name = ai.provider.as_str();
        let provider = if str_eq(name, "openai") {
            match &ai.openai_api_key {
                Some(k) => Provider::OpenAi(api_settings(k, &ai.openai_model, language, max_tokens)),
                None => return Err(Error::Config(String::from_str("OpenAI API key not configured"))),
            }
        } else if str_eq(name, "gemini_api") {
            match &ai.gemini_api_key {
                Some(k) => Provider::GeminiApi(api_settings(k, &ai.gemini_model, language, max_tokens)),
                None => return Err(Error::Config(String::from_str("Gemini API key not configured"))),
            }
        } else if str_eq(name, "claude_api") {
            match &ai.claude_api_key {
                Some(k) => Provider::ClaudeApi(api_settings(k, &ai.claude_model, language, max_tokens)),
                None => return Err(Error::Config(claude_label().concat(" API key not configured"))),
            }
        } else if str_eq(name, "gemini_cli") {
            Provider::Cli(CliProvider::new(CliType::Gemini, language.as_str(), ai.max_summary_length, ai.min_summarize_length))
        } else if str_eq(name, "codex_cli") {
            Provider::Cli(CliProvider::new(CliType::Codex, language.as_str(), ai.max_summary_length, ai.min_summarize_length))
        } else {
            Provider::ClaudeCli(ClaudeCliProvider::new())
        };
        Ok(Summarizer { provider, concurrency })
    }

    /// Character limit of one batch request.
    pub fn batch_char_limit(&self) -> (n: usize)
        ensures
            n == match self.provider {
                Provider::OpenAi(_) | Provider::GeminiApi(_) => API_BATCH_CHAR_LIMIT,
                Provider::ClaudeApi(_) | Provider::Cli(_) => LARGE_BATCH_CHAR_LIMIT,
                Provider::ClaudeCli(_) => DEFAULT_BATCH_CHAR_LIMIT,
            },
    {
        self.provider.batch_char_limit()
    }

    /// Minimum content length for summarization.
    pub fn min_content_length(&self) -> (n: usize)
        ensures
            n == match self.provider {
                Provider::Cli(p) => p.min_content_length,
                _ => API_MIN_CONTENT_LENGTH,
            },
    {
        self.provider.min_content_length()
    }

    /// How many summarization requests may run at once.
    pub fn concurrency(&self) -> (n: usize)
        ensures
            n == self.concurrency,
    {
        self.concurrency
    }
}

} // verus!

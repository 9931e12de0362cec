use vstd::prelude::*;
use vstd::string::{StrSliceExecFns, StringExecFns};

use crate::error::Error;
use crate::text::{chars_of, string_of, trim, trim_chars};

verus! {

/// Article info for batch summarization.
#[derive(Debug, Clone)]
pub struct ArticleForSummary {
    pub id: String,
    pub title: String,
    pub content: String,
}

/// Result of batch summarization.
#[derive(Debug, Clone)]
pub struct BatchSummaryResult {
    pub id: String,
    pub summary: Option<String>,
    pub error: Option<String>,
}

/// Article info for batch scoring (title + summary or title + content).
#[derive(Debug, Clone)]
pub struct ArticleForScoring {
    pub id: String,
    pub content: String,
}

} // verus!

verus! {

/// Result of article style classification.
#[derive(Debug, Clone)]
pub struct ArticleStyleResult {
    /// Article style type: tutorial, news, opinion, analysis, review
    pub style_type: String,
    /// Article tone: formal, casual, technical, humorous
    pub tone: String,
    /// Article length category: short, medium, long
    pub length_category: String,
}

impl Default for ArticleStyleResult {
    fn default() -> (r: Self)
        ensures
            r.style_type@ == "news"@,
            r.tone@ == "formal"@,
            r.length_category@ == "medium"@,
    {
        ArticleStyleResult {
            style_type: String::from_str("news"),
            tone: String::from_str("formal"),
            length_category: String::from_str("medium"),
        }
    }
}

/// The command-line AI tools.
#[derive(Debug, Clone, Copy, PartialEq, Eq)]
pub enum CliType {
    Claude,
    Gemini,
    Codex,
}

/// The program of the `claude_cli` provider: its provider name up to the
/// underscore.
pub open spec fn claude_tool_spec() -> Seq<char> {
    "claude_cli"@.take(6)
}

/// The program of the `claude_cli` provider.
pub fn claude_tool() -> (s: &'static str)
    ensures
        s@ == claude_tool_spec(),
{
    let name: &'static str = "claude_cli";
    proof {
        reveal_strlit("claude_cli");
    }
    name.substring_char(0, 6)
}

/// The vendor name used in messages about the `claude_cli` and `claude_api`
/// providers: the program name with a capital first letter.
pub open spec fn claude_label_spec() -> Seq<char> {
    seq!['C'] + claude_tool_spec().skip(1)
}

/// The vendor name used in messages.
pub fn claude_label() -> (s: String)
    ensures
        s@ == claude_label_spec(),
{
    let tool = claude_tool();
    let mut s = String::new();
    crate::text::push_char(&mut s, 'C');
    proof {
        reveal_strlit("claude_cli");
        assert(tool@.len() == 6);
    }
    let rest = tool.substring_char(1, 6);
    let r = s.concat(rest);
    proof {
        assert(r@ =~= claude_label_spec());
    }
    r
}

impl CliType {
    /// The program to run.
    pub fn command(&self) -> (c: &'static str)
        ensures
            *self == CliType::Claude ==> c@ == claude_tool_spec(),
            *self == CliType::Gemini ==> c@ == "gemini"@,
            *self == CliType::Codex ==> c@ == "codex"@,
    {
        match self {
            CliType::Claude => claude_tool(),
            CliType::Gemini => "gemini",
            CliType::Codex => "codex",
        }
    }

    /// The arguments that come before the prompt.
    pub fn base_args(&self) -> (args: Vec<&'static str>)
        ensures
            arg_views(args@) == base_arg_views(*self),
            *self == CliType::Claude ==> args@.len() == 3 && args@[0]@ == "-p"@ && args@[1]@ == "--tools"@ && args@[2]@ == ""@,
            *self == CliType::Gemini ==> args@.len() == 1 && args@[0]@ == "-p"@,
            *self == CliType::Codex ==> args@.len() == 1 && args@[0]@ == "exec"@,
    {
        let mut args: Vec<&'static str> = Vec::new();
        match self {
            CliType::Claude => {
                args.push("-p");
                args.push("--tools");
                args.push("");
            },
            CliType::Gemini => {
                args.push("-p");
            },
            CliType::Codex => {
                // Codex runs a prompt through its `exec` subcommand
                args.push("exec");
            },
        }
        args
    }

    /// Whether the prompt goes to standard input (Codex takes it as an
    /// argument instead).
    pub fn uses_stdin(&self) -> (b: bool)
        ensures
            b == (*self != CliType::Codex),
    {
        match self {
            CliType::Claude | CliType::Gemini => true,
            CliType::Codex => false,
        }
    }
}

/// The arguments each tool takes before the prompt: `-p --tools ""` for
/// the `claude_cli` tool, `-p` for Gemini, and the `exec` subcommand for
/// Codex.
pub open spec fn base_arg_views(t: CliType) -> Seq<Seq<char>> {
    match t {
        CliType::Claude => seq!["-p"@, "--tools"@, ""@],
        CliType::Gemini => seq!["-p"@],
        CliType::Codex => seq!["exec"@],
    }
}

/// Generic command-line provider for the `claude_cli`, `gemini_cli` and
/// `codex_cli` tools.
#[derive(Debug, Clone)]
pub struct CliProvider {
    pub cli_type: CliType,
    pub language: String,
    pub summary_max_length: usize,
    pub min_content_length: usize,
}

impl CliProvider {
    pub fn new(cli_type: CliType, language: &str, summary_max_length: usize, min_content_length: usize) -> (p: Self)
        ensures
            p.cli_type == cli_type,
            p.language@ == language@,
            p.summary_max_length == summary_max_length,
            p.min_content_length == min_content_length,
    {
        CliProvider {
            cli_type,
            language: String::from_str(language),
            summary_max_length,
            min_content_length,
        }
    }
}

/// How a command-line provider is run for a prompt: the program, its
/// arguments, and what is written to its standard input.
#[derive(Debug, Clone)]
pub struct CliInvocation {
    pub program: String,
    pub args: Vec<String>,
    pub stdin: Option<String>,
}

/// The views of a list of arguments.
pub open spec fn arg_views(v: Seq<&'static str>) -> Seq<Seq<char>> {
    v.map_values(|a: &'static str| a@)
}

impl CliProvider {
    /// The command that runs `prompt`: the tool's program and base
    /// arguments, with the prompt on standard input, or (for Codex) as the
    /// last argument.
    pub fn invocation(&self, prompt: &str) -> (c: CliInvocation)
        ensures
            self.cli_type == CliType::Claude ==> c.program@ == claude_tool_spec(),
            self.cli_type == CliType::Gemini ==> c.program@ == "gemini"@,
            self.cli_type == CliType::Codex ==> c.program@ == "codex"@,
            self.cli_type != CliType::Codex ==> c.args@.map_values(|a: String| a@) == base_arg_views(self.cli_type),
            self.cli_type != CliType::Codex ==> (c.stdin matches Some(i) && i@ == prompt@),
            self.cli_type == CliType::Codex ==> c.args@.map_values(|a: String| a@) == base_arg_views(self.cli_type).push(prompt@)
                && c.stdin is None,
    {
        let base = self.cli_type.base_args();
        let mut args: Vec<String> = Vec::new();
        let mut i: usize = 0;
        while i < base.len()
            invariant
                0 <= i <= base@.len(),
                arg_views(base@) == base_arg_views(self.cli_type),
                args@.map_values(|a: String| a@) == arg_views(base@.take(i as int)),
            decreases base@.len() - i,
        {
            let ghost before = args@;
            args.push(String::from_str(base[i]));
            proof {
                assert(args@.map_values(|a: String| a@) =~= before.map_values(|a: String| a@).push(base@[i as int]@));
                assert(arg_views(base@.take(i + 1)) =~= arg_views(base@.take(i as int)).push(base@[i as int]@));
            }
            i = i + 1;
        }
        proof {
            assert(base@.take(base@.len() as int) =~= base@);
        }
        if self.cli_type.uses_stdin() {
            CliInvocation { program: String::from_str(self.cli_type.command()), args, stdin: Some(String::from_str(prompt)) }
        } else {
            let ghost before = args@;
            args.push(String::from_str(prompt));
            proof {
                assert(args@.map_values(|a: String| a@) =~= before.map_values(|a: String| a@).push(prompt@));
            }
            CliInvocation { program: String::from_str(self.cli_type.command()), args, stdin: None }
        }
    }
}

/// What a command-line provider's run gives: its trimmed output when it
/// succeeded, else "<tool> CLI error: <error output>".
pub fn cli_output(tool: &str, success: bool, stdout: &str, stderr: &str) -> (r: Result<String, Error>)
    ensures
        success ==> (r matches Ok(t) && t@ == trim(stdout@)),
        !success ==> (r matches Err(Error::AiProvider(m)) && m@ == tool@ + " CLI error: "@ + stderr@),
{
    if success {
        let c = chars_of(stdout);
        let t = trim_chars(c.as_slice());
        Ok(string_of(t.as_slice()))
    } else {
        Err(Error::AiProvider(String::from_str(tool).concat(" CLI error: ").concat(stderr)))
    }
}

/// The `claude_cli` provider, which runs the tool with `-p`.
#[derive(Debug, Clone, Copy)]
pub struct ClaudeCliProvider;

impl ClaudeCliProvider {
    pub fn new() -> Self {
        ClaudeCliProvider
    }
}

/// The language a provider summarizes in when it has none configured.
pub open spec fn default_language() -> Seq<char> {
    "English"@
}

impl ClaudeCliProvider {
    /// The language of the summaries: the providers' default, English.
    pub fn language(&self) -> (s: &'static str)
        ensures
            s@ == default_language(),
    {
        "English"
    }

    /// Character limit of one batch request: the providers' default.
    pub fn batch_char_limit(&self) -> (n: usize)
        ensures
            n == DEFAULT_BATCH_CHAR_LIMIT,
    {
        DEFAULT_BATCH_CHAR_LIMIT
    }

    /// Minimum content length for summarization: the providers' default.
    pub fn min_content_length(&self) -> (n: usize)
        ensures
            n == API_MIN_CONTENT_LENGTH,
    {
        API_MIN_CONTENT_LENGTH
    }
}

impl Default for ClaudeCliProvider {
    fn default() -> Self {
        ClaudeCliProvider::new()
    }
}

/// Batch character limit of the command-line providers and of the
/// `claude_api` provider.
pub const LARGE_BATCH_CHAR_LIMIT: usize = 200000;

/// Batch character limit of the Gemini and OpenAI APIs.
pub const API_BATCH_CHAR_LIMIT: usize = 100000;

/// Default batch character limit of a provider.
pub const DEFAULT_BATCH_CHAR_LIMIT: usize = 80000;

/// Minimum content length that the API providers (and, by default, every
/// provider) summarize.
pub const API_MIN_CONTENT_LENGTH: usize = 1000;

} // verus!

use kenseader::ai::prompts::{api_summary_prompt, batch_score_prompt, join_strings, relevance_prompt, tags_prompt};
use kenseader::ai::providers::{
    cli_output, ArticleForScoring, ArticleForSummary, ArticleStyleResult, ClaudeCliProvider, CliProvider, CliType,
};
use kenseader::ai::response::{
    api_answer, api_summary_check, assemble_summary_results, clean_json_answer, cli_summary_check,
    parse_bracket_lines, parse_tags, plan_batch_summary, worth_tagging, SummaryPlan,
};
use kenseader::ai::summarizer::{Provider, Summarizer};
use kenseader::config::AppConfig;
use kenseader::error::Error;

fn article(id: &str, content: &str) -> ArticleForSummary {
    ArticleForSummary { id: id.to_string(), title: format!("T{id}"), content: content.to_string() }
}

#[test]
fn bracket_lines_are_read_and_later_entries_win() {
    let answer = "noise\n  [a1]: first  \n[b2]: second\n[a1]: again\n[c3]:   \n";
    let entries = parse_bracket_lines(answer);
    assert_eq!(
        entries,
        vec![
            ("a1".to_string(), "first".to_string()),
            ("b2".to_string(), "second".to_string()),
            ("a1".to_string(), "again".to_string()),
            ("c3".to_string(), "".to_string()),
        ]
    );
}

#[test]
fn batch_results_report_short_and_missing_articles() {
    let long = "x".repeat(20);
    let articles = vec![article("a", &long), article("b", "short"), article("c", &long)];
    let results = assemble_summary_results(articles, "[a]: A summary\n[c]:\n", 10);
    assert_eq!(results[0].summary.as_deref(), Some("A summary"));
    assert_eq!(results[1].error.as_deref(), Some("Content too short (minimum 10 chars)"));
    assert_eq!(results[2].error.as_deref(), Some("Summary not found in response"));
}

#[test]
fn tags_are_trimmed_lowered_and_bounded() {
    let tags = parse_tags(" Rust , AI,, Web Dev ,a,b,c ", true);
    assert_eq!(tags, vec!["rust", "ai", "web dev", "a", "b"]);
}

#[test]
fn short_content_is_not_tagged() {
    assert!(!worth_tagging("short text"));
    assert!(worth_tagging(&"word ".repeat(20)));
}

#[test]
fn cli_check_refuses_short_content_and_bare_urls() {
    match cli_summary_check("  tiny  ", 10) {
        Err(Error::AiProvider(m)) => assert_eq!(m, "Content too short to summarize (4 chars, minimum 10)"),
        _ => panic!("expected an error"),
    }
    match cli_summary_check("https://example.com/some/long/article/path", 10) {
        Err(Error::AiProvider(m)) => assert_eq!(m, "Content appears to be just a URL"),
        _ => panic!("expected an error"),
    }
    assert!(cli_summary_check("A real article with enough words in it.", 10).is_ok());
}

#[test]
fn api_check_needs_a_thousand_bytes() {
    assert!(api_summary_check(&"a".repeat(1000)).is_ok());
    match api_summary_check(&"a".repeat(999)) {
        Err(Error::AiProvider(m)) => assert_eq!(m, "Content too short to summarize (999 chars, minimum 1000)"),
        _ => panic!("expected an error"),
    }
}

#[test]
fn json_answer_is_cleaned_of_code_fences() {
    assert_eq!(clean_json_answer("  ```\n{\"a\":1}\n```  "), "{\"a\":1}");
    assert_eq!(clean_json_answer("``"), "");
}

#[test]
fn api_answer_reports_provider_errors() {
    match api_answer("Gemini", Some("quota".to_string()), None) {
        Err(Error::AiProvider(m)) => assert_eq!(m, "Gemini API error: quota"),
        _ => panic!("expected an error"),
    }
    assert_eq!(api_answer("X", None, None).unwrap(), "");
    assert_eq!(api_answer("X", None, Some("hi".to_string())).unwrap(), "hi");
}

#[test]
fn prompts_are_built_exactly() {
    assert_eq!(
        api_summary_prompt("English", "Body"),
        "Summarize the following article in 2-3 sentences in English. Be concise and focus on the key points:\n\nBody"
    );
    assert_eq!(
        tags_prompt("Body"),
        "Extract 3-5 topic tags from the following article. Return only the tags as a comma-separated list, nothing else:\n\nBody"
    );
    let interests = vec!["rust".to_string(), "ai".to_string()];
    assert_eq!(
        relevance_prompt(&interests, "Body", false),
        "Rate how relevant this article is to someone interested in: rust, ai.\n\nArticle:\nBody\n\nRespond with only a number from 0 to 100."
    );
    assert_eq!(join_strings(&interests, ", "), "rust, ai");
}

#[test]
fn score_prompt_lists_each_article() {
    let interests = vec!["rust".to_string()];
    let articles = vec![ArticleForScoring { id: "1".to_string(), content: "Hello".to_string() }];
    let p = batch_score_prompt(&interests, &articles);
    assert!(p.contains("---ARTICLE [1]---\nHello\n\n"));
    assert!(p.ends_with("Now provide scores using the format [ARTICLE_ID]: score\n"));
}

#[test]
fn prompts_cut_content() {
    let p = tags_prompt(&"é".repeat(5000));
    assert_eq!(p.chars().filter(|c| *c == 'é').count(), 4000);
}

#[test]
fn style_result_defaults() {
    let d = ArticleStyleResult::default();
    assert_eq!((d.style_type.as_str(), d.tone.as_str(), d.length_category.as_str()), ("news", "formal", "medium"));
}

#[test]
fn cli_invocation_puts_prompt_on_stdin_or_last_argument() {
    let gemini = CliProvider::new(CliType::Gemini, "English", 150, 500);
    let inv = gemini.invocation("P");
    assert_eq!(inv.program, "gemini");
    assert_eq!(inv.args, vec!["-p".to_string()]);
    assert_eq!(inv.stdin.as_deref(), Some("P"));
    let codex = CliProvider::new(CliType::Codex, "English", 150, 500);
    let inv = codex.invocation("P");
    assert_eq!(inv.program, "codex");
    assert_eq!(inv.args, vec!["exec".to_string(), "P".to_string()]);
    assert!(inv.stdin.is_none());
}

#[test]
fn cli_output_is_trimmed_or_reported() {
    assert_eq!(cli_output("gemini", true, "  done \n", "").unwrap(), "done");
    match cli_output("gemini", false, "", "boom") {
        Err(Error::AiProvider(m)) => assert_eq!(m, "gemini CLI error: boom"),
        _ => panic!("expected an error"),
    }
}

#[test]
fn summarizer_follows_configured_provider() {
    let mut config = AppConfig::default();
    config.ai.provider = "openai".to_string();
    match Summarizer::new(&config) {
        Err(Error::Config(m)) => assert_eq!(m, "OpenAI API key not configured"),
        _ => panic!("expected a configuration error"),
    }
    config.ai.openai_api_key = Some("k".to_string());
    config.ai.concurrency = 0;
    let s = Summarizer::new(&config).unwrap();
    assert!(matches!(s.provider, Provider::OpenAi(_)));
    assert_eq!(s.concurrency(), 1);
    assert_eq!(s.batch_char_limit(), 100000);
    assert_eq!(s.min_content_length(), 1000);

    config.ai.provider = "gemini_cli".to_string();
    let s = Summarizer::new(&config).unwrap();
    assert_eq!(s.batch_char_limit(), 200000);
    assert_eq!(s.min_content_length(), config.ai.min_summarize_length);

    config.ai.provider = "something else".to_string();
    let s = Summarizer::new(&config).unwrap();
    assert!(matches!(s.provider, Provider::ClaudeCli(_)));
    assert_eq!(s.batch_char_limit(), 80000);
}

#[test]
fn batch_plan_asks_only_about_long_enough_articles() {
    assert!(matches!(plan_batch_summary(&Vec::new(), 10), SummaryPlan::Nothing));
    let short = vec![article("a", "tiny"), article("b", "  also tiny  ")];
    assert!(matches!(plan_batch_summary(&short, 10), SummaryPlan::AllTooShort));
    let mixed = vec![article("a", "tiny"), article("b", "long enough text"), article("c", "x"), article("d", "another long one")];
    match plan_batch_summary(&mixed, 10) {
        SummaryPlan::Ask(v) => {
            let ids: Vec<&str> = v.iter().map(|a| a.id.as_str()).collect();
            assert_eq!(ids, vec!["b", "d"]);
            assert_eq!(v[0].content, "long enough text");
            assert_eq!(v[1].title, "Td");
        }
        other => panic!("unexpected plan {other:?}"),
    }
}

#[test]
fn claude_cli_provider_uses_the_defaults() {
    let p = ClaudeCliProvider::new();
    assert_eq!(p.language(), "English");
    assert_eq!(p.min_content_length(), 1000);
    assert_eq!(p.batch_char_limit(), 80000);
    let provider = Provider::ClaudeCli(p);
    assert_eq!(provider.language(), "English");
    let mut config = AppConfig::default();
    config.ai.provider = "gemini_cli".to_string();
    config.ai.summary_language = "French".to_string();
    let s = Summarizer::new(&config).unwrap();
    assert_eq!(s.provider.language(), "French");
}

//! The prompts sent to the AI providers. Article text is cut to a fixed
//! number of characters before it goes into a prompt.
use vstd::prelude::*;
use vstd::string::StringExecFns;

use crate::ai::providers::{ArticleForScoring, ArticleForSummary};
use crate::text::{
    decimal, decimal_string, string_views, take_chars, truncate_chars,
};

verus! {

/// `parts` joined with `sep` between consecutive parts, as `[String]::join`.
pub open spec fn join(parts: Seq<Seq<char>>, sep: Seq<char>) -> Seq<char>
    decreases parts.len(),
{
    if parts.len() == 0 {
        Seq::empty()
    } else if parts.len() == 1 {
        parts[0]
    } else {
        join(parts.drop_last(), sep) + sep + parts.last()
    }
}


/// Joins `parts` with `sep`.
pub fn join_strings(parts: &[String], sep: &str) -> (s: String)
    ensures
        s@ == join(string_views(parts@), sep@),
{
    let mut s = String::new();
    let mut i: usize = 0;
    while i < parts.len()
        invariant
            0 <= i <= parts@.len(),
            s@ == join(string_views(parts@.take(i as int)), sep@),
        decreases parts@.len() - i,
    {
        proof {
            assert(parts@.take(i + 1).drop_last() =~= parts@.take(i as int));
            assert(string_views(parts@.take(i + 1)).drop_last() =~= string_views(parts@.take(i as int)));
        }
        if i == 0 {
            s = String::from_str(parts[0].as_str());
            proof {
                assert(string_views(parts@.take(1)) =~= seq![parts@[0]@]);
            }
        } else {
            s = s.concat(sep).concat(parts[i].as_str());
        }
        i = i + 1;
    }
    proof {
        assert(parts@.take(parts@.len() as int) =~= parts@);
    }
    s
}

/// Article text as it goes into a single-article prompt.
pub const PROMPT_CONTENT_CHARS: usize = 4000;

/// Article text as it goes into a relevance prompt.
pub const SCORE_CONTENT_CHARS: usize = 3000;

/// Article text as it goes into a batch summarization prompt.
pub const BATCH_CONTENT_CHARS: usize = 3000;

/// Article text as it goes into a batch scoring prompt.
pub const BATCH_SCORE_CONTENT_CHARS: usize = 1000;

/// Article text as it goes into a style classification prompt.
pub const STYLE_CONTENT_CHARS: usize = 2000;

pub open spec fn cli_summary_prompt_spec(language: Seq<char>, max_len: usize, content: Seq<char>) -> Seq<char> {
    "Below is the full text of an article. Summarize it in 2-3 sentences (max "@ + decimal(max_len as nat)
        + " characters) in "@ + language
        + ". Do NOT try to fetch any URLs. Use ONLY the text provided below.\n\n---BEGIN ARTICLE TEXT---\n"@
        + take_chars(content, 4000) + "\n---END ARTICLE TEXT---\n\nSummary (in "@ + language + ", max "@
        + decimal(max_len as nat) + " chars):"@
}

/// The summarization prompt of the command-line providers.
pub fn cli_summary_prompt(language: &str, max_len: usize, content: &str) -> (p: String)
    ensures
        p@ == cli_summary_prompt_spec(language@, max_len, content@),
{
    let n = decimal_string(max_len as u64);
    String::from_str("Below is the full text of an article. Summarize it in 2-3 sentences (max ")
        .concat(n.as_str()).concat(" characters) in ").concat(language)
        .concat(". Do NOT try to fetch any URLs. Use ONLY the text provided below.\n\n---BEGIN ARTICLE TEXT---\n")
        .concat(truncate_chars(content, PROMPT_CONTENT_CHARS)).concat("\n---END ARTICLE TEXT---\n\nSummary (in ")
        .concat(language).concat(", max ").concat(n.as_str()).concat(" chars):")
}

pub open spec fn cli_tags_prompt_spec(content: Seq<char>) -> Seq<char> {
    "Extract 3-5 topic tags from the article text below. Return ONLY the tags as a comma-separated list, nothing else. Do NOT try to fetch any URLs.\n\n---BEGIN ARTICLE TEXT---\n"@
        + take_chars(content, 4000) + "\n---END ARTICLE TEXT---\n\nTags:"@
}

/// The tag extraction prompt of the command-line providers.
pub fn cli_tags_prompt(content: &str) -> (p: String)
    ensures
        p@ == cli_tags_prompt_spec(content@),
{
    String::from_str("Extract 3-5 topic tags from the article text below. Return ONLY the tags as a comma-separated list, nothing else. Do NOT try to fetch any URLs.\n\n---BEGIN ARTICLE TEXT---\n")
        .concat(truncate_chars(content, PROMPT_CONTENT_CHARS)).concat("\n---END ARTICLE TEXT---\n\nTags:")
}

pub open spec fn claude_cli_summary_prompt_spec(content: Seq<char>) -> Seq<char> {
    "Summarize the following article in 2-3 sentences. Be concise and focus on the key points:\n\n"@ + take_chars(content, 4000)
}

/// The summarization prompt of the `claude_cli` provider.
pub fn claude_cli_summary_prompt(content: &str) -> (p: String)
    ensures
        p@ == claude_cli_summary_prompt_spec(content@),
{
    String::from_str("Summarize the following article in 2-3 sentences. Be concise and focus on the key points:\n\n")
        .concat(truncate_chars(content, PROMPT_CONTENT_CHARS))
}

pub open spec fn api_summary_prompt_spec(language: Seq<char>, content: Seq<char>) -> Seq<char> {
    "Summarize the following article in 2-3 sentences in "@ + language
        + ". Be concise and focus on the key points:\n\n"@ + take_chars(content, 4000)
}

/// The summarization prompt of the API providers.
pub fn api_summary_prompt(language: &str, content: &str) -> (p: String)
    ensures
        p@ == api_summary_prompt_spec(language@, content@),
{
    String::from_str("Summarize the following article in 2-3 sentences in ").concat(language)
        .concat(". Be concise and focus on the key points:\n\n").concat(truncate_chars(content, PROMPT_CONTENT_CHARS))
}

pub open spec fn tags_prompt_spec(content: Seq<char>) -> Seq<char> {
    "Extract 3-5 topic tags from the following article. Return only the tags as a comma-separated list, nothing else:\n\n"@
        + take_chars(content, 4000)
}

/// The tag extraction prompt of the API providers and of the `claude_cli`
/// provider.
pub fn tags_prompt(content: &str) -> (p: String)
    ensures
        p@ == tags_prompt_spec(content@),
{
    String::from_str("Extract 3-5 topic tags from the following article. Return only the tags as a comma-separated list, nothing else:\n\n")
        .concat(truncate_chars(content, PROMPT_CONTENT_CHARS))
}

pub open spec fn relevance_prompt_spec(interests: Seq<Seq<char>>, content: Seq<char>, detailed: bool) -> Seq<char> {
    "Rate how relevant this article is to someone interested in: "@ + join(interests, ", "@)
        + ".\n\nArticle:\n"@ + take_chars(content, 3000)
        + if detailed {
            "\n\nRespond with only a number from 0 to 100, where 0 means not relevant at all and 100 means highly relevant."@
        } else {
            "\n\nRespond with only a number from 0 to 100."@
        }
}

/// The relevance prompt. The command-line providers (`detailed`) explain
/// the scale's ends; the API providers ask for the number only.
pub fn relevance_prompt(interests: &[String], content: &str, detailed: bool) -> (p: String)
    ensures
        p@ == relevance_prompt_spec(string_views(interests@), content@, detailed),
{
    let joined = join_strings(interests, ", ");
    let p = String::from_str("Rate how relevant this article is to someone interested in: ").concat(joined.as_str())
        .concat(".\n\nArticle:\n").concat(truncate_chars(content, SCORE_CONTENT_CHARS));
    if detailed {
        p.concat("\n\nRespond with only a number from 0 to 100, where 0 means not relevant at all and 100 means highly relevant.")
    } else {
        p.concat("\n\nRespond with only a number from 0 to 100.")
    }
}

pub open spec fn style_prompt_spec(content: Seq<char>) -> Seq<char> {
    "Classify this article's style. Respond with ONLY valid JSON (no markdown, no code blocks):\n{\"style_type\": \"tutorial|news|opinion|analysis|review\", \"tone\": \"formal|casual|technical|humorous\", \"length_category\": \"short|medium|long\"}\n\nChoose the most appropriate value for each field based on the article content.\n\nArticle:\n"@
        + take_chars(content, 2000)
}

/// The style classification prompt.
pub fn style_prompt(content: &str) -> (p: String)
    ensures
        p@ == style_prompt_spec(content@),
{
    String::from_str("Classify this article's style. Respond with ONLY valid JSON (no markdown, no code blocks):\n{\"style_type\": \"tutorial|news|opinion|analysis|review\", \"tone\": \"formal|casual|technical|humorous\", \"length_category\": \"short|medium|long\"}\n\nChoose the most appropriate value for each field based on the article content.\n\nArticle:\n")
        .concat(truncate_chars(content, STYLE_CONTENT_CHARS))
}

/// One article's section of a batch summarization prompt.
pub open spec fn summary_section(a: ArticleForSummary) -> Seq<char> {
    "---ARTICLE ["@ + a.id@ + "]: "@ + a.title@ + "---\n"@ + take_chars(a.content@, 3000) + "\n\n"@
}

/// The sections of all articles, in order.
pub open spec fn summary_sections(articles: Seq<ArticleForSummary>) -> Seq<char>
    decreases articles.len(),
{
    if articles.len() == 0 {
        Seq::empty()
    } else {
        summary_sections(articles.drop_last()) + summary_section(articles.last())
    }
}

/// The batch summarization prompt. The command-line providers (`max_len`
/// given) also bound the summary length and forbid fetching URLs.
pub open spec fn batch_summary_prompt_spec(language: Seq<char>, max_len: Option<usize>, articles: Seq<ArticleForSummary>) -> Seq<char> {
    match max_len {
        Some(m) => "Below are multiple articles. For EACH article, provide a 2-3 sentence summary (max "@
            + decimal(m as nat) + " characters) in "@ + language
            + ".\nDo NOT fetch any URLs. Use ONLY the text provided.\nFormat your response EXACTLY as follows, with each summary on its own line:\n[ARTICLE_ID]: summary text here\n\n"@
            + summary_sections(articles) + "Now provide summaries in "@ + language + " (max "@ + decimal(m as nat)
            + " chars each) using the format [ARTICLE_ID]: summary\n"@,
        None => "Below are multiple articles. For EACH article, provide a 2-3 sentence summary in "@ + language
            + ".\nFormat your response EXACTLY as follows, with each summary on its own line:\n[ARTICLE_ID]: summary text here\n\n"@
            + summary_sections(articles) + "Now provide summaries in "@ + language
            + " using the format [ARTICLE_ID]: summary\n"@,
    }
}

/// Builds the batch summarization prompt for `articles`.
pub fn batch_summary_prompt(language: &str, max_len: Option<usize>, articles: &[ArticleForSummary]) -> (p: String)
    ensures
        p@ == batch_summary_prompt_spec(language@, max_len, articles@),
{
    let mut prompt = match max_len {
        Some(m) => String::from_str("Below are multiple articles. For EACH article, provide a 2-3 sentence summary (max ")
            .concat(decimal_string(m as u64).as_str()).concat(" characters) in ").concat(language)
            .concat(".\nDo NOT fetch any URLs. Use ONLY the text provided.\nFormat your response EXACTLY as follows, with each summary on its own line:\n[ARTICLE_ID]: summary text here\n\n"),
        None => String::from_str("Below are multiple articles. For EACH article, provide a 2-3 sentence summary in ")
            .concat(language)
            .concat(".\nFormat your response EXACTLY as follows, with each summary on its own line:\n[ARTICLE_ID]: summary text here\n\n"),
    };
    let ghost head = prompt@;
    let mut i: usize = 0;
    while i < articles.len()
        invariant
            0 <= i <= articles@.len(),
            prompt@ == head + summary_sections(articles@.take(i as int)),
        decreases articles@.len() - i,
    {
        let a = &articles[i];
        proof {
            assert(articles@.take(i + 1).drop_last() =~= articles@.take(i as int));
        }
        prompt = prompt.concat("---ARTICLE [").concat(a.id.as_str()).concat("]: ").concat(a.title.as_str())
            .concat("---\n").concat(truncate_chars(a.content.as_str(), BATCH_CONTENT_CHARS)).concat("\n\n");
        i = i + 1;
    }
    proof {
        assert(articles@.take(articles@.len() as int) =~= articles@);
    }
    match max_len {
        Some(m) => prompt.concat("Now provide summaries in ").concat(language).concat(" (max ")
            .concat(decimal_string(m as u64).as_str()).concat(" chars each) using the format [ARTICLE_ID]: summary\n"),
        None => prompt.concat("Now provide summaries in ").concat(language).concat(" using the format [ARTICLE_ID]: summary\n"),
    }
}

/// One article's section of a batch scoring prompt.
pub open spec fn score_section(a: ArticleForScoring) -> Seq<char> {
    "---ARTICLE ["@ + a.id@ + "]---\n"@ + take_chars(a.content@, 1000) + "\n\n"@
}

pub open spec fn score_sections(articles: Seq<ArticleForScoring>) -> Seq<char>
    decreases articles.len(),
{
    if articles.len() == 0 {
        Seq::empty()
    } else {
        score_sections(articles.drop_last()) + score_section(articles.last())
    }
}

pub open spec fn batch_score_prompt_spec(interests: Seq<Seq<char>>, articles: Seq<ArticleForScoring>) -> Seq<char> {
    "Rate how relevant each article is to someone interested in: "@ + join(interests, ", "@)
        + ".\nFor EACH article, respond with a score from 0 to 100.\nFormat your response EXACTLY as follows, one per line:\n[ARTICLE_ID]: score\n\n"@
        + score_sections(articles) + "Now provide scores using the format [ARTICLE_ID]: score\n"@
}

/// Builds the batch scoring prompt for `articles`.
pub fn batch_score_prompt(interests: &[String], articles: &[ArticleForScoring]) -> (p: String)
    ensures
        p@ == batch_score_prompt_spec(string_views(interests@), articles@),
{
    let joined = join_strings(interests, ", ");
    let mut prompt = String::from_str("Rate how relevant each article is to someone interested in: ").concat(joined.as_str())
        .concat(".\nFor EACH article, respond with a score from 0 to 100.\nFormat your response EXACTLY as follows, one per line:\n[ARTICLE_ID]: score\n\n");
    let ghost head = prompt@;
    let mut i: usize = 0;
    while i < articles.len()
        invariant
            0 <= i <= articles@.len(),
            prompt@ == head + score_sections(articles@.take(i as int)),
        decreases articles@.len() - i,
    {
        let a = &articles[i];
        proof {
            assert(articles@.take(i + 1).drop_last() =~= articles@.take(i as int));
        }
        prompt = prompt.concat("---ARTICLE [").concat(a.id.as_str()).concat("]---\n")
            .concat(truncate_chars(a.content.as_str(), BATCH_SCORE_CONTENT_CHARS)).concat("\n\n");
        i = i + 1;
    }
    proof {
        assert(articles@.take(articles@.len() as int) =~= articles@);
    }
    prompt.concat("Now provide scores using the format [ARTICLE_ID]: score\n")
}

} // verus!

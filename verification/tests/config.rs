use kenseader::config::{
    default_claude_model, default_data_dir_in, expand_tilde_with, join_path, AppConfig, ThemeConfig,
};
use kenseader::feed::models::Article;
use kenseader::storage::database::message_mentions_duplicate_column;
use kenseader::text::{decimal_string, signed_decimal_string, str_eq, truncate_chars};

#[test]
fn defaults_are_as_documented() {
    let c = AppConfig::default();
    assert!(c.ai.enabled);
    assert_eq!(c.ai.provider, "claude_cli");
    assert_eq!(c.ai.openai_model, "gpt-4o-mini");
    assert_eq!(c.ai.claude_model, default_claude_model());
    assert!(default_claude_model().ends_with("-sonnet-4-20250514"));
    assert_eq!(c.sync.refresh_interval_secs, 3600);
    assert_eq!(c.rsshub.base_url, "https://rsshub.app");
    assert_eq!(c.general.article_retention_days, 3);
    assert_eq!(c.keymap.quit, "q");
}

#[test]
fn paths_are_joined_like_path_join() {
    assert_eq!(join_path("/a", "b"), "/a/b");
    assert_eq!(join_path("/a/", "b"), "/a/b");
    assert_eq!(join_path("/a", "/b"), "/b");
    assert_eq!(join_path("", "b"), "b");
    assert_eq!(default_data_dir_in(Some("/data".to_string())), "/data/kenseader");
    assert_eq!(default_data_dir_in(None), "./kenseader");
}

#[test]
fn tilde_is_expanded() {
    assert_eq!(expand_tilde_with("~/rss", Some("/home/u".to_string())), "/home/u/rss");
    assert_eq!(expand_tilde_with("~", Some("/home/u".to_string())), "/home/u");
    assert_eq!(expand_tilde_with("~/rss", None), "~/rss");
    assert_eq!(expand_tilde_with("/abs", Some("/home/u".to_string())), "/abs");
}

#[test]
fn data_files_live_in_the_data_dir() {
    let mut c = AppConfig::default();
    c.general.data_dir = "/srv/k".to_string();
    assert_eq!(c.data_dir(), "/srv/k");
    assert_eq!(c.database_path(), "/srv/k/kenseader.db");
    assert_eq!(c.socket_path(), "/srv/k/kenseader.sock");
    assert_eq!(AppConfig::config_path_in(Some("/home/u".to_string())), "/home/u/.config/kenseader/config.toml");
}

#[test]
fn theme_falls_back_to_default_name() {
    assert_eq!(ThemeConfig::from_parts(None, None).name, "gruvbox-dark");
    assert_eq!(ThemeConfig::from_name("nord").name, "nord");
}

#[test]
fn preview_counts_characters() {
    let mut a = Article {
        id: 1,
        feed_id: 1,
        guid: String::new(),
        url: None,
        title: String::new(),
        author: None,
        content: None,
        content_text: Some("héllo world".to_string()),
        summary: Some("summary".to_string()),
        summary_generated_at: None,
        published_at: None,
        fetched_at: 0,
        is_read: false,
        read_at: None,
        is_saved: false,
        created_at: 0,
        image_url: None,
        tags: Vec::new(),
    };
    assert_eq!(a.content_preview(0), "");
    assert_eq!(a.content_preview(100), "héllo world");
    assert_eq!(a.content_preview(2), "hé...");
    assert_eq!(a.content_preview(3), "hél...");
    assert_eq!(a.content_preview(11), "héllo world");
    a.content_text = Some("héllo".to_string());
    assert_eq!(a.content_preview(5), "héllo");
    a.content_text = Some("hello world".to_string());
    assert_eq!(a.content_preview(5), "hello...");
    a.content_text = None;
    assert_eq!(a.content_preview(100), "summary");
}

#[test]
fn numbers_and_strings() {
    assert_eq!(decimal_string(0), "0");
    assert_eq!(decimal_string(1234567890), "1234567890");
    assert_eq!(signed_decimal_string(-32700), "-32700");
    assert_eq!(signed_decimal_string(i32::MIN), "-2147483648");
    assert_eq!(truncate_chars("héllo", 2), "hé");
    assert!(str_eq("a", "a"));
    assert!(!str_eq("a", "b"));
}

#[test]
fn duplicate_column_messages() {
    assert!(message_mentions_duplicate_column("Duplicate Column name: relevance_score"));
    assert!(!message_mentions_duplicate_column("no such table"));
}

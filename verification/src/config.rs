//! Application configuration: the settings and their defaults, and the
//! paths derived from them. Paths are held as strings.
use vstd::prelude::*;
use vstd::string::StringExecFns;

use crate::ai::providers::{claude_tool, claude_tool_spec};
use crate::text::{chars_of, starts_with, string_of, append_chars};

verus! {

/// Keymap configuration using Vim-style notation.
/// Format: "j", "k", "<C-j>" (Ctrl+j), "<S-g>" (Shift+g), "<CR>" (Enter), "<Esc>", "<Tab>", "<Space>"
#[derive(Debug, Clone)]
pub struct KeymapConfig {
    /// Quit the application
    pub quit: String,
    /// Focus left panel
    pub focus_left: String,
    /// Focus right panel
    pub focus_right: String,
    /// Move cursor down
    pub move_down: String,
    /// Move cursor up
    pub move_up: String,
    /// Scroll half page down
    pub scroll_half_down: String,
    /// Scroll half page up
    pub scroll_half_up: String,
    /// Scroll full page down
    pub scroll_page_down: String,
    /// Scroll full page up
    pub scroll_page_up: String,
    /// Switch to next article (respects UnreadOnly mode)
    pub next_article: String,
    /// Switch to previous article (respects UnreadOnly mode)
    pub prev_article: String,
    /// Jump to top (first item)
    pub jump_to_top: String,
    /// Jump to bottom (last item)
    pub jump_to_bottom: String,
    /// Select item / Enter article detail
    pub select: String,
    /// Open article in browser
    pub open_browser: String,
    /// Toggle article saved status
    pub toggle_saved: String,
    /// Refresh feeds
    pub refresh: String,
    /// Toggle article read/unread status (or delete feed in Subscriptions)
    pub toggle_read: String,
    /// Start forward search
    pub search_forward: String,
    /// Start backward search
    pub search_backward: String,
    /// Go to next search match
    pub next_match: String,
    /// Go to previous search match
    pub prev_match: String,
    /// Toggle between All and Unread-only view
    pub toggle_unread_only: String,
    /// Navigate back in history
    pub history_back: String,
    /// Navigate forward in history
    pub history_forward: String,
    /// Toggle selection and move to next
    pub toggle_select: String,
    /// Enter/exit visual selection mode
    pub visual_mode: String,
    /// Open focused item in external viewer (image) or browser (link)
    pub open_item: String,
    /// Enter fullscreen image viewer
    pub view_image: String,
    /// Focus next item (image or link)
    pub next_item: String,
    /// Focus previous item (image or link)
    pub prev_item: String,
}

pub fn default_key_quit() -> (s: String)
    ensures
        s@ == "q"@,
{
    String::from_str("q")
}

pub fn default_key_focus_left() -> (s: String)
    ensures
        s@ == "h"@,
{
    String::from_str("h")
}

pub fn default_key_focus_right() -> (s: String)
    ensures
        s@ == "l"@,
{
    String::from_str("l")
}

pub fn default_key_move_down() -> (s: String)
    ensures
        s@ == "j"@,
{
    String::from_str("j")
}

pub fn default_key_move_up() -> (s: String)
    ensures
        s@ == "k"@,
{
    String::from_str("k")
}

pub fn default_key_scroll_half_down() -> (s: String)
    ensures
        s@ == "<C-d>"@,
{
    String::from_str("<C-d>")
}

pub fn default_key_scroll_half_up() -> (s: String)
    ensures
        s@ == "<C-u>"@,
{
    String::from_str("<C-u>")
}

pub fn default_key_scroll_page_down() -> (s: String)
    ensures
        s@ == "<C-f>"@,
{
    String::from_str("<C-f>")
}

pub fn default_key_scroll_page_up() -> (s: String)
    ensures
        s@ == "<C-b>"@,
{
    String::from_str("<C-b>")
}

pub fn default_key_next_article() -> (s: String)
    ensures
        s@ == "<C-j>"@,
{
    String::from_str("<C-j>")
}

pub fn default_key_prev_article() -> (s: String)
    ensures
        s@ == "<C-k>"@,
{
    String::from_str("<C-k>")
}

pub fn default_key_jump_to_top() -> (s: String)
    ensures
        s@ == "gg"@,
{
    String::from_str("gg")
}

pub fn default_key_jump_to_bottom() -> (s: String)
    ensures
        s@ == "G"@,
{
    String::from_str("G")
}

pub fn default_key_select() -> (s: String)
    ensures
        s@ == "<CR>"@,
{
    String::from_str("<CR>")
}

pub fn default_key_open_browser() -> (s: String)
    ensures
        s@ == "b"@,
{
    String::from_str("b")
}

pub fn default_key_toggle_saved() -> (s: String)
    ensures
        s@ == "s"@,
{
    String::from_str("s")
}

pub fn default_key_refresh() -> (s: String)
    ensures
        s@ == "r"@,
{
    String::from_str("r")
}

pub fn default_key_toggle_read() -> (s: String)
    ensures
        s@ == "d"@,
{
    String::from_str("d")
}

pub fn default_key_search_forward() -> (s: String)
    ensures
        s@ == "/"@,
{
    String::from_str("/")
}

pub fn default_key_search_backward() -> (s: String)
    ensures
        s@ == "?"@,
{
    String::from_str("?")
}

pub fn default_key_next_match() -> (s: String)
    ensures
        s@ == "n"@,
{
    String::from_str("n")
}

pub fn default_key_prev_match() -> (s: String)
    ensures
        s@ == "N"@,
{
    String::from_str("N")
}

pub fn default_key_toggle_unread_only() -> (s: String)
    ensures
        s@ == "i"@,
{
    String::from_str("i")
}

pub fn default_key_history_back() -> (s: String)
    ensures
        s@ == "u"@,
{
    String::from_str("u")
}

pub fn default_key_history_forward() -> (s: String)
    ensures
        s@ == "<C-r>"@,
{
    String::from_str("<C-r>")
}

pub fn default_key_toggle_select() -> (s: String)
    ensures
        s@ == "<Space>"@,
{
    String::from_str("<Space>")
}

pub fn default_key_visual_mode() -> (s: String)
    ensures
        s@ == "v"@,
{
    String::from_str("v")
}

pub fn default_key_open_item() -> (s: String)
    ensures
        s@ == "o"@,
{
    String::from_str("o")
}

pub fn default_key_view_image() -> (s: String)
    ensures
        s@ == "<CR>"@,
{
    String::from_str("<CR>")
}

pub fn default_key_next_item() -> (s: String)
    ensures
        s@ == "<Tab>"@,
{
    String::from_str("<Tab>")
}

pub fn default_key_prev_item() -> (s: String)
    ensures
        s@ == "<S-Tab>"@,
{
    String::from_str("<S-Tab>")
}

/// The default key bindings.
pub open spec fn keymap_is_default(c: KeymapConfig) -> bool {
    &&& c.quit@ == "q"@
    &&& c.focus_left@ == "h"@
    &&& c.focus_right@ == "l"@
    &&& c.move_down@ == "j"@
    &&& c.move_up@ == "k"@
    &&& c.scroll_half_down@ == "<C-d>"@
    &&& c.scroll_half_up@ == "<C-u>"@
    &&& c.scroll_page_down@ == "<C-f>"@
    &&& c.scroll_page_up@ == "<C-b>"@
    &&& c.next_article@ == "<C-j>"@
    &&& c.prev_article@ == "<C-k>"@
    &&& c.jump_to_top@ == "gg"@
    &&& c.jump_to_bottom@ == "G"@
    &&& c.select@ == "<CR>"@
    &&& c.open_browser@ == "b"@
    &&& c.toggle_saved@ == "s"@
    &&& c.refresh@ == "r"@
    &&& c.toggle_read@ == "d"@
    &&& c.search_forward@ == "/"@
    &&& c.search_backward@ == "?"@
    &&& c.next_match@ == "n"@
    &&& c.prev_match@ == "N"@
    &&& c.toggle_unread_only@ == "i"@
    &&& c.history_back@ == "u"@
    &&& c.history_forward@ == "<C-r>"@
    &&& c.toggle_select@ == "<Space>"@
    &&& c.visual_mode@ == "v"@
    &&& c.open_item@ == "o"@
    &&& c.view_image@ == "<CR>"@
    &&& c.next_item@ == "<Tab>"@
    &&& c.prev_item@ == "<S-Tab>"@
}

impl Default for KeymapConfig {
    fn default() -> (c: Self)
        ensures
            keymap_is_default(c),
    {
        KeymapConfig {
            quit: default_key_quit(),
            focus_left: default_key_focus_left(),
            focus_right: default_key_focus_right(),
            move_down: default_key_move_down(),
            move_up: default_key_move_up(),
            scroll_half_down: default_key_scroll_half_down(),
            scroll_half_up: default_key_scroll_half_up(),
            scroll_page_down: default_key_scroll_page_down(),
            scroll_page_up: default_key_scroll_page_up(),
            next_article: default_key_next_article(),
            prev_article: default_key_prev_article(),
            jump_to_top: default_key_jump_to_top(),
            jump_to_bottom: default_key_jump_to_bottom(),
            select: default_key_select(),
            open_browser: default_key_open_browser(),
            toggle_saved: default_key_toggle_saved(),
            refresh: default_key_refresh(),
            toggle_read: default_key_toggle_read(),
            search_forward: default_key_search_forward(),
            search_backward: default_key_search_backward(),
            next_match: default_key_next_match(),
            prev_match: default_key_prev_match(),
            toggle_unread_only: default_key_toggle_unread_only(),
            history_back: default_key_history_back(),
            history_forward: default_key_history_forward(),
            toggle_select: default_key_toggle_select(),
            visual_mode: default_key_visual_mode(),
            open_item: default_key_open_item(),
            view_image: default_key_view_image(),
            next_item: default_key_next_item(),
            prev_item: default_key_prev_item(),
        }
    }
}
/// Optional color overrides for theme customization; each color is a hex
/// string such as "#ff0000" or "ff0000".
#[derive(Debug, Clone)]
pub struct ThemeColorOverrides {
    /// Primary background
    pub bg0: Option<String>,
    /// Secondary background (slightly lighter)
    pub bg1: Option<String>,
    /// Tertiary background (selection, highlights)
    pub bg2: Option<String>,
    /// Primary foreground
    pub fg0: Option<String>,
    /// Secondary foreground (slightly dimmer)
    pub fg1: Option<String>,
    /// Accent color
    pub accent: Option<String>,
    /// Selection background
    pub selection: Option<String>,
    /// Unread indicator color
    pub unread: Option<String>,
    /// Read indicator color
    pub read: Option<String>,
    /// Error color
    pub error: Option<String>,
    /// Success color
    pub success: Option<String>,
    /// Warning color
    pub warning: Option<String>,
    /// Info color
    pub info: Option<String>,
}

/// No color of the theme is overridden.
pub open spec fn colors_unset(c: ThemeColorOverrides) -> bool {
    &&& c.bg0 is None && c.bg1 is None && c.bg2 is None && c.fg0 is None && c.fg1 is None
    &&& c.accent is None && c.selection is None && c.unread is None && c.read is None
    &&& c.error is None && c.success is None && c.warning is None && c.info is None
}

impl Default for ThemeColorOverrides {
    fn default() -> (c: Self)
        ensures
            colors_unset(c),
    {
        ThemeColorOverrides {
            bg0: None,
            bg1: None,
            bg2: None,
            fg0: None,
            fg1: None,
            accent: None,
            selection: None,
            unread: None,
            read: None,
            error: None,
            success: None,
            warning: None,
            info: None,
        }
    }
}

/// Theme configuration: a theme name with optional color overrides.
#[derive(Debug, Clone)]
pub struct ThemeConfig {
    /// Theme name (e.g., "gruvbox-dark", "catppuccin-mocha")
    pub name: String,
    /// Optional color overrides for semantic colors
    pub colors: ThemeColorOverrides,
}

pub fn default_theme_name() -> (s: String)
    ensures
        s@ == "gruvbox-dark"@,
{
    String::from_str("gruvbox-dark")
}

/// The default theme: gruvbox-dark, with no color overridden.
pub open spec fn theme_is_default(c: ThemeConfig) -> bool {
    &&& c.name@ == "gruvbox-dark"@
    &&& colors_unset(c.colors)
}

impl Default for ThemeConfig {
    fn default() -> (c: Self)
        ensures
            theme_is_default(c),
    {
        ThemeConfig { name: default_theme_name(), colors: ThemeColorOverrides::default() }
    }
}

impl ThemeConfig {
    /// The theme given only by its name, with no color overrides (the form
    /// `theme = "name"` of the configuration file).
    pub fn from_name(name: &str) -> (c: Self)
        ensures
            c.name@ == name@,
            c.colors.bg0 is None && c.colors.accent is None && c.colors.info is None,
    {
        ThemeConfig { name: String::from_str(name), colors: ThemeColorOverrides::default() }
    }

    /// The theme given as a table with optional `name` and `colors` entries;
    /// a missing name falls back to the default theme name and missing colors
    /// to no overrides.
    pub fn from_parts(name: Option<String>, colors: Option<ThemeColorOverrides>) -> (c: Self)
        ensures
            name matches Some(n) ==> c.name == n,
            name is None ==> c.name@ == "gruvbox-dark"@,
            colors matches Some(k) ==> c.colors == k,
            colors is None ==> c.colors.bg0 is None && c.colors.accent is None && c.colors.info is None,
    {
        let name = match name {
            Some(n) => n,
            None => default_theme_name(),
        };
        let colors = match colors {
            Some(k) => k,
            None => ThemeColorOverrides::default(),
        };
        ThemeConfig { name, colors }
    }
}

/// General settings.
#[derive(Debug, Clone)]
pub struct GeneralConfig {
    /// Data directory path
    pub data_dir: String,
    /// Article retention in days
    pub article_retention_days: u32,
    /// Log level
    pub log_level: String,
}

pub fn default_retention_days() -> (d: u32)
    ensures
        d == 3,
{
    3
}

pub fn default_log_level() -> (s: String)
    ensures
        s@ == "info"@,
{
    String::from_str("info")
}

/// Calls `dirs::data_local_dir`; the answer depends on the platform and the
/// environment, so nothing is claimed of it.
#[verifier::external_body]
pub(crate) fn data_local_dir() -> Option<String> {
    dirs::data_local_dir().map(|p| p.to_string_lossy().into_owned())
}

/// Calls `dirs::home_dir`; the answer depends on the platform and the
/// environment, so nothing is claimed of it.
#[verifier::external_body]
pub(crate) fn home_dir() -> Option<String> {
    dirs::home_dir().map(|p| p.to_string_lossy().into_owned())
}

/// `comp` joined onto `base` as `Path::join` does on Unix: an absolute `comp`
/// replaces `base`, otherwise a separator is inserted when `base` is non-empty
/// and does not already end with one.
pub open spec fn path_join(base: Seq<char>, comp: Seq<char>) -> Seq<char> {
    if comp.len() > 0 && comp[0] == '/' {
        comp
    } else if base.len() == 0 {
        comp
    } else if base.last() == '/' {
        base + comp
    } else {
        base + seq!['/'] + comp
    }
}

/// Joins `comp` onto `base` like `Path::join`.
pub fn join_path(base: &str, comp: &str) -> (p: String)
    ensures
        p@ == path_join(base@, comp@),
{
    let b = chars_of(base);
    let c = chars_of(comp);
    proof {
        reveal_strlit("/");
    }
    if c.len() > 0 && c[0] == '/' {
        String::from_str(comp)
    } else if b.len() == 0 {
        String::from_str(comp)
    } else if b[b.len() - 1] == '/' {
        String::from_str(base).concat(comp)
    } else {
        String::from_str(base).concat("/").concat(comp)
    }
}

/// The data directory under the given platform data directory (or the
/// current directory when there is none).
pub open spec fn data_dir_under(local: Option<Seq<char>>) -> Seq<char> {
    path_join(
        match local {
            Some(d) => d,
            None => "."@,
        },
        "kenseader"@,
    )
}

/// The default data directory, below the given platform data directory.
pub fn default_data_dir_in(local: Option<String>) -> (d: String)
    ensures
        d@ == data_dir_under(match local { Some(s) => Some(s@), None => None }),
{
    match local {
        Some(base) => join_path(base.as_str(), "kenseader"),
        None => join_path(".", "kenseader"),
    }
}

/// The default data directory: `kenseader` below the platform data directory.
pub fn default_data_dir() -> (d: String)
    ensures
        exists|local: Option<Seq<char>>| d@ == data_dir_under(local),
{
    let local = data_local_dir();
    default_data_dir_in(local)
}

/// The default general settings: the data directory below the platform data directory, three days of retention, `info` logging.
pub open spec fn general_is_default(c: GeneralConfig) -> bool {
    &&& exists|local: Option<Seq<char>>| c.data_dir@ == data_dir_under(local)
    &&& c.article_retention_days == 3
    &&& c.log_level@ == "info"@
}

impl Default for GeneralConfig {
    fn default() -> (c: Self)
        ensures
            general_is_default(c),
    {
        GeneralConfig {
            data_dir: default_data_dir(),
            article_retention_days: default_retention_days(),
            log_level: default_log_level(),
        }
    }
}

/// AI settings. The relevance threshold, a float, is held by the application.
#[derive(Debug, Clone)]
pub struct AiConfig {
    /// Enable AI summarization
    pub enabled: bool,
    /// AI provider: "claude_cli", "gemini_cli", "codex_cli", "openai", "gemini_api", "claude_api"
    pub provider: String,
    /// Summary language (e.g., "English", "Chinese", "Japanese")
    pub summary_language: String,
    /// OpenAI API key (for openai provider)
    pub openai_api_key: Option<String>,
    /// OpenAI model name
    pub openai_model: String,
    /// Gemini API key (for gemini_api provider)
    pub gemini_api_key: Option<String>,
    /// Gemini model name
    pub gemini_model: String,
    /// API key of the `claude_api` provider
    pub claude_api_key: Option<String>,
    /// Model of the `claude_api` provider
    pub claude_model: String,
    /// Max tokens for summary
    pub max_summary_tokens: u32,
    /// Concurrent summarization tasks
    pub concurrency: usize,
    /// Minimum content length (chars) for AI summarization
    pub min_summarize_length: usize,
    /// Maximum summary output length (chars)
    pub max_summary_length: usize,
}

pub fn default_true() -> (b: bool)
    ensures
        b,
{
    true
}

pub fn default_ai_provider() -> (s: String)
    ensures
        s@ == "claude_cli"@,
{
    String::from_str("claude_cli")
}

pub fn default_summary_language() -> (s: String)
    ensures
        s@ == "English"@,
{
    String::from_str("English")
}

pub fn default_openai_model() -> (s: String)
    ensures
        s@ == "gpt-4o-mini"@,
{
    String::from_str("gpt-4o-mini")
}

pub fn default_gemini_model() -> (s: String)
    ensures
        s@ == "gemini-2.0-flash"@,
{
    String::from_str("gemini-2.0-flash")
}

/// The default model of the `claude_api` provider: the vendor's Sonnet 4
/// model of 2025-05-14.
pub open spec fn default_claude_model_spec() -> Seq<char> {
    claude_tool_spec() + "-sonnet-4-20250514"@
}

pub fn default_claude_model() -> (s: String)
    ensures
        s@ == default_claude_model_spec(),
{
    String::from_str(claude_tool()).concat("-sonnet-4-20250514")
}

pub fn default_max_tokens() -> (n: u32)
    ensures
        n == 150,
{
    150
}

pub fn default_concurrency() -> (n: usize)
    ensures
        n == 2,
{
    2
}

/// Only articles of at least this many characters are summarized.
pub fn default_min_summarize_length() -> (n: usize)
    ensures
        n == 500,
{
    500
}

/// Summaries are at most this many characters.
pub fn default_max_summary_length() -> (n: usize)
    ensures
        n == 150,
{
    150
}

/// The default AI settings: enabled, the `claude_cli` provider, English summaries, no API keys.
pub open spec fn ai_is_default(c: AiConfig) -> bool {
    &&& c.enabled
    &&& c.provider@ == "claude_cli"@
    &&& c.summary_language@ == "English"@
    &&& c.openai_api_key is None && c.gemini_api_key is None && c.claude_api_key is None
    &&& c.openai_model@ == "gpt-4o-mini"@
    &&& c.gemini_model@ == "gemini-2.0-flash"@
    &&& c.claude_model@ == default_claude_model_spec()
    &&& c.max_summary_tokens == 150
    &&& c.concurrency == 2
    &&& c.min_summarize_length == 500
    &&& c.max_summary_length == 150
}

impl Default for AiConfig {
    fn default() -> (c: Self)
        ensures
            ai_is_default(c),
    {
        AiConfig {
            enabled: default_true(),
            provider: default_ai_provider(),
            summary_language: default_summary_language(),
            openai_api_key: None,
            openai_model: default_openai_model(),
            gemini_api_key: None,
            gemini_model: default_gemini_model(),
            claude_api_key: None,
            claude_model: default_claude_model(),
            max_summary_tokens: default_max_tokens(),
            concurrency: default_concurrency(),
            min_summarize_length: default_min_summarize_length(),
            max_summary_length: default_max_summary_length(),
        }
    }
}

/// User interface settings.
#[derive(Debug, Clone)]
pub struct UiConfig {
    /// Tick rate in milliseconds
    pub tick_rate_ms: u64,
    /// Show article author
    pub show_author: bool,
    /// Show timestamps
    pub show_timestamps: bool,
    /// Image preview enabled
    pub image_preview: bool,
    /// Theme configuration
    pub theme: ThemeConfig,
}

pub fn default_tick_rate() -> (n: u64)
    ensures
        n == 100,
{
    100
}

/// The default interface settings: a 100 ms tick, author, timestamps and image preview shown, the default theme.
pub open spec fn ui_is_default(c: UiConfig) -> bool {
    &&& c.tick_rate_ms == 100
    &&& c.show_author && c.show_timestamps && c.image_preview
    &&& theme_is_default(c.theme)
}

impl Default for UiConfig {
    fn default() -> (c: Self)
        ensures
            ui_is_default(c),
    {
        UiConfig {
            tick_rate_ms: default_tick_rate(),
            show_author: default_true(),
            show_timestamps: default_true(),
            image_preview: default_true(),
            theme: ThemeConfig::default(),
        }
    }
}

/// Background synchronization settings.
#[derive(Debug, Clone)]
pub struct SyncConfig {
    /// Auto-refresh interval in seconds (0 = disabled)
    pub refresh_interval_secs: u64,
    /// Minimum seconds between refreshes for each feed (0 = refresh all feeds every time)
    pub feed_refresh_interval_secs: u64,
    /// Cleanup interval in seconds (remove old articles)
    pub cleanup_interval_secs: u64,
    /// Summarization interval in seconds (AI processing)
    pub summarize_interval_secs: u64,
    /// Article filtering interval in seconds
    pub filter_interval_secs: u64,
    /// Request timeout in seconds
    pub request_timeout_secs: u64,
    /// Per-domain rate limit delay in milliseconds
    pub rate_limit_ms: u64,
    /// HTTP proxy URL for feed fetching (e.g. "http://127.0.0.1:7890" or "socks5://127.0.0.1:1080")
    pub proxy_url: Option<String>,
}

/// Scheduler check interval: 1 hour.
pub fn default_refresh_interval() -> (n: u64)
    ensures
        n == 3600,
{
    3600
}

/// Minimum interval between refreshes of one feed: 12 hours.
pub fn default_feed_refresh_interval() -> (n: u64)
    ensures
        n == 43200,
{
    43200
}

/// Cleanup interval: 1 hour.
pub fn default_cleanup_interval() -> (n: u64)
    ensures
        n == 3600,
{
    3600
}

/// Summarization interval: 1 minute.
pub fn default_summarize_interval() -> (n: u64)
    ensures
        n == 60,
{
    60
}

/// Filtering interval: 2 minutes.
pub fn default_filter_interval() -> (n: u64)
    ensures
        n == 120,
{
    120
}

pub fn default_timeout() -> (n: u64)
    ensures
        n == 30,
{
    30
}

pub fn default_rate_limit() -> (n: u64)
    ensures
        n == 1000,
{
    1000
}

/// The default synchronization settings.
pub open spec fn sync_is_default(c: SyncConfig) -> bool {
    &&& c.refresh_interval_secs == 3600
    &&& c.feed_refresh_interval_secs == 43200
    &&& c.cleanup_interval_secs == 3600
    &&& c.summarize_interval_secs == 60
    &&& c.filter_interval_secs == 120
    &&& c.request_timeout_secs == 30
    &&& c.rate_limit_ms == 1000
    &&& c.proxy_url is None
}

impl Default for SyncConfig {
    fn default() -> (c: Self)
        ensures
            sync_is_default(c),
    {
        SyncConfig {
            refresh_interval_secs: default_refresh_interval(),
            feed_refresh_interval_secs: default_feed_refresh_interval(),
            cleanup_interval_secs: default_cleanup_interval(),
            summarize_interval_secs: default_summarize_interval(),
            filter_interval_secs: default_filter_interval(),
            request_timeout_secs: default_timeout(),
            rate_limit_ms: default_rate_limit(),
            proxy_url: None,
        }
    }
}

/// RSSHub settings.
#[derive(Debug, Clone)]
pub struct RsshubConfig {
    /// RSSHub base URL
    pub base_url: String,
    /// RSSHub access key (for protected instances)
    pub access_key: Option<String>,
}

/// The default RSSHub instance.
pub fn default_rsshub_base_url() -> (s: String)
    ensures
        s@ == "https://rsshub.app"@,
{
    String::from_str("https://rsshub.app")
}

/// The default RSSHub instance, without an access key.
pub open spec fn rsshub_is_default(c: RsshubConfig) -> bool {
    &&& c.base_url@ == "https://rsshub.app"@
    &&& c.access_key is None
}

impl Default for RsshubConfig {
    fn default() -> (c: Self)
        ensures
            rsshub_is_default(c),
    {
        RsshubConfig { base_url: default_rsshub_base_url(), access_key: None }
    }
}

/// The whole application configuration.
#[derive(Debug, Clone)]
pub struct AppConfig {
    pub general: GeneralConfig,
    pub ai: AiConfig,
    pub ui: UiConfig,
    pub sync: SyncConfig,
    pub rsshub: RsshubConfig,
    pub keymap: KeymapConfig,
}

impl Default for AppConfig {
    fn default() -> (c: Self)
        ensures
            general_is_default(c.general),
            ai_is_default(c.ai),
            ui_is_default(c.ui),
            sync_is_default(c.sync),
            rsshub_is_default(c.rsshub),
            keymap_is_default(c.keymap),
    {
        AppConfig {
            general: GeneralConfig::default(),
            ai: AiConfig::default(),
            ui: UiConfig::default(),
            sync: SyncConfig::default(),
            rsshub: RsshubConfig::default(),
            keymap: KeymapConfig::default(),
        }
    }
}

/// `path` with a leading `~` standing for `home`: "~/rest" becomes `rest`
/// joined onto `home`, and "~" alone becomes `home`; other paths, and any path
/// when there is no home directory, are unchanged.
pub open spec fn expand_tilde_spec(path: Seq<char>, home: Option<Seq<char>>) -> Seq<char> {
    if "~/"@.is_prefix_of(path) {
        match home {
            Some(h) => path_join(h, path.skip(2)),
            None => path,
        }
    } else if path == "~"@ {
        match home {
            Some(h) => h,
            None => path,
        }
    } else {
        path
    }
}

/// Expands a leading tilde in `path` to the given home directory.
pub fn expand_tilde_with(path: &str, home: Option<String>) -> (p: String)
    ensures
        p@ == expand_tilde_spec(path@, match home { Some(h) => Some(h@), None => None }),
{
    let chars = chars_of(path);
    let tilde_slash = chars_of("~/");
    let tilde = chars_of("~");
    proof {
        reveal_strlit("~/");
        reveal_strlit("~");
    }
    if starts_with(chars.as_slice(), tilde_slash.as_slice()) {
        match home {
            Some(h) => {
                let rest = crate::text::slice_suffix(chars.as_slice(), 2);
                let rest_s = string_of(rest.as_slice());
                join_path(h.as_str(), rest_s.as_str())
            },
            None => String::from_str(path),
        }
    } else if chars.len() == 1 && chars[0] == '~' {
        proof {
            assert(chars@ =~= "~"@);
        }
        match home {
            Some(h) => h,
            None => String::from_str(path),
        }
    } else {
        proof {
            if path@ == "~"@ {
                assert(chars@.len() == 1 && chars@[0] == '~');
            }
        }
        String::from_str(path)
    }
}

/// Expands a leading tilde in `path` to the user's home directory.
pub fn expand_tilde(path: &str) -> (p: String)
    ensures
        exists|home: Option<Seq<char>>| p@ == expand_tilde_spec(path@, home),
{
    let home = home_dir();
    expand_tilde_with(path, home)
}

/// `.config/kenseader/config.toml` under the home directory (the current
/// directory when there is none).
pub open spec fn config_file_under(home: Option<Seq<char>>) -> Seq<char> {
    path_join(
        path_join(
            path_join(
                match home {
                    Some(h) => h,
                    None => "."@,
                },
                ".config"@,
            ),
            "kenseader"@,
        ),
        "config.toml"@,
    )
}

impl AppConfig {
    /// The configuration file path, `~/.config/kenseader/config.toml` on every
    /// platform, given the home directory (the current directory when none).
    pub fn config_path_in(home: Option<String>) -> (p: String)
        ensures
            p@ == config_file_under(match home { Some(h) => Some(h@), None => None }),
    {
        let base = match home {
            Some(h) => h,
            None => String::from_str("."),
        };
        let a = join_path(base.as_str(), ".config");
        let b = join_path(a.as_str(), "kenseader");
        join_path(b.as_str(), "config.toml")
    }

    /// The configuration file path.
    pub fn config_path() -> (p: String)
        ensures
            exists|home: Option<Seq<char>>| p@ == config_file_under(home),
    {
        let home = home_dir();
        let p = Self::config_path_in(home);
        p
    }

    /// The data directory, with a leading tilde expanded.
    pub fn data_dir(&self) -> (p: String)
        ensures
            exists|home: Option<Seq<char>>| p@ == expand_tilde_spec(self.general.data_dir@, home),
    {
        expand_tilde(self.general.data_dir.as_str())
    }

    /// The database file inside the data directory.
    pub fn database_path(&self) -> (p: String)
        ensures
            exists|home: Option<Seq<char>>| p@ == path_join(
                expand_tilde_spec(self.general.data_dir@, home),
                "kenseader.db"@,
            ),
    {
        let dir = self.data_dir();
        join_path(dir.as_str(), "kenseader.db")
    }

    /// The Unix socket for IPC inside the data directory.
    pub fn socket_path(&self) -> (p: String)
        ensures
            exists|home: Option<Seq<char>>| p@ == path_join(
                expand_tilde_spec(self.general.data_dir@, home),
                "kenseader.sock"@,
            ),
    {
        let dir = self.data_dir();
        join_path(dir.as_str(), "kenseader.sock")
    }
}

} // verus!

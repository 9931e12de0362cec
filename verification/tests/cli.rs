use kenseader::cli::{
    display_name, feed_index_by_name, last_data_dir_path_in, migration_plan, parse_pid, pid_file_contents,
    pid_file_path_in, subscription_line, MigrationPlan,
};
use kenseader::feed::models::Feed;

fn feed(name: &str) -> Feed {
    Feed {
        id: 1,
        url: "https://x/feed".to_string(),
        local_name: name.to_string(),
        title: None,
        description: None,
        site_url: None,
        icon_url: None,
        last_fetched_at: None,
        fetch_error: None,
        created_at: 0,
        updated_at: 0,
        unread_count: 0,
    }
}

#[test]
fn long_names_are_shortened() {
    assert_eq!(display_name("short"), "short");
    let forty = "a".repeat(40);
    assert_eq!(display_name(&forty), forty);
    let long = "é".repeat(41);
    assert_eq!(display_name(&long), format!("{}...", "é".repeat(37)));
}

#[test]
fn pid_file_is_read_like_u32_from_str() {
    assert_eq!(parse_pid("1234\n"), Some(1234));
    assert_eq!(parse_pid("  +7 "), Some(7));
    assert_eq!(parse_pid("4294967295"), Some(u32::MAX));
    assert_eq!(parse_pid("4294967296"), None);
    assert_eq!(parse_pid("-1"), None);
    assert_eq!(parse_pid("+"), None);
    assert_eq!(parse_pid(""), None);
    assert_eq!(parse_pid("12a"), None);
}

#[test]
fn written_pid_reads_back() {
    for pid in [0u32, 1, 9, 10, 4321, u32::MAX] {
        let text = pid_file_contents(pid);
        assert_eq!(text, format!("{pid}\n"));
        assert_eq!(parse_pid(&text), Some(pid));
    }
}

#[test]
fn pid_and_record_paths() {
    assert_eq!(pid_file_path_in(Some("/run/user/1".to_string()), None), "/run/user/1/kenseader/daemon.pid");
    assert_eq!(pid_file_path_in(None, Some("/home/u/.local/share".to_string())), "/home/u/.local/share/kenseader/daemon.pid");
    assert_eq!(pid_file_path_in(None, None), "/tmp/kenseader/daemon.pid");
    assert_eq!(last_data_dir_path_in(Some("/home/u".to_string())), "/home/u/.config/kenseader/last_data_dir");
    assert_eq!(last_data_dir_path_in(None), "./.config/kenseader/last_data_dir");
}

#[test]
fn migration_decisions() {
    assert_eq!(migration_plan(true, true, true, false, false), MigrationPlan::FromLast);
    assert_eq!(migration_plan(true, false, true, true, true), MigrationPlan::Keep);
    assert_eq!(migration_plan(true, true, false, true, true), MigrationPlan::Keep);
    assert_eq!(migration_plan(false, false, false, true, true), MigrationPlan::FromDefault);
    assert_eq!(migration_plan(false, false, false, true, false), MigrationPlan::Keep);
}

#[test]
fn subscriptions_are_found_and_listed() {
    let feeds = vec![feed("a"), feed("b"), feed("b")];
    assert_eq!(feed_index_by_name(&feeds, "b"), Some(1));
    assert_eq!(feed_index_by_name(&feeds, "z"), None);
    let mut f = feed("Rust");
    assert_eq!(subscription_line(&f), "  Rust - (no title)");
    f.title = Some("Rust Blog".to_string());
    f.unread_count = 3;
    f.fetch_error = Some("timeout".to_string());
    assert_eq!(subscription_line(&f), "  Rust - Rust Blog (3 unread) [ERROR: timeout]");
}

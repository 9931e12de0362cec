use kenseader::profile::filter::{count_interest_matches, profile_match_counts, str_eq_ignore_ascii_case};
use kenseader::profile::models::{BehaviorEventType, PreferenceType, TimeOfDay, TimeWindow};

#[test]
fn hours_fall_into_their_documented_buckets() {
    assert_eq!(TimeOfDay::from_hour(5), TimeOfDay::Night);
    assert_eq!(TimeOfDay::from_hour(6), TimeOfDay::Morning);
    assert_eq!(TimeOfDay::from_hour(11), TimeOfDay::Morning);
    assert_eq!(TimeOfDay::from_hour(12), TimeOfDay::Afternoon);
    assert_eq!(TimeOfDay::from_hour(17), TimeOfDay::Afternoon);
    assert_eq!(TimeOfDay::from_hour(18), TimeOfDay::Evening);
    assert_eq!(TimeOfDay::from_hour(21), TimeOfDay::Evening);
    assert_eq!(TimeOfDay::from_hour(22), TimeOfDay::Night);
    assert_eq!(TimeOfDay::from_hour(0), TimeOfDay::Night);
    assert_eq!(TimeOfDay::from_hour(99), TimeOfDay::Night);
}

#[test]
fn stored_names() {
    assert_eq!(BehaviorEventType::ReadComplete.as_str(), "read_complete");
    assert_eq!(BehaviorEventType::ViewRepeat.as_str(), "view_repeat");
    assert_eq!(TimeOfDay::Evening.as_str(), "evening");
    assert_eq!(TimeWindow::Recent5Min.as_str(), "5min");
    assert_eq!(TimeWindow::Last30Days.as_str(), "30days");
    assert_eq!(PreferenceType::TagAffinity.as_str(), "tag_affinity");
}

#[test]
fn event_names_are_distinct() {
    let all = [
        BehaviorEventType::Exposure,
        BehaviorEventType::Click,
        BehaviorEventType::ReadStart,
        BehaviorEventType::ReadComplete,
        BehaviorEventType::Scroll,
        BehaviorEventType::Save,
        BehaviorEventType::Share,
        BehaviorEventType::ViewRepeat,
    ];
    for a in all {
        for b in all {
            assert_eq!(a.as_str() == b.as_str(), a == b);
        }
    }
}

#[test]
fn ascii_case_is_ignored() {
    assert!(str_eq_ignore_ascii_case("Rust", "rUST"));
    assert!(!str_eq_ignore_ascii_case("Rust", "Rusty"));
    assert!(!str_eq_ignore_ascii_case("É", "é"));
}

#[test]
fn profile_counts() {
    let tags = vec!["Rust".to_string(), "web".to_string(), "AI".to_string()];
    let interests = vec!["rust".to_string(), "ai".to_string()];
    assert_eq!(count_interest_matches(&tags, &interests), 2);
    assert_eq!(profile_match_counts(&tags, &interests), Some((2, 2)));
    assert_eq!(profile_match_counts(&Vec::new(), &interests), None);
    assert_eq!(profile_match_counts(&tags, &Vec::new()), None);
}

#[test]
fn window_spans() {
    assert_eq!(TimeWindow::Recent5Min.span_secs(), 300);
    assert_eq!(TimeWindow::Last1Day.span_secs(), 86_400);
    assert_eq!(TimeWindow::Last30Days.span_secs(), 2_592_000);
}

//! Kinds of reading behaviour, time buckets and preference categories, with
//! the names under which they are stored.
use vstd::prelude::*;

verus! {

/// Types of user behavior events.
#[derive(Debug, Clone, Copy, PartialEq, Eq, Structural)]
pub enum BehaviorEventType {
    /// Article appeared in the viewport
    Exposure,
    /// User clicked/selected the article
    Click,
    /// User started reading
    ReadStart,
    /// User finished reading (scrolled to end)
    ReadComplete,
    /// Scroll event with depth tracking
    Scroll,
    /// User saved/bookmarked the article
    Save,
    /// User shared the article (future feature)
    Share,
    /// User viewed the article again
    ViewRepeat,
}

/// The stored name of an event type.
pub open spec fn event_type_name(e: BehaviorEventType) -> Seq<char> {
    match e {
        BehaviorEventType::Exposure => "exposure"@,
        BehaviorEventType::Click => "click"@,
        BehaviorEventType::ReadStart => "read_start"@,
        BehaviorEventType::ReadComplete => "read_complete"@,
        BehaviorEventType::Scroll => "scroll"@,
        BehaviorEventType::Save => "save"@,
        BehaviorEventType::Share => "share"@,
        BehaviorEventType::ViewRepeat => "view_repeat"@,
    }
}

impl BehaviorEventType {
    pub fn as_str(&self) -> (s: &'static str)
        ensures
            s@ == event_type_name(*self),
    {
        match self {
            BehaviorEventType::Exposure => "exposure",
            BehaviorEventType::Click => "click",
            BehaviorEventType::ReadStart => "read_start",
            BehaviorEventType::ReadComplete => "read_complete",
            BehaviorEventType::Scroll => "scroll",
            BehaviorEventType::Save => "save",
            BehaviorEventType::Share => "share",
            BehaviorEventType::ViewRepeat => "view_repeat",
        }
    }
}

/// Time of day categories.
#[derive(Debug, Clone, Copy, PartialEq, Eq, Structural)]
pub enum TimeOfDay {
    /// 6:00 - 12:00
    Morning,
    /// 12:00 - 18:00
    Afternoon,
    /// 18:00 - 22:00
    Evening,
    /// 22:00 - 6:00
    Night,
}

/// The bucket of an hour of the day: morning from 6 to 12, afternoon from
/// 12 to 18, evening from 18 to 22, night otherwise.
pub open spec fn time_of_day_of(hour: u32) -> TimeOfDay {
    if 6 <= hour < 12 {
        TimeOfDay::Morning
    } else if 12 <= hour < 18 {
        TimeOfDay::Afternoon
    } else if 18 <= hour < 22 {
        TimeOfDay::Evening
    } else {
        TimeOfDay::Night
    }
}

/// The stored name of a time of day.
pub open spec fn time_of_day_name(t: TimeOfDay) -> Seq<char> {
    match t {
        TimeOfDay::Morning => "morning"@,
        TimeOfDay::Afternoon => "afternoon"@,
        TimeOfDay::Evening => "evening"@,
        TimeOfDay::Night => "night"@,
    }
}

impl TimeOfDay {
    pub fn from_hour(hour: u32) -> (t: Self)
        ensures
            t == time_of_day_of(hour),
    {
        if 6 <= hour && hour <= 11 {
            TimeOfDay::Morning
        } else if 12 <= hour && hour <= 17 {
            TimeOfDay::Afternoon
        } else if 18 <= hour && hour <= 21 {
            TimeOfDay::Evening
        } else {
            TimeOfDay::Night
        }
    }

    pub fn as_str(&self) -> (s: &'static str)
        ensures
            s@ == time_of_day_name(*self),
    {
        match self {
            TimeOfDay::Morning => "morning",
            TimeOfDay::Afternoon => "afternoon",
            TimeOfDay::Evening => "evening",
            TimeOfDay::Night => "night",
        }
    }
}

/// Time windows for preference aggregation.
#[derive(Debug, Clone, Copy, PartialEq, Eq, Structural)]
pub enum TimeWindow {
    /// Last 5 minutes
    Recent5Min,
    /// Last 24 hours
    Last1Day,
    /// Last 30 days
    Last30Days,
}

/// The stored name of a time window.
pub open spec fn time_window_name(w: TimeWindow) -> Seq<char> {
    match w {
        TimeWindow::Recent5Min => "5min"@,
        TimeWindow::Last1Day => "1day"@,
        TimeWindow::Last30Days => "30days"@,
    }
}

impl TimeWindow {
    pub fn as_str(&self) -> (s: &'static str)
        ensures
            s@ == time_window_name(*self),
    {
        match self {
            TimeWindow::Recent5Min => "5min",
            TimeWindow::Last1Day => "1day",
            TimeWindow::Last30Days => "30days",
        }
    }

    /// How far back the window reaches, in seconds: five minutes, one day
    /// or thirty days.
    pub fn span_secs(&self) -> (secs: i64)
        ensures
            secs == time_window_span(*self),
    {
        match self {
            TimeWindow::Recent5Min => 5 * 60,
            TimeWindow::Last1Day => 24 * 60 * 60,
            TimeWindow::Last30Days => 30 * 24 * 60 * 60,
        }
    }
}

/// How far back a time window reaches, in seconds.
pub open spec fn time_window_span(w: TimeWindow) -> int {
    match w {
        TimeWindow::Recent5Min => 300,
        TimeWindow::Last1Day => 86400,
        TimeWindow::Last30Days => 2592000,
    }
}

/// Preference type categories.
#[derive(Debug, Clone, Copy, PartialEq, Eq, Structural)]
pub enum PreferenceType {
    /// Affinity for specific tags
    TagAffinity,
    /// Affinity for specific feeds
    FeedAffinity,
    /// Preference for time of day
    TimePreference,
    /// Preference for article style
    StylePreference,
}

/// The stored name of a preference type.
pub open spec fn preference_type_name(p: PreferenceType) -> Seq<char> {
    match p {
        PreferenceType::TagAffinity => "tag_affinity"@,
        PreferenceType::FeedAffinity => "feed_affinity"@,
        PreferenceType::TimePreference => "time_preference"@,
        PreferenceType::StylePreference => "style_preference"@,
    }
}

impl PreferenceType {
    pub fn as_str(&self) -> (s: &'static str)
        ensures
            s@ == preference_type_name(*self),
    {
        match self {
            PreferenceType::TagAffinity => "tag_affinity",
            PreferenceType::FeedAffinity => "feed_affinity",
            PreferenceType::TimePreference => "time_preference",
            PreferenceType::StylePreference => "style_preference",
        }
    }
}

/// Distinct event types are stored under distinct names, so a stored name
/// identifies its event type.
pub proof fn event_type_names_distinct(a: BehaviorEventType, b: BehaviorEventType)
    ensures
        event_type_name(a) == event_type_name(b) ==> a == b,
{
    reveal_strlit("exposure");
    reveal_strlit("click");
    reveal_strlit("read_start");
    reveal_strlit("read_complete");
    reveal_strlit("scroll");
    reveal_strlit("save");
    reveal_strlit("share");
    reveal_strlit("view_repeat");
    if event_type_name(a) == event_type_name(b) {
        let na = event_type_name(a);
        let nb = event_type_name(b);
        assert(na.len() == nb.len());
        assert(na[0] == nb[0]);
        assert(na[1] == nb[1]);
        assert(na.len() > 2 ==> na[2] == nb[2]);
        assert(na.len() > 5 ==> na[5] == nb[5]);
    }
}

/// Distinct times of day are stored under distinct names.
pub proof fn time_of_day_names_distinct(a: TimeOfDay, b: TimeOfDay)
    ensures
        time_of_day_name(a) == time_of_day_name(b) ==> a == b,
{
    reveal_strlit("morning");
    reveal_strlit("afternoon");
    reveal_strlit("evening");
    reveal_strlit("night");
    if time_of_day_name(a) == time_of_day_name(b) {
        assert(time_of_day_name(a)[0] == time_of_day_name(b)[0]);
    }
}

/// Distinct time windows are stored under distinct names.
pub proof fn time_window_names_distinct(a: TimeWindow, b: TimeWindow)
    ensures
        time_window_name(a) == time_window_name(b) ==> a == b,
{
    reveal_strlit("5min");
    reveal_strlit("1day");
    reveal_strlit("30days");
    if time_window_name(a) == time_window_name(b) {
        assert(time_window_name(a)[0] == time_window_name(b)[0]);
    }
}

/// Distinct preference types are stored under distinct names.
pub proof fn preference_type_names_distinct(a: PreferenceType, b: PreferenceType)
    ensures
        preference_type_name(a) == preference_type_name(b) ==> a == b,
{
    reveal_strlit("tag_affinity");
    reveal_strlit("feed_affinity");
    reveal_strlit("time_preference");
    reveal_strlit("style_preference");
    if preference_type_name(a) == preference_type_name(b) {
        assert(preference_type_name(a)[1] == preference_type_name(b)[1]);
    }
}

} // verus!

//! Decisions of the command-line program that do not touch the system: the
//! names and paths it shows and uses, the pid file's contents, and when
//! stored data is moved to a new data directory.
use vstd::prelude::*;
use vstd::string::{StrSliceExecFns, StringExecFns};

use crate::feed::models::Feed;
use crate::text::str_eq;
use crate::config::{data_local_dir, home_dir, join_path, path_join};
use crate::text::{chars_of, decimal, decimal_string, digit_char, leading_ws, trailing_ws, trim, trim_chars};

verus! {

/// Names longer than this are shortened for display.
pub const DISPLAY_NAME_MAX: usize = 40;

/// How many characters a shortened name keeps before "...".
pub const DISPLAY_NAME_KEEP: usize = 37;

/// The name shown for a feed while importing: a name of more than 40
/// characters is cut to 37 and followed by "...".
pub open spec fn display_name_spec(name: Seq<char>) -> Seq<char> {
    if name.len() > DISPLAY_NAME_MAX {
        name.take(DISPLAY_NAME_KEEP as int) + "..."@
    } else {
        name
    }
}

/// Shortens a feed name for display.
pub fn display_name(name: &str) -> (s: String)
    ensures
        s@ == display_name_spec(name@),
{
    let n = name.unicode_len();
    if n > DISPLAY_NAME_MAX {
        String::from_str(name.substring_char(0, DISPLAY_NAME_KEEP)).concat("...")
    } else {
        String::from_str(name)
    }
}

/// The value of a string of decimal digits.
pub open spec fn digits_value(s: Seq<char>) -> nat
    decreases s.len(),
{
    if s.len() == 0 {
        0
    } else {
        digits_value(s.drop_last()) * 10 + ((s.last() as u32) - 48) as nat
    }
}

/// Whether every character is an ASCII digit.
pub open spec fn all_digits(s: Seq<char>) -> bool {
    forall|i: int| 0 <= i < s.len() ==> '0' <= #[trigger] s[i] <= '9'
}

/// What `u32::from_str` reads: an optional `+` followed by at least one
/// decimal digit and nothing else, of a value that fits in 32 bits.
pub open spec fn parse_u32_spec(s: Seq<char>) -> Option<u32> {
    let t = if s.len() > 0 && s[0] == '+' { s.drop_first() } else { s };
    if t.len() == 0 || !all_digits(t) || digits_value(t) > u32::MAX {
        None
    } else {
        Some(digits_value(t) as u32)
    }
}

/// The process id written in a pid file: its trimmed contents read as a
/// 32-bit number.
pub fn parse_pid(contents: &str) -> (r: Option<u32>)
    ensures
        r == parse_u32_spec(trim(contents@)),
{
    let chars = chars_of(contents);
    let t = trim_chars(chars.as_slice());
    let start: usize = if t.len() > 0 && t[0] == '+' { 1 } else { 0 };
    let ghost s = t@;
    let ghost u = if s.len() > 0 && s[0] == '+' { s.drop_first() } else { s };
    proof {
        assert(u =~= s.subrange(start as int, s.len() as int));
    }
    if start >= t.len() {
        return None;
    }
    let mut value: u64 = 0;
    let mut i: usize = start;
    while i < t.len()
        invariant
            s == t@,
            s == trim(contents@),
            u == (if s.len() > 0 && s[0] == '+' { s.drop_first() } else { s }),
            start <= i <= s.len(),
            u == s.subrange(start as int, s.len() as int),
            value == digits_value(s.subrange(start as int, i as int)),
            value <= u32::MAX,
            forall|k: int| start <= k < i ==> '0' <= #[trigger] s[k] <= '9',
        decreases s.len() - i,
    {
        let c = t[i];
        if c < '0' || c > '9' {
            proof {
                assert(u[i - start] == c);
            }
            return None;
        }
        let d = (c as u32 - 48) as u64;
        proof {
            assert(s.subrange(start as int, i + 1).drop_last() =~= s.subrange(start as int, i as int));
        }
        value = value * 10 + d;
        if value > 4294967295u64 {
            proof {
                assert(s.subrange(start as int, i + 1) =~= u.take(i + 1 - start));
                lemma_digits_value_grows(u, i + 1 - start);
            }
            return None;
        }
        i = i + 1;
    }
    proof {
        assert(s.subrange(start as int, i as int) =~= u);
    }
    Some(value as u32)
}

/// Adding digits never makes the value smaller.
proof fn lemma_digits_value_grows(s: Seq<char>, k: int)
    requires
        0 <= k <= s.len(),
    ensures
        digits_value(s.take(k)) <= digits_value(s),
    decreases s.len() - k,
{
    if k < s.len() {
        lemma_digits_value_grows(s, k + 1);
        assert(s.take(k + 1).drop_last() =~= s.take(k));
    } else {
        assert(s.take(k) =~= s);
    }
}

/// Where the daemon's pid file lives: `kenseader/daemon.pid` below the
/// runtime directory, else below the local data directory, else below
/// `/tmp`.
pub open spec fn pid_file_path_spec(runtime: Option<Seq<char>>, local: Option<Seq<char>>) -> Seq<char> {
    let base = match runtime {
        Some(r) => r,
        None => match local {
            Some(l) => l,
            None => "/tmp"@,
        },
    };
    path_join(path_join(base, "kenseader"@), "daemon.pid"@)
}

/// The pid file path for the given runtime and local data directories.
pub fn pid_file_path_in(runtime: Option<String>, local: Option<String>) -> (p: String)
    ensures
        p@ == pid_file_path_spec(crate::text::opt_view(runtime), crate::text::opt_view(local)),
{
    let base = match runtime {
        Some(r) => r,
        None => match local {
            Some(l) => l,
            None => String::from_str("/tmp"),
        },
    };
    let dir = join_path(base.as_str(), "kenseader");
    join_path(dir.as_str(), "daemon.pid")
}

/// Calls `dirs::runtime_dir`; the answer depends on the platform and the
/// environment, so nothing is claimed of it.
#[verifier::external_body]
fn runtime_dir() -> Option<String> {
    dirs::runtime_dir().map(|p| p.to_string_lossy().into_owned())
}

/// The daemon's pid file path on this machine.
pub fn pid_file_path() -> (p: String)
    ensures
        exists|runtime: Option<Seq<char>>, local: Option<Seq<char>>| p@ == pid_file_path_spec(runtime, local),
{
    pid_file_path_in(runtime_dir(), data_local_dir())
}

/// Where the last used data directory is recorded:
/// `.config/kenseader/last_data_dir` below the home directory (or the
/// current directory).
pub open spec fn last_data_dir_path_spec(home: Option<Seq<char>>) -> Seq<char> {
    let base = match home {
        Some(h) => h,
        None => "."@,
    };
    path_join(path_join(path_join(base, ".config"@), "kenseader"@), "last_data_dir"@)
}

/// The record file path for the given home directory.
pub fn last_data_dir_path_in(home: Option<String>) -> (p: String)
    ensures
        p@ == last_data_dir_path_spec(crate::text::opt_view(home)),
{
    let base = match home {
        Some(h) => h,
        None => String::from_str("."),
    };
    let a = join_path(base.as_str(), ".config");
    let b = join_path(a.as_str(), "kenseader");
    join_path(b.as_str(), "last_data_dir")
}

/// The record file path on this machine.
pub fn last_data_dir_path() -> (p: String)
    ensures
        exists|home: Option<Seq<char>>| p@ == last_data_dir_path_spec(home),
{
    last_data_dir_path_in(home_dir())
}

/// Where stored data is copied from before the database is opened.
#[derive(Debug, Clone, Copy, PartialEq, Eq, Structural)]
pub enum MigrationPlan {
    /// Nothing to move.
    Keep,
    /// From the data directory used last time.
    FromLast,
    /// From the default data directory.
    FromDefault,
}

/// Decides whether to move stored data. With a record of the last data
/// directory, data moves from it when it differs from the current one and
/// holds a database. Without a record, data moves from the default
/// directory when it holds a database and the configuration points
/// elsewhere.
pub fn migration_plan(
    has_record: bool,
    record_differs: bool,
    recorded_db_exists: bool,
    default_db_exists: bool,
    default_differs: bool,
) -> (p: MigrationPlan)
    ensures
        has_record ==> p == if record_differs && recorded_db_exists { MigrationPlan::FromLast } else { MigrationPlan::Keep },
        !has_record ==> p == if default_db_exists && default_differs { MigrationPlan::FromDefault } else { MigrationPlan::Keep },
{
    if has_record {
        if record_differs && recorded_db_exists {
            MigrationPlan::FromLast
        } else {
            MigrationPlan::Keep
        }
    } else if default_db_exists && default_differs {
        MigrationPlan::FromDefault
    } else {
        MigrationPlan::Keep
    }
}

/// What the daemon writes to its pid file: the process id in decimal and a
/// line feed.
pub open spec fn pid_file_text(pid: u32) -> Seq<char> {
    decimal(pid as nat) + "\n"@
}

/// The contents of the pid file for `pid`.
pub fn pid_file_contents(pid: u32) -> (s: String)
    ensures
        s@ == pid_file_text(pid),
{
    decimal_string(pid as u64).concat("\n")
}

proof fn lemma_digit_char(d: nat)
    requires
        d < 10,
    ensures
        digit_char(d) as u32 == d + 48,
{
}

proof fn lemma_decimal_digits(n: nat)
    ensures
        decimal(n).len() >= 1,
        all_digits(decimal(n)),
        digits_value(decimal(n)) == n,
    decreases n,
{
    lemma_digit_char(n % 10);
    if n < 10 {
        assert(decimal(n) == seq![digit_char(n)]);
        assert(seq![digit_char(n)].drop_last() =~= Seq::<char>::empty());
        assert(digits_value(Seq::<char>::empty()) == 0);
    } else {
        lemma_decimal_digits(n / 10);
        let d = decimal(n);
        assert((n / 10) * 10 + n % 10 == n) by (nonlinear_arith);
        assert(d.drop_last() == decimal(n / 10));
        assert(d.last() == digit_char(n % 10));
        assert forall|i: int| 0 <= i < d.len() implies '0' <= #[trigger] d[i] <= '9' by {
            if i < d.len() - 1 {
                assert(d[i] == decimal(n / 10)[i]);
            }
        }
    }
}

/// A pid file that the daemon wrote is read back as the daemon's process id.
pub proof fn pid_file_round_trip(pid: u32)
    ensures
        parse_u32_spec(trim(pid_file_text(pid))) == Some(pid),
{
    let d = decimal(pid as nat);
    lemma_decimal_digits(pid as nat);
    reveal_strlit("\n");
    let t = pid_file_text(pid);
    assert(t =~= d.push('\n'));
    assert(leading_ws(t) == 0) by {
        assert(t[0] == d[0]);
    }
    assert(t.drop_last() =~= d);
    assert(trailing_ws(d) == 0) by {
        assert(d.last() == d[d.len() - 1]);
    }
    assert(trailing_ws(t) == 1);
    assert(t.skip(0) =~= t);
    assert(trim(t) =~= d);
}

/// The position of the first feed with the given local name, if any.
pub fn feed_index_by_name(feeds: &Vec<Feed>, name: &str) -> (r: Option<usize>)
    ensures
        r matches Some(i) ==> i < feeds@.len() && feeds@[i as int].local_name@ == name@
            && forall|j: int| 0 <= j < i ==> feeds@[j].local_name@ != name@,
        r is None ==> forall|j: int| 0 <= j < feeds@.len() ==> feeds@[j].local_name@ != name@,
{
    let mut i: usize = 0;
    while i < feeds.len()
        invariant
            0 <= i <= feeds@.len(),
            forall|j: int| 0 <= j < i ==> feeds@[j].local_name@ != name@,
        decreases feeds@.len() - i,
    {
        if str_eq(feeds[i].local_name.as_str(), name) {
            return Some(i);
        }
        i = i + 1;
    }
    None
}

/// The line that lists a subscription: its local name, its title (or
/// "(no title)"), its unread count when above zero, and its fetch error if
/// any.
pub open spec fn subscription_line_spec(f: Feed) -> Seq<char> {
    "  "@ + f.local_name@ + " - "@ + match f.title {
        Some(t) => t@,
        None => "(no title)"@,
    } + if f.unread_count > 0 {
        " ("@ + decimal(f.unread_count as nat) + " unread)"@
    } else {
        Seq::empty()
    } + match f.fetch_error {
        Some(e) => " [ERROR: "@ + e@ + "]"@,
        None => Seq::empty(),
    }
}

/// Formats the listing line of a subscription.
pub fn subscription_line(f: &Feed) -> (s: String)
    ensures
        s@ == subscription_line_spec(*f),
{
    let title: &str = match &f.title {
        Some(t) => t.as_str(),
        None => "(no title)",
    };
    let s = String::from_str("  ").concat(f.local_name.as_str()).concat(" - ").concat(title);
    let s = if f.unread_count > 0 {
        s.concat(" (").concat(decimal_string(f.unread_count as u64).as_str()).concat(" unread)")
    } else {
        s
    };
    let r = match &f.fetch_error {
        Some(e) => s.concat(" [ERROR: ").concat(e.as_str()).concat("]"),
        None => s,
    };
    proof {
        assert(r@ =~= subscription_line_spec(*f));
    }
    r
}

} // verus!

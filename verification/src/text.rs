//! Character-level string helpers with their specifications.
use vstd::prelude::*;
use vstd::string::StrSliceExecFns;
use vstd::string::StringExecFns;
use vstd::utf8::encode_utf8;

verus! {

/// The prefix of `s` holding at most `n` characters.
pub open spec fn take_chars(s: Seq<char>, n: int) -> Seq<char> {
    if n < s.len() { s.take(n) } else { s }
}

/// Truncates `input` to at most `max_chars` characters, cutting only at
/// character boundaries.
pub fn truncate_chars(input: &str, max_chars: usize) -> (res: &str)
    ensures
        res@ == take_chars(input@, max_chars as int),
{
    let n = input.unicode_len();
    if max_chars < n {
        input.substring_char(0, max_chars)
    } else {
        input
    }
}

/// Number of bytes of the UTF-8 encoding of `s`.
pub open spec fn byte_len(s: Seq<char>) -> nat {
    encode_utf8(s).len()
}

/// The byte length that `str::len` reports for a string whose characters are `s`.
pub open spec fn str_len(s: Seq<char>) -> usize {
    byte_len(s) as usize
}

/// The views of a list of strings.
pub open spec fn string_views(v: Seq<String>) -> Seq<Seq<char>> {
    v.map_values(|s: String| s@)
}

/// The view of an optional string.
pub open spec fn opt_view(o: Option<String>) -> Option<Seq<char>> {
    match o {
        Some(s) => Some(s@),
        None => None,
    }
}

/// The characters of `s`, in order.
pub fn chars_of(s: &str) -> (v: Vec<char>)
    ensures
        v@ == s@,
{
    let mut v: Vec<char> = Vec::new();
    for c in it: s.chars()
        invariant
            it.seq() == s@,
            v@ == it.seq().take(it.index() as int),
            it.index() == it.seq().len() ==> v@ == s@,
    {
        proof {
            assert(it.seq().take(it.index() + 1) =~= it.seq().take(it.index() as int).push(c));
            assert(it.seq().take(it.seq().len() as int) =~= it.seq());
        }
        v.push(c);
    }
    v
}

/// Whether the two strings hold the same characters.
pub fn str_eq(a: &str, b: &str) -> (res: bool)
    ensures
        res == (a@ == b@),
{
    let x = chars_of(a);
    let y = chars_of(b);
    if x.len() != y.len() {
        return false;
    }
    let r = matches_at(x.as_slice(), y.as_slice(), 0);
    proof {
        if a@ == b@ {
            assert(x@.subrange(0, y@.len() as int) =~= x@);
        } else if r {
            assert(x@.subrange(0, y@.len() as int) =~= x@);
        }
    }
    r
}

/// Calls `String::push`, which appends `c` to `s`.
#[verifier::external_body]
pub(crate) fn push_char(s: &mut String, c: char)
    ensures
        final(s)@ == old(s)@.push(c),
{
    s.push(c);
}

/// The string made of the characters of `chars`.
pub fn string_of(chars: &[char]) -> (s: String)
    ensures
        s@ == chars@,
{
    let mut s = String::new();
    let mut i: usize = 0;
    while i < chars.len()
        invariant
            0 <= i <= chars@.len(),
            s@ == chars@.take(i as int),
        decreases chars@.len() - i,
    {
        proof {
            assert(chars@.take(i + 1) =~= chars@.take(i as int).push(chars@[i as int]));
        }
        push_char(&mut s, chars[i]);
        i = i + 1;
    }
    proof {
        assert(chars@.take(chars@.len() as int) =~= chars@);
    }
    s
}

/// Whether `p` occurs in `s` starting at position `i`.
pub open spec fn occurs_at(s: Seq<char>, p: Seq<char>, i: int) -> bool {
    0 <= i && i + p.len() <= s.len() && s.subrange(i, i + p.len()) == p
}

/// Position of the first occurrence of `p` in `s`, if any.
pub open spec fn find_first(s: Seq<char>, p: Seq<char>) -> Option<int> {
    if exists|i: int| occurs_at(s, p, i) {
        Some(choose|i: int| occurs_at(s, p, i) && forall|j: int| 0 <= j < i ==> !occurs_at(s, p, j))
    } else {
        None
    }
}

/// Whether `p` occurs in `s` at position `i` (checked in place).
pub fn matches_at(s: &[char], p: &[char], i: usize) -> (res: bool)
    ensures
        res == occurs_at(s@, p@, i as int),
{
    if i > s.len() || p.len() > s.len() - i {
        return false;
    }
    let mut j: usize = 0;
    while j < p.len()
        invariant
            i + p@.len() <= s@.len(),
            s@.len() == s.len(),
            0 <= j <= p@.len(),
            forall|k: int| 0 <= k < j ==> s@[i + k] == p@[k],
        decreases p@.len() - j,
    {
        if s[i + j] != p[j] {
            proof {
                assert(s@.subrange(i as int, i + p@.len())[j as int] != p@[j as int]);
            }
            return false;
        }
        j = j + 1;
    }
    proof {
        assert(s@.subrange(i as int, i + p@.len()) =~= p@);
    }
    true
}

/// Whether `s` starts with `p`.
pub fn starts_with(s: &[char], p: &[char]) -> (res: bool)
    ensures
        res == p@.is_prefix_of(s@),
{
    let r = matches_at(s, p, 0);
    proof {
        if r {
            assert(s@.subrange(0, p@.len() as int) == p@);
            assert forall|k: int| 0 <= k < p@.len() implies p@[k] == s@[k] by {
                assert(s@.subrange(0, p@.len() as int)[k] == s@[k]);
            }
        } else if p@.is_prefix_of(s@) {
            assert(s@.subrange(0, p@.len() as int) =~= p@);
        }
    }
    r
}

/// Position of the first occurrence of `p` in `s`.
pub fn find(s: &[char], p: &[char]) -> (res: Option<usize>)
    ensures
        res matches Some(i) ==> occurs_at(s@, p@, i as int) && forall|j: int| 0 <= j < i ==> !occurs_at(s@, p@, j),
        res is None ==> forall|j: int| !occurs_at(s@, p@, j),
        res matches Some(i) ==> find_first(s@, p@) == Some(i as int),
        res is None ==> find_first(s@, p@) is None,
{
    let mut i: usize = 0;
    while i < s.len()
        invariant
            0 <= i <= s@.len(),
            forall|j: int| 0 <= j < i ==> !occurs_at(s@, p@, j),
        decreases s@.len() - i,
    {
        if matches_at(s, p, i) {
            proof {
                let w = choose|k: int| occurs_at(s@, p@, k) && forall|j: int| 0 <= j < k ==> !occurs_at(s@, p@, j);
                assert(occurs_at(s@, p@, i as int) && forall|j: int| 0 <= j < i ==> !occurs_at(s@, p@, j));
                if w < i {
                } else if w > i {
                    assert(!occurs_at(s@, p@, i as int));
                }
            }
            return Some(i);
        }
        i = i + 1;
    }
    if matches_at(s, p, i) {
        proof {
            let w = choose|k: int| occurs_at(s@, p@, k) && forall|j: int| 0 <= j < k ==> !occurs_at(s@, p@, j);
            assert(occurs_at(s@, p@, i as int) && forall|j: int| 0 <= j < i ==> !occurs_at(s@, p@, j));
            if w < i {
            } else if w > i {
                assert(!occurs_at(s@, p@, i as int));
            }
        }
        return Some(i);
    }
    proof {
        assert forall|j: int| !occurs_at(s@, p@, j) by {
            if j > i {
                assert(j + p@.len() > s@.len());
            }
        }
    }
    None
}

/// Whether `c` occurs in `s`.
pub fn contains_char(s: &[char], c: char) -> (res: bool)
    ensures
        res == s@.contains(c),
{
    let mut i: usize = 0;
    while i < s.len()
        invariant
            0 <= i <= s@.len(),
            forall|j: int| 0 <= j < i ==> s@[j] != c,
        decreases s@.len() - i,
    {
        if s[i] == c {
            return true;
        }
        i = i + 1;
    }
    false
}

/// `s` with every trailing `c` removed.
pub open spec fn trim_end_char(s: Seq<char>, c: char) -> Seq<char>
    decreases s.len(),
{
    if s.len() > 0 && s.last() == c {
        trim_end_char(s.drop_last(), c)
    } else {
        s
    }
}

/// `s` with every leading `c` removed.
pub open spec fn trim_start_char(s: Seq<char>, c: char) -> Seq<char>
    decreases s.len(),
{
    if s.len() > 0 && s[0] == c {
        trim_start_char(s.drop_first(), c)
    } else {
        s
    }
}

/// Removes every trailing `c`, as `str::trim_end_matches(c)` does.
pub fn trim_end_matches_char(s: &[char], c: char) -> (res: Vec<char>)
    ensures
        res@ == trim_end_char(s@, c),
{
    let mut end = s.len();
    proof {
        assert(s@.take(end as int) =~= s@);
    }
    while end > 0 && s[end - 1] == c
        invariant
            0 <= end <= s@.len(),
            trim_end_char(s@.take(end as int), c) == trim_end_char(s@, c),
        decreases end,
    {
        proof {
            assert(s@.take(end as int).drop_last() =~= s@.take(end - 1));
        }
        end = end - 1;
    }
    let v = slice_prefix(s, end);
    v
}

/// Removes every leading `c`, as `str::trim_start_matches(c)` does.
pub fn trim_start_matches_char(s: &[char], c: char) -> (res: Vec<char>)
    ensures
        res@ == trim_start_char(s@, c),
{
    let mut start: usize = 0;
    proof {
        assert(s@.skip(0) =~= s@);
    }
    while start < s.len() && s[start] == c
        invariant
            0 <= start <= s@.len(),
            trim_start_char(s@.skip(start as int), c) == trim_start_char(s@, c),
        decreases s@.len() - start,
    {
        proof {
            assert(s@.skip(start as int).drop_first() =~= s@.skip(start + 1));
        }
        start = start + 1;
    }
    let v = slice_suffix(s, start);
    v
}

/// The first `n` characters of `s`.
pub fn slice_prefix(s: &[char], n: usize) -> (v: Vec<char>)
    requires
        n <= s@.len(),
    ensures
        v@ == s@.take(n as int),
{
    let mut v: Vec<char> = Vec::new();
    let mut i: usize = 0;
    while i < n
        invariant
            0 <= i <= n <= s@.len(),
            v@ == s@.take(i as int),
        decreases n - i,
    {
        proof {
            assert(s@.take(i + 1) =~= s@.take(i as int).push(s@[i as int]));
        }
        v.push(s[i]);
        i = i + 1;
    }
    v
}

/// The characters of `s` from position `n` on.
pub fn slice_suffix(s: &[char], n: usize) -> (v: Vec<char>)
    requires
        n <= s@.len(),
    ensures
        v@ == s@.skip(n as int),
{
    let mut v: Vec<char> = Vec::new();
    let mut i: usize = n;
    while i < s.len()
        invariant
            n <= i <= s@.len(),
            v@ == s@.subrange(n as int, i as int),
        decreases s@.len() - i,
    {
        proof {
            assert(s@.subrange(n as int, i + 1) =~= s@.subrange(n as int, i as int).push(s@[i as int]));
        }
        v.push(s[i]);
        i = i + 1;
    }
    proof {
        assert(s@.subrange(n as int, s@.len() as int) =~= s@.skip(n as int));
    }
    v
}

/// Appends the characters of `t` to `v`.
pub fn append_chars(v: &mut Vec<char>, t: &[char])
    ensures
        final(v)@ == old(v)@ + t@,
{
    let ghost start = v@;
    let mut i: usize = 0;
    while i < t.len()
        invariant
            0 <= i <= t@.len(),
            v@ == start + t@.take(i as int),
        decreases t@.len() - i,
    {
        proof {
            assert(t@.take(i + 1) =~= t@.take(i as int).push(t@[i as int]));
        }
        v.push(t[i]);
        i = i + 1;
    }
    proof {
        assert(t@.take(t@.len() as int) =~= t@);
    }
}

/// The decimal digit for `d` (0 to 9).
pub open spec fn digit_char(d: nat) -> char {
    ((d + 48) as u32) as char
}

/// The decimal rendering of `n`, as `Display` prints unsigned integers.
pub open spec fn decimal(n: nat) -> Seq<char>
    decreases n,
{
    if n < 10 {
        seq![digit_char(n)]
    } else {
        decimal(n / 10).push(digit_char(n % 10))
    }
}

/// Renders `n` in decimal.
pub fn decimal_string(n: u64) -> (s: String)
    ensures
        s@ == decimal(n as nat),
    decreases n,
{
    let d = (n % 10) as u32;
    let c = char_from_digit(d);
    if n < 10 {
        let mut s = String::new();
        push_char(&mut s, c);
        proof {
            assert(s@ =~= seq![digit_char(n as nat)]);
        }
        s
    } else {
        let mut s = decimal_string(n / 10);
        push_char(&mut s, c);
        s
    }
}

/// The decimal rendering of a signed integer, with a leading `-` when it is
/// negative, as `Display` prints signed integers.
pub open spec fn signed_decimal(n: int) -> Seq<char> {
    if n < 0 {
        seq!['-'].add(decimal((-n) as nat))
    } else {
        decimal(n as nat)
    }
}

/// Renders the signed `n` in decimal.
pub fn signed_decimal_string(n: i32) -> (s: String)
    ensures
        s@ == signed_decimal(n as int),
{
    if n < 0 {
        let m: i64 = n as i64;
        let a: u64 = (0i64 - m) as u64;
        let digits = decimal_string(a);
        let mut s = String::new();
        push_char(&mut s, '-');
        let t = s.concat(digits.as_str());
        proof {
            assert(s@ =~= seq!['-']);
        }
        t
    } else {
        decimal_string(n as u64)
    }
}

fn char_from_digit(d: u32) -> (c: char)
    requires
        d < 10,
    ensures
        c == digit_char(d as nat),
{
    if d == 0 { '0' } else if d == 1 { '1' } else if d == 2 { '2' } else if d == 3 { '3' }
    else if d == 4 { '4' } else if d == 5 { '5' } else if d == 6 { '6' } else if d == 7 { '7' }
    else if d == 8 { '8' } else { '9' }
}

/// Whether `p` occurs in the bytes `s` starting at position `i`.
pub open spec fn bytes_occur_at(s: Seq<u8>, p: Seq<u8>, i: int) -> bool {
    0 <= i && i + p.len() <= s.len() && s.subrange(i, i + p.len()) == p
}

/// Whether `p` occurs anywhere in the bytes `s`.
pub open spec fn bytes_contain(s: Seq<u8>, p: Seq<u8>) -> bool {
    exists|i: int| bytes_occur_at(s, p, i)
}

/// The first position at or after `i` where `p` occurs in `s`.
pub open spec fn first_occurrence_from(s: Seq<u8>, p: Seq<u8>, i: int) -> Option<int>
    decreases s.len() - i,
{
    if i < 0 || i + p.len() > s.len() {
        None
    } else if bytes_occur_at(s, p, i) {
        Some(i)
    } else if i >= s.len() {
        None
    } else {
        first_occurrence_from(s, p, i + 1)
    }
}

/// The first position where `p` occurs in `s`, as `str::find` reports it.
pub open spec fn first_occurrence(s: Seq<u8>, p: Seq<u8>) -> Option<int> {
    first_occurrence_from(s, p, 0)
}

/// What the first occurrence from `i` is: an occurrence, with none before it.
pub proof fn lemma_first_occurrence_from(s: Seq<u8>, p: Seq<u8>, i: int)
    requires
        0 <= i,
    ensures
        first_occurrence_from(s, p, i) matches Some(k) ==> i <= k && bytes_occur_at(s, p, k)
            && forall|j: int| i <= j < k ==> !bytes_occur_at(s, p, j),
        first_occurrence_from(s, p, i) is None ==> forall|j: int| i <= j ==> !bytes_occur_at(s, p, j),
    decreases s.len() - i,
{
    if i + p.len() <= s.len() && !bytes_occur_at(s, p, i) && i < s.len() {
        lemma_first_occurrence_from(s, p, i + 1);
    }
}

/// Finds the first position of `p` in `s`.
pub fn bytes_find(s: &[u8], p: &[u8]) -> (r: Option<usize>)
    ensures
        r matches Some(k) ==> first_occurrence(s@, p@) == Some(k as int),
        r is None ==> first_occurrence(s@, p@) is None,
{
    if p.len() == 0 {
        proof {
            assert(s@.subrange(0, 0) =~= p@);
        }
        return Some(0);
    }
    if p.len() > s.len() {
        return None;
    }
    let last = s.len() - p.len();
    let mut i: usize = 0;
    while i <= last
        invariant
            last + p@.len() == s@.len(),
            s@.len() == s.len(),
            p@.len() > 0,
            0 <= i <= last + 1,
            first_occurrence(s@, p@) == first_occurrence_from(s@, p@, i as int),
        decreases last + 1 - i,
    {
        let mut j: usize = 0;
        let mut same = true;
        while j < p.len()
            invariant
                i + p@.len() <= s@.len(),
                s@.len() == s.len(),
                0 <= j <= p@.len(),
                same ==> forall|k: int| 0 <= k < j ==> s@[i + k] == p@[k],
                !same ==> !bytes_occur_at(s@, p@, i as int),
            decreases p@.len() - j,
        {
            if s[i + j] != p[j] {
                if same {
                    proof {
                        assert(s@.subrange(i as int, i + p@.len())[j as int] != p@[j as int]);
                    }
                }
                same = false;
            }
            j = j + 1;
        }
        if same {
            proof {
                assert(s@.subrange(i as int, i + p@.len()) =~= p@);
            }
            return Some(i);
        }
        i = i + 1;
    }
    None
}

/// Whether `p` occurs in the first `n` bytes of `s`.
pub fn bytes_contain_within(s: &[u8], n: usize, p: &[u8]) -> (res: bool)
    requires
        n <= s@.len(),
    ensures
        res == bytes_contain(s@.take(n as int), p@),
{
    let ghost t = s@.take(n as int);
    if p.len() == 0 {
        proof {
            assert(t.subrange(0, 0) =~= p@);
            assert(bytes_occur_at(t, p@, 0));
        }
        return true;
    }
    if p.len() > n {
        return false;
    }
    let last = n - p.len();
    let mut i: usize = 0;
    while i <= last
        invariant
            n <= s@.len(),
            t == s@.take(n as int),
            last + p@.len() == n,
            p@.len() > 0,
            0 <= i <= last + 1,
            forall|j: int| 0 <= j < i ==> !bytes_occur_at(t, p@, j),
        decreases last + 1 - i,
    {
        let mut j: usize = 0;
        let mut same = true;
        while j < p.len()
            invariant
                i + p@.len() <= n <= s@.len(),
                0 <= j <= p@.len(),
                same ==> forall|k: int| 0 <= k < j ==> s@[i + k] == p@[k],
                !same ==> !bytes_occur_at(t, p@, i as int),
                t == s@.take(n as int),
            decreases p@.len() - j,
        {
            if s[i + j] != p[j] {
                if same {
                    proof {
                        assert(t.subrange(i as int, i + p@.len())[j as int] != p@[j as int]);
                    }
                }
                same = false;
            }
            j = j + 1;
        }
        if same {
            proof {
                assert(t.subrange(i as int, i + p@.len()) =~= p@);
                assert(bytes_occur_at(t, p@, i as int));
            }
            return true;
        }
        i = i + 1;
    }
    false
}

/// Whether `c` is whitespace in the sense of `char::is_whitespace` (the
/// Unicode `White_Space` property).
pub open spec fn is_whitespace(c: char) -> bool {
    let u = c as u32;
    ||| 0x09 <= u <= 0x0D
    ||| u == 0x20
    ||| u == 0x85
    ||| u == 0xA0
    ||| u == 0x1680
    ||| 0x2000 <= u <= 0x200A
    ||| u == 0x2028
    ||| u == 0x2029
    ||| u == 0x202F
    ||| u == 0x205F
    ||| u == 0x3000
}

/// Whether `c` is whitespace, as `char::is_whitespace` decides.
pub fn char_is_whitespace(c: char) -> (b: bool)
    ensures
        b == is_whitespace(c),
{
    let u = c as u32;
    (0x09 <= u && u <= 0x0D) || u == 0x20 || u == 0x85 || u == 0xA0 || u == 0x1680
        || (0x2000 <= u && u <= 0x200A) || u == 0x2028 || u == 0x2029 || u == 0x202F
        || u == 0x205F || u == 0x3000
}

/// Number of leading whitespace characters of `s`.
pub open spec fn leading_ws(s: Seq<char>) -> nat
    decreases s.len(),
{
    if s.len() > 0 && is_whitespace(s[0]) {
        1 + leading_ws(s.drop_first())
    } else {
        0
    }
}

/// Number of trailing whitespace characters of `s`.
pub open spec fn trailing_ws(s: Seq<char>) -> nat
    decreases s.len(),
{
    if s.len() > 0 && is_whitespace(s.last()) {
        1 + trailing_ws(s.drop_last())
    } else {
        0
    }
}

/// `s` without leading and trailing whitespace, as `str::trim` gives it.
pub open spec fn trim(s: Seq<char>) -> Seq<char> {
    let t = s.skip(leading_ws(s) as int);
    t.take(t.len() - trailing_ws(t))
}

proof fn lemma_leading_ws_bound(s: Seq<char>)
    ensures
        leading_ws(s) <= s.len(),
    decreases s.len(),
{
    if s.len() > 0 && is_whitespace(s[0]) {
        lemma_leading_ws_bound(s.drop_first());
    }
}

proof fn lemma_trailing_ws_bound(s: Seq<char>)
    ensures
        trailing_ws(s) <= s.len(),
    decreases s.len(),
{
    if s.len() > 0 && is_whitespace(s.last()) {
        lemma_trailing_ws_bound(s.drop_last());
    }
}

proof fn lemma_leading_ws_stops(s: Seq<char>)
    ensures
        leading_ws(s) < s.len() ==> !is_whitespace(s[leading_ws(s) as int]),
    decreases s.len(),
{
    if s.len() > 0 && is_whitespace(s[0]) {
        lemma_leading_ws_stops(s.drop_first());
    }
}

proof fn lemma_trailing_ws_stops(s: Seq<char>)
    ensures
        trailing_ws(s) < s.len() ==> !is_whitespace(s[s.len() - 1 - trailing_ws(s)]),
    decreases s.len(),
{
    if s.len() > 0 && is_whitespace(s.last()) {
        lemma_trailing_ws_stops(s.drop_last());
    }
}

/// A trimmed text neither starts nor ends with white space.
pub proof fn lemma_trim_edges(s: Seq<char>)
    ensures
        trim(s).len() > 0 ==> !is_whitespace(trim(s)[0]) && !is_whitespace(trim(s).last()),
{
    lemma_leading_ws_bound(s);
    let t = s.skip(leading_ws(s) as int);
    lemma_trailing_ws_bound(t);
    lemma_leading_ws_stops(s);
    lemma_trailing_ws_stops(t);
    if trim(s).len() > 0 {
        assert(trim(s)[0] == t[0]);
        assert(t[0] == s[leading_ws(s) as int]);
        assert(trim(s).last() == t[t.len() - 1 - trailing_ws(t)]);
    }
}

/// Removes leading and trailing whitespace.
pub fn trim_chars(s: &[char]) -> (t: Vec<char>)
    ensures
        t@ == trim(s@),
{
    let mut start: usize = 0;
    proof {
        assert(s@.skip(0) =~= s@);
    }
    while start < s.len() && char_is_whitespace(s[start])
        invariant
            0 <= start <= s@.len(),
            start + leading_ws(s@.skip(start as int)) == leading_ws(s@),
        decreases s@.len() - start,
    {
        proof {
            assert(s@.skip(start as int).drop_first() =~= s@.skip(start + 1));
        }
        start = start + 1;
    }
    let ghost t0 = s@.skip(start as int);
    proof {
        assert(leading_ws(t0) == 0);
    }
    let mut end: usize = s.len();
    proof {
        assert(s@.subrange(start as int, end as int) =~= t0);
    }
    while end > start && char_is_whitespace(s[end - 1])
        invariant
            start <= end <= s@.len(),
            t0 == s@.skip(start as int),
            trailing_ws(t0) == (t0.len() - (end - start)) + trailing_ws(s@.subrange(start as int, end as int)),
        decreases end - start,
    {
        proof {
            assert(s@.subrange(start as int, end as int).drop_last() =~= s@.subrange(start as int, end - 1));
        }
        end = end - 1;
    }
    proof {
        lemma_trailing_ws_bound(t0);
        assert(trailing_ws(s@.subrange(start as int, end as int)) == 0);
        assert(t0.take(t0.len() - trailing_ws(t0)) =~= s@.subrange(start as int, end as int));
    }
    let mut t: Vec<char> = Vec::new();
    let mut i = start;
    while i < end
        invariant
            start <= i <= end <= s@.len(),
            t@ == s@.subrange(start as int, i as int),
        decreases end - i,
    {
        proof {
            assert(s@.subrange(start as int, i + 1) =~= s@.subrange(start as int, i as int).push(s@[i as int]));
        }
        t.push(s[i]);
        i = i + 1;
    }
    t
}

/// What `str::to_lowercase` returns for `s` (full Unicode lowercase mapping).
pub uninterp spec fn lowercase(s: Seq<char>) -> Seq<char>;

/// Calls `str::to_lowercase`; the contract names the result as a function of
/// `s` without stating the Unicode case mapping.
#[verifier::external_body]
pub(crate) fn to_lowercase(s: &str) -> (r: String)
    ensures
        r@ == lowercase(s@),
{
    s.to_lowercase()
}

/// The pieces of `s` between the occurrences of `sep`, as `str::split` gives
/// them (there is always at least one piece).
pub open spec fn split_on(s: Seq<char>, sep: char) -> Seq<Seq<char>>
    decreases s.len(),
{
    if s.len() == 0 {
        seq![Seq::empty()]
    } else {
        let rest = split_on(s.drop_first(), sep);
        if s[0] == sep {
            seq![Seq::empty()] + rest
        } else {
            rest.update(0, seq![s[0]] + rest[0])
        }
    }
}

proof fn lemma_split_on_nonempty(s: Seq<char>, sep: char)
    ensures
        split_on(s, sep).len() >= 1,
    decreases s.len(),
{
    if s.len() > 0 {
        lemma_split_on_nonempty(s.drop_first(), sep);
    }
}

/// The pieces of `s[i..]` between separators, given the pieces of `s[i+1..]`.
proof fn lemma_split_on_skip(s: Seq<char>, sep: char, i: int)
    requires
        0 <= i < s.len(),
    ensures
        s.skip(i).drop_first() == s.skip(i + 1),
        s.skip(i)[0] == s[i],
{
    assert(s.skip(i).drop_first() =~= s.skip(i + 1));
}

/// Splits `s` at every `sep`, like `str::split(sep)`.
pub fn split_chars(s: &[char], sep: char) -> (parts: Vec<Vec<char>>)
    ensures
        parts@.len() == split_on(s@, sep).len(),
        forall|k: int| 0 <= k < parts@.len() ==> #[trigger] parts@[k]@ == split_on(s@, sep)[k],
{
    // Pieces are collected back to front: `acc` holds the pieces of `s[i..]`.
    let mut acc_rev: Vec<Vec<char>> = Vec::new();
    let mut cur: Vec<char> = Vec::new();
    let mut i: usize = s.len();
    proof {
        assert(s@.skip(s@.len() as int) =~= Seq::<char>::empty());
    }
    // invariant: split_on(s[i..]) == [cur.reverse... ] handled below
    while i > 0
        invariant
            0 <= i <= s@.len(),
            ({
                let pieces = split_on(s@.skip(i as int), sep);
                &&& pieces.len() == acc_rev@.len() + 1
                &&& pieces[0] == cur@
                &&& forall|k: int| 0 <= k < acc_rev@.len() ==> #[trigger] acc_rev@[k]@ == pieces[pieces.len() - 1 - k]
            }),
        decreases i,
    {
        let c = s[i - 1];
        proof {
            lemma_split_on_skip(s@, sep, i - 1);
            lemma_split_on_nonempty(s@.skip(i as int), sep);
        }
        let ghost old_pieces = split_on(s@.skip(i as int), sep);
        let ghost old_acc = acc_rev@;
        let ghost old_cur = cur@;
        if c == sep {
            let mut piece: Vec<char> = Vec::new();
            std::mem::swap(&mut piece, &mut cur);
            acc_rev.push(piece);
            proof {
                let pieces = split_on(s@.skip(i - 1), sep);
                assert(pieces =~= seq![Seq::<char>::empty()] + old_pieces);
                assert forall|k: int| 0 <= k < acc_rev@.len() implies #[trigger] acc_rev@[k]@ == pieces[pieces.len() - 1 - k] by {
                    if k < old_acc.len() {
                        assert(acc_rev@[k] == old_acc[k]);
                    }
                }
            }
        } else {
            let mut nc: Vec<char> = Vec::new();
            nc.push(c);
            append_chars(&mut nc, cur.as_slice());
            cur = nc;
            proof {
                let pieces = split_on(s@.skip(i - 1), sep);
                assert(pieces =~= old_pieces.update(0, seq![c] + old_pieces[0]));
                assert(cur@ =~= seq![c] + old_cur);
                assert forall|k: int| 0 <= k < acc_rev@.len() implies #[trigger] acc_rev@[k]@ == pieces[pieces.len() - 1 - k] by {
                    assert(pieces.len() - 1 - k != 0);
                }
            }
        }
        i = i - 1;
    }
    proof {
        assert(s@.skip(0) =~= s@);
    }
    let ghost pieces = split_on(s@, sep);
    let ghost m = acc_rev@.len();
    let mut parts: Vec<Vec<char>> = Vec::new();
    parts.push(cur);
    let mut j: usize = acc_rev.len();
    while j > 0
        invariant
            0 <= j <= m,
            acc_rev@.len() == m,
            pieces.len() == m + 1,
            forall|k: int| 0 <= k < j ==> #[trigger] acc_rev@[k]@ == pieces[pieces.len() - 1 - k],
            parts@.len() == m + 1 - j,
            forall|k: int| 0 <= k < parts@.len() ==> #[trigger] parts@[k]@ == pieces[k],
        decreases j,
    {
        let mut piece: Vec<char> = Vec::new();
        let ghost old_acc = acc_rev@;
        std::mem::swap(&mut piece, &mut acc_rev[j - 1]);
        proof {
            assert(piece@ == pieces[pieces.len() - 1 - (j - 1)]);
            assert forall|k: int| 0 <= k < j - 1 implies #[trigger] acc_rev@[k]@ == pieces[pieces.len() - 1 - k] by {
                assert(acc_rev@[k] == old_acc[k]);
            }
        }
        parts.push(piece);
        j = j - 1;
    }
    parts
}

} // verus!

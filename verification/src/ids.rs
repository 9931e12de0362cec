//! Article and feed identifiers: UUIDs, held as their 128-bit values and
//! written in the hyphenated lower-case form.
use vstd::prelude::*;

use crate::text::push_char;

verus! {

/// The lower-case hexadecimal digit for `d` (0 to 15).
pub open spec fn hex_char(d: nat) -> char {
    if d < 10 {
        ((d + 48) as u32) as char
    } else {
        ((d + 87) as u32) as char
    }
}

/// The last `count` hexadecimal digits of `n`, most significant first.
pub open spec fn hex_digits(n: nat, count: nat) -> Seq<char>
    decreases count,
{
    if count == 0 {
        Seq::empty()
    } else {
        hex_digits(n / 16, (count - 1) as nat).push(hex_char(n % 16))
    }
}

/// The hyphenated form of a UUID: its 32 hexadecimal digits in groups of
/// 8, 4, 4, 4 and 12, joined by `-`.
pub open spec fn uuid_text(id: u128) -> Seq<char> {
    let h = hex_digits(id as nat, 32);
    h.subrange(0, 8) + seq!['-'] + h.subrange(8, 12) + seq!['-'] + h.subrange(12, 16) + seq!['-']
        + h.subrange(16, 20) + seq!['-'] + h.subrange(20, 32)
}

fn hex_digit(d: u32) -> (c: char)
    requires
        d < 16,
    ensures
        c == hex_char(d as nat),
{
    if d == 0 { '0' } else if d == 1 { '1' } else if d == 2 { '2' } else if d == 3 { '3' }
    else if d == 4 { '4' } else if d == 5 { '5' } else if d == 6 { '6' } else if d == 7 { '7' }
    else if d == 8 { '8' } else if d == 9 { '9' } else if d == 10 { 'a' } else if d == 11 { 'b' }
    else if d == 12 { 'c' } else if d == 13 { 'd' } else if d == 14 { 'e' } else { 'f' }
}

fn hex_digits_of(n: u128, count: usize) -> (v: Vec<char>)
    ensures
        v@ == hex_digits(n as nat, count as nat),
    decreases count,
{
    if count == 0 {
        Vec::new()
    } else {
        let mut v = hex_digits_of(n / 16, count - 1);
        let d = (n % 16) as u32;
        v.push(hex_digit(d));
        v
    }
}

proof fn lemma_hex_digits_len(n: nat, count: nat)
    ensures
        hex_digits(n, count).len() == count,
    decreases count,
{
    if count > 0 {
        lemma_hex_digits_len(n / 16, (count - 1) as nat);
    }
}

/// `16^c`.
pub open spec fn pow16(c: nat) -> nat
    decreases c,
{
    if c == 0 {
        1
    } else {
        16 * pow16((c - 1) as nat)
    }
}

proof fn lemma_hex_char_injective(x: nat, y: nat)
    requires
        x < 16,
        y < 16,
        hex_char(x) == hex_char(y),
    ensures
        x == y,
{
    let cx = hex_char(x);
    let cy = hex_char(y);
    assert(cx as u32 == if x < 10 { x + 48 } else { x + 87 });
    assert(cy as u32 == if y < 10 { y + 48 } else { y + 87 });
}

/// Equal digit strings of the same length come from equal numbers, for
/// numbers that have no more digits than that.
proof fn lemma_hex_digits_injective(n: nat, m: nat, c: nat)
    requires
        n < pow16(c),
        m < pow16(c),
        hex_digits(n, c) == hex_digits(m, c),
    ensures
        n == m,
    decreases c,
{
    if c > 0 {
        let hn = hex_digits(n, c);
        let hm = hex_digits(m, c);
        assert(hn.last() == hex_char(n % 16));
        assert(hm.last() == hex_char(m % 16));
        lemma_hex_char_injective(n % 16, m % 16);
        assert(hn.drop_last() =~= hex_digits(n / 16, (c - 1) as nat));
        assert(hm.drop_last() =~= hex_digits(m / 16, (c - 1) as nat));
        lemma_hex_digits_injective(n / 16, m / 16, (c - 1) as nat);
    }
}

/// Where the `j`-th character of the hyphenated form comes from.
spec fn uuid_char(h: Seq<char>, j: int) -> char {
    if j == 8 || j == 13 || j == 18 || j == 23 {
        '-'
    } else if j < 8 {
        h[j]
    } else if j < 13 {
        h[j - 1]
    } else if j < 18 {
        h[j - 2]
    } else if j < 23 {
        h[j - 3]
    } else {
        h[j - 4]
    }
}

/// Writes a UUID in its hyphenated lower-case form, as `Display` for
/// `uuid::Uuid` does.
pub fn uuid_string(id: u128) -> (s: String)
    ensures
        s@ == uuid_text(id),
{
    let h = hex_digits_of(id, 32);
    proof {
        lemma_hex_digits_len(id as nat, 32);
    }
    let mut s = String::new();
    let mut j: usize = 0;
    while j < 36
        invariant
            h@ == hex_digits(id as nat, 32),
            h@.len() == 32,
            0 <= j <= 36,
            s@ =~= Seq::new(j as nat, |k: int| uuid_char(h@, k)),
        decreases 36 - j,
    {
        let c = if j == 8 || j == 13 || j == 18 || j == 23 {
            '-'
        } else if j < 8 {
            h[j]
        } else if j < 13 {
            h[j - 1]
        } else if j < 18 {
            h[j - 2]
        } else if j < 23 {
            h[j - 3]
        } else {
            h[j - 4]
        };
        push_char(&mut s, c);
        j = j + 1;
    }
    proof {
        let hh = h@;
        assert(s@ =~= uuid_text(id)) by {
            assert(uuid_text(id).len() == 36);
            assert forall|k: int| 0 <= k < 36 implies #[trigger] uuid_text(id)[k] == uuid_char(hh, k) by {
            }
        }
    }
    s
}

/// The hyphenated form identifies its UUID: distinct UUIDs are written
/// differently, so a stored id text stands for one UUID only.
pub proof fn uuid_text_identifies(a: u128, b: u128)
    ensures
        uuid_text(a) == uuid_text(b) ==> a == b,
{
    if uuid_text(a) == uuid_text(b) {
        let ha = hex_digits(a as nat, 32);
        let hb = hex_digits(b as nat, 32);
        lemma_hex_digits_len(a as nat, 32);
        lemma_hex_digits_len(b as nat, 32);
        assert forall|k: int| 0 <= k < 32 implies ha[k] == hb[k] by {
            let j = if k < 8 { k } else if k < 12 { k + 1 } else if k < 16 { k + 2 } else if k < 20 { k + 3 } else { k + 4 };
            assert(uuid_text(a)[j] == ha[k]);
            assert(uuid_text(b)[j] == hb[k]);
        }
        assert(ha =~= hb);
        assert(pow16(32) == 0x1_0000_0000_0000_0000_0000_0000_0000_0000) by {
            reveal_with_fuel(pow16, 33);
        }
        lemma_hex_digits_injective(a as nat, b as nat, 32);
    }
}

/// The value that `uuid::Uuid::parse_str` reads from a text, if it reads one.
pub uninterp spec fn uuid_parsed(s: Seq<char>) -> Option<u128>;

/// Calls `uuid::Uuid::parse_str` and takes the UUID's 128-bit value. Its
/// result depends on the text alone; the hyphenated form of a UUID, one of
/// the forms the function documents as accepted, gives that UUID back.
#[verifier::external_body]
fn uuid_parse_str(s: &str) -> (r: Option<u128>)
    ensures
        r == uuid_parsed(s@),
        forall|id: u128| #[trigger] uuid_text(id) == s@ ==> r == Some(id),
{
    match uuid::Uuid::parse_str(s) {
        Ok(u) => Some(u.as_u128()),
        Err(_) => None,
    }
}

/// Reads a UUID from its text. The hyphenated form that `uuid_string`
/// writes always reads back as the UUID it was written from.
pub fn parse_uuid(s: &str) -> (r: Option<u128>)
    ensures
        r == uuid_parsed(s@),
        forall|id: u128| #[trigger] uuid_text(id) == s@ ==> r == Some(id),
{
    uuid_parse_str(s)
}

/// The UUID a stored id text holds, or the nil UUID (0) where it holds none.
pub fn uuid_or_nil(s: &str) -> (id: u128)
    ensures
        id == match uuid_parsed(s@) {
            Some(v) => v,
            None => 0,
        },
{
    match parse_uuid(s) {
        Some(v) => v,
        None => 0,
    }
}

} // verus!

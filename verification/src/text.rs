//! Text helpers: decimal rendering of integers, substring search,
//! character-wise comparison and the rendering of a string map in the
//! `{"key": "value", ...}` form.

use vstd::prelude::*;

use crate::string_map::StringMap;

verus! {

/// Views of a sequence of strings.
pub open spec fn string_views(s: Seq<String>) -> Seq<Seq<char>> {
    s.map_values(|t: String| t@)
}

/// The character of a decimal digit `d` (for `d < 10`).
pub open spec fn digit_char(d: nat) -> char {
    if d == 0 {
        '0'
    } else if d == 1 {
        '1'
    } else if d == 2 {
        '2'
    } else if d == 3 {
        '3'
    } else if d == 4 {
        '4'
    } else if d == 5 {
        '5'
    } else if d == 6 {
        '6'
    } else if d == 7 {
        '7'
    } else if d == 8 {
        '8'
    } else {
        '9'
    }
}

/// Decimal digits of `n`, most significant first, without leading zeros.
pub open spec fn nat_digits(n: nat) -> Seq<char>
    decreases n,
{
    if n < 10 {
        seq![digit_char(n)]
    } else {
        nat_digits(n / 10).push(digit_char(n % 10))
    }
}

/// Decimal rendering of an integer, with a leading `-` when negative.
pub open spec fn int_decimal(x: int) -> Seq<char> {
    if x < 0 {
        seq!['-'] + nat_digits((-x) as nat)
    } else {
        nat_digits(x as nat)
    }
}

fn digit_str(d: u64) -> (s: &'static str)
    requires
        d < 10,
    ensures
        s@ == seq![digit_char(d as nat)],
{
    proof {
        reveal_strlit("0");
        reveal_strlit("1");
        reveal_strlit("2");
        reveal_strlit("3");
        reveal_strlit("4");
        reveal_strlit("5");
        reveal_strlit("6");
        reveal_strlit("7");
        reveal_strlit("8");
        reveal_strlit("9");
    }
    if d == 0 {
        "0"
    } else if d == 1 {
        "1"
    } else if d == 2 {
        "2"
    } else if d == 3 {
        "3"
    } else if d == 4 {
        "4"
    } else if d == 5 {
        "5"
    } else if d == 6 {
        "6"
    } else if d == 7 {
        "7"
    } else if d == 8 {
        "8"
    } else {
        "9"
    }
}

/// Appends the decimal digits of `n` to `s`.
pub fn push_decimal_u64(s: &mut String, n: u64)
    ensures
        final(s)@ == old(s)@ + nat_digits(n as nat),
    decreases n,
{
    if n >= 10 {
        push_decimal_u64(s, n / 10);
    }
    s.append(digit_str(n % 10));
    proof {
        if n >= 10 {
            assert(nat_digits(n as nat) == nat_digits((n / 10) as nat).push(digit_char((n % 10) as nat)));
        }
    }
    assert(final(s)@ =~= old(s)@ + nat_digits(n as nat));
}

/// Appends the decimal rendering of `x` (with `-` when negative) to `s`.
pub fn push_decimal_i64(s: &mut String, x: i64)
    ensures
        final(s)@ == old(s)@ + int_decimal(x as int),
{
    proof {
        reveal_strlit("-");
    }
    if x < 0 {
        s.append("-");
        let magnitude: u64 = ((-(x + 1)) as u64) + 1;
        assert(magnitude == -(x as int));
        push_decimal_u64(s, magnitude);
        assert(final(s)@ =~= old(s)@ + int_decimal(x as int));
    } else {
        push_decimal_u64(s, x as u64);
    }
}

/// The decimal rendering of `x` as a new string.
pub fn decimal_string(x: i64) -> (r: String)
    ensures
        r@ == int_decimal(x as int),
{
    let mut s = String::new();
    push_decimal_i64(&mut s, x);
    assert(s@ =~= int_decimal(x as int));
    s
}

/// True when `needle` occurs in `hay` as a contiguous run of characters.
pub open spec fn has_substring(hay: Seq<char>, needle: Seq<char>) -> bool {
    exists|i: int|
        0 <= i && i + needle.len() <= hay.len() && #[trigger] hay.subrange(i, i + needle.len())
            == needle
}

/// True when `needle` occurs in `hay` at position `at`.
fn occurs_at(hay: &str, needle: &str, at: usize) -> (r: bool)
    requires
        at + needle@.len() <= hay@.len(),
    ensures
        r == (hay@.subrange(at as int, at + needle@.len()) == needle@),
{
    let n = needle.unicode_len();
    let h = hay.unicode_len();
    let mut j: usize = 0;
    while j < n
        invariant
            n == needle@.len(),
            h == hay@.len(),
            at + n <= hay@.len(),
            j <= n,
            forall|k: int| 0 <= k < j ==> hay@[at + k] == needle@[k],
        decreases n - j,
    {
        if hay.get_char(at + j) != needle.get_char(j) {
            assert(hay@.subrange(at as int, at + n)[j as int] != needle@[j as int]);
            return false;
        }
        j = j + 1;
    }
    assert(hay@.subrange(at as int, at + n) =~= needle@);
    true
}

/// Substring search: true exactly when `needle` occurs in `hay`.
pub fn str_contains(hay: &str, needle: &str) -> (r: bool)
    ensures
        r == has_substring(hay@, needle@),
{
    let h = hay.unicode_len();
    let n = needle.unicode_len();
    if n > h {
        return false;
    }
    if n == 0 {
        assert(hay@.subrange(0, 0 + needle@.len() as int) =~= needle@);
        return true;
    }
    let mut i: usize = 0;
    while i <= h - n
        invariant
            h == hay@.len(),
            n == needle@.len(),
            0 < n <= h,
            i <= h - n + 1,
            forall|k: int|
                0 <= k < i ==> #[trigger] hay@.subrange(k, k + n) != needle@,
        decreases h - n + 1 - i,
    {
        if occurs_at(hay, needle, i) {
            return true;
        }
        i = i + 1;
    }
    false
}

/// Character-wise equality of two string slices.
pub fn str_eq(a: &str, b: &str) -> (r: bool)
    ensures
        r == (a@ == b@),
{
    let n = a.unicode_len();
    let m = b.unicode_len();
    if n != m {
        return false;
    }
    let mut i: usize = 0;
    while i < n
        invariant
            n == a@.len(),
            m == b@.len(),
            n == m,
            i <= n,
            forall|j: int| 0 <= j < i ==> a@[j] == b@[j],
        decreases n - i,
    {
        if a.get_char(i) != b.get_char(i) {
            return false;
        }
        i = i + 1;
    }
    assert(a@ =~= b@);
    true
}

/// Equality of two owned strings by their characters.
pub fn string_eq(a: &String, b: &String) -> (r: bool)
    ensures
        r == (a@ == b@),
{
    str_eq(a.as_str(), b.as_str())
}

/// What the standard `Debug` formatting of a string slice produces (a quoted,
/// escaped rendering); it depends on the characters of the string alone.
pub uninterp spec fn debug_quoted(s: Seq<char>) -> Seq<char>;

/// Calls the standard `Debug` formatting (`format!("{:?}", s)`) of a string
/// slice. The contract names the result `debug_quoted(s@)` and claims nothing
/// more of it.
#[verifier::external_body]
fn debug_quote(s: &str) -> (r: String)
    ensures
        r@ == debug_quoted(s@),
{
    format!("{:?}", s)
}

/// The entries `k: v` of a map rendering, each side quoted, joined by `, `.
pub open spec fn debug_entries(pairs: Seq<(Seq<char>, Seq<char>)>) -> Seq<char>
    decreases pairs.len(),
{
    if pairs.len() == 0 {
        Seq::empty()
    } else if pairs.len() == 1 {
        debug_quoted(pairs[0].0) + ": "@ + debug_quoted(pairs[0].1)
    } else {
        debug_entries(pairs.drop_last()) + ", "@ + debug_quoted(pairs.last().0) + ": "@
            + debug_quoted(pairs.last().1)
    }
}

/// The rendering `{"k1": "v1", "k2": "v2"}` of a map with the given entries.
pub open spec fn debug_map(pairs: Seq<(Seq<char>, Seq<char>)>) -> Seq<char> {
    "{"@ + debug_entries(pairs) + "}"@
}

/// Renders a string map in the `{"key": "value", ...}` form, entries in order.
pub fn render_debug_map(m: &StringMap) -> (r: String)
    ensures
        r@ == debug_map(m.pairs()),
{
    let mut s = String::from_str("{");
    let n = m.len();
    let mut i: usize = 0;
    while i < n
        invariant
            n == m.pairs().len(),
            i <= n,
            s@ == "{"@ + debug_entries(m.pairs().take(i as int)),
        decreases n - i,
    {
        let (k, v) = m.entry_at(i);
        if i > 0 {
            s.append(", ");
        }
        let kq = debug_quote(k.as_str());
        let vq = debug_quote(v.as_str());
        s.append(kq.as_str());
        s.append(": ");
        s.append(vq.as_str());
        proof {
            let t = m.pairs().take(i + 1);
            assert(t.drop_last() =~= m.pairs().take(i as int));
            assert(t.last() == m.pairs()[i as int]);
            if i == 0 {
                assert(debug_entries(m.pairs().take(0)) =~= Seq::<char>::empty());
                assert(t[0] == m.pairs()[0]);
            }
        }
        i = i + 1;
        assert(s@ =~= "{"@ + debug_entries(m.pairs().take(i as int)));
    }
    s.append("}");
    assert(m.pairs().take(n as int) =~= m.pairs());
    assert(s@ =~= debug_map(m.pairs()));
    s
}

} // verus!

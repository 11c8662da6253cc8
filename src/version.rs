use vstd::prelude::*;

use crate::text::{chars_of, string_of};

verus! {

/// The characters of `s` before its first `.` (all of `s` if it has none).
pub open spec fn leading_component(s: Seq<char>) -> Seq<char>
    decreases s.len(),
{
    if s.len() == 0 || s[0] == '.' {
        Seq::empty()
    } else {
        seq![s[0]] + leading_component(s.drop_first())
    }
}

/// Whether `c` is an ASCII decimal digit.
pub open spec fn is_digit(c: char) -> bool {
    '0' <= c <= '9'
}

/// The value of a run of decimal digits.
pub open spec fn digits_value(d: Seq<char>) -> nat
    decreases d.len(),
{
    if d.len() == 0 {
        0
    } else {
        digits_value(d.drop_last()) * 10 + (d.last() as nat - 48) as nat
    }
}

/// `t` without one leading `+`, if it has one.
pub open spec fn unsigned_digits(t: Seq<char>) -> Seq<char> {
    if t.len() > 0 && t[0] == '+' {
        t.drop_first()
    } else {
        t
    }
}

/// What `u8`'s `FromStr` makes of `t`: an optional `+`, then at least one
/// decimal digit and nothing else, with a value that fits in a byte.
pub open spec fn parses_as_u8(t: Seq<char>) -> Option<u8> {
    let d = unsigned_digits(t);
    if d.len() > 0 && (forall|i: int| 0 <= i < d.len() ==> is_digit(#[trigger] d[i]))
        && digits_value(d) <= 255 {
        Some(digits_value(d) as u8)
    } else {
        None
    }
}

/// The major number of an OS version string such as `16.4` or `17.0.1`.
pub open spec fn major_version_of(version: Seq<char>) -> Option<u8> {
    parses_as_u8(leading_component(version))
}

/// The number of `.` in `s`.
pub open spec fn dot_count(s: Seq<char>) -> nat
    decreases s.len(),
{
    if s.len() == 0 {
        0
    } else {
        dot_count(s.drop_last()) + if s.last() == '.' {
            1nat
        } else {
            0nat
        }
    }
}

/// The characters of `s` before its last `.` (empty if it has none).
pub open spec fn before_last_dot(s: Seq<char>) -> Seq<char>
    decreases s.len(),
{
    if s.len() == 0 {
        Seq::empty()
    } else if s.last() == '.' {
        s.drop_last()
    } else {
        before_last_dot(s.drop_last())
    }
}

/// A version trimmed to two components: `16.4.1` becomes `16.4`, while
/// `16.4` and `16` stay as they are.
pub open spec fn two_component_version(v: Seq<char>) -> Seq<char> {
    if dot_count(v) > 1 {
        before_last_dot(v)
    } else {
        v
    }
}

proof fn lemma_leading_component(s: Seq<char>, end: int)
    requires
        0 <= end <= s.len(),
        forall|j: int| 0 <= j < end ==> s[j] != '.',
        end == s.len() || s[end] == '.',
    ensures
        leading_component(s) == s.take(end),
    decreases s.len(),
{
    if s.len() == 0 || s[0] == '.' {
        assert(s.take(end) =~= Seq::<char>::empty());
    } else {
        lemma_leading_component(s.drop_first(), end - 1);
        assert(seq![s[0]] + s.drop_first().take(end - 1) =~= s.take(end));
    }
}

/// The major number of `version`, when its leading component parses as a
/// byte.
pub fn major_version(version: &str) -> (r: Option<u8>)
    ensures
        r == major_version_of(version@),
{
    let cs = chars_of(version);
    let mut end: usize = 0;
    while end < cs.len() && cs[end] != '.'
        invariant
            end <= cs.len(),
            forall|j: int| 0 <= j < end ==> cs[j] != '.',
        decreases cs.len() - end,
    {
        end = end + 1;
    }
    proof {
        lemma_leading_component(cs@, end as int);
    }
    let ghost t = cs@.take(end as int);
    let start: usize = if end > 0 && cs[0] == '+' {
        1
    } else {
        0
    };
    let ghost d = cs@.subrange(start as int, end as int);
    assert(d =~= unsigned_digits(t));
    if start == end {
        return None;
    }
    // saturates at 256: every larger value is rejected alike
    let mut value: u32 = 0;
    let mut i: usize = start;
    while i < end
        invariant
            start <= i <= end <= cs.len(),
            d == cs@.subrange(start as int, end as int),
            d == unsigned_digits(leading_component(version@)),
            forall|j: int| 0 <= j < i - start ==> is_digit(#[trigger] d[j]),
            value == (if digits_value(d.take(i - start)) <= 256 {
                digits_value(d.take(i - start))
            } else {
                256
            }),
        decreases end - i,
    {
        let c = cs[i];
        if !('0' <= c && c <= '9') {
            assert(!is_digit(d[i - start]));
            assert(!(forall|j: int| 0 <= j < d.len() ==> is_digit(#[trigger] d[j])));
            return None;
        }
        let ghost k = i - start;
        assert(d.take(k + 1).drop_last() =~= d.take(k));
        let dig: u32 = (c as u32) - 48;
        let next: u32 = value * 10 + dig;
        value = if next > 256 {
            256
        } else {
            next
        };
        i = i + 1;
    }
    assert(d.take(end - start) =~= d);
    if value > 255 {
        None
    } else {
        Some(value as u8)
    }
}

/// Counts the `.` in `cs`.
fn count_dots(cs: &Vec<char>) -> (r: usize)
    ensures
        r == dot_count(cs@),
{
    let mut n: usize = 0;
    let mut i: usize = 0;
    while i < cs.len()
        invariant
            i <= cs.len(),
            n == dot_count(cs@.take(i as int)),
            n <= i,
        decreases cs.len() - i,
    {
        assert(cs@.take(i + 1).drop_last() =~= cs@.take(i as int));
        if cs[i] == '.' {
            n = n + 1;
        }
        i = i + 1;
    }
    assert(cs@.take(cs.len() as int) =~= cs@);
    n
}

/// `version` trimmed to its first two components, the folder name under
/// which images for that version are published.
pub fn two_component(version: &str) -> (r: String)
    ensures
        r@ == two_component_version(version@),
{
    let cs = chars_of(version);
    if count_dots(&cs) <= 1 {
        return string_of(&cs, 0, cs.len());
    }
    let mut i: usize = cs.len();
    assert(cs@.take(cs.len() as int) =~= cs@);
    while i > 0 && cs[i - 1] != '.'
        invariant
            i <= cs.len(),
            before_last_dot(cs@) == before_last_dot(cs@.take(i as int)),
        decreases i,
    {
        assert(cs@.take(i as int).drop_last() =~= cs@.take(i - 1));
        i = i - 1;
    }
    proof {
        assert(cs@.take(cs.len() as int) =~= cs@);
    }
    if i == 0 {
        assert(cs@.take(0) =~= Seq::<char>::empty());
        return String::new();
    }
    assert(cs@.take(i as int).drop_last() =~= cs@.subrange(0, i - 1));
    string_of(&cs, 0, i - 1)
}

} // verus!

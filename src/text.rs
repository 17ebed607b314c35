//! Character-level helpers shared by the validators.

use vstd::prelude::*;
use vstd::string::*;

verus! {

/// The Unicode `White_Space` property, which is what `char::is_whitespace`
/// and `str::trim` go by.
pub open spec fn is_white_space(c: char) -> bool {
    let u = c as u32;
    (0x09 <= u && u <= 0x0d) || u == 0x20 || u == 0x85 || u == 0xa0 || u == 0x1680
        || (0x2000 <= u && u <= 0x200a) || u == 0x2028 || u == 0x2029 || u == 0x202f
        || u == 0x205f || u == 0x3000
}

/// True when trimming `s` leaves nothing.
pub open spec fn is_blank(s: Seq<char>) -> bool {
    forall|i: int| 0 <= i < s.len() ==> is_white_space(#[trigger] s[i])
}

pub fn white_space(c: char) -> (r: bool)
    ensures
        r == is_white_space(c),
{
    let u = c as u32;
    (0x09 <= u && u <= 0x0d) || u == 0x20 || u == 0x85 || u == 0xa0 || u == 0x1680
        || (0x2000 <= u && u <= 0x200a) || u == 0x2028 || u == 0x2029 || u == 0x202f
        || u == 0x205f || u == 0x3000
}

/// The characters of `s`, one per element.
pub fn chars_of(s: &str) -> (r: Vec<char>)
    ensures
        r@ == s@,
{
    let n = s.unicode_len();
    let mut r: Vec<char> = Vec::new();
    let mut i: usize = 0;
    while i < n
        invariant
            n == s@.len(),
            i <= n,
            r@ == s@.subrange(0, i as int),
        decreases n - i,
    {
        r.push(s.get_char(i));
        i += 1;
    }
    assert(r@ =~= s@);
    r
}

/// `a` is the position of the first character that trimming keeps.
pub open spec fn is_trim_start(s: Seq<char>, a: int) -> bool {
    0 <= a < s.len() && !is_white_space(s[a]) && forall|j: int| 0 <= j < a ==> is_white_space(#[trigger] s[j])
}

/// `b` is the position of the last character that trimming keeps.
pub open spec fn is_trim_end(s: Seq<char>, b: int) -> bool {
    0 <= b < s.len() && !is_white_space(s[b]) && forall|j: int| b < j < s.len() ==> is_white_space(#[trigger] s[j])
}

/// The number of characters that `str::trim` leaves of `s`.
pub open spec fn trimmed_len(s: Seq<char>) -> int {
    if exists|a: int, b: int| is_trim_start(s, a) && is_trim_end(s, b) {
        let (a, b) = choose|a: int, b: int| is_trim_start(s, a) && is_trim_end(s, b);
        b - a + 1
    } else {
        0
    }
}

/// Counts the characters that trimming leaves of `s`.
pub fn trimmed_length(s: &str) -> (r: usize)
    ensures
        r == trimmed_len(s@),
{
    let cs = chars_of(s);
    let n = cs.len();
    let mut a: usize = 0;
    while a < n && white_space(cs[a])
        invariant
            cs@ == s@,
            n == cs@.len(),
            a <= n,
            forall|j: int| 0 <= j < a ==> is_white_space(#[trigger] cs@[j]),
        decreases n - a,
    {
        a += 1;
    }
    if a == n {
        proof {
            if exists|a2: int, b2: int| is_trim_start(s@, a2) && is_trim_end(s@, b2) {
                let (a2, b2) = choose|a2: int, b2: int| is_trim_start(s@, a2) && is_trim_end(s@, b2);
                assert(is_white_space(cs@[a2]));
            }
        }
        return 0;
    }
    let mut b: usize = n - 1;
    while b > a && white_space(cs[b])
        invariant
            cs@ == s@,
            n == cs@.len(),
            a <= b < n,
            !is_white_space(cs@[a as int]),
            forall|j: int| b < j < n ==> is_white_space(#[trigger] cs@[j]),
        decreases b,
    {
        b -= 1;
    }
    proof {
        assert(is_trim_start(s@, a as int));
        assert(is_trim_end(s@, b as int));
        let (a2, b2) = choose|a2: int, b2: int| is_trim_start(s@, a2) && is_trim_end(s@, b2);
        if a2 < a {
            assert(is_white_space(cs@[a2]));
        }
        if a < a2 {
            assert(is_white_space(s@[a as int]));
        }
        if b2 < b {
            assert(is_white_space(s@[b as int]));
        }
        if b < b2 {
            assert(is_white_space(cs@[b2]));
        }
    }
    b - a + 1
}

/// `prefix` followed by `s`.
pub fn prefixed(prefix: &str, s: &String) -> (r: String)
    ensures
        r@ == prefix@ + s@,
{
    let mut r = String::from_str(prefix);
    r.append(s.as_str());
    r
}

} // verus!

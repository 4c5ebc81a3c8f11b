//! Text primitives the conversation rules are built on: what counts as
//! whitespace, trimming, and comparison that ignores ASCII letter case.
//!
//! Every function here is stated over the characters of a string, `s@`, never
//! over its bytes.

use vstd::prelude::*;
use vstd::std_specs::iter::IteratorSpec;
use vstd::string::*;
use vstd::utf8::encode_utf8;

verus! {

/// Whether `c` is one of the Unicode `White_Space` code points.
pub open spec fn is_whitespace(c: char) -> bool {
    let n = c as u32;
    ||| 0x09 <= n <= 0x0D
    ||| n == 0x20
    ||| n == 0x85
    ||| n == 0xA0
    ||| n == 0x1680
    ||| 0x2000 <= n <= 0x200A
    ||| n == 0x2028
    ||| n == 0x2029
    ||| n == 0x202F
    ||| n == 0x205F
    ||| n == 0x3000
}

/// Whether every character of `s` is whitespace; true of the empty text.
pub open spec fn all_whitespace(s: Seq<char>) -> bool {
    forall|i: int| 0 <= i < s.len() ==> is_whitespace(#[trigger] s[i])
}

/// How many whitespace characters `s` starts with.
pub open spec fn leading_whitespace(s: Seq<char>) -> nat
    decreases s.len(),
{
    if s.len() > 0 && is_whitespace(s.first()) {
        1 + leading_whitespace(s.drop_first())
    } else {
        0
    }
}

/// How many whitespace characters `s` ends with.
pub open spec fn trailing_whitespace(s: Seq<char>) -> nat
    decreases s.len(),
{
    if s.len() > 0 && is_whitespace(s.last()) {
        1 + trailing_whitespace(s.drop_last())
    } else {
        0
    }
}

/// `s` without the whitespace it starts with and the whitespace it ends with.
pub open spec fn trimmed(s: Seq<char>) -> Seq<char> {
    let rest = s.skip(leading_whitespace(s) as int);
    rest.take(rest.len() - trailing_whitespace(rest))
}

/// A run of whitespace at the front of `s` that stops at a character that is
/// not whitespace, or at the end, is all the whitespace `s` starts with.
pub proof fn lemma_leading_whitespace(s: Seq<char>, a: int)
    requires
        0 <= a <= s.len(),
        forall|k: int| 0 <= k < a ==> is_whitespace(#[trigger] s[k]),
        a < s.len() ==> !is_whitespace(s[a]),
    ensures
        leading_whitespace(s) == a,
    decreases a,
{
    if a > 0 {
        let t = s.drop_first();
        assert forall|k: int| 0 <= k < a - 1 implies is_whitespace(#[trigger] t[k]) by {
            assert(t[k] == s[k + 1]);
        }
        lemma_leading_whitespace(t, a - 1);
    }
}

/// A run of whitespace at the back of `s` that starts after a character that
/// is not whitespace, or at the beginning, is all the whitespace `s` ends with.
pub proof fn lemma_trailing_whitespace(s: Seq<char>, b: int)
    requires
        0 <= b <= s.len(),
        forall|k: int| b <= k < s.len() ==> is_whitespace(#[trigger] s[k]),
        b > 0 ==> !is_whitespace(s[b - 1]),
    ensures
        trailing_whitespace(s) == s.len() - b,
    decreases s.len() - b,
{
    if b < s.len() {
        let t = s.drop_last();
        assert forall|k: int| b <= k < t.len() implies is_whitespace(#[trigger] t[k]) by {
            assert(t[k] == s[k]);
        }
        lemma_trailing_whitespace(t, b);
    }
}

/// Where trimming cuts: if everything before `a` and from `b` on is
/// whitespace, and the piece between them is empty or begins and ends with a
/// character that is not whitespace, then that piece is the trimmed text.
pub proof fn lemma_trim_bounds(s: Seq<char>, a: int, b: int)
    requires
        0 <= a <= b <= s.len(),
        forall|k: int| 0 <= k < a ==> is_whitespace(#[trigger] s[k]),
        forall|k: int| b <= k < s.len() ==> is_whitespace(#[trigger] s[k]),
        a < b ==> !is_whitespace(s[a]) && !is_whitespace(s[b - 1]),
    ensures
        trimmed(s) == s.subrange(a, b),
{
    if a == b {
        lemma_leading_whitespace(s, s.len() as int);
    } else {
        lemma_leading_whitespace(s, a);
        let rest = s.skip(a);
        assert forall|k: int| b - a <= k < rest.len() implies is_whitespace(#[trigger] rest[k]) by {
            assert(rest[k] == s[a + k]);
        }
        lemma_trailing_whitespace(rest, b - a);
        assert(rest.take(b - a) == s.subrange(a, b));
    }
}

/// The whitespace `s` starts with is whitespace, stays inside `s`, and ends
/// where `s` ends or at a character that is not whitespace.
pub proof fn lemma_leading_whitespace_run(s: Seq<char>)
    ensures
        leading_whitespace(s) <= s.len(),
        forall|k: int| 0 <= k < leading_whitespace(s) ==> is_whitespace(#[trigger] s[k]),
        leading_whitespace(s) < s.len() ==> !is_whitespace(s[leading_whitespace(s) as int]),
    decreases s.len(),
{
    if s.len() > 0 && is_whitespace(s.first()) {
        let t = s.drop_first();
        lemma_leading_whitespace_run(t);
        assert forall|k: int| 0 <= k < leading_whitespace(s) implies is_whitespace(
            #[trigger] s[k],
        ) by {
            if k > 0 {
                assert(s[k] == t[k - 1]);
            }
        }
    }
}

/// The whitespace `s` ends with is whitespace, stays inside `s`, and begins
/// where `s` begins or after a character that is not whitespace.
pub proof fn lemma_trailing_whitespace_run(s: Seq<char>)
    ensures
        trailing_whitespace(s) <= s.len(),
        forall|k: int|
            s.len() - trailing_whitespace(s) <= k < s.len() ==> is_whitespace(#[trigger] s[k]),
        trailing_whitespace(s) < s.len() ==> !is_whitespace(
            s[s.len() - trailing_whitespace(s) - 1],
        ),
    decreases s.len(),
{
    if s.len() > 0 && is_whitespace(s.last()) {
        let t = s.drop_last();
        lemma_trailing_whitespace_run(t);
        assert forall|k: int| s.len() - trailing_whitespace(s) <= k < s.len() implies is_whitespace(
            #[trigger] s[k],
        ) by {
            if k < t.len() {
                assert(s[k] == t[k]);
            }
        }
    }
}

/// What trimming leaves: a piece of `s` with nothing but whitespace before
/// and after it, which is empty or begins and ends with a character that is
/// not whitespace.
pub proof fn lemma_trimmed_shape(s: Seq<char>)
    ensures
        ({
            let a = leading_whitespace(s) as int;
            let b = a + trimmed(s).len();
            &&& 0 <= a <= b <= s.len()
            &&& trimmed(s) == s.subrange(a, b)
            &&& forall|k: int| 0 <= k < a ==> is_whitespace(#[trigger] s[k])
            &&& forall|k: int| b <= k < s.len() ==> is_whitespace(#[trigger] s[k])
            &&& a < b ==> !is_whitespace(trimmed(s).first()) && !is_whitespace(trimmed(s).last())
        }),
{
    lemma_leading_whitespace_run(s);
    let a = leading_whitespace(s) as int;
    let rest = s.skip(a);
    lemma_trailing_whitespace_run(rest);
    assert forall|k: int| a + trimmed(s).len() <= k < s.len() implies is_whitespace(
        #[trigger] s[k],
    ) by {
        assert(s[k] == rest[k - a]);
    }
}

/// Trimming leaves nothing exactly of the texts that are all whitespace.
pub proof fn lemma_trimmed_empty(s: Seq<char>)
    ensures
        trimmed(s).len() == 0 <==> all_whitespace(s),
{
    lemma_trimmed_shape(s);
}

/// What trimming leaves has nothing more to trim.
pub proof fn lemma_trimmed_twice(s: Seq<char>)
    ensures
        trimmed(trimmed(s)) == trimmed(s),
{
    lemma_trimmed_shape(s);
    lemma_trim_bounds(trimmed(s), 0, trimmed(s).len() as int);
}

/// Tells whether a character is whitespace.
pub fn char_is_whitespace(c: char) -> (r: bool)
    ensures
        r == is_whitespace(c),
{
    let n: u32 = c as u32;
    (0x09 <= n && n <= 0x0D) || n == 0x20 || n == 0x85 || n == 0xA0 || n == 0x1680 || (0x2000 <= n
        && n <= 0x200A) || n == 0x2028 || n == 0x2029 || n == 0x202F || n == 0x205F || n == 0x3000
}

/// A text has no more characters than its UTF-8 encoding has bytes: no
/// character is encoded in less than one byte.
pub proof fn lemma_characters_within_bytes(s: Seq<char>)
    ensures
        s.len() <= encode_utf8(s).len(),
    decreases s.len(),
{
    if s.len() > 0 {
        lemma_characters_within_bytes(s.drop_first());
    }
}

/// Returns `s` without leading and trailing whitespace.
pub fn trim(s: &str) -> (r: &str)
    ensures
        r@ == trimmed(s@),
{
    let size: usize = s.as_bytes().len();
    proof {
        lemma_characters_within_bytes(s@);
    }
    if size == 0 {
        assert(trimmed(s@) == s@);
        return s;
    }
    let mut start: usize = 0;
    let mut end: usize = 0;
    let mut i: usize = 0;
    for c in it: s.chars()
        invariant
            s@.len() <= size,
            it.seq() == s@,
            i == it.index(),
            start <= end <= i,
            end == 0 ==> start == 0,
            end > 0 ==> start < end && !is_whitespace(s@[start as int]) && !is_whitespace(
                s@[end - 1],
            ),
            forall|k: int|
                0 <= k < i && (k < start || end <= k) ==> is_whitespace(#[trigger] s@[k]),
    {
        if !char_is_whitespace(c) {
            if end == 0 {
                start = i;
            }
            end = i + 1;
        }
        i = i + 1;
    }
    proof {
        lemma_trim_bounds(s@, start as int, end as int);
    }
    s.substring_char(start, end)
}

/// Whether `c` is one of the ASCII capital letters `A` to `Z`.
pub open spec fn is_ascii_uppercase(c: char) -> bool {
    0x41 <= c as u32 <= 0x5A
}

/// `c` with an ASCII capital letter replaced by its small letter; every
/// other character is left as it is.
pub open spec fn ascii_lower(c: char) -> char {
    if is_ascii_uppercase(c) {
        (c as u32 + 0x20) as char
    } else {
        c
    }
}

/// `s` with each of its characters in ASCII lower case.
pub open spec fn ascii_lowered(s: Seq<char>) -> Seq<char> {
    s.map_values(|c: char| ascii_lower(c))
}

/// Whether `a` and `b` are the same text once the case of their ASCII
/// letters is ignored.
pub open spec fn same_ignoring_ascii_case(a: Seq<char>, b: Seq<char>) -> bool {
    ascii_lowered(a) == ascii_lowered(b)
}

/// Two texts are the same but for ASCII case exactly when they are equally
/// long and agree, character by character, in ASCII lower case.
pub proof fn lemma_same_ignoring_ascii_case(a: Seq<char>, b: Seq<char>)
    ensures
        same_ignoring_ascii_case(a, b) <==> a.len() == b.len() && forall|i: int|
            0 <= i < a.len() ==> ascii_lower(#[trigger] a[i]) == ascii_lower(b[i]),
{
    let la = ascii_lowered(a);
    let lb = ascii_lowered(b);
    assert(la.len() == a.len() && lb.len() == b.len());
    if la == lb {
        assert forall|i: int| 0 <= i < a.len() implies ascii_lower(#[trigger] a[i]) == ascii_lower(
            b[i],
        ) by {
            assert(la[i] == ascii_lower(a[i]));
            assert(lb[i] == ascii_lower(b[i]));
        }
    }
    if a.len() == b.len() && forall|i: int|
        0 <= i < a.len() ==> ascii_lower(#[trigger] a[i]) == ascii_lower(b[i]) {
        assert(la =~= lb);
    }
}

/// Puts a character in ASCII lower case.
pub fn lower_ascii(c: char) -> (r: char)
    ensures
        r == ascii_lower(c),
{
    let n: u32 = c as u32;
    if 0x41 <= n && n <= 0x5A {
        ((n + 0x20) as u8) as char
    } else {
        c
    }
}

/// Compares two strings, ignoring the case of ASCII letters.
pub fn eq_ignore_ascii_case(a: &str, b: &str) -> (r: bool)
    ensures
        r == same_ignoring_ascii_case(a@, b@),
{
    let mut left = a.chars();
    let mut right = b.chars();
    let ghost mut k: int = 0;
    proof {
        lemma_same_ignoring_ascii_case(a@, b@);
    }
    loop
        invariant
            0 <= k <= a@.len(),
            k <= b@.len(),
            left.remaining() == a@.skip(k),
            right.remaining() == b@.skip(k),
            forall|i: int| 0 <= i < k ==> ascii_lower(#[trigger] a@[i]) == ascii_lower(b@[i]),
            same_ignoring_ascii_case(a@, b@) <==> a@.len() == b@.len() && forall|i: int|
                0 <= i < a@.len() ==> ascii_lower(#[trigger] a@[i]) == ascii_lower(b@[i]),
        decreases a@.len() - k,
    {
        let x = left.next();
        let y = right.next();
        match (x, y) {
            (None, None) => {
                return true;
            },
            (Some(c), Some(d)) => {
                if lower_ascii(c) != lower_ascii(d) {
                    return false;
                }
                proof {
                    k = k + 1;
                }
            },
            _ => {
                return false;
            },
        }
    }
}

} // verus!

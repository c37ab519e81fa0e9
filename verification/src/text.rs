//! Character-level text helpers shared by the library.
//!
//! Strings are reasoned about through their view, the sequence of their
//! Unicode scalar values.

use vstd::prelude::*;
use vstd::std_specs::iter::IteratorSpec;

verus! {

/// What `str::to_lowercase` returns for a string (Unicode case mapping,
/// including the context-dependent final sigma).
pub uninterp spec fn spec_lowercase(s: Seq<char>) -> Seq<char>;

/// Whether a character has the Unicode `White_Space` property: tab, line
/// feed, vertical tab, form feed, carriage return, space, next line,
/// no-break space, ogham space mark, the spaces U+2000 to U+200A, the line
/// and paragraph separators, narrow no-break space, medium mathematical
/// space and ideographic space.
pub open spec fn spec_is_whitespace(c: char) -> bool {
    let n = c as u32;
    ||| 0x09 <= n <= 0x0D
    ||| n == 0x20
    ||| n == 0x85
    ||| n == 0xA0
    ||| n == 0x1680
    ||| 0x2000 <= n <= 0x200A
    ||| n == 0x2028
    ||| n == 0x2029
    ||| n == 0x202F
    ||| n == 0x205F
    ||| n == 0x3000
}

/// Whether a character is alphabetic or numeric in Unicode (`char::is_alphanumeric`).
pub uninterp spec fn spec_is_alphanumeric(c: char) -> bool;

/// Appends one character (`String::push`); the contract states that the
/// character is added at the end and nothing else changes.
#[verifier::external_body]
pub(crate) fn push_char(s: &mut String, c: char)
    ensures
        final(s)@ == old(s)@.push(c),
{
    s.push(c);
}

/// Lower-cases a string (`str::to_lowercase`); the contract names the result
/// and claims nothing more of it.
#[verifier::external_body]
pub(crate) fn to_lowercase(s: &str) -> (r: String)
    ensures
        r@ == spec_lowercase(s@),
{
    s.to_lowercase()
}

/// `char::is_whitespace`: whether the character has the Unicode
/// `White_Space` property, the set listed in [`spec_is_whitespace`].
pub(crate) fn is_whitespace(c: char) -> (r: bool)
    ensures
        r == spec_is_whitespace(c),
{
    let n = c as u32;
    (0x09 <= n && n <= 0x0D) || n == 0x20 || n == 0x85 || n == 0xA0 || n == 0x1680 || (0x2000 <= n
        && n <= 0x200A) || n == 0x2028 || n == 0x2029 || n == 0x202F || n == 0x205F || n == 0x3000
}

/// `char::is_alphanumeric`; the contract names the result.
#[verifier::external_body]
pub(crate) fn is_alphanumeric(c: char) -> (r: bool)
    ensures
        r == spec_is_alphanumeric(c),
{
    c.is_alphanumeric()
}

/// The characters of a string, in order.
pub fn chars_of(s: &str) -> (v: Vec<char>)
    ensures
        v@ == s@,
{
    broadcast use vstd::string::group_string_axioms;
    let mut v: Vec<char> = Vec::new();
    let mut it = s.chars();
    loop
        invariant
            IteratorSpec::remaining(&it) == s@.skip(v@.len() as int),
            v@ == s@.take(v@.len() as int),
            v@.len() <= s@.len(),
            IteratorSpec::decrease(&it) is Some,
        ensures
            v@ == s@,
        decreases IteratorSpec::decrease(&it)->0,
    {
        match it.next() {
            Some(c) => {
                assert(s@.skip(v@.len() as int)[0] == s@[v@.len() as int]);
                v.push(c);
                assert(s@.take(v@.len() as int) =~= v@);
                assert(s@.skip(v@.len() as int) =~= s@.skip(v@.len() - 1).drop_first());
            },
            None => {
                assert(s@.take(v@.len() as int) =~= s@);
                break;
            },
        }
    }
    v
}

/// A string made of the given characters.
pub fn string_from_chars(cs: &[char]) -> (s: String)
    ensures
        s@ == cs@,
{
    let mut s = String::new();
    let mut i: usize = 0;
    while i < cs.len()
        invariant
            i <= cs@.len(),
            s@ == cs@.take(i as int),
        decreases cs@.len() - i,
    {
        push_char(&mut s, cs[i]);
        assert(cs@.take(i + 1) =~= cs@.take(i as int).push(cs@[i as int]));
        i = i + 1;
    }
    assert(cs@.take(cs@.len() as int) =~= cs@);
    s
}

/// A string holding the characters of `s` from `from` (inclusive) to `to` (exclusive).
pub fn substring(s: &[char], from: usize, to: usize) -> (r: String)
    requires
        from <= to <= s@.len(),
    ensures
        r@ == s@.subrange(from as int, to as int),
{
    let mut r = String::new();
    let mut i: usize = from;
    while i < to
        invariant
            from <= i <= to <= s@.len(),
            r@ == s@.subrange(from as int, i as int),
        decreases to - i,
    {
        push_char(&mut r, s[i]);
        assert(s@.subrange(from as int, i + 1) =~= s@.subrange(from as int, i as int).push(
            s@[i as int],
        ));
        i = i + 1;
    }
    r
}

/// Equality of two string slices, character by character.
pub fn str_eq(a: &str, b: &str) -> (r: bool)
    ensures
        r == (a@ == b@),
{
    let x = String::from_str(a);
    let y = String::from_str(b);
    x == y
}

/// Index of the first character at or after `i` that is not whitespace, or the length.
pub open spec fn first_non_ws(s: Seq<char>, i: int) -> int
    decreases s.len() - i,
{
    if i < 0 || i >= s.len() {
        s.len() as int
    } else if !spec_is_whitespace(s[i]) {
        i
    } else {
        first_non_ws(s, i + 1)
    }
}

/// One past the last character before `j` that is not whitespace, or 0.
pub open spec fn last_non_ws_end(s: Seq<char>, j: int) -> int
    decreases j,
{
    if j <= 0 || j > s.len() {
        0
    } else if !spec_is_whitespace(s[j - 1]) {
        j
    } else {
        last_non_ws_end(s, j - 1)
    }
}

/// `s` without its leading and trailing whitespace (what `str::trim` does).
pub open spec fn spec_trim(s: Seq<char>) -> Seq<char> {
    let a = first_non_ws(s, 0);
    let b = last_non_ws_end(s, s.len() as int);
    if a < b {
        s.subrange(a, b)
    } else {
        Seq::empty()
    }
}

/// Whether every character of `s` is whitespace.
pub open spec fn all_whitespace(s: Seq<char>) -> bool {
    forall|k: int| 0 <= k < s.len() ==> spec_is_whitespace(#[trigger] s[k])
}

proof fn lemma_first_non_ws_props(s: Seq<char>, i: int)
    requires
        0 <= i <= s.len(),
    ensures
        i <= first_non_ws(s, i) <= s.len(),
        forall|k: int| i <= k < first_non_ws(s, i) ==> spec_is_whitespace(#[trigger] s[k]),
        first_non_ws(s, i) < s.len() ==> !spec_is_whitespace(s[first_non_ws(s, i)]),
    decreases s.len() - i,
{
    if i < s.len() && spec_is_whitespace(s[i]) {
        lemma_first_non_ws_props(s, i + 1);
    }
}

proof fn lemma_first_non_ws_is(s: Seq<char>, i: int, k: int)
    requires
        0 <= i <= k <= s.len(),
        forall|m: int| i <= m < k ==> spec_is_whitespace(#[trigger] s[m]),
        k < s.len() ==> !spec_is_whitespace(s[k]),
    ensures
        first_non_ws(s, i) == k,
    decreases k - i,
{
    if i < k {
        lemma_first_non_ws_is(s, i + 1, k);
    }
}

proof fn lemma_last_non_ws_props(s: Seq<char>, j: int)
    requires
        0 <= j <= s.len(),
    ensures
        0 <= last_non_ws_end(s, j) <= j,
        forall|k: int| last_non_ws_end(s, j) <= k < j ==> spec_is_whitespace(#[trigger] s[k]),
        last_non_ws_end(s, j) > 0 ==> !spec_is_whitespace(s[last_non_ws_end(s, j) - 1]),
    decreases j,
{
    if j > 0 && spec_is_whitespace(s[j - 1]) {
        lemma_last_non_ws_props(s, j - 1);
    }
}

proof fn lemma_last_non_ws_is(s: Seq<char>, j: int, k: int)
    requires
        0 <= k <= j <= s.len(),
        forall|m: int| k <= m < j ==> spec_is_whitespace(#[trigger] s[m]),
        k > 0 ==> !spec_is_whitespace(s[k - 1]),
    ensures
        last_non_ws_end(s, j) == k,
    decreases j - k,
{
    if k < j {
        lemma_last_non_ws_is(s, j - 1, k);
    }
}

/// Whitespace added before and after a text does not change what trimming gives.
pub proof fn lemma_trim_surrounded(w1: Seq<char>, s: Seq<char>, w2: Seq<char>)
    requires
        all_whitespace(w1),
        all_whitespace(w2),
    ensures
        spec_trim(w1 + s + w2) == spec_trim(s),
{
    let t = w1 + s + w2;
    let n1 = w1.len() as int;
    let a = first_non_ws(s, 0);
    let b = last_non_ws_end(s, s.len() as int);
    lemma_first_non_ws_props(s, 0);
    lemma_last_non_ws_props(s, s.len() as int);
    assert forall|m: int| 0 <= m < n1 implies spec_is_whitespace(#[trigger] t[m]) by {
        assert(t[m] == w1[m]);
    }
    assert forall|m: int| n1 + s.len() <= m < t.len() implies spec_is_whitespace(#[trigger] t[m]) by {
        assert(t[m] == w2[m - n1 - s.len()]);
    }
    assert forall|m: int| 0 <= m < s.len() implies #[trigger] t[n1 + m] == s[m] by {}
    if a < s.len() {
        // `s` holds a character that is not whitespace: the cut moves by `w1`.
        assert(a < b);
        assert forall|m: int| 0 <= m < n1 + a implies spec_is_whitespace(#[trigger] t[m]) by {
            if m >= n1 {
                assert(t[m] == s[m - n1]);
            }
        }
        assert(t[n1 + a] == s[a]);
        lemma_first_non_ws_is(t, 0, n1 + a);
        assert forall|m: int| n1 + b <= m < t.len() implies spec_is_whitespace(#[trigger] t[m]) by {
            if m < n1 + s.len() {
                assert(t[m] == s[m - n1]);
            }
        }
        assert(t[n1 + b - 1] == s[b - 1]);
        lemma_last_non_ws_is(t, t.len() as int, n1 + b);
        assert(t.subrange(n1 + a, n1 + b) =~= s.subrange(a, b));
    } else {
        // `s` is all whitespace, and so is the whole text.
        assert(b == 0) by {
            if b > 0 {
                assert(spec_is_whitespace(s[b - 1]));
            }
        }
        assert forall|m: int| 0 <= m < t.len() implies spec_is_whitespace(#[trigger] t[m]) by {
            if n1 <= m < n1 + s.len() {
                assert(t[m] == s[m - n1]);
            }
        }
        lemma_first_non_ws_is(t, 0, t.len() as int);
        lemma_last_non_ws_is(t, t.len() as int, 0);
    }
}

/// Removes leading and trailing whitespace.
pub fn trim(s: &str) -> (r: String)
    ensures
        r@ == spec_trim(s@),
{
    let cs = chars_of(s);
    let n = cs.len();
    let mut a: usize = 0;
    while a < n && is_whitespace(cs[a])
        invariant
            cs@ == s@,
            n == cs@.len(),
            a <= n,
            first_non_ws(s@, 0) == first_non_ws(s@, a as int),
        decreases n - a,
    {
        a = a + 1;
    }
    let mut b: usize = n;
    while b > 0 && is_whitespace(cs[b - 1])
        invariant
            cs@ == s@,
            n == cs@.len(),
            b <= n,
            last_non_ws_end(s@, n as int) == last_non_ws_end(s@, b as int),
        decreases b,
    {
        b = b - 1;
    }
    if a < b {
        substring(cs.as_slice(), a, b)
    } else {
        String::new()
    }
}

/// `s` with every occurrence of `from` replaced by `to`.
pub open spec fn spec_replace_char(s: Seq<char>, from: char, to: char) -> Seq<char> {
    s.map_values(|c: char| if c == from { to } else { c })
}

/// Replaces every occurrence of one character by another.
pub fn replace_char(s: &str, from: char, to: char) -> (r: String)
    ensures
        r@ == spec_replace_char(s@, from, to),
{
    let cs = chars_of(s);
    let mut r = String::new();
    let mut i: usize = 0;
    while i < cs.len()
        invariant
            cs@ == s@,
            i <= cs@.len(),
            r@ == spec_replace_char(s@.take(i as int), from, to),
        decreases cs@.len() - i,
    {
        let c = cs[i];
        push_char(&mut r, if c == from { to } else { c });
        assert(spec_replace_char(s@.take(i + 1), from, to) =~= spec_replace_char(
            s@.take(i as int),
            from,
            to,
        ).push(if c == from { to } else { c }));
        i = i + 1;
    }
    assert(s@.take(cs@.len() as int) =~= s@);
    r
}

/// The decimal digit of a value in 0..10.
pub open spec fn digit_char(d: nat) -> char {
    seq!['0', '1', '2', '3', '4', '5', '6', '7', '8', '9'][d as int]
}

/// The decimal text of a natural number, without leading zeros.
pub open spec fn spec_decimal(n: nat) -> Seq<char>
    decreases n,
{
    if n < 10 {
        seq![digit_char(n)]
    } else {
        spec_decimal(n / 10).push(digit_char(n % 10))
    }
}

/// The decimal text of a number (what `Display` prints for an unsigned integer).
pub fn decimal_text(n: u64) -> (s: String)
    ensures
        s@ == spec_decimal(n as nat),
    decreases n,
{
    let digits: [char; 10] = ['0', '1', '2', '3', '4', '5', '6', '7', '8', '9'];
    if n < 10 {
        let mut s = String::new();
        push_char(&mut s, digits[n as usize]);
        assert(s@ =~= seq![digit_char(n as nat)]);
        s
    } else {
        let mut s = decimal_text(n / 10);
        push_char(&mut s, digits[(n % 10) as usize]);
        s
    }
}

/// Trimming keeps a contiguous part of the text: everything before it and
/// after it is whitespace, and when it is not empty it neither starts nor
/// ends with whitespace. A text that is all whitespace trims to nothing.
pub proof fn law_trim_strips_only_surrounding_whitespace(s: Seq<char>)
    ensures
        exists|a: int, b: int|
            0 <= a <= b <= s.len() && spec_trim(s) == s.subrange(a, b) && all_whitespace(
                s.subrange(0, a),
            ) && all_whitespace(s.subrange(b, s.len() as int)),
        spec_trim(s).len() > 0 ==> !spec_is_whitespace(spec_trim(s)[0]) && !spec_is_whitespace(
            spec_trim(s)[spec_trim(s).len() - 1],
        ),
        all_whitespace(s) ==> spec_trim(s).len() == 0,
{
    let a = first_non_ws(s, 0);
    let b = last_non_ws_end(s, s.len() as int);
    lemma_first_non_ws_props(s, 0);
    lemma_last_non_ws_props(s, s.len() as int);
    if a < b {
        assert(all_whitespace(s.subrange(0, a))) by {
            assert forall|k: int| 0 <= k < a implies spec_is_whitespace(#[trigger] s.subrange(0, a)[k]) by {
                assert(s.subrange(0, a)[k] == s[k]);
            }
        }
        assert(all_whitespace(s.subrange(b, s.len() as int))) by {
            assert forall|k: int| 0 <= k < s.len() - b implies spec_is_whitespace(
                #[trigger] s.subrange(b, s.len() as int)[k],
            ) by {
                assert(s.subrange(b, s.len() as int)[k] == s[b + k]);
            }
        }
        assert(spec_trim(s)[0] == s[a]);
        assert(spec_trim(s)[spec_trim(s).len() - 1] == s[b - 1]);
    } else {
        // No character is kept: everything is whitespace.
        assert(a == s.len()) by {
            if a < s.len() {
                assert(!spec_is_whitespace(s[a]));
                assert(a < b);
            }
        }
        assert(all_whitespace(s.subrange(0, s.len() as int))) by {
            assert forall|k: int| 0 <= k < s.len() implies spec_is_whitespace(
                #[trigger] s.subrange(0, s.len() as int)[k],
            ) by {
                assert(s.subrange(0, s.len() as int)[k] == s[k]);
            }
        }
        assert(all_whitespace(s.subrange(s.len() as int, s.len() as int)));
        assert(spec_trim(s) =~= s.subrange(s.len() as int, s.len() as int));
    }
    if all_whitespace(s) && a < s.len() {
        assert(spec_is_whitespace(s[a]));
    }
}

/// Replacing a character keeps the text's length and every other character,
/// and puts `to` wherever `from` stood.
pub proof fn law_replace_char(s: Seq<char>, from: char, to: char)
    ensures
        spec_replace_char(s, from, to).len() == s.len(),
        forall|i: int|
            0 <= i < s.len() ==> #[trigger] spec_replace_char(s, from, to)[i] == if s[i] == from {
                to
            } else {
                s[i]
            },
{
}

} // verus!

//! Pattern matching for vanity addresses: a pattern anchors a piece of text
//! at the start of the address, at its end, or both, and a boundary-class
//! rule makes a case-uniform anchor stand out against the character next
//! to it.

use vstd::prelude::*;

verus! {

/// A character of the 58-letter Base58 alphabet: the digits `1`-`9`, the
/// uppercase letters without `I` and `O`, and the lowercase letters without
/// `l`.
pub open spec fn is_base58_char(c: char) -> bool {
    ||| 49 <= c as u32 <= 57
    ||| (65 <= c as u32 <= 90 && c as u32 != 73 && c as u32 != 79)
    ||| (97 <= c as u32 <= 122 && c as u32 != 108)
}

/// An ASCII uppercase letter.
pub open spec fn is_uppercase_char(c: char) -> bool {
    65 <= c as u32 <= 90
}

/// An ASCII lowercase letter.
pub open spec fn is_lowercase_char(c: char) -> bool {
    97 <= c as u32 <= 122
}

/// An ASCII decimal digit.
pub open spec fn is_digit_char(c: char) -> bool {
    48 <= c as u32 <= 57
}

/// An ASCII letter of either case.
pub open spec fn is_letter_char(c: char) -> bool {
    is_uppercase_char(c) || is_lowercase_char(c)
}

pub open spec fn all_uppercase(s: Seq<char>) -> bool {
    forall|i: int| 0 <= i < s.len() ==> is_uppercase_char(s[i])
}

pub open spec fn all_lowercase(s: Seq<char>) -> bool {
    forall|i: int| 0 <= i < s.len() ==> is_lowercase_char(s[i])
}

pub open spec fn all_digits(s: Seq<char>) -> bool {
    forall|i: int| 0 <= i < s.len() ==> is_digit_char(s[i])
}

pub open spec fn all_base58(s: Seq<char>) -> bool {
    forall|i: int| 0 <= i < s.len() ==> is_base58_char(s[i])
}

/// The boundary rule: the single character `c` adjacent to a matched anchor
/// is constrained by the anchor's character class. A uniformly uppercase
/// anchor demands a lowercase neighbour, a uniformly lowercase anchor an
/// uppercase one, an all-digit anchor a letter; a mixed anchor accepts any
/// neighbour.
pub open spec fn boundary_ok(anchor: Seq<char>, c: char) -> bool {
    if all_uppercase(anchor) {
        is_lowercase_char(c)
    } else if all_lowercase(anchor) {
        is_uppercase_char(c)
    } else if all_digits(anchor) {
        is_letter_char(c)
    } else {
        true
    }
}

/// The prefix rule: the address starts with the anchor, the character just
/// after the anchor exists, and that character satisfies the boundary rule.
/// When the anchor consumes the whole address (or more), there is no
/// boundary character and the match fails.
pub open spec fn prefix_matches(p: Seq<char>, a: Seq<char>) -> bool {
    &&& p.len() < a.len()
    &&& a.subrange(0, p.len() as int) == p
    &&& boundary_ok(p, a[p.len() as int])
}

/// The suffix rule, mirrored: the address ends with the anchor, the
/// character just before the anchor exists, and it satisfies the boundary
/// rule.
pub open spec fn suffix_matches(s: Seq<char>, a: Seq<char>) -> bool {
    &&& s.len() < a.len()
    &&& a.subrange(a.len() - s.len(), a.len() as int) == s
    &&& boundary_ok(s, a[a.len() - s.len() - 1])
}

/// What a pattern asks of an address: a prefix anchor, a suffix anchor, or
/// both independently.
pub enum PatternView {
    Prefix(Seq<char>),
    Suffix(Seq<char>),
    Both(Seq<char>, Seq<char>),
}

pub open spec fn spec_matches(p: PatternView, a: Seq<char>) -> bool {
    match p {
        PatternView::Prefix(t) => prefix_matches(t, a),
        PatternView::Suffix(t) => suffix_matches(t, a),
        PatternView::Both(t, u) => prefix_matches(t, a) && suffix_matches(u, a),
    }
}

/// A vanity pattern: text to find at the start of the address, at its end,
/// or both.
pub enum PatternSpec {
    Prefix(String),
    Suffix(String),
    Both(String, String),
}

impl View for PatternSpec {
    type V = PatternView;

    open spec fn view(&self) -> PatternView {
        match self {
            PatternSpec::Prefix(t) => PatternView::Prefix(t@),
            PatternSpec::Suffix(t) => PatternView::Suffix(t@),
            PatternSpec::Both(t, u) => PatternView::Both(t@, u@),
        }
    }
}

/// How many characters a pattern anchors: the anchor's length, or the two
/// anchors' lengths added for a `Both` pattern.
pub open spec fn spec_pattern_length(p: PatternView) -> nat {
    match p {
        PatternView::Prefix(t) => t.len(),
        PatternView::Suffix(t) => t.len(),
        PatternView::Both(t, u) => t.len() + u.len(),
    }
}

impl PatternSpec {
    /// How many characters the pattern anchors, saturated at u32::MAX: the
    /// size of the search space is 58 to this power.
    pub fn length(&self) -> (n: u32)
        ensures
            n as nat == if spec_pattern_length(self@) > u32::MAX as nat {
                u32::MAX as nat
            } else {
                spec_pattern_length(self@)
            },
    {
        let total: u128 = match self {
            PatternSpec::Prefix(t) => t.as_str().unicode_len() as u128,
            PatternSpec::Suffix(t) => t.as_str().unicode_len() as u128,
            PatternSpec::Both(t, u) => t.as_str().unicode_len() as u128 + u.as_str().unicode_len()
                as u128,
        };
        if total > u32::MAX as u128 {
            u32::MAX
        } else {
            total as u32
        }
    }
}

/// Law: a `Both` pattern matches exactly when its prefix pattern and its
/// suffix pattern each match on their own.
pub proof fn lemma_both_decomposes(p: Seq<char>, s: Seq<char>, a: Seq<char>)
    ensures
        spec_matches(PatternView::Both(p, s), a) == (spec_matches(PatternView::Prefix(p), a)
            && spec_matches(PatternView::Suffix(s), a)),
{
}

fn char_is_uppercase(c: char) -> (r: bool)
    ensures
        r == is_uppercase_char(c),
{
    let u = c as u32;
    65 <= u && u <= 90
}

fn char_is_lowercase(c: char) -> (r: bool)
    ensures
        r == is_lowercase_char(c),
{
    let u = c as u32;
    97 <= u && u <= 122
}

fn char_is_digit(c: char) -> (r: bool)
    ensures
        r == is_digit_char(c),
{
    let u = c as u32;
    48 <= u && u <= 57
}

/// Decides membership in the Base58 alphabet.
pub fn base58_char(c: char) -> (r: bool)
    ensures
        r == is_base58_char(c),
{
    let u = c as u32;
    (49 <= u && u <= 57) || (65 <= u && u <= 90 && u != 73 && u != 79) || (97 <= u && u <= 122
        && u != 108)
}

fn str_all_uppercase(s: &str) -> (r: bool)
    ensures
        r == all_uppercase(s@),
{
    let len = s.unicode_len();
    let mut i: usize = 0;
    while i < len
        invariant
            i <= len,
            len == s@.len(),
            forall|j: int| 0 <= j < i ==> is_uppercase_char(s@[j]),
        decreases len - i,
    {
        if !char_is_uppercase(s.get_char(i)) {
            return false;
        }
        i += 1;
    }
    true
}

fn str_all_lowercase(s: &str) -> (r: bool)
    ensures
        r == all_lowercase(s@),
{
    let len = s.unicode_len();
    let mut i: usize = 0;
    while i < len
        invariant
            i <= len,
            len == s@.len(),
            forall|j: int| 0 <= j < i ==> is_lowercase_char(s@[j]),
        decreases len - i,
    {
        if !char_is_lowercase(s.get_char(i)) {
            return false;
        }
        i += 1;
    }
    true
}

fn str_all_digits(s: &str) -> (r: bool)
    ensures
        r == all_digits(s@),
{
    let len = s.unicode_len();
    let mut i: usize = 0;
    while i < len
        invariant
            i <= len,
            len == s@.len(),
            forall|j: int| 0 <= j < i ==> is_digit_char(s@[j]),
        decreases len - i,
    {
        if !char_is_digit(s.get_char(i)) {
            return false;
        }
        i += 1;
    }
    true
}

/// Decides whether every character of `s` is in the Base58 alphabet.
pub fn str_all_base58(s: &str) -> (r: bool)
    ensures
        r == all_base58(s@),
{
    let len = s.unicode_len();
    let mut i: usize = 0;
    while i < len
        invariant
            i <= len,
            len == s@.len(),
            forall|j: int| 0 <= j < i ==> is_base58_char(s@[j]),
        decreases len - i,
    {
        if !base58_char(s.get_char(i)) {
            return false;
        }
        i += 1;
    }
    true
}

fn boundary_check(anchor: &str, c: char) -> (r: bool)
    ensures
        r == boundary_ok(anchor@, c),
{
    if str_all_uppercase(anchor) {
        char_is_lowercase(c)
    } else if str_all_lowercase(anchor) {
        char_is_uppercase(c)
    } else if str_all_digits(anchor) {
        char_is_uppercase(c) || char_is_lowercase(c)
    } else {
        true
    }
}

fn check_prefix(p: &str, a: &str) -> (r: bool)
    ensures
        r == prefix_matches(p@, a@),
{
    let p_len = p.unicode_len();
    let a_len = a.unicode_len();
    if a_len <= p_len {
        return false;
    }
    let mut i: usize = 0;
    while i < p_len
        invariant
            i <= p_len,
            p_len == p@.len(),
            a_len == a@.len(),
            p_len < a_len,
            forall|j: int| 0 <= j < i ==> a@[j] == p@[j],
        decreases p_len - i,
    {
        if a.get_char(i) != p.get_char(i) {
            proof {
                assert(a@.subrange(0, p@.len() as int)[i as int] != p@[i as int]);
            }
            return false;
        }
        i += 1;
    }
    proof {
        assert(a@.subrange(0, p@.len() as int) =~= p@);
    }
    boundary_check(p, a.get_char(p_len))
}

fn check_suffix(s: &str, a: &str) -> (r: bool)
    ensures
        r == suffix_matches(s@, a@),
{
    let s_len = s.unicode_len();
    let a_len = a.unicode_len();
    if a_len <= s_len {
        return false;
    }
    let start = a_len - s_len;
    let mut i: usize = 0;
    while i < s_len
        invariant
            i <= s_len,
            s_len == s@.len(),
            a_len == a@.len(),
            s_len < a_len,
            start == a_len - s_len,
            forall|j: int| 0 <= j < i ==> a@[start + j] == s@[j],
        decreases s_len - i,
    {
        if a.get_char(start + i) != s.get_char(i) {
            proof {
                assert(a@.subrange(a@.len() - s@.len(), a@.len() as int)[i as int] != s@[
                i as int]);
            }
            return false;
        }
        i += 1;
    }
    proof {
        assert(a@.subrange(a@.len() - s@.len(), a@.len() as int) =~= s@);
    }
    boundary_check(s, a.get_char(start - 1))
}

/// Decides whether `address` satisfies `pattern`: the anchored text is
/// present and the boundary rule holds next to each anchor. Total over all
/// address strings; a too-short address simply fails to match.
pub fn matches(pattern: &PatternSpec, address: &str) -> (r: bool)
    ensures
        r == spec_matches(pattern@, address@),
{
    match pattern {
        PatternSpec::Prefix(t) => check_prefix(t.as_str(), address),
        PatternSpec::Suffix(t) => check_suffix(t.as_str(), address),
        PatternSpec::Both(t, u) => {
            if check_prefix(t.as_str(), address) {
                check_suffix(u.as_str(), address)
            } else {
                false
            }
        },
    }
}

} // verus!

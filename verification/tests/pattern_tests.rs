use vanity_search::pattern::PatternSpec;

fn prefix(p: &str) -> PatternSpec {
    PatternSpec::Prefix(p.to_owned())
}

fn suffix(s: &str) -> PatternSpec {
    PatternSpec::Suffix(s.to_owned())
}

fn both(p: &str, s: &str) -> PatternSpec {
    PatternSpec::Both(p.to_owned(), s.to_owned())
}

#[test]
fn prefix_uppercase_anchor_needs_lowercase_boundary() {
    // "AB" is uniformly uppercase: the character after it must be lowercase.
    assert!(vanity_search::pattern::matches(&prefix("AB"), "ABcXYZ"));
    assert!(!vanity_search::pattern::matches(&prefix("AB"), "ABXYZ"));
    assert!(!vanity_search::pattern::matches(&prefix("AB"), "AB9XYZ"));
}

#[test]
fn prefix_lowercase_anchor_needs_uppercase_boundary() {
    assert!(!vanity_search::pattern::matches(&prefix("ab"), "abcdef"));
    assert!(vanity_search::pattern::matches(&prefix("ab"), "abCdef"));
    assert!(!vanity_search::pattern::matches(&prefix("ab"), "ab1def"));
}

#[test]
fn prefix_digit_anchor_needs_letter_boundary() {
    assert!(vanity_search::pattern::matches(&prefix("12"), "12xrest"));
    assert!(vanity_search::pattern::matches(&prefix("12"), "12Xrest"));
    assert!(!vanity_search::pattern::matches(&prefix("12"), "123rest"));
}

#[test]
fn prefix_mixed_anchor_accepts_any_boundary() {
    assert!(vanity_search::pattern::matches(&prefix("A1"), "A1zrest"));
    assert!(vanity_search::pattern::matches(&prefix("A1"), "A1Zrest"));
    assert!(vanity_search::pattern::matches(&prefix("A1"), "A19rest"));
}

#[test]
fn prefix_boundary_out_of_bounds_fails() {
    // The anchor consumes the whole address: no boundary character exists.
    assert!(!vanity_search::pattern::matches(&prefix("AB"), "AB"));
    assert!(!vanity_search::pattern::matches(&prefix("AB"), "A"));
    assert!(!vanity_search::pattern::matches(&prefix("AB"), ""));
    assert!(!vanity_search::pattern::matches(&prefix("AB"), "XAB"));
}

#[test]
fn suffix_uppercase_anchor_needs_lowercase_boundary() {
    assert!(vanity_search::pattern::matches(&suffix("YZ"), "restxYZ"));
    assert!(!vanity_search::pattern::matches(&suffix("YZ"), "restXYZ"));
}

#[test]
fn suffix_lowercase_anchor_needs_uppercase_boundary() {
    assert!(vanity_search::pattern::matches(&suffix("yz"), "restXyz"));
    assert!(!vanity_search::pattern::matches(&suffix("yz"), "restxyz"));
}

#[test]
fn suffix_digit_anchor_needs_letter_boundary() {
    assert!(vanity_search::pattern::matches(&suffix("12"), "restX12"));
    assert!(vanity_search::pattern::matches(&suffix("12"), "restx12"));
    assert!(!vanity_search::pattern::matches(&suffix("12"), "rest312"));
}

#[test]
fn suffix_mixed_class_boundary_relaxed() {
    // "9z" mixes a digit and a lowercase letter, so any preceding character
    // is accepted, provided the address is longer than the anchor.
    assert!(vanity_search::pattern::matches(&suffix("9z"), "ab9z"));
    assert!(vanity_search::pattern::matches(&suffix("9z"), "aB9z"));
    assert!(vanity_search::pattern::matches(&suffix("9z"), "a99z"));
    assert!(!vanity_search::pattern::matches(&suffix("9z"), "9z"));
    assert!(!vanity_search::pattern::matches(&suffix("9z"), "z"));
}

#[test]
fn both_needs_prefix_and_suffix_independently() {
    // "Sol" is mixed-case, so any boundary is accepted after it. "ana" is
    // uniformly lowercase, so the character before it must be uppercase.
    assert!(!vanity_search::pattern::matches(&both("Sol", "ana"), "Sol1234ana"));
    assert!(vanity_search::pattern::matches(&both("Sol", "ana"), "Sol123Xana"));
    assert!(vanity_search::pattern::matches(&prefix("Sol"), "Sol1234ana"));
    assert!(!vanity_search::pattern::matches(&suffix("ana"), "Sol1234ana"));
    assert!(vanity_search::pattern::matches(&suffix("ana"), "Sol123Xana"));
}

#[test]
fn both_fails_when_one_side_fails() {
    // Prefix passes, but the suffix text is absent at the end.
    assert!(!vanity_search::pattern::matches(&both("A1", "1A"), "A1xx1Arest"));
    // Prefix passes, the suffix text is present, but its boundary rule fails.
    assert!(!vanity_search::pattern::matches(&both("AB", "yz"), "ABxxxyz"));
    // The same suffix with a satisfied boundary: the whole pattern matches.
    assert!(vanity_search::pattern::matches(&both("AB", "yz"), "ABxxXyz"));
}

#[test]
fn pattern_length_counts_all_anchors() {
    assert_eq!(prefix("AB").length(), 2);
    assert_eq!(suffix("9z").length(), 2);
    assert_eq!(both("SoL", "ana").length(), 6);
}

#[test]
fn matching_is_safe_on_arbitrary_addresses() {
    // Matching never panics, whatever the address holds: empty, shorter
    // than the anchor, or characters outside ASCII.
    assert!(!vanity_search::pattern::matches(&prefix("A"), ""));
    assert!(!vanity_search::pattern::matches(&suffix("A"), ""));
    assert!(!vanity_search::pattern::matches(&both("A", "B"), "x"));
    assert!(!vanity_search::pattern::matches(&prefix("A"), "\u{65e5}\u{672c}\u{8a9e}"));
    // A non-ASCII boundary character is not lowercase, so an uppercase
    // anchor rejects it.
    assert!(!vanity_search::pattern::matches(&prefix("A"), "A\u{e9}x"));
    // After a mixed anchor any boundary character is accepted.
    assert!(vanity_search::pattern::matches(&prefix("A1"), "A1\u{e9}x"));
}

#[test]
fn both_overlapping_regions_on_short_addresses() {
    // Anchors of one character on a three-character address: the two
    // boundary characters coincide.
    assert!(vanity_search::pattern::matches(&both("A", "A"), "AbA"));
    assert!(!vanity_search::pattern::matches(&both("A", "A"), "ABA"));
    assert!(!vanity_search::pattern::matches(&both("A", "A"), "AA"));
}

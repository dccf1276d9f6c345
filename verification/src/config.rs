//! Search configuration: the pattern, the candidate generation mode and the
//! lane count, together with the validation that rejects a bad configuration
//! before a search begins.

use vstd::prelude::*;

use crate::pattern::{all_base58, str_all_base58, PatternSpec, PatternView};

verus! {

/// How candidate keypairs are produced: straight from fresh random bytes
/// (`Raw`), derived from a freshly generated recovery phrase of the given
/// word count (`Mnemonic`, 12 or 24 words), or straight from random bytes
/// with only the address meaningful to the caller (`TokenOnly`).
#[derive(Clone, Copy, Debug, PartialEq, Eq, Structural)]
pub enum GenerationMode {
    Raw,
    Mnemonic(u32),
    TokenOnly,
}

/// A generation mode the candidate generator supports: a mnemonic must have
/// 12 or 24 words.
pub open spec fn mode_valid(m: GenerationMode) -> bool {
    match m {
        GenerationMode::Mnemonic(n) => n == 12 || n == 24,
        _ => true,
    }
}

/// Everything a search needs: the pattern to hunt for, how candidates are
/// generated, and how many worker lanes share the work. Immutable once a
/// search starts.
pub struct SearchConfig {
    pub pattern: PatternSpec,
    pub generation: GenerationMode,
    pub lanes: u32,
}

/// Why a configuration was rejected.
#[derive(Clone, Copy, Debug, PartialEq, Eq, Structural)]
pub enum ConfigError {
    /// An anchor text is empty.
    EmptyPattern,
    /// An anchor text holds a character outside the Base58 alphabet.
    PatternNotBase58,
    /// The lane count is zero.
    ZeroLanes,
    /// A mnemonic word count other than 12 or 24 was asked for.
    UnsupportedWordCount,
}

/// Some anchor text of the pattern is empty.
pub open spec fn pattern_has_empty_anchor(p: PatternView) -> bool {
    match p {
        PatternView::Prefix(t) => t.len() == 0,
        PatternView::Suffix(t) => t.len() == 0,
        PatternView::Both(t, u) => t.len() == 0 || u.len() == 0,
    }
}

/// Every character of every anchor text is in the Base58 alphabet.
pub open spec fn pattern_all_base58(p: PatternView) -> bool {
    match p {
        PatternView::Prefix(t) => all_base58(t),
        PatternView::Suffix(t) => all_base58(t),
        PatternView::Both(t, u) => all_base58(t) && all_base58(u),
    }
}

/// A pattern fit to search for: non-empty anchors drawn from the Base58
/// alphabet.
pub open spec fn pattern_valid(p: PatternView) -> bool {
    !pattern_has_empty_anchor(p) && pattern_all_base58(p)
}

/// A configuration fit to search with.
pub open spec fn config_valid(c: &SearchConfig) -> bool {
    pattern_valid(c.pattern@) && c.lanes >= 1 && mode_valid(c.generation)
}

impl SearchConfig {
    /// Rejects a bad configuration before a search begins, checking in
    /// order: empty anchor text, anchor text outside the Base58 alphabet,
    /// zero lanes, unsupported mnemonic word count.
    pub fn validate(&self) -> (r: Result<(), ConfigError>)
        ensures
            r is Ok <==> config_valid(self),
            r == Result::<(), ConfigError>::Err(ConfigError::EmptyPattern) <==> pattern_has_empty_anchor(self.pattern@),
            r == Result::<(), ConfigError>::Err(ConfigError::PatternNotBase58) <==> (
            !pattern_has_empty_anchor(self.pattern@) && !pattern_all_base58(self.pattern@)),
            r == Result::<(), ConfigError>::Err(ConfigError::ZeroLanes) <==> (pattern_valid(
                self.pattern@,
            ) && self.lanes == 0),
            r == Result::<(), ConfigError>::Err(ConfigError::UnsupportedWordCount) <==> (
            pattern_valid(self.pattern@) && self.lanes >= 1 && !mode_valid(self.generation)),
    {
        let empty = match &self.pattern {
            PatternSpec::Prefix(t) => t.as_str().unicode_len() == 0,
            PatternSpec::Suffix(t) => t.as_str().unicode_len() == 0,
            PatternSpec::Both(t, u) => t.as_str().unicode_len() == 0 || u.as_str().unicode_len()
                == 0,
        };
        if empty {
            return Err(ConfigError::EmptyPattern);
        }
        let base58_ok = match &self.pattern {
            PatternSpec::Prefix(t) => str_all_base58(t.as_str()),
            PatternSpec::Suffix(t) => str_all_base58(t.as_str()),
            PatternSpec::Both(t, u) => str_all_base58(t.as_str()) && str_all_base58(u.as_str()),
        };
        if !base58_ok {
            return Err(ConfigError::PatternNotBase58);
        }
        if self.lanes == 0 {
            return Err(ConfigError::ZeroLanes);
        }
        match self.generation {
            GenerationMode::Mnemonic(n) => {
                if n == 12 || n == 24 {
                    Ok(())
                } else {
                    Err(ConfigError::UnsupportedWordCount)
                }
            },
            _ => Ok(()),
        }
    }
}

} // verus!

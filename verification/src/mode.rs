use vstd::prelude::*;
use crate::text::str_eq;

verus! {

/// How a discussion is analysed.
#[derive(Debug, Clone, Copy, PartialEq, Eq, Structural)]
pub enum AnalysisMode {
    /// Debate analysis: positions, conflicts, fact checks.
    Debate,
    /// Meeting summary: topic, flow, open issues.
    Summary,
}

/// What `str::to_lowercase` returns for a string of these characters.
pub uninterp spec fn lowercase_of(s: Seq<char>) -> Seq<char>;

/// Whether every character is ASCII.
pub open spec fn all_ascii(s: Seq<char>) -> bool {
    forall|i: int| 0 <= i < s.len() ==> (s[i] as u32) < 128
}

/// ASCII lowercase of one character: `A`..=`Z` become `a`..=`z`.
pub open spec fn ascii_lower_char(c: char) -> char {
    if 'A' <= c <= 'Z' {
        ((c as u32) + 32) as char
    } else {
        c
    }
}

/// ASCII lowercase of a sequence of characters.
pub open spec fn ascii_lower(s: Seq<char>) -> Seq<char> {
    Seq::new(s.len(), |i: int| ascii_lower_char(s[i]))
}

/// Lowercases a string with `str::to_lowercase`.
///
/// The contract names the result `lowercase_of(s@)` and states the one fact the
/// standard library documents that the library relies on: on ASCII text the
/// Unicode lowercase mapping changes exactly `A`..=`Z` into `a`..=`z`.
#[verifier::external_body]
fn lowercase(s: &str) -> (r: String)
    ensures
        r@ == lowercase_of(s@),
        all_ascii(s@) ==> r@ == ascii_lower(s@),
{
    s.to_lowercase()
}

/// The name of a mode as it is stored and shown.
pub open spec fn mode_name(m: AnalysisMode) -> Seq<char> {
    match m {
        AnalysisMode::Debate => "debate"@,
        AnalysisMode::Summary => "summary"@,
    }
}

/// The mode whose name is exactly `t`.
pub open spec fn mode_named(t: Seq<char>) -> Option<AnalysisMode> {
    if t == "debate"@ {
        Some(AnalysisMode::Debate)
    } else if t == "summary"@ {
        Some(AnalysisMode::Summary)
    } else {
        None
    }
}

/// The mode that a user-supplied name selects: its name compared after
/// lowercasing, so case does not matter. On ASCII text, lowercasing is the
/// ASCII mapping of `A`..=`Z`.
pub open spec fn parse_mode(s: Seq<char>) -> Option<AnalysisMode> {
    if all_ascii(s) {
        mode_named(ascii_lower(s))
    } else {
        mode_named(lowercase_of(s))
    }
}

impl AnalysisMode {
    /// The mode's name: `"debate"` or `"summary"`.
    pub fn as_str(&self) -> (r: &'static str)
        ensures
            r@ == mode_name(*self),
    {
        match self {
            AnalysisMode::Debate => "debate",
            AnalysisMode::Summary => "summary",
        }
    }

    /// The mode named by `s`, ignoring case; `None` for any other text.
    pub fn from_str(s: &str) -> (r: Option<AnalysisMode>)
        ensures
            r == parse_mode(s@),
            r == mode_named(lowercase_of(s@)),
    {
        let low = lowercase(s);
        if str_eq(low.as_str(), "debate") {
            Some(AnalysisMode::Debate)
        } else if str_eq(low.as_str(), "summary") {
            Some(AnalysisMode::Summary)
        } else {
            None
        }
    }
}

/// A name selects a mode only when it is that mode's name: so when
/// `from_str(s)` gives `m`, `m.as_str()` is `s` lowercased.
pub proof fn lemma_selected_mode_name(t: Seq<char>, m: AnalysisMode)
    requires
        mode_named(t) == Some(m),
    ensures
        mode_name(m) == t,
{
}

impl Default for AnalysisMode {
    /// The default mode is `Debate`.
    fn default() -> (r: Self)
        ensures
            r == AnalysisMode::Debate,
    {
        AnalysisMode::Debate
    }
}

/// A mode's own name selects that mode again: `from_str(m.as_str()) == Some(m)`.
pub proof fn lemma_mode_name_roundtrip(m: AnalysisMode)
    ensures
        parse_mode(mode_name(m)) == Some(m),
{
    reveal_strlit("debate");
    reveal_strlit("summary");
    assert(ascii_lower(mode_name(m)) =~= mode_name(m));
    assert("debate"@ != "summary"@) by {
        assert("debate"@.len() != "summary"@.len());
    }
}

} // verus!

//! The external matching capability: contracts for the nucleo matcher calls
//! the library makes, and for the wall-clock readings the report's timing
//! column needs.
//!
//! Every matcher here is built with nucleo's default configuration, and the
//! direct matcher methods never change it, so each score or index list below
//! is a function of the haystack and needle characters alone; the spec names
//! (`fuzzy_score_of` and kin) stand for those functions. Lines and patterns
//! are handed to nucleo through `Utf32Str::new`, which carries ASCII and
//! Unicode text alike. Two panics of nucleo's are kept out by the
//! preconditions: haystacks over `u32::MAX` characters hit its documented
//! length assertion, and since it accumulates a match's score in a `u16` —
//! gaining at most 26 per matched needle character, 36 for the first, under
//! the default configuration — a needle much longer than [`PATTERN_MAX`]
//! could overflow that sum.

use vstd::prelude::*;

verus! {

#[verifier::external_type_specification]
#[verifier::external_body]
pub struct ExNucleoMatcher(nucleo::Matcher);

#[verifier::external_type_specification]
#[verifier::external_body]
pub struct ExNucleoPattern(nucleo::pattern::Pattern);

#[verifier::external_type_specification]
#[verifier::external_body]
pub struct ExInstant(std::time::Instant);

pub uninterp spec fn fuzzy_score_of(line: Seq<char>, pattern: Seq<char>) -> Option<u16>;

pub uninterp spec fn fuzzy_indices_score_of(line: Seq<char>, pattern: Seq<char>) -> Option<u16>;

pub uninterp spec fn fuzzy_indices_of(line: Seq<char>, pattern: Seq<char>) -> Seq<u32>;

pub uninterp spec fn fuzzy_greedy_score_of(line: Seq<char>, pattern: Seq<char>) -> Option<u16>;

pub uninterp spec fn fuzzy_greedy_indices_score_of(line: Seq<char>, pattern: Seq<char>) -> Option<
    u16,
>;

pub uninterp spec fn fuzzy_greedy_indices_of(line: Seq<char>, pattern: Seq<char>) -> Seq<u32>;

pub uninterp spec fn substring_score_of(line: Seq<char>, pattern: Seq<char>) -> Option<u16>;

pub uninterp spec fn substring_indices_score_of(line: Seq<char>, pattern: Seq<char>) -> Option<
    u16,
>;

pub uninterp spec fn substring_indices_of(line: Seq<char>, pattern: Seq<char>) -> Seq<u32>;

pub uninterp spec fn exact_score_of(line: Seq<char>, pattern: Seq<char>) -> Option<u16>;

pub uninterp spec fn exact_indices_score_of(line: Seq<char>, pattern: Seq<char>) -> Option<u16>;

pub uninterp spec fn exact_indices_of(line: Seq<char>, pattern: Seq<char>) -> Seq<u32>;

pub uninterp spec fn prefix_score_of(line: Seq<char>, pattern: Seq<char>) -> Option<u16>;

pub uninterp spec fn prefix_indices_score_of(line: Seq<char>, pattern: Seq<char>) -> Option<u16>;

pub uninterp spec fn prefix_indices_of(line: Seq<char>, pattern: Seq<char>) -> Seq<u32>;

pub uninterp spec fn postfix_score_of(line: Seq<char>, pattern: Seq<char>) -> Option<u16>;

pub uninterp spec fn postfix_indices_score_of(line: Seq<char>, pattern: Seq<char>) -> Option<u16>;

pub uninterp spec fn postfix_indices_of(line: Seq<char>, pattern: Seq<char>) -> Seq<u32>;

pub uninterp spec fn pattern_score_of(pattern_text: Seq<char>, line: Seq<char>) -> Option<u32>;

pub uninterp spec fn pattern_indices_score_of(pattern_text: Seq<char>, line: Seq<char>) -> Option<
    u32,
>;

pub uninterp spec fn pattern_appended_of(pattern_text: Seq<char>, line: Seq<char>) -> Seq<u32>;

/// The longest needle the matcher accepts. nucleo sums a match's score in a
/// `u16` with plain addition, at most 26 per matched needle character (36
/// for the first), so needles this short keep every sum under `u16::MAX`.
pub const PATTERN_MAX: usize = 2048;

/// Relies on `nucleo::Matcher::new` with `Config::DEFAULT`: the one
/// configuration this library ever matches under.
#[verifier::external_body]
pub(crate) fn new_matcher() -> nucleo::Matcher {
    nucleo::Matcher::new(nucleo::Config::DEFAULT)
}

/// The matcher capability: one default-configured nucleo matcher, created at
/// startup and reused, as the direct matcher methods only touch its scratch
/// memory.
pub struct MatcherHandle {
    inner: nucleo::Matcher,
}

impl MatcherHandle {
    /// Creates the capability with nucleo's default configuration.
    pub fn new() -> MatcherHandle {
        MatcherHandle { inner: new_matcher() }
    }

    /// Relies on `nucleo::Matcher::fuzzy_match`: the optimal fuzzy score, a
    /// deterministic function of haystack and needle.
    #[verifier::external_body]
    pub(crate) fn fuzzy_match(&mut self, line: &str, pattern: &str) -> (r: Option<u16>)
        requires
            line@.len() <= u32::MAX,
            pattern@.len() <= PATTERN_MAX,
        ensures
            r == fuzzy_score_of(line@, pattern@),
    {
        let mut line_buf = Vec::new();
        let mut pattern_buf = Vec::new();
        self.inner.fuzzy_match(
            nucleo::Utf32Str::new(line, &mut line_buf),
            nucleo::Utf32Str::new(pattern, &mut pattern_buf),
        )
    }

    /// Relies on `nucleo::Matcher::fuzzy_indices`: like `fuzzy_match`, and on
    /// a match it appends the matched positions to `indices`, which it never
    /// clears; on a miss it leaves `indices` alone.
    #[verifier::external_body]
    pub(crate) fn fuzzy_indices(&mut self, line: &str, pattern: &str, indices: &mut Vec<u32>) -> (r:
        Option<u16>)
        requires
            line@.len() <= u32::MAX,
            pattern@.len() <= PATTERN_MAX,
        ensures
            r == fuzzy_indices_score_of(line@, pattern@),
            r is Some ==> final(indices)@ == old(indices)@ + fuzzy_indices_of(line@, pattern@),
            r is None ==> final(indices)@ == old(indices)@,
    {
        let mut line_buf = Vec::new();
        let mut pattern_buf = Vec::new();
        self.inner.fuzzy_indices(
            nucleo::Utf32Str::new(line, &mut line_buf),
            nucleo::Utf32Str::new(pattern, &mut pattern_buf),
            indices,
        )
    }

    /// Relies on `nucleo::Matcher::fuzzy_match_greedy`: the greedy fuzzy
    /// score, a deterministic function of haystack and needle.
    #[verifier::external_body]
    pub(crate) fn fuzzy_match_greedy(&mut self, line: &str, pattern: &str) -> (r: Option<u16>)
        requires
            line@.len() <= u32::MAX,
            pattern@.len() <= PATTERN_MAX,
        ensures
            r == fuzzy_greedy_score_of(line@, pattern@),
    {
        let mut line_buf = Vec::new();
        let mut pattern_buf = Vec::new();
        self.inner.fuzzy_match_greedy(
            nucleo::Utf32Str::new(line, &mut line_buf),
            nucleo::Utf32Str::new(pattern, &mut pattern_buf),
        )
    }

    /// Relies on `nucleo::Matcher::fuzzy_indices_greedy`: like
    /// `fuzzy_match_greedy`, appending matched positions on a match and
    /// leaving `indices` alone on a miss.
    #[verifier::external_body]
    pub(crate) fn fuzzy_indices_greedy(
        &mut self,
        line: &str,
        pattern: &str,
        indices: &mut Vec<u32>,
    ) -> (r: Option<u16>)
        requires
            line@.len() <= u32::MAX,
            pattern@.len() <= PATTERN_MAX,
        ensures
            r == fuzzy_greedy_indices_score_of(line@, pattern@),
            r is Some ==> final(indices)@ == old(indices)@ + fuzzy_greedy_indices_of(
                line@,
                pattern@,
            ),
            r is None ==> final(indices)@ == old(indices)@,
    {
        let mut line_buf = Vec::new();
        let mut pattern_buf = Vec::new();
        self.inner.fuzzy_indices_greedy(
            nucleo::Utf32Str::new(line, &mut line_buf),
            nucleo::Utf32Str::new(pattern, &mut pattern_buf),
            indices,
        )
    }

    /// Relies on `nucleo::Matcher::substring_match`: the best substring score,
    /// a deterministic function of haystack and needle.
    #[verifier::external_body]
    pub(crate) fn substring_match(&mut self, line: &str, pattern: &str) -> (r: Option<u16>)
        requires
            line@.len() <= u32::MAX,
            pattern@.len() <= PATTERN_MAX,
        ensures
            r == substring_score_of(line@, pattern@),
    {
        let mut line_buf = Vec::new();
        let mut pattern_buf = Vec::new();
        self.inner.substring_match(
            nucleo::Utf32Str::new(line, &mut line_buf),
            nucleo::Utf32Str::new(pattern, &mut pattern_buf),
        )
    }

    /// Relies on `nucleo::Matcher::substring_indices`: like
    /// `substring_match`, appending matched positions on a match and leaving
    /// `indices` alone on a miss.
    #[verifier::external_body]
    pub(crate) fn substring_indices(
        &mut self,
        line: &str,
        pattern: &str,
        indices: &mut Vec<u32>,
    ) -> (r: Option<u16>)
        requires
            line@.len() <= u32::MAX,
            pattern@.len() <= PATTERN_MAX,
        ensures
            r == substring_indices_score_of(line@, pattern@),
            r is Some ==> final(indices)@ == old(indices)@ + substring_indices_of(
                line@,
                pattern@,
            ),
            r is None ==> final(indices)@ == old(indices)@,
    {
        let mut line_buf = Vec::new();
        let mut pattern_buf = Vec::new();
        self.inner.substring_indices(
            nucleo::Utf32Str::new(line, &mut line_buf),
            nucleo::Utf32Str::new(pattern, &mut pattern_buf),
            indices,
        )
    }

    /// Relies on `nucleo::Matcher::exact_match`: whether haystack and needle
    /// match exactly, a deterministic function of both.
    #[verifier::external_body]
    pub(crate) fn exact_match(&mut self, line: &str, pattern: &str) -> (r: Option<u16>)
        requires
            line@.len() <= u32::MAX,
            pattern@.len() <= PATTERN_MAX,
        ensures
            r == exact_score_of(line@, pattern@),
    {
        let mut line_buf = Vec::new();
        let mut pattern_buf = Vec::new();
        self.inner.exact_match(
            nucleo::Utf32Str::new(line, &mut line_buf),
            nucleo::Utf32Str::new(pattern, &mut pattern_buf),
        )
    }

    /// Relies on `nucleo::Matcher::exact_indices`: like `exact_match`,
    /// appending matched positions on a match and leaving `indices` alone on
    /// a miss.
    #[verifier::external_body]
    pub(crate) fn exact_indices(
        &mut self,
        line: &str,
        pattern: &str,
        indices: &mut Vec<u32>,
    ) -> (r: Option<u16>)
        requires
            line@.len() <= u32::MAX,
            pattern@.len() <= PATTERN_MAX,
        ensures
            r == exact_indices_score_of(line@, pattern@),
            r is Some ==> final(indices)@ == old(indices)@ + exact_indices_of(line@, pattern@),
            r is None ==> final(indices)@ == old(indices)@,
    {
        let mut line_buf = Vec::new();
        let mut pattern_buf = Vec::new();
        self.inner.exact_indices(
            nucleo::Utf32Str::new(line, &mut line_buf),
            nucleo::Utf32Str::new(pattern, &mut pattern_buf),
            indices,
        )
    }

    /// Relies on `nucleo::Matcher::prefix_match`: whether the needle is a
    /// prefix of the haystack, a deterministic function of both.
    #[verifier::external_body]
    pub(crate) fn prefix_match(&mut self, line: &str, pattern: &str) -> (r: Option<u16>)
        requires
            line@.len() <= u32::MAX,
            pattern@.len() <= PATTERN_MAX,
        ensures
            r == prefix_score_of(line@, pattern@),
    {
        let mut line_buf = Vec::new();
        let mut pattern_buf = Vec::new();
        self.inner.prefix_match(
            nucleo::Utf32Str::new(line, &mut line_buf),
            nucleo::Utf32Str::new(pattern, &mut pattern_buf),
        )
    }

    /// Relies on `nucleo::Matcher::prefix_indices`: like `prefix_match`,
    /// appending matched positions on a match and leaving `indices` alone on
    /// a miss.
    #[verifier::external_body]
    pub(crate) fn prefix_indices(
        &mut self,
        line: &str,
        pattern: &str,
        indices: &mut Vec<u32>,
    ) -> (r: Option<u16>)
        requires
            line@.len() <= u32::MAX,
            pattern@.len() <= PATTERN_MAX,
        ensures
            r == prefix_indices_score_of(line@, pattern@),
            r is Some ==> final(indices)@ == old(indices)@ + prefix_indices_of(line@, pattern@),
            r is None ==> final(indices)@ == old(indices)@,
    {
        let mut line_buf = Vec::new();
        let mut pattern_buf = Vec::new();
        self.inner.prefix_indices(
            nucleo::Utf32Str::new(line, &mut line_buf),
            nucleo::Utf32Str::new(pattern, &mut pattern_buf),
            indices,
        )
    }

    /// Relies on `nucleo::Matcher::postfix_match`: whether the needle is a
    /// postfix of the haystack, a deterministic function of both.
    #[verifier::external_body]
    pub(crate) fn postfix_match(&mut self, line: &str, pattern: &str) -> (r: Option<u16>)
        requires
            line@.len() <= u32::MAX,
            pattern@.len() <= PATTERN_MAX,
        ensures
            r == postfix_score_of(line@, pattern@),
    {
        let mut line_buf = Vec::new();
        let mut pattern_buf = Vec::new();
        self.inner.postfix_match(
            nucleo::Utf32Str::new(line, &mut line_buf),
            nucleo::Utf32Str::new(pattern, &mut pattern_buf),
        )
    }

    /// Relies on `nucleo::Matcher::postfix_indices`: like `postfix_match`,
    /// appending matched positions on a match and leaving `indices` alone on
    /// a miss.
    #[verifier::external_body]
    pub(crate) fn postfix_indices(
        &mut self,
        line: &str,
        pattern: &str,
        indices: &mut Vec<u32>,
    ) -> (r: Option<u16>)
        requires
            line@.len() <= u32::MAX,
            pattern@.len() <= PATTERN_MAX,
        ensures
            r == postfix_indices_score_of(line@, pattern@),
            r is Some ==> final(indices)@ == old(indices)@ + postfix_indices_of(line@, pattern@),
            r is None ==> final(indices)@ == old(indices)@,
    {
        let mut line_buf = Vec::new();
        let mut pattern_buf = Vec::new();
        self.inner.postfix_indices(
            nucleo::Utf32Str::new(line, &mut line_buf),
            nucleo::Utf32Str::new(pattern, &mut pattern_buf),
            indices,
        )
    }
}

/// Relies on `nucleo::pattern::Pattern::parse` with smart case matching and
/// smart normalization; the parsed pattern is opaque here.
#[verifier::external_body]
pub(crate) fn parse_pattern(text: &str) -> nucleo::pattern::Pattern {
    nucleo::pattern::Pattern::parse(
        text,
        nucleo::pattern::CaseMatching::Smart,
        nucleo::pattern::Normalization::Smart,
    )
}

/// A parsed multi-atom pattern paired with its own default-configured
/// matcher and the text it was parsed from. Pattern matching rewrites the
/// case and normalization fields of the matcher's configuration from the
/// atoms themselves — and nothing else — so this matcher is never shared
/// with `MatcherHandle`, and every result below is a function of the pattern
/// text and the line alone; `pattern_score_of` and kin stand for those
/// functions. The fields are private and the one constructor parses the very
/// text it stores, which is what ties the stored text to the parsed pattern.
pub struct PatternMatcher {
    pattern: nucleo::pattern::Pattern,
    matcher: nucleo::Matcher,
    text: String,
}

impl PatternMatcher {
    /// The text the pattern was parsed from.
    pub closed spec fn pattern_text(&self) -> Seq<char> {
        self.text@
    }

    /// Parses `text` and pairs it with a fresh default-configured matcher.
    pub fn new(text: &str) -> (r: PatternMatcher)
        ensures
            r.pattern_text() == text@,
    {
        PatternMatcher {
            pattern: parse_pattern(text),
            matcher: new_matcher(),
            text: String::from_str(text),
        }
    }

    /// Relies on `nucleo::pattern::Pattern::match_list`: of the items handed
    /// in — here a single line — it returns those the pattern scores, with
    /// that score; a pattern with no atoms scores every line 0. The
    /// preconditions keep out its panics: the haystack length assertion, and
    /// the per-atom score sum, whose atoms are no longer than the text.
    #[verifier::external_body]
    pub(crate) fn match_list_one(&mut self, line: &String) -> (r: Vec<(String, u32)>)
        requires
            line@.len() <= u32::MAX,
            old(self).pattern_text().len() <= PATTERN_MAX,
        ensures
            final(self).pattern_text() == old(self).pattern_text(),
            r@.len() <= 1,
            pattern_score_of(old(self).pattern_text(), line@) is Some <==> r@.len() == 1,
            r@.len() == 1 ==> r@[0].0@ == line@ && r@[0].1 == pattern_score_of(
                old(self).pattern_text(),
                line@,
            )->0,
    {
        self.pattern.match_list(vec![line.clone()], &mut self.matcher)
    }

    /// Relies on `nucleo::pattern::Pattern::indices`: the atoms are tried in
    /// order, each appending its matched positions to `indices`, which is
    /// never cleared nor reordered; the first atom that fails stops the walk
    /// and makes the score `None`. So what the call appends — everything on
    /// a match, the leading atoms' positions on a miss — is itself a
    /// function of the pattern text and the line, named `pattern_appended_of`.
    #[verifier::external_body]
    pub(crate) fn indices(&mut self, line: &str, indices: &mut Vec<u32>) -> (r: Option<u32>)
        requires
            line@.len() <= u32::MAX,
            old(self).pattern_text().len() <= PATTERN_MAX,
        ensures
            final(self).pattern_text() == old(self).pattern_text(),
            r == pattern_indices_score_of(old(self).pattern_text(), line@),
            final(indices)@ == old(indices)@ + pattern_appended_of(
                old(self).pattern_text(),
                line@,
            ),
    {
        let mut line_buf = Vec::new();
        self.pattern.indices(
            nucleo::Utf32Str::new(line, &mut line_buf),
            &mut self.matcher,
            indices,
        )
    }
}

/// Relies on `std::time::Instant::now`: a reading of the monotonic clock.
#[verifier::external_body]
pub(crate) fn instant_now() -> std::time::Instant {
    std::time::Instant::now()
}

/// Relies on `std::time::Instant::elapsed`: the time since the reading was
/// taken; nothing is promised of its value.
#[verifier::external_body]
pub(crate) fn instant_elapsed(start: &std::time::Instant) -> std::time::Duration {
    start.elapsed()
}

/// Relies on std's `Debug` rendering of `Duration`; nothing is promised of
/// the text.
#[verifier::external_body]
pub(crate) fn duration_debug(d: &std::time::Duration) -> String {
    format!("{:?}", d)
}

} // verus!

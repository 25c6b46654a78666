//! The dispatch table over the twelve matcher variants: one call per variant
//! against the external matching capability, one report row per call that
//! produced a score.

use vstd::prelude::*;

use crate::capability::{
    MatcherHandle, PATTERN_MAX, duration_debug, exact_indices_of, exact_indices_score_of, exact_score_of,
    fuzzy_greedy_indices_of, fuzzy_greedy_indices_score_of, fuzzy_greedy_score_of,
    fuzzy_indices_of, fuzzy_indices_score_of, fuzzy_score_of, instant_elapsed, instant_now,
    postfix_indices_of, postfix_indices_score_of, postfix_score_of, prefix_indices_of,
    prefix_indices_score_of, prefix_score_of, substring_indices_of, substring_indices_score_of,
    substring_score_of,
};
use crate::highlight::{highlight, highlight_matches};
use crate::textfmt::seq_views;

verus! {

/// The tag selecting one of the twelve external matching behaviours.
#[derive(Clone, Copy, Debug, PartialEq, Eq, Structural)]
pub enum MatcherType {
    Fuzzy,
    FuzzyIndices,
    FuzzyGreedy,
    FuzzyGreedyIndices,
    Substring,
    SubstringIndices,
    Exact,
    ExactIndices,
    Prefix,
    PrefixIndices,
    Postfix,
    PostfixIndices,
}

/// The variant's name, as the report prints it.
pub open spec fn variant_name_spec(v: MatcherType) -> Seq<char> {
    match v {
        MatcherType::Fuzzy => "Fuzzy"@,
        MatcherType::FuzzyIndices => "FuzzyIndices"@,
        MatcherType::FuzzyGreedy => "FuzzyGreedy"@,
        MatcherType::FuzzyGreedyIndices => "FuzzyGreedyIndices"@,
        MatcherType::Substring => "Substring"@,
        MatcherType::SubstringIndices => "SubstringIndices"@,
        MatcherType::Exact => "Exact"@,
        MatcherType::ExactIndices => "ExactIndices"@,
        MatcherType::Prefix => "Prefix"@,
        MatcherType::PrefixIndices => "PrefixIndices"@,
        MatcherType::Postfix => "Postfix"@,
        MatcherType::PostfixIndices => "PostfixIndices"@,
    }
}

impl MatcherType {
    /// Renders the variant's name.
    pub fn name(&self) -> (r: String)
        ensures
            r@ == variant_name_spec(*self),
    {
        match self {
            MatcherType::Fuzzy => String::from_str("Fuzzy"),
            MatcherType::FuzzyIndices => String::from_str("FuzzyIndices"),
            MatcherType::FuzzyGreedy => String::from_str("FuzzyGreedy"),
            MatcherType::FuzzyGreedyIndices => String::from_str("FuzzyGreedyIndices"),
            MatcherType::Substring => String::from_str("Substring"),
            MatcherType::SubstringIndices => String::from_str("SubstringIndices"),
            MatcherType::Exact => String::from_str("Exact"),
            MatcherType::ExactIndices => String::from_str("ExactIndices"),
            MatcherType::Prefix => String::from_str("Prefix"),
            MatcherType::PrefixIndices => String::from_str("PrefixIndices"),
            MatcherType::Postfix => String::from_str("Postfix"),
            MatcherType::PostfixIndices => String::from_str("PostfixIndices"),
        }
    }
}

/// The score the variant's matcher call returns on the pair.
pub open spec fn score_of(v: MatcherType, line: Seq<char>, pattern: Seq<char>) -> Option<u16> {
    match v {
        MatcherType::Fuzzy => fuzzy_score_of(line, pattern),
        MatcherType::FuzzyIndices => fuzzy_indices_score_of(line, pattern),
        MatcherType::FuzzyGreedy => fuzzy_greedy_score_of(line, pattern),
        MatcherType::FuzzyGreedyIndices => fuzzy_greedy_indices_score_of(line, pattern),
        MatcherType::Substring => substring_score_of(line, pattern),
        MatcherType::SubstringIndices => substring_indices_score_of(line, pattern),
        MatcherType::Exact => exact_score_of(line, pattern),
        MatcherType::ExactIndices => exact_indices_score_of(line, pattern),
        MatcherType::Prefix => prefix_score_of(line, pattern),
        MatcherType::PrefixIndices => prefix_indices_score_of(line, pattern),
        MatcherType::Postfix => postfix_score_of(line, pattern),
        MatcherType::PostfixIndices => postfix_indices_score_of(line, pattern),
    }
}

/// The character indices the variant's matcher call recovers on a match;
/// empty for the variants without index recovery.
pub open spec fn indices_of(v: MatcherType, line: Seq<char>, pattern: Seq<char>) -> Seq<u32> {
    match v {
        MatcherType::FuzzyIndices => fuzzy_indices_of(line, pattern),
        MatcherType::FuzzyGreedyIndices => fuzzy_greedy_indices_of(line, pattern),
        MatcherType::SubstringIndices => substring_indices_of(line, pattern),
        MatcherType::ExactIndices => exact_indices_of(line, pattern),
        MatcherType::PrefixIndices => prefix_indices_of(line, pattern),
        MatcherType::PostfixIndices => postfix_indices_of(line, pattern),
        _ => Seq::empty(),
    }
}

/// One emitted report row: variant, highlighted line, score, and the elapsed
/// time of that single matcher call.
#[derive(Debug)]
pub struct MatchRow {
    pub variant: MatcherType,
    pub text: String,
    pub score: u16,
    pub elapsed: String,
}

/// A row with the wall-clock column abstracted away: everything the matcher
/// determines.
pub ghost struct RowAbs {
    pub variant: MatcherType,
    pub text: Seq<char>,
    pub score: u16,
}

/// The clock-independent content of a row.
pub open spec fn row_abs(r: MatchRow) -> RowAbs {
    RowAbs { variant: r.variant, text: r.text@, score: r.score }
}

/// The clock-independent contents of a sequence of rows.
pub open spec fn rows_abs(rs: Seq<MatchRow>) -> Seq<RowAbs> {
    rs.map_values(|r: MatchRow| row_abs(r))
}

/// The row the variant owes the pair when its score is present.
pub open spec fn row_of(v: MatcherType, line: Seq<char>, pattern: Seq<char>) -> RowAbs {
    RowAbs {
        variant: v,
        text: highlight(line, indices_of(v, line, pattern)),
        score: score_of(v, line, pattern)->0,
    }
}

/// The rows the variant emits on the pair: one iff its score is present.
pub open spec fn row_opt(v: MatcherType, line: Seq<char>, pattern: Seq<char>) -> Seq<RowAbs> {
    if score_of(v, line, pattern) is Some {
        seq![row_of(v, line, pattern)]
    } else {
        Seq::empty()
    }
}

/// All twelve variants, in dispatch order.
pub open spec fn all_variants() -> Seq<MatcherType> {
    seq![
        MatcherType::Fuzzy,
        MatcherType::FuzzyIndices,
        MatcherType::FuzzyGreedy,
        MatcherType::FuzzyGreedyIndices,
        MatcherType::Substring,
        MatcherType::SubstringIndices,
        MatcherType::Exact,
        MatcherType::ExactIndices,
        MatcherType::Prefix,
        MatcherType::PrefixIndices,
        MatcherType::Postfix,
        MatcherType::PostfixIndices,
    ]
}

/// The rows of the first `k` variants on the pair, in dispatch order.
pub open spec fn rows_for_pair_upto(line: Seq<char>, pattern: Seq<char>, k: int) -> Seq<RowAbs>
    decreases k,
{
    if k <= 0 {
        Seq::empty()
    } else {
        rows_for_pair_upto(line, pattern, k - 1) + row_opt(all_variants()[k - 1], line, pattern)
    }
}

/// The rows all twelve variants emit on the pair.
pub open spec fn rows_for_pair(line: Seq<char>, pattern: Seq<char>) -> Seq<RowAbs> {
    rows_for_pair_upto(line, pattern, 12)
}

/// The rows one line owes against the first `j` patterns.
pub open spec fn rows_for_line_upto(line: Seq<char>, patterns: Seq<Seq<char>>, j: int) -> Seq<
    RowAbs,
>
    decreases j,
{
    if j <= 0 {
        Seq::empty()
    } else {
        rows_for_line_upto(line, patterns, j - 1) + rows_for_pair(line, patterns[j - 1])
    }
}

/// The rows one line owes against all patterns.
pub open spec fn rows_for_line(line: Seq<char>, patterns: Seq<Seq<char>>) -> Seq<RowAbs> {
    rows_for_line_upto(line, patterns, patterns.len() as int)
}

/// The rows the first `i` lines owe.
pub open spec fn report_rows_upto(lines: Seq<Seq<char>>, patterns: Seq<Seq<char>>, i: int) -> Seq<
    RowAbs,
>
    decreases i,
{
    if i <= 0 {
        Seq::empty()
    } else {
        report_rows_upto(lines, patterns, i - 1) + rows_for_line(lines[i - 1], patterns)
    }
}

/// Every row the whole input owes: lines outermost, then patterns, then the
/// twelve variants.
pub open spec fn report_rows(lines: Seq<Seq<char>>, patterns: Seq<Seq<char>>) -> Seq<RowAbs> {
    report_rows_upto(lines, patterns, lines.len() as int)
}

/// Invokes one matcher variant on the pair and builds its report row if the
/// variant produced a score. The caller owns the scratch index buffer, hands
/// it in empty, and gets it back empty.
pub fn do_matching(
    matcher: &mut MatcherHandle,
    matcher_type: MatcherType,
    line: &str,
    pattern: &str,
    indices: &mut Vec<u32>,
) -> (r: Option<MatchRow>)
    requires
        line@.len() <= u32::MAX,
        pattern@.len() <= PATTERN_MAX,
        old(indices)@.len() == 0,
    ensures
        final(indices)@.len() == 0,
        r is Some <==> score_of(matcher_type, line@, pattern@) is Some,
        r is Some ==> row_abs(r->0) == row_of(matcher_type, line@, pattern@),
{
    let start = instant_now();
    let score = match matcher_type {
        MatcherType::Fuzzy => matcher.fuzzy_match(line, pattern),
        MatcherType::FuzzyIndices => matcher.fuzzy_indices(line, pattern, indices),
        MatcherType::FuzzyGreedy => matcher.fuzzy_match_greedy(line, pattern),
        MatcherType::FuzzyGreedyIndices => matcher.fuzzy_indices_greedy(line, pattern, indices),
        MatcherType::Substring => matcher.substring_match(line, pattern),
        MatcherType::SubstringIndices => matcher.substring_indices(line, pattern, indices),
        MatcherType::Exact => matcher.exact_match(line, pattern),
        MatcherType::ExactIndices => matcher.exact_indices(line, pattern, indices),
        MatcherType::Prefix => matcher.prefix_match(line, pattern),
        MatcherType::PrefixIndices => matcher.prefix_indices(line, pattern, indices),
        MatcherType::Postfix => matcher.postfix_match(line, pattern),
        MatcherType::PostfixIndices => matcher.postfix_indices(line, pattern, indices),
    };
    let elapsed = instant_elapsed(&start);
    match score {
        Option::Some(s) => {
            proof {
                assert(indices@ =~= indices_of(matcher_type, line@, pattern@));
            }
            let text = highlight_matches(line, indices.as_slice());
            indices.clear();
            Option::Some(
                MatchRow {
                    variant: matcher_type,
                    text,
                    score: s,
                    elapsed: duration_debug(&elapsed),
                },
            )
        },
        Option::None => Option::None,
    }
}

/// Runs every matcher variant over every (line, pattern) pair, collecting one
/// row per variant call that produced a score, in dispatch order.
pub fn type_1_matching(patterns: &Vec<String>, input: &Vec<String>) -> (rows: Vec<MatchRow>)
    requires
        forall|i: int| 0 <= i < input@.len() ==> (#[trigger] input@[i])@.len() <= u32::MAX,
        forall|i: int| 0 <= i < patterns@.len() ==> (#[trigger] patterns@[i])@.len() <= PATTERN_MAX,
    ensures
        rows_abs(rows@) == report_rows(seq_views(input@), seq_views(patterns@)),
{
    let ghost lines_v = seq_views(input@);
    let ghost patterns_v = seq_views(patterns@);
    let variants: Vec<MatcherType> = vec![
        MatcherType::Fuzzy,
        MatcherType::FuzzyIndices,
        MatcherType::FuzzyGreedy,
        MatcherType::FuzzyGreedyIndices,
        MatcherType::Substring,
        MatcherType::SubstringIndices,
        MatcherType::Exact,
        MatcherType::ExactIndices,
        MatcherType::Prefix,
        MatcherType::PrefixIndices,
        MatcherType::Postfix,
        MatcherType::PostfixIndices,
    ];
    proof {
        assert(variants@ =~= all_variants());
    }
    let mut matcher = MatcherHandle::new();
    let mut rows: Vec<MatchRow> = Vec::new();
    let mut i: usize = 0;
    while i < input.len()
        invariant
            forall|n: int| 0 <= n < input@.len() ==> (#[trigger] input@[n])@.len() <= u32::MAX,
            forall|n: int| 0 <= n < patterns@.len() ==> (#[trigger] patterns@[n])@.len() <= PATTERN_MAX,
            lines_v == seq_views(input@),
            patterns_v == seq_views(patterns@),
            variants@ == all_variants(),
            i <= input@.len(),
            rows_abs(rows@) == report_rows_upto(lines_v, patterns_v, i as int),
        decreases input@.len() - i,
    {
        let line: &String = &input[i];
        let mut indices: Vec<u32> = Vec::new();
        let mut j: usize = 0;
        while j < patterns.len()
            invariant
                forall|n: int| 0 <= n < input@.len() ==> (#[trigger] input@[n])@.len() <= u32::MAX,
                forall|n: int| 0 <= n < patterns@.len() ==> (#[trigger] patterns@[n])@.len() <= PATTERN_MAX,
                lines_v == seq_views(input@),
                patterns_v == seq_views(patterns@),
                variants@ == all_variants(),
                i < input@.len(),
                line == input@[i as int],
                j <= patterns@.len(),
                indices@.len() == 0,
                rows_abs(rows@) == report_rows_upto(lines_v, patterns_v, i as int)
                    + rows_for_line_upto(line@, patterns_v, j as int),
            decreases patterns@.len() - j,
        {
            let pattern: &String = &patterns[j];
            let mut k: usize = 0;
            while k < variants.len()
                invariant
                    forall|n: int| 0 <= n < input@.len() ==> (#[trigger] input@[n])@.len() <= u32::MAX,
                    forall|n: int| 0 <= n < patterns@.len() ==> (#[trigger] patterns@[n])@.len() <= PATTERN_MAX,
                    lines_v == seq_views(input@),
                    patterns_v == seq_views(patterns@),
                    variants@ == all_variants(),
                    i < input@.len(),
                    line == input@[i as int],
                    j < patterns@.len(),
                    pattern == patterns@[j as int],
                    k <= 12,
                    indices@.len() == 0,
                    rows_abs(rows@) == report_rows_upto(lines_v, patterns_v, i as int)
                        + rows_for_line_upto(line@, patterns_v, j as int) + rows_for_pair_upto(
                        line@,
                        pattern@,
                        k as int,
                    ),
                decreases 12 - k,
            {
                let ghost rows_before = rows@;
                let v = variants[k];
                let row = do_matching(&mut matcher, v, line.as_str(), pattern.as_str(),
                    &mut indices);
                match row {
                    Option::Some(row) => {
                        proof {
                            assert(row_opt(v, line@, pattern@) =~= seq![row_abs(row)]);
                        }
                        rows.push(row);
                        proof {
                            assert(rows_abs(rows@) =~= rows_abs(rows_before).push(
                                rows_abs(rows@).last(),
                            ));
                            assert(rows_abs(rows@) =~= report_rows_upto(
                                lines_v,
                                patterns_v,
                                i as int,
                            ) + rows_for_line_upto(line@, patterns_v, j as int)
                                + rows_for_pair_upto(line@, pattern@, k + 1));
                        }
                    },
                    Option::None => {
                        proof {
                            assert(row_opt(v, line@, pattern@) =~= Seq::<RowAbs>::empty());
                            assert(rows_abs(rows@) =~= report_rows_upto(
                                lines_v,
                                patterns_v,
                                i as int,
                            ) + rows_for_line_upto(line@, patterns_v, j as int)
                                + rows_for_pair_upto(line@, pattern@, k + 1));
                        }
                    },
                }
                k = k + 1;
            }
            proof {
                assert(patterns_v[j as int] == pattern@);
                assert(rows_for_line_upto(line@, patterns_v, j + 1) == rows_for_line_upto(
                    line@,
                    patterns_v,
                    j as int,
                ) + rows_for_pair(line@, pattern@));
                assert(rows_abs(rows@) =~= report_rows_upto(lines_v, patterns_v, i as int)
                    + rows_for_line_upto(line@, patterns_v, j + 1));
            }
            j = j + 1;
        }
        proof {
            assert(lines_v[i as int] == line@);
            assert(rows_for_line_upto(line@, patterns_v, patterns_v.len() as int)
                == rows_for_line(line@, patterns_v));
            assert(rows_abs(rows@) =~= report_rows_upto(lines_v, patterns_v, i + 1));
        }
        i = i + 1;
    }
    rows
}

/// The dispatch position of the variant.
pub open spec fn variant_index(v: MatcherType) -> int {
    match v {
        MatcherType::Fuzzy => 0,
        MatcherType::FuzzyIndices => 1,
        MatcherType::FuzzyGreedy => 2,
        MatcherType::FuzzyGreedyIndices => 3,
        MatcherType::Substring => 4,
        MatcherType::SubstringIndices => 5,
        MatcherType::Exact => 6,
        MatcherType::ExactIndices => 7,
        MatcherType::Prefix => 8,
        MatcherType::PrefixIndices => 9,
        MatcherType::Postfix => 10,
        MatcherType::PostfixIndices => 11,
    }
}

/// How many of the rows carry the variant's tag.
pub open spec fn count_variant(rows: Seq<RowAbs>, v: MatcherType) -> int
    decreases rows.len(),
{
    if rows.len() == 0 {
        0
    } else {
        count_variant(rows.drop_last(), v) + if rows.last().variant == v {
            1int
        } else {
            0
        }
    }
}

proof fn lemma_count_upto(line: Seq<char>, pattern: Seq<char>, v: MatcherType, k: int)
    requires
        0 <= k <= 12,
    ensures
        count_variant(rows_for_pair_upto(line, pattern, k), v) == if variant_index(v) < k
            && score_of(v, line, pattern) is Some {
            1int
        } else {
            0
        },
    decreases k,
{
    if k > 0 {
        lemma_count_upto(line, pattern, v, k - 1);
        let w = all_variants()[k - 1];
        assert(variant_index(w) == k - 1);
        let prev = rows_for_pair_upto(line, pattern, k - 1);
        if score_of(w, line, pattern) is Some {
            assert(rows_for_pair_upto(line, pattern, k) =~= prev.push(row_of(w, line, pattern)));
            assert(rows_for_pair_upto(line, pattern, k).drop_last() =~= prev);
        } else {
            assert(rows_for_pair_upto(line, pattern, k) =~= prev);
        }
    }
}

/// Law (dispatch totality): on any (line, pattern) pair, at most one row per
/// matcher variant is emitted, and a row carrying the variant's tag is
/// emitted exactly when that variant's score is present.
pub proof fn lemma_dispatch_totality(line: Seq<char>, pattern: Seq<char>, v: MatcherType)
    ensures
        count_variant(rows_for_pair(line, pattern), v) == if score_of(v, line, pattern) is Some {
            1int
        } else {
            0
        },
{
    lemma_count_upto(line, pattern, v, 12);
    assert(variant_index(v) < 12);
}

} // verus!

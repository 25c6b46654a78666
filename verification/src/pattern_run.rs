//! The pattern pass: all patterns joined into one multi-atom nucleo pattern,
//! matched against each input line, with the matched positions highlighted.

use vstd::prelude::*;

use crate::capability::{
    PATTERN_MAX, PatternMatcher, pattern_appended_of, pattern_indices_score_of, pattern_score_of,
};
use crate::highlight::{highlight, highlight_matches};
use crate::textfmt::{
    dec_spec, fmt_opt_u32, fmt_vec_u32, join_spec, join_with, opt_u32_dbg, seq_views, u32_dec,
    vec_u32_dbg,
};

verus! {

/// What one input line produced under the parsed pattern: the hits the list
/// match returned, the score and positions of the index-recovering call, and
/// the line highlighted at those positions.
pub struct LineReport {
    pub line: String,
    pub hits: Vec<(String, u32)>,
    pub ind_score: Option<u32>,
    pub indices: Vec<u32>,
    pub highlighted: String,
}

/// What the pattern pass owes in a report for `line` under the pattern
/// parsed from `pattern_text`: the line echoed, one hit — the line itself,
/// with its score — exactly when the pattern scores it, the score and
/// appended positions of the index-recovering call, and the line highlighted
/// at those positions.
pub open spec fn report_wf(r: LineReport, line: Seq<char>, pattern_text: Seq<char>) -> bool {
    &&& r.line@ == line
    &&& (match pattern_score_of(pattern_text, line) {
        Option::Some(score) => r.hits@.len() == 1 && r.hits@[0].0@ == line && r.hits@[0].1
            == score,
        Option::None => r.hits@.len() == 0,
    })
    &&& r.ind_score == pattern_indices_score_of(pattern_text, line)
    &&& r.indices@ == pattern_appended_of(pattern_text, line)
    &&& r.highlighted@ == highlight(line, pattern_appended_of(pattern_text, line))
}

/// Parses the patterns, joined by spaces, as one nucleo pattern and matches
/// it against every input line in order.
pub fn type_2_matching(patterns: &Vec<String>, input: &Vec<String>) -> (reports: Vec<LineReport>)
    requires
        forall|i: int| 0 <= i < input@.len() ==> (#[trigger] input@[i])@.len() <= u32::MAX,
        join_spec(seq_views(patterns@), " "@).len() <= PATTERN_MAX,
    ensures
        reports@.len() == input@.len(),
        forall|i: int|
            0 <= i < input@.len() ==> report_wf(
                #[trigger] reports@[i],
                input@[i]@,
                join_spec(seq_views(patterns@), " "@),
            ),
{
    let ghost pattern_text = join_spec(seq_views(patterns@), " "@);
    let joined = join_with(patterns, " ");
    let mut pm = PatternMatcher::new(joined.as_str());
    let mut reports: Vec<LineReport> = Vec::new();
    let mut i: usize = 0;
    while i < input.len()
        invariant
            forall|n: int| 0 <= n < input@.len() ==> (#[trigger] input@[n])@.len() <= u32::MAX,
            pm.pattern_text() == pattern_text,
            pattern_text.len() <= PATTERN_MAX,
            i <= input@.len(),
            reports@.len() == i,
            forall|n: int|
                0 <= n < i ==> report_wf(#[trigger] reports@[n], input@[n]@, pattern_text),
        decreases input@.len() - i,
    {
        let line: &String = &input[i];
        let hits = pm.match_list_one(line);
        let mut indices: Vec<u32> = Vec::new();
        let ind_score = pm.indices(line.as_str(), &mut indices);
        let highlighted = highlight_matches(line.as_str(), indices.as_slice());
        reports.push(
            LineReport { line: line.clone(), hits, ind_score, indices, highlighted },
        );
        i = i + 1;
    }
    reports
}

/// The lines the hits print: one `hit: score` line per hit.
pub open spec fn hit_lines(hits: Seq<(String, u32)>) -> Seq<Seq<char>> {
    Seq::new(hits.len(), |n: int| hits[n].0@ + ": "@ + dec_spec(hits[n].1 as nat))
}

/// The lines one report prints: the echoed line, the hits or `no matches`,
/// the score/indices/highlight line, and a blank line.
pub open spec fn report_lines_spec(r: LineReport) -> Seq<Seq<char>> {
    seq!["line: "@ + r.line@] + (if r.hits@.len() == 0 {
        seq!["no matches"@]
    } else {
        hit_lines(r.hits@)
    }) + seq![
        "score: "@ + opt_u32_dbg(r.ind_score) + ", vec_of_indices: "@ + vec_u32_dbg(r.indices@)
            + ", matches: "@ + r.highlighted@,
        Seq::<char>::empty(),
    ]
}

/// Renders the lines one report prints.
pub fn render_line_report(r: &LineReport) -> (out: Vec<String>)
    ensures
        seq_views(out@) == report_lines_spec(*r),
{
    let mut out: Vec<String> = Vec::new();
    let mut first = String::from_str("line: ");
    first.append(r.line.as_str());
    out.push(first);
    if r.hits.len() == 0 {
        out.push(String::from_str("no matches"));
    } else {
        let mut n: usize = 0;
        while n < r.hits.len()
            invariant
                n <= r.hits@.len(),
                out@.len() == n + 1,
                out@[0]@ == "line: "@ + r.line@,
                forall|m: int| 0 <= m < n ==> out@[m + 1]@ == hit_lines(r.hits@)[m],
            decreases r.hits@.len() - n,
        {
            let hit = &r.hits[n];
            let mut h = hit.0.clone();
            h.append(": ");
            let d = u32_dec(hit.1);
            h.append(d.as_str());
            out.push(h);
            n = n + 1;
        }
    }
    let mut s = String::from_str("score: ");
    let os = fmt_opt_u32(&r.ind_score);
    s.append(os.as_str());
    s.append(", vec_of_indices: ");
    let vs = fmt_vec_u32(r.indices.as_slice());
    s.append(vs.as_str());
    s.append(", matches: ");
    s.append(r.highlighted.as_str());
    out.push(s);
    out.push(String::new());
    proof {
        assert(seq_views(out@) =~= report_lines_spec(*r));
    }
    out
}

/// The lines the whole pattern pass prints, report after report.
pub open spec fn pattern_report_lines(reports: Seq<LineReport>) -> Seq<Seq<char>>
    decreases reports.len(),
{
    if reports.len() == 0 {
        Seq::empty()
    } else {
        pattern_report_lines(reports.drop_last()) + report_lines_spec(reports.last())
    }
}

/// Renders the whole pattern pass.
pub fn render_pattern_report(reports: &Vec<LineReport>) -> (out: Vec<String>)
    ensures
        seq_views(out@) == pattern_report_lines(reports@),
{
    let mut out: Vec<String> = Vec::new();
    let mut i: usize = 0;
    while i < reports.len()
        invariant
            i <= reports@.len(),
            seq_views(out@) == pattern_report_lines(reports@.take(i as int)),
        decreases reports@.len() - i,
    {
        let mut block = render_line_report(&reports[i]);
        let ghost out_before = out@;
        let ghost block_view = block@;
        out.append(&mut block);
        proof {
            assert(reports@.take(i + 1).drop_last() =~= reports@.take(i as int));
            assert(reports@.take(i + 1).last() == reports@[i as int]);
            assert(seq_views(out@) =~= seq_views(out_before) + seq_views(block_view));
            assert(seq_views(out@) =~= pattern_report_lines(reports@.take(i + 1)));
        }
        i = i + 1;
    }
    proof {
        assert(reports@.take(reports@.len() as int) =~= reports@);
    }
    out
}

} // verus!

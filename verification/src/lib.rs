//! Pipes lines of text through the nucleo fuzzy/substring/exact matcher and
//! builds timing and scoring diagnostics: a dispatch table over the twelve
//! matcher variants, an ANSI highlighter for matched character positions, and
//! a fixed-width tabular report.

pub mod highlight;
pub mod strext;
pub mod textfmt;
pub mod capability;
pub mod dispatch;
pub mod report;
pub mod pattern_run;
pub mod cli;

//! The command-line surface: the usage message owed, together with exit
//! status 1, when no pattern argument is supplied.

use vstd::prelude::*;

use crate::textfmt::seq_views;

verus! {

/// The three lines of the usage message.
pub open spec fn usage_lines_spec() -> Seq<Seq<char>> {
    seq![
        "Usage: echo <piped_input> | fz <pattern>"@,
        "    For Nushell try this:"@,
        "    [\"foo-bar\", \"baz-brr\"] | to text | fz foo bar"@,
    ]
}

/// Renders the usage message shown when the pattern list is empty.
pub fn usage_lines() -> (out: Vec<String>)
    ensures
        seq_views(out@) == usage_lines_spec(),
{
    let mut out: Vec<String> = Vec::new();
    out.push(String::from_str("Usage: echo <piped_input> | fz <pattern>"));
    out.push(String::from_str("    For Nushell try this:"));
    out.push(String::from_str("    [\"foo-bar\", \"baz-brr\"] | to text | fz foo bar"));
    proof {
        assert(seq_views(out@) =~= usage_lines_spec());
    }
    out
}

} // verus!

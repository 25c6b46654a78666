//! Verified plain-text formatting: decimal rendering of integers, field
//! padding, list joining, and the `Some(..)` / `[..]` shapes the report
//! prints for optional scores and index lists.

use vstd::prelude::*;

verus! {

/// The decimal digit character for `d` (`d < 10`).
pub open spec fn dec_digit(d: nat) -> char {
    ((48 + d) as u8) as char
}

/// The decimal rendering of `n`, most significant digit first.
pub open spec fn dec_spec(n: nat) -> Seq<char>
    decreases n,
{
    if n < 10 {
        seq![dec_digit(n)]
    } else {
        dec_spec(n / 10).push(dec_digit(n % 10))
    }
}

fn digit_char(d: u32) -> (c: char)
    requires
        d < 10,
    ensures
        c == dec_digit(d as nat),
{
    (48 + d as u8) as char
}

/// Renders `n` in decimal.
pub fn u32_dec(n: u32) -> (r: String)
    ensures
        r@ == dec_spec(n as nat),
    decreases n,
{
    if n < 10 {
        let mut s = String::new();
        s.push(digit_char(n));
        s
    } else {
        let mut s = u32_dec(n / 10);
        s.push(digit_char(n % 10));
        s
    }
}

/// `n` space characters.
pub open spec fn spaces(n: int) -> Seq<char>
    decreases n,
{
    if n <= 0 {
        Seq::empty()
    } else {
        spaces(n - 1).push(' ')
    }
}

/// `s` padded with trailing spaces to width `w` (unchanged if already wider).
pub open spec fn pad_right_spec(s: Seq<char>, w: int) -> Seq<char> {
    s + spaces(w - s.len())
}

/// `s` padded with leading spaces to width `w` (unchanged if already wider).
pub open spec fn pad_left_spec(s: Seq<char>, w: int) -> Seq<char> {
    spaces(w - s.len()) + s
}

/// Left-aligns `s` in a field of `w` characters.
pub fn pad_right(s: &str, w: usize) -> (r: String)
    ensures
        r@ == pad_right_spec(s@, w as int),
{
    let len: usize = s.unicode_len();
    let mut r = String::from_str(s);
    proof {
        assert(r@ =~= s@ + spaces(0));
    }
    let mut k: usize = len;
    while k < w
        invariant
            len == s@.len(),
            k >= len,
            k == len || k <= w,
            r@ == s@ + spaces(k - len),
        decreases w - k,
    {
        r.push(' ');
        proof {
            assert(r@ =~= s@ + spaces(k + 1 - len));
        }
        k = k + 1;
    }
    proof {
        if len >= w {
            assert(r@ =~= pad_right_spec(s@, w as int));
        }
    }
    r
}

/// Right-aligns `s` in a field of `w` characters.
pub fn pad_left(s: &str, w: usize) -> (r: String)
    ensures
        r@ == pad_left_spec(s@, w as int),
{
    let len: usize = s.unicode_len();
    let mut r = String::new();
    let mut k: usize = len;
    while k < w
        invariant
            len == s@.len(),
            k >= len,
            k == len || k <= w,
            r@ == spaces(k - len),
        decreases w - k,
    {
        r.push(' ');
        proof {
            assert(r@ =~= spaces(k + 1 - len));
        }
        k = k + 1;
    }
    r.append(s);
    proof {
        assert(r@ =~= pad_left_spec(s@, w as int));
    }
    r
}

/// The views of a sequence of strings.
pub open spec fn seq_views(ss: Seq<String>) -> Seq<Seq<char>> {
    ss.map_values(|s: String| s@)
}

/// The parts joined with `sep` between neighbours.
pub open spec fn join_spec(parts: Seq<Seq<char>>, sep: Seq<char>) -> Seq<char>
    decreases parts.len(),
{
    if parts.len() == 0 {
        Seq::empty()
    } else if parts.len() == 1 {
        parts[0]
    } else {
        join_spec(parts.drop_last(), sep) + sep + parts.last()
    }
}

/// Joins the strings of `parts` with `sep` between neighbours.
pub fn join_with(parts: &Vec<String>, sep: &str) -> (r: String)
    ensures
        r@ == join_spec(seq_views(parts@), sep@),
{
    let mut r = String::new();
    let mut i: usize = 0;
    while i < parts.len()
        invariant
            i <= parts@.len(),
            r@ == join_spec(seq_views(parts@).take(i as int), sep@),
        decreases parts@.len() - i,
    {
        if i > 0 {
            r.append(sep);
        }
        r.append(parts[i].as_str());
        proof {
            let views = seq_views(parts@);
            assert(views.take(i + 1).drop_last() =~= views.take(i as int));
            assert(views.take(i + 1).last() == views[i as int]);
            assert(views[i as int] == parts@[i as int]@);
            if i == 0 {
                assert(r@ =~= join_spec(views.take(i + 1), sep@));
            }
        }
        i = i + 1;
    }
    proof {
        assert(seq_views(parts@).take(parts@.len() as int) =~= seq_views(parts@));
    }
    r
}

/// The shape `{:?}` gives an optional number: `None` or `Some(n)`.
pub open spec fn opt_u32_dbg(o: Option<u32>) -> Seq<char> {
    match o {
        Option::None => "None"@,
        Option::Some(v) => "Some("@ + dec_spec(v as nat) + ")"@,
    }
}

/// Renders an optional number the way `{:?}` prints it.
pub fn fmt_opt_u32(o: &Option<u32>) -> (r: String)
    ensures
        r@ == opt_u32_dbg(*o),
{
    match o {
        Option::None => String::from_str("None"),
        Option::Some(v) => {
            let mut s = String::from_str("Some(");
            let digits = u32_dec(*v);
            s.append(digits.as_str());
            s.push(')');
            proof {
                reveal_strlit(")");
                assert(s@ =~= "Some("@ + dec_spec(*v as nat) + ")"@);
            }
            s
        },
    }
}

/// The decimal renderings of the numbers of `v`, joined with `, `.
pub open spec fn decs_join(v: Seq<u32>) -> Seq<char>
    decreases v.len(),
{
    if v.len() == 0 {
        Seq::empty()
    } else if v.len() == 1 {
        dec_spec(v[0] as nat)
    } else {
        decs_join(v.drop_last()) + ", "@ + dec_spec(v.last() as nat)
    }
}

/// The shape `{:?}` gives a list of numbers: `[a, b, c]`.
pub open spec fn vec_u32_dbg(v: Seq<u32>) -> Seq<char> {
    "["@ + decs_join(v) + "]"@
}

/// Renders a list of numbers the way `{:?}` prints it.
pub fn fmt_vec_u32(v: &[u32]) -> (r: String)
    ensures
        r@ == vec_u32_dbg(v@),
{
    let mut body = String::new();
    let mut i: usize = 0;
    while i < v.len()
        invariant
            i <= v@.len(),
            body@ == decs_join(v@.take(i as int)),
        decreases v@.len() - i,
    {
        if i > 0 {
            body.append(", ");
        }
        let d = u32_dec(v[i]);
        body.append(d.as_str());
        proof {
            assert(v@.take(i + 1).drop_last() =~= v@.take(i as int));
            assert(v@.take(i + 1).last() == v@[i as int]);
            if i == 0 {
                assert(body@ =~= decs_join(v@.take(i + 1)));
            }
        }
        i = i + 1;
    }
    proof {
        assert(v@.take(v@.len() as int) =~= v@);
    }
    let mut r = String::from_str("[");
    r.append(body.as_str());
    r.append("]");
    r
}

} // verus!

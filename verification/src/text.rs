//! Character-level text operations: padding, truncation, decimal and
//! duration formatting, control-character escaping.
//!
//! Exec code works on `Vec<char>`; every function is pinned to a spec-level
//! representation over `Seq<char>`. One display cell is assumed per
//! character throughout, a simplification inherited from the rendering
//! behaviour this crate reproduces.

use vstd::prelude::*;
use vstd::std_specs::iter::IteratorSpec;

verus! {

broadcast use vstd::string::axiom_spec_iter, vstd::string::next_postcondition, vstd::seq_lib::group_seq_properties;

/// Collects the characters of a string slice.
pub fn to_chars(s: &str) -> (r: Vec<char>)
    ensures
        r@ == s@,
{
    let mut it = s.chars();
    let mut out: Vec<char> = Vec::new();
    loop
        invariant
            out@ + it.remaining() == s@,
            it.obeys_prophetic_iter_laws(),
            it.decrease() is Some,
        ensures
            out@ == s@,
        decreases it.decrease()->0,
    {
        match it.next() {
            Some(c) => {
                out.push(c);
            },
            None => {
                assert(out@ =~= s@);
                break ;
            },
        }
    }
    out
}

/// Relies on `String::from_iter` over `std::str::Chars`: the collected string
/// holds exactly the characters of the vector, in order.
#[verifier::external_body]
pub fn chars_to_string(v: &Vec<char>) -> (s: String)
    ensures
        s@ == v@,
{
    v.iter().collect()
}

/// Appends all characters of `src` to `dst`.
pub fn append_chars(dst: &mut Vec<char>, src: &Vec<char>)
    ensures
        final(dst)@ == old(dst)@ + src@,
{
    let mut i: usize = 0;
    while i < src.len()
        invariant
            i <= src.len(),
            dst@ == old(dst)@ + src@.take(i as int),
        decreases src.len() - i,
    {
        dst.push(src[i]);
        assert(src@.take(i + 1) =~= src@.take(i as int).push(src@[i as int]));
        i += 1;
    }
    assert(src@.take(src@.len() as int) =~= src@);
}

/// The first `n` characters of `v`.
pub fn take_prefix(v: &Vec<char>, n: usize) -> (r: Vec<char>)
    requires
        n <= v@.len(),
    ensures
        r@ == v@.take(n as int),
{
    let mut out: Vec<char> = Vec::new();
    let mut i: usize = 0;
    while i < n
        invariant
            i <= n <= v@.len(),
            out@ == v@.take(i as int),
        decreases n - i,
    {
        out.push(v[i]);
        assert(v@.take(i + 1) =~= v@.take(i as int).push(v@[i as int]));
        i += 1;
    }
    out
}

/// `n` spaces (none when `n` is negative).
pub open spec fn spaces(n: int) -> Seq<char> {
    Seq::new(
        (if n < 0 {
            0
        } else {
            n
        }) as nat,
        |i: int| ' ',
    )
}

/// Right-aligns `s` in `width` cells; text at least as wide as the column is
/// left as it stands.
pub open spec fn pad_left_spec(s: Seq<char>, width: int) -> Seq<char> {
    if s.len() >= width {
        s
    } else {
        spaces(width - s.len()) + s
    }
}

/// Left-aligns `s` in `width` cells; text at least as wide as the column is
/// left as it stands.
pub open spec fn pad_right_spec(s: Seq<char>, width: int) -> Seq<char> {
    if s.len() >= width {
        s
    } else {
        s + spaces(width - s.len())
    }
}

/// Appends `n` spaces.
pub fn push_spaces(out: &mut Vec<char>, n: usize)
    ensures
        final(out)@ == old(out)@ + spaces(n as int),
{
    let mut i: usize = 0;
    while i < n
        invariant
            i <= n,
            out@ == old(out)@ + spaces(i as int),
        decreases n - i,
    {
        out.push(' ');
        assert(spaces(i + 1) =~= spaces(i as int).push(' '));
        i += 1;
    }
}

pub fn pad_left(s: &Vec<char>, width: usize) -> (r: Vec<char>)
    ensures
        r@ == pad_left_spec(s@, width as int),
{
    let mut out: Vec<char> = Vec::new();
    if s.len() < width {
        push_spaces(&mut out, width - s.len());
    }
    append_chars(&mut out, s);
    assert(out@ =~= pad_left_spec(s@, width as int));
    out
}

pub fn pad_right(s: &Vec<char>, width: usize) -> (r: Vec<char>)
    ensures
        r@ == pad_right_spec(s@, width as int),
{
    let mut out: Vec<char> = Vec::new();
    append_chars(&mut out, s);
    if s.len() < width {
        push_spaces(&mut out, width - s.len());
    }
    assert(out@ =~= pad_right_spec(s@, width as int));
    out
}

/// The marker written where text was cut to fit its column.
pub open spec fn ellipsis_rep() -> Seq<char> {
    seq!['.', '.', '.']
}

/// Directory cell text: left-aligned; text wider than a column of at least 4
/// cells is truncated from the left, keeping the last `width - 3` characters
/// behind the ellipsis.
pub open spec fn left_trunc_spec(s: Seq<char>, width: int) -> Seq<char> {
    if s.len() > width && width >= 4 {
        ellipsis_rep() + s.subrange(s.len() - (width - 3), s.len() as int)
    } else {
        pad_right_spec(s, width)
    }
}

/// Host and user cell text: left-aligned; text wider than a column of at
/// least 4 cells is truncated from the right, keeping the first `width - 4`
/// characters before the ellipsis.
pub open spec fn right_trunc_spec(s: Seq<char>, width: int) -> Seq<char> {
    if s.len() > width && width >= 4 {
        pad_right_spec(s.subrange(0, width - 4) + ellipsis_rep(), width)
    } else {
        pad_right_spec(s, width)
    }
}

pub fn left_trunc(s: &Vec<char>, width: usize) -> (r: Vec<char>)
    ensures
        r@ == left_trunc_spec(s@, width as int),
{
    if s.len() > width && width >= 4 {
        let keep: usize = width - 3;
        let mut out: Vec<char> = Vec::new();
        out.push('.');
        out.push('.');
        out.push('.');
        let mut i: usize = s.len() - keep;
        assert(out@ =~= ellipsis_rep() + s@.subrange(s@.len() - (width - 3), i as int));
        while i < s.len()
            invariant
                s@.len() > width && width >= 4,
                keep == width - 3,
                s.len() - keep <= i <= s.len(),
                out@ == ellipsis_rep() + s@.subrange(s@.len() - (width - 3), i as int),
            decreases s.len() - i,
        {
            out.push(s[i]);
            assert(s@.subrange(s@.len() - (width - 3), i + 1) =~= s@.subrange(
                s@.len() - (width - 3),
                i as int,
            ).push(s@[i as int]));
            i += 1;
        }
        out
    } else {
        pad_right(s, width)
    }
}

pub fn right_trunc(s: &Vec<char>, width: usize) -> (r: Vec<char>)
    ensures
        r@ == right_trunc_spec(s@, width as int),
{
    if s.len() > width && width >= 4 {
        let mut out = take_prefix(s, width - 4);
        out.push('.');
        out.push('.');
        out.push('.');
        assert(out@ =~= s@.subrange(0, width - 4) + ellipsis_rep());
        let r = pad_right(&out, width);
        r
    } else {
        pad_right(s, width)
    }
}

/// For any text wider than a column of width at least 4, the truncated cell
/// is exactly `width` cells and carries the ellipsis at the cut end: leading
/// for the left truncation, trailing (before one pad cell) for the right one.
pub proof fn lemma_truncation_width(s: Seq<char>, width: int)
    requires
        s.len() > width,
        width >= 4,
    ensures
        left_trunc_spec(s, width).len() == width,
        left_trunc_spec(s, width).subrange(0, 3) == ellipsis_rep(),
        right_trunc_spec(s, width).len() == width,
        right_trunc_spec(s, width).subrange(width - 4, width - 1) == ellipsis_rep(),
{
    assert(left_trunc_spec(s, width).subrange(0, 3) =~= ellipsis_rep());
    assert(right_trunc_spec(s, width).subrange(width - 4, width - 1) =~= ellipsis_rep());
}

/// The decimal digit for a value in 0..10.
pub open spec fn digit_char(d: int) -> char {
    ((48 + d) as u8) as char
}

/// The decimal representation of `n`, most significant digit first.
pub open spec fn dec_rep(n: int) -> Seq<char>
    decreases n,
{
    if n < 10 {
        seq![digit_char(n)]
    } else {
        dec_rep(n / 10).push(digit_char(n % 10))
    }
}

/// Appends the decimal representation of `n`.
pub fn push_dec(n: u64, out: &mut Vec<char>)
    ensures
        final(out)@ == old(out)@ + dec_rep(n as int),
    decreases n,
{
    if n < 10 {
        out.push((48 + n as u8) as char);
        assert(out@ =~= old(out)@ + dec_rep(n as int));
    } else {
        push_dec(n / 10, out);
        out.push((48 + (n % 10) as u8) as char);
        assert(out@ =~= old(out)@ + dec_rep(n as int));
    }
}

/// The signed decimal representation of `n`.
pub open spec fn dec_rep_signed(n: int) -> Seq<char> {
    if n < 0 {
        seq!['-'] + dec_rep(-n)
    } else {
        dec_rep(n)
    }
}

/// The decimal representation of `n`, with a leading zero under 10.
pub open spec fn dec2_rep(n: int) -> Seq<char> {
    if n < 10 {
        seq!['0'] + dec_rep(n)
    } else {
        dec_rep(n)
    }
}

/// Appends the two-digit decimal representation of `n`.
pub fn push_dec2(n: u64, out: &mut Vec<char>)
    ensures
        final(out)@ == old(out)@ + dec2_rep(n as int),
{
    if n < 10 {
        out.push('0');
    }
    push_dec(n, out);
    assert(out@ =~= old(out)@ + dec2_rep(n as int));
}

pub open spec fn nanos_per_sec() -> int {
    1_000_000_000
}

/// The compact human form of a duration in nanoseconds: its largest whole
/// unit among days, hours, minutes, seconds, milliseconds, microseconds and
/// nanoseconds, truncated toward zero.
pub open spec fn duration_rep(ns: int) -> Seq<char> {
    let secs = ns / nanos_per_sec();
    if secs >= 86400 {
        dec_rep(secs / 86400) + seq!['d']
    } else if secs >= 3600 {
        dec_rep(secs / 3600) + seq!['h']
    } else if secs >= 60 {
        dec_rep(secs / 60) + seq!['m']
    } else if secs >= 1 {
        dec_rep(secs) + seq!['s']
    } else if ns >= 1_000_000 {
        dec_rep(ns / 1_000_000) + seq!['m', 's']
    } else if ns >= 1_000 {
        dec_rep(ns / 1_000) + seq!['u', 's']
    } else {
        dec_rep(ns) + seq!['n', 's']
    }
}

/// Formats a duration given in nanoseconds as its compact human form.
pub fn format_duration(ns: u64) -> (r: Vec<char>)
    ensures
        r@ == duration_rep(ns as int),
{
    let mut out: Vec<char> = Vec::new();
    let secs: u64 = ns / 1_000_000_000;
    if secs >= 86400 {
        push_dec(secs / 86400, &mut out);
        out.push('d');
    } else if secs >= 3600 {
        push_dec(secs / 3600, &mut out);
        out.push('h');
    } else if secs >= 60 {
        push_dec(secs / 60, &mut out);
        out.push('m');
    } else if secs >= 1 {
        push_dec(secs, &mut out);
        out.push('s');
    } else if ns >= 1_000_000 {
        push_dec(ns / 1_000_000, &mut out);
        out.push('m');
        out.push('s');
    } else if ns >= 1_000 {
        push_dec(ns / 1_000, &mut out);
        out.push('u');
        out.push('s');
    } else {
        push_dec(ns, &mut out);
        out.push('n');
        out.push('s');
    }
    assert(out@ =~= duration_rep(ns as int));
    out
}

/// How one character appears in normalized text: ASCII control characters
/// become caret notation (`^A` .. `^_`, `^?`); everything else stands as it
/// is.
pub open spec fn escape_char(c: char) -> Seq<char> {
    if (c as u32) < 32 {
        seq!['^', (((c as u32) + 64) as u8) as char]
    } else if (c as u32) == 127 {
        seq!['^', '?']
    } else {
        seq![c]
    }
}

/// The text with every ASCII control character escaped.
pub open spec fn escape_rep(s: Seq<char>) -> Seq<char>
    decreases s.len(),
{
    if s.len() == 0 {
        Seq::<char>::empty()
    } else {
        escape_rep(s.drop_last()) + escape_char(s.last())
    }
}

/// Escapes every ASCII control character of `s` in caret notation.
pub fn escape_control(s: &Vec<char>) -> (r: Vec<char>)
    ensures
        r@ == escape_rep(s@),
{
    let mut out: Vec<char> = Vec::new();
    let mut i: usize = 0;
    while i < s.len()
        invariant
            i <= s.len(),
            out@ == escape_rep(s@.take(i as int)),
        decreases s.len() - i,
    {
        let c = s[i];
        let code: u32 = c as u32;
        if code < 32 {
            out.push('^');
            out.push((code as u8 + 64) as char);
        } else if code == 127 {
            out.push('^');
            out.push('?');
        } else {
            out.push(c);
        }
        proof {
            let pre = s@.take(i + 1);
            assert(pre.drop_last() =~= s@.take(i as int));
            assert(pre.last() == s@[i as int]);
            assert(out@ =~= escape_rep(s@.take(i as int)) + escape_char(s@[i as int]));
        }
        i += 1;
    }
    assert(s@.take(s@.len() as int) =~= s@);
    out
}

} // verus!

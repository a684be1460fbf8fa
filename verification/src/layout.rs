//! Column configuration and the width layout engine.

use vstd::prelude::*;

verus! {

/// The data a column shows.
#[derive(Clone, Copy, Debug, PartialEq, Eq)]
pub enum ColumnKind {
    Duration,
    Time,
    Datetime,
    Directory,
    Host,
    User,
    Exit,
    Command,
}

/// One configured column: what it shows, its configured width, and whether
/// it takes the width left over by the fixed columns instead.
#[derive(Clone, Copy, Debug, PartialEq, Eq)]
pub struct ColumnSpec {
    pub kind: ColumnKind,
    pub fixed_width: usize,
    pub expand: bool,
}

/// Width of the fixed left padding of every row.
pub open spec fn row_padding() -> int {
    1
}

/// The width budget left for an expanding column after the first `i` columns:
/// the available width less the left padding, less one width-plus-separator
/// share per non-expanding column, never below zero.
pub open spec fn remaining_after(cols: Seq<ColumnSpec>, avail: int, i: int) -> int
    decreases i,
{
    if i <= 0 {
        if avail >= row_padding() {
            avail - row_padding()
        } else {
            0
        }
    } else {
        let r = remaining_after(cols, avail, i - 1);
        if cols[i - 1].expand {
            r
        } else if r > cols[i - 1].fixed_width {
            r - cols[i - 1].fixed_width - 1
        } else {
            0
        }
    }
}

/// The width every expanding column receives.
pub open spec fn expand_width_spec(cols: Seq<ColumnSpec>, avail: int) -> int {
    remaining_after(cols, avail, cols.len() as int)
}

/// The rendered width of column `i`.
pub open spec fn column_width_spec(cols: Seq<ColumnSpec>, avail: int, i: int) -> int {
    if cols[i].expand {
        expand_width_spec(cols, avail)
    } else {
        cols[i].fixed_width as int
    }
}

/// Computes the rendered width of every column for one render pass.
pub fn compute_widths(cols: &Vec<ColumnSpec>, avail: usize) -> (r: Vec<usize>)
    ensures
        r@.len() == cols@.len(),
        forall|i: int|
            0 <= i < cols@.len() ==> r@[i] as int == column_width_spec(cols@, avail as int, i),
{
    let mut rem: usize = if avail >= 1 {
        avail - 1
    } else {
        0
    };
    let mut i: usize = 0;
    while i < cols.len()
        invariant
            i <= cols@.len(),
            rem as int == remaining_after(cols@, avail as int, i as int),
        decreases cols@.len() - i,
    {
        let c = cols[i];
        if !c.expand {
            if rem > c.fixed_width {
                rem = rem - c.fixed_width - 1;
            } else {
                rem = 0;
            }
        }
        i += 1;
    }
    let expand_width: usize = rem;
    let mut out: Vec<usize> = Vec::new();
    let mut j: usize = 0;
    while j < cols.len()
        invariant
            j <= cols@.len(),
            out@.len() == j,
            expand_width as int == expand_width_spec(cols@, avail as int),
            forall|k: int|
                0 <= k < j ==> out@[k] as int == column_width_spec(cols@, avail as int, k),
        decreases cols@.len() - j,
    {
        let c = cols[j];
        if c.expand {
            out.push(expand_width);
        } else {
            out.push(c.fixed_width);
        }
        j += 1;
    }
    out
}

/// Sum of the rendered widths of the first `i` columns.
pub open spec fn width_sum(cols: Seq<ColumnSpec>, avail: int, i: int) -> int
    decreases i,
{
    if i <= 0 {
        0
    } else {
        width_sum(cols, avail, i - 1) + column_width_spec(cols, avail, i - 1)
    }
}

/// Number of expanding columns among the first `i`.
pub open spec fn expand_count(cols: Seq<ColumnSpec>, i: int) -> int
    decreases i,
{
    if i <= 0 {
        0
    } else {
        expand_count(cols, i - 1) + if cols[i - 1].expand {
            1int
        } else {
            0int
        }
    }
}

/// Sum of width-plus-separator shares of the non-expanding columns among the
/// first `i`.
pub open spec fn fixed_budget(cols: Seq<ColumnSpec>, i: int) -> int
    decreases i,
{
    if i <= 0 {
        0
    } else {
        fixed_budget(cols, i - 1) + if cols[i - 1].expand {
            0int
        } else {
            cols[i - 1].fixed_width + 1
        }
    }
}

/// While the fixed columns fit the budget, the remaining width is exactly the
/// available width less the padding and the fixed shares.
proof fn lemma_remaining_exact(cols: Seq<ColumnSpec>, avail: int, i: int)
    requires
        0 <= i <= cols.len(),
        avail >= row_padding() + fixed_budget(cols, i),
    ensures
        remaining_after(cols, avail, i) == avail - row_padding() - fixed_budget(cols, i),
    decreases i,
{
    if i > 0 {
        assert(fixed_budget(cols, i - 1) <= fixed_budget(cols, i)) by {
            lemma_fixed_budget_mono(cols, i - 1, i);
        }
        lemma_remaining_exact(cols, avail, i - 1);
    }
}

/// Fixed budgets grow with the column index.
proof fn lemma_fixed_budget_mono(cols: Seq<ColumnSpec>, a: int, b: int)
    requires
        0 <= a <= b,
    ensures
        fixed_budget(cols, a) <= fixed_budget(cols, b),
    decreases b - a,
{
    if a < b {
        lemma_fixed_budget_mono(cols, a + 1, b);
    }
}

/// Width sums decompose into the fixed shares and the expanding shares.
proof fn lemma_width_sum_split(cols: Seq<ColumnSpec>, avail: int, i: int)
    requires
        0 <= i <= cols.len(),
    ensures
        width_sum(cols, avail, i) == fixed_budget(cols, i) - (i - expand_count(cols, i)) +
            expand_count(cols, i) * expand_width_spec(cols, avail),
    decreases i,
{
    if i > 0 {
        lemma_width_sum_split(cols, avail, i - 1);
        assert((expand_count(cols, i - 1) + 1) * expand_width_spec(cols, avail) == expand_count(
            cols,
            i - 1,
        ) * expand_width_spec(cols, avail) + expand_width_spec(cols, avail)) by (nonlinear_arith);
    }
}

/// When exactly one column expands and the fixed columns fit the available
/// width, the rendered widths together with the left padding and one
/// separator per column after the first never exceed the available width.
pub proof fn lemma_layout_fits(cols: Seq<ColumnSpec>, avail: int)
    requires
        cols.len() >= 1,
        expand_count(cols, cols.len() as int) == 1,
        avail >= row_padding() + fixed_budget(cols, cols.len() as int),
    ensures
        row_padding() + width_sum(cols, avail, cols.len() as int) + (cols.len() - 1) <= avail,
{
    let n = cols.len() as int;
    lemma_remaining_exact(cols, avail, n);
    lemma_width_sum_split(cols, avail, n);
    assert(1 * expand_width_spec(cols, avail) == expand_width_spec(cols, avail));
}

} // verus!

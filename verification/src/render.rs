//! Frame rendering: pieces are clipped into positioned fragments by a
//! per-row draw cursor, rows are mapped to physical lines, and the fragments
//! are written into a terminal buffer.

use vstd::prelude::*;
use crate::item::HistoryItem;
use crate::layout::{column_width_spec, ColumnSpec};
use crate::row::{pieces_view, row_pieces, row_pieces_spec, Piece};
use crate::text::take_prefix;
use crate::theme::{SelectionMode, Style, Theme};

verus! {

broadcast use vstd::seq_lib::group_seq_properties;

/// One clipped write: text and style at a position inside the list area.
pub struct Frag {
    pub x: usize,
    pub y: usize,
    pub text: Vec<char>,
    pub style: Style,
}

/// The view of a fragment list: position, text and style of each fragment.
pub open spec fn frags_view(fs: Seq<Frag>) -> Seq<(int, int, Seq<char>, Style)> {
    fs.map_values(|f: Frag| (f.x as int, f.y as int, f.text@, f.style))
}

proof fn lemma_frags_view_push(fs: Seq<Frag>, f: Frag)
    ensures
        frags_view(fs.push(f)) == frags_view(fs).push((f.x as int, f.y as int, f.text@, f.style)),
{
    assert(frags_view(fs.push(f)) =~= frags_view(fs).push(
        (f.x as int, f.y as int, f.text@, f.style),
    ));
}

/// The fragments and cursor position after the first `i` pieces of a row:
/// each piece is clipped to the width remaining right of the cursor, empty
/// writes are dropped, and the cursor advances by the cells consumed.
pub open spec fn emit_upto(ps: Seq<(Seq<char>, Style)>, width: int, y: int, i: int) -> (
    Seq<(int, int, Seq<char>, Style)>,
    int,
)
    decreases i,
{
    if i <= 0 {
        (Seq::<(int, int, Seq<char>, Style)>::empty(), 0)
    } else {
        let prev = emit_upto(ps, width, y, i - 1);
        let text = ps[i - 1].0;
        let room = width - prev.1;
        let clip = if text.len() <= room {
            text.len() as int
        } else {
            room
        };
        if clip > 0 {
            (prev.0.push((prev.1, y, text.take(clip), ps[i - 1].1)), prev.1 + clip)
        } else {
            prev
        }
    }
}

/// All fragments of one row.
pub open spec fn emit_row_spec(ps: Seq<(Seq<char>, Style)>, width: int, y: int) -> Seq<
    (int, int, Seq<char>, Style),
> {
    emit_upto(ps, width, y, ps.len() as int).0
}

/// Clips the pieces of one row into fragments at physical line `y`.
pub fn emit_row(pieces: &Vec<Piece>, width: usize, y: usize, out: &mut Vec<Frag>)
    ensures
        frags_view(final(out)@) == frags_view(old(out)@) + emit_row_spec(
            pieces_view(pieces@),
            width as int,
            y as int,
        ),
{
    let ghost ps = pieces_view(pieces@);
    let mut x: usize = 0;
    let mut i: usize = 0;
    while i < pieces.len()
        invariant
            i <= pieces@.len(),
            ps == pieces_view(pieces@),
            x <= width,
            x as int == emit_upto(ps, width as int, y as int, i as int).1,
            frags_view(out@) == frags_view(old(out)@) + emit_upto(
                ps,
                width as int,
                y as int,
                i as int,
            ).0,
        decreases pieces@.len() - i,
    {
        let piece = &pieces[i];
        let room: usize = width - x;
        let clip: usize = if piece.text.len() <= room {
            piece.text.len()
        } else {
            room
        };
        if clip > 0 {
            let f = Frag { x, y, text: take_prefix(&piece.text, clip), style: piece.style };
            proof {
                lemma_frags_view_push(out@, f);
            }
            out.push(f);
            x += clip;
        }
        i += 1;
    }
}

/// The physical line of logical row `r`: inverted layouts grow downward from
/// the top, others upward from the bottom.
pub open spec fn y_phys_spec(r: int, height: int, inverted: bool) -> int {
    if inverted {
        r
    } else {
        height - r - 1
    }
}

/// The view of per-row match positions.
pub open spec fn hls_view(hls: Seq<Vec<usize>>) -> Seq<Seq<usize>> {
    hls.map_values(|v: Vec<usize>| v@)
}

/// The fragments of the first `r` visible rows of one frame.
pub open spec fn render_upto(
    items: Seq<HistoryItem>,
    start: int,
    cols: Seq<ColumnSpec>,
    avail: int,
    height: int,
    inverted: bool,
    now_ns: int,
    hls: Seq<Seq<usize>>,
    theme: Theme,
    selected: int,
    mode: SelectionMode,
    r: int,
) -> Seq<(int, int, Seq<char>, Style)>
    decreases r,
{
    if r <= 0 {
        Seq::<(int, int, Seq<char>, Style)>::empty()
    } else {
        render_upto(
            items,
            start,
            cols,
            avail,
            height,
            inverted,
            now_ns,
            hls,
            theme,
            selected,
            mode,
            r - 1,
        ) + emit_row_spec(
            row_pieces_spec(
                cols,
                avail,
                items[start + r - 1],
                now_ns,
                hls[r - 1],
                theme,
                start + r - 1 == selected,
                mode,
            ),
            avail,
            y_phys_spec(r - 1, height, inverted),
        )
    }
}

/// Every fragment of one frame: the visible rows in increasing logical
/// order, each row's fragments in drawing order. The whole frame is a
/// function of the list state, the items, the columns, the theme, the clock
/// and the match positions.
pub open spec fn render_spec(
    items: Seq<HistoryItem>,
    start: int,
    count: int,
    cols: Seq<ColumnSpec>,
    avail: int,
    height: int,
    inverted: bool,
    now_ns: int,
    hls: Seq<Seq<usize>>,
    theme: Theme,
    selected: int,
    mode: SelectionMode,
) -> Seq<(int, int, Seq<char>, Style)> {
    render_upto(
        items,
        start,
        cols,
        avail,
        height,
        inverted,
        now_ns,
        hls,
        theme,
        selected,
        mode,
        count,
    )
}

/// Renders the visible window into a fragment list.
pub fn render_frags(
    history: &Vec<HistoryItem>,
    start: usize,
    count: usize,
    cols: &Vec<ColumnSpec>,
    widths: &Vec<usize>,
    avail: usize,
    height: usize,
    inverted: bool,
    now_ns: i128,
    highlights: &Vec<Vec<usize>>,
    theme: &Theme,
    selected: usize,
    mode: SelectionMode,
) -> (r: Vec<Frag>)
    requires
        start + count <= history@.len(),
        count <= height,
        highlights@.len() == count,
        widths@.len() == cols@.len(),
        forall|i: int|
            0 <= i < cols@.len() ==> widths@[i] as int == column_width_spec(cols@, avail as int, i),
    ensures
        frags_view(r@) == render_spec(
            history@,
            start as int,
            count as int,
            cols@,
            avail as int,
            height as int,
            inverted,
            now_ns as int,
            hls_view(highlights@),
            *theme,
            selected as int,
            mode,
        ),
{
    let mut out: Vec<Frag> = Vec::new();
    let n = history.len();
    let mut r: usize = 0;
    while r < count
        invariant
            r <= count,
            n == history@.len(),
            start + count <= history@.len(),
            count <= height,
            highlights@.len() == count,
            widths@.len() == cols@.len(),
            forall|i: int|
                0 <= i < cols@.len() ==> widths@[i] as int == column_width_spec(
                    cols@,
                    avail as int,
                    i,
                ),
            frags_view(out@) == render_upto(
                history@,
                start as int,
                cols@,
                avail as int,
                height as int,
                inverted,
                now_ns as int,
                hls_view(highlights@),
                *theme,
                selected as int,
                mode,
                r as int,
            ),
        decreases count - r,
    {
        let item = &history[start + r];
        let sel = crate::theme::is_selected_row(r, start, selected);
        let pieces = row_pieces(
            cols,
            widths,
            avail,
            item,
            now_ns,
            &highlights[r],
            theme,
            sel,
            mode,
        );
        let y: usize = if inverted {
            r
        } else {
            height - r - 1
        };
        emit_row(&pieces, avail, y, &mut out);
        proof {
            assert(hls_view(highlights@)[r as int] == highlights@[r as int]@);
        }
        r += 1;
    }
    out
}

/// Any two frames rendered from identical inputs are identical: the output
/// is pinned to a single fragment list by the inputs, so re-invoking the
/// renderer with an unchanged window, item list, column set, theme and clock
/// reproduces the frame.
pub proof fn lemma_render_deterministic(
    fs1: Seq<(int, int, Seq<char>, Style)>,
    fs2: Seq<(int, int, Seq<char>, Style)>,
    items: Seq<HistoryItem>,
    start: int,
    count: int,
    cols: Seq<ColumnSpec>,
    avail: int,
    height: int,
    inverted: bool,
    now_ns: int,
    hls: Seq<Seq<usize>>,
    theme: Theme,
    selected: int,
    mode: SelectionMode,
)
    requires
        fs1 == render_spec(
            items,
            start,
            count,
            cols,
            avail,
            height,
            inverted,
            now_ns,
            hls,
            theme,
            selected,
            mode,
        ),
        fs2 == render_spec(
            items,
            start,
            count,
            cols,
            avail,
            height,
            inverted,
            now_ns,
            hls,
            theme,
            selected,
            mode,
        ),
    ensures
        fs1 == fs2,
{
}

} // verus!

//! The history list widget: scroll-state update, match-position collection,
//! and the write of every rendered fragment into a ratatui buffer.

use vstd::prelude::*;
use crate::item::HistoryItem;
use crate::layout::{compute_widths, ColumnSpec};
use crate::render::render_frags;
use crate::scroll::{bounds_spec, get_items_bounds, ListState};
use crate::text::{chars_to_string, escape_control, to_chars};
use crate::theme::{SelectionMode, Style, Theme, ThemeColor};
use ratatui::style::Color as TermColor;
use crate::words::{join_words, split_words};

verus! {

/// The match engine a search strategy implements: which positions of the
/// normalized command match the query. Nothing is assumed of the result; the
/// renderer is verified for every value the engine may return.
pub trait SearchEngine {
    fn get_highlight_indices(&self, command: &str, query: &str) -> Vec<usize>;
}

/// Adapts a match engine and the live query into per-command match positions.
pub struct HistoryHighlighter<'a, E: SearchEngine> {
    pub engine: &'a E,
    pub search_input: &'a str,
}

impl<'a, E: SearchEngine> HistoryHighlighter<'a, E> {
    /// The match positions of one normalized command under the live query.
    pub fn get_highlight_indices(&self, command: &str) -> Vec<usize> {
        self.engine.get_highlight_indices(command, self.search_input)
    }
}

#[verifier::external_type_specification]
pub struct ExRect(ratatui::layout::Rect);

#[verifier::external_type_specification]
#[verifier::external_body]
pub struct ExBuffer(ratatui::buffer::Buffer);

#[verifier::external_type_specification]
#[verifier::external_body]
pub struct ExColor(ratatui::style::Color);

pub uninterp spec fn buffer_area(b: ratatui::buffer::Buffer) -> (int, int, int, int);

pub uninterp spec fn buffer_cells(b: ratatui::buffer::Buffer) -> Map<(int, int), (Seq<char>, Style)>;

/// How one styled write lands on a cell: colors overwrite only when the
/// incoming style sets them, attributes accumulate.
pub open spec fn style_patch(cell: Style, st: Style) -> Style {
    Style {
        fg: if st.fg is Some {
            st.fg
        } else {
            cell.fg
        },
        bg: if st.bg is Some {
            st.bg
        } else {
            cell.bg
        },
        bold: cell.bold || st.bold,
        reversed: cell.reversed || st.reversed,
    }
}

/// Text the cell model speaks exactly about: printable ASCII, one cell per
/// character and one grapheme per character. Other text is still written and
/// clipped the same way, but its cell widths are the terminal library's
/// business; in particular, Unicode controls outside the escaped C0/DEL
/// range (such as U+0085) are skipped by the writer, so the
/// one-cell-per-character model says nothing exact for them.
pub open spec fn ascii_printable(s: Seq<char>) -> bool {
    forall|i: int| 0 <= i < s.len() ==> 32 <= (s[i] as u32) && (s[i] as u32) < 127
}

/// How many cells a write fills: the text length, the width budget and the
/// buffer's right edge all clip.
pub open spec fn cells_written(len: int, maxw: int, x: int, right: int) -> int {
    let room = if right - x < maxw {
        right - x
    } else {
        maxw
    };
    let n = if len < room {
        len
    } else {
        room
    };
    if n < 0 {
        0
    } else {
        n
    }
}

/// Relies on ratatui's `Buffer`: its public `area` field is the rectangle of
/// cells the buffer holds.
#[verifier::external_body]
fn buf_area(buf: &ratatui::buffer::Buffer) -> (r: ratatui::layout::Rect)
    ensures
        (r.x as int, r.y as int, r.width as int, r.height as int) == buffer_area(*buf),
{
    buf.area
}

/// Relies on ratatui's `Buffer::set_stringn`: writes at most `maxw` cells of
/// the text at `(x, y)`, clipped at the buffer's right edge; the buffer's
/// area is unchanged, no cell outside `[x, x + maxw)` of row `y` is touched,
/// and for printable ASCII text cell `x + i` takes character `i` with the
/// fragment's style patched over the cell's. ratatui panics on a write whose
/// position lies left of the buffer area or outside its rows, and its edge
/// arithmetic saturates, so those positions and areas that overrun the
/// coordinate range are excluded here.
#[verifier::external_body]
fn draw_frag(
    buf: &mut ratatui::buffer::Buffer,
    x: u16,
    y: u16,
    text: &Vec<char>,
    maxw: u16,
    style: Style,
)
    requires
        ({
            let (bx, by, bw, bh) = buffer_area(*old(buf));
            &&& bx <= x
            &&& by <= y && y < by + bh
            &&& by + bh <= u16::MAX
            &&& bx + bw <= u16::MAX
        }),
    ensures
        buffer_area(*final(buf)) == buffer_area(*old(buf)),
        forall|p: (int, int)|
            p.1 != y || p.0 < x || p.0 >= x + maxw ==> buffer_cells(*final(buf))[p]
                == buffer_cells(*old(buf))[p],
        ascii_printable(text@) ==> ({
            let (bx, by, bw, bh) = buffer_area(*old(buf));
            let n = cells_written(text@.len() as int, maxw as int, x as int, bx + bw);
            &&& forall|i: int|
                0 <= i < n ==> buffer_cells(*final(buf))[(x + i, y as int)] == (
                    seq![text@[i]],
                    style_patch(buffer_cells(*old(buf))[(x + i, y as int)].1, style),
                )
            &&& forall|p: (int, int)|
                !(p.1 == y && x <= p.0 < x + n) ==> buffer_cells(*final(buf))[p] == buffer_cells(
                    *old(buf),
                )[p]
        }),
{
    let s: String = text.iter().collect();
    let mut st = ratatui::style::Style::default();
    if let Some(c) = style.fg {
        st = st.fg(convert_color(c));
    }
    if let Some(c) = style.bg {
        st = st.bg(convert_color(c));
    }
    if style.bold {
        st = st.add_modifier(ratatui::style::Modifier::BOLD);
    }
    if style.reversed {
        st = st.add_modifier(ratatui::style::Modifier::REVERSED);
    }
    buf.set_stringn(x, y, &s, maxw as usize, st);
}

/// Relies on ratatui's `Color` variants: each library color converts to the
/// one terminal color of the same name, shade or index. The result is an
/// opaque terminal value, so nothing is stated of it.
#[verifier::external_body]
fn convert_color(color: ThemeColor) -> TermColor {
    match color {
        ThemeColor::Rgb(r, g, b) => TermColor::Rgb(r, g, b),
        ThemeColor::Indexed(v) => TermColor::Indexed(v),
        ThemeColor::Black => TermColor::Black,
        ThemeColor::DarkGray => TermColor::DarkGray,
        ThemeColor::Red => TermColor::Red,
        ThemeColor::Green => TermColor::Green,
        ThemeColor::Yellow => TermColor::Yellow,
        ThemeColor::Blue => TermColor::Blue,
        ThemeColor::Magenta => TermColor::Magenta,
        ThemeColor::Cyan => TermColor::Cyan,
        ThemeColor::White => TermColor::White,
        ThemeColor::Gray => TermColor::Gray,
        ThemeColor::Reset => TermColor::Reset,
    }
}

/// The selection mode a configuration flag picks: the alternate highlight is
/// the full video reversal, the default is the background overlay.
pub open spec fn mode_spec(alternate_highlight: bool) -> SelectionMode {
    if alternate_highlight {
        SelectionMode::Reversal
    } else {
        SelectionMode::Background
    }
}

/// Rows the renderer actually draws: the window's span, cut to the list end.
pub open spec fn window_count(selected: int, offset: int, height: int, length: int) -> int {
    let (start, end) = bounds_spec(selected, offset, height, length);
    if end <= length {
        end - start
    } else {
        length - start
    }
}

/// Whether a fragment is written at all: it must carry cells inside the row
/// budget, land inside the buffer's rows at coordinates the grid can hold,
/// and the buffer's area must not overrun the coordinate range.
pub open spec fn frag_drawn(
    f: (int, int, Seq<char>, Style),
    ax: int,
    ay: int,
    avail: int,
    height: int,
    ba: (int, int, int, int),
) -> bool {
    &&& 0 <= f.0 < avail
    &&& 0 <= f.1 < height
    &&& ax + f.0 <= u16::MAX
    &&& ay + f.1 <= u16::MAX
    &&& ba.0 <= ax + f.0
    &&& ba.1 <= ay + f.1
    &&& ay + f.1 < ba.1 + ba.3
    &&& ba.1 + ba.3 <= u16::MAX
    &&& ba.0 + ba.2 <= u16::MAX
}

/// The value of cell `p` after the first `k` fragments of a frame land at
/// `(ax, ay)` in a buffer of area `ba`, starting from the cells `cells0`:
/// fragments are applied in order, each clipped to its row budget and the
/// buffer's right edge, each style patched over the cell it covers.
pub open spec fn blit_cell(
    cells0: Map<(int, int), (Seq<char>, Style)>,
    frags: Seq<(int, int, Seq<char>, Style)>,
    ax: int,
    ay: int,
    avail: int,
    height: int,
    ba: (int, int, int, int),
    k: int,
    p: (int, int),
) -> (Seq<char>, Style)
    decreases k,
{
    if k <= 0 {
        cells0[p]
    } else {
        let prev = blit_cell(cells0, frags, ax, ay, avail, height, ba, k - 1, p);
        let f = frags[k - 1];
        let cx = ax + f.0;
        let cy = ay + f.1;
        let n = cells_written(f.2.len() as int, avail - f.0, cx, ba.0 + ba.2);
        if frag_drawn(f, ax, ay, avail, height, ba) && p.1 == cy && cx <= p.0 < cx + n {
            (seq![f.2[p.0 - cx]], style_patch(prev.1, f.3))
        } else {
            prev
        }
    }
}

/// Whether every fragment of a frame is printable ASCII, the text the cell
/// model is exact for.
pub open spec fn all_ascii(frags: Seq<(int, int, Seq<char>, Style)>) -> bool {
    forall|k: int| 0 <= k < frags.len() ==> ascii_printable(frags[k].2)
}

/// The scrollable history list for one frame.
pub struct HistoryList<'a, E: SearchEngine> {
    pub history: &'a Vec<HistoryItem>,
    pub inverted: bool,
    pub alternate_highlight: bool,
    pub now_ns: i128,
    pub theme: &'a Theme,
    pub history_highlighter: HistoryHighlighter<'a, E>,
    pub columns: &'a Vec<ColumnSpec>,
}

impl<'a, E: SearchEngine> HistoryList<'a, E> {
    /// Gathers one frame's inputs. `now_ns` is the clock reading for the
    /// frame, injected so rendering is a pure function of its arguments.
    pub fn new(
        history: &'a Vec<HistoryItem>,
        inverted: bool,
        alternate_highlight: bool,
        now_ns: i128,
        theme: &'a Theme,
        history_highlighter: HistoryHighlighter<'a, E>,
        columns: &'a Vec<ColumnSpec>,
    ) -> (r: Self)
        ensures
            r.history == history,
            r.inverted == inverted,
            r.alternate_highlight == alternate_highlight,
            r.now_ns == now_ns,
            r.theme == theme,
            r.history_highlighter == history_highlighter,
            r.columns == columns,
    {
        HistoryList {
            history,
            inverted,
            alternate_highlight,
            now_ns,
            theme,
            history_highlighter,
            columns,
        }
    }

    /// Whether a frame has anything to draw: a positive area and a non-empty
    /// list.
    pub open spec fn active(&self, area: ratatui::layout::Rect) -> bool {
        area.width >= 1 && area.height >= 1 && self.history@.len() > 0
    }

    /// Renders one frame into `buf` at `area` from already-computed match
    /// positions, one set per visible row, and stores the window back into
    /// the list state. The buffer's cells outside `area` are untouched, and
    /// for a frame of printable ASCII text the cells it writes are exactly
    /// the frame's fragments, applied in drawing order. An empty list or a
    /// degenerate area resets the state to zero visible rows and writes
    /// nothing.
    pub fn render_with_highlights(
        &self,
        area: ratatui::layout::Rect,
        buf: &mut ratatui::buffer::Buffer,
        state: &mut ListState,
        highlights: &Vec<Vec<usize>>,
    )
        requires
            self.history@.len() > 0 ==> old(state).selected < self.history@.len(),
            self.history@.len() + area.height <= usize::MAX,
            self.active(area) ==> highlights@.len() == window_count(
                old(state).selected as int,
                old(state).offset as int,
                area.height as int,
                self.history@.len() as int,
            ),
        ensures
            final(state).selected == old(state).selected,
            self.active(area) ==> {
                let (start, end) = bounds_spec(
                    old(state).selected as int,
                    old(state).offset as int,
                    area.height as int,
                    self.history@.len() as int,
                );
                &&& final(state).offset == start
                &&& final(state).max_entries == end - start
            },
            !self.active(area) ==> ({
                &&& final(state).offset == old(state).offset
                &&& final(state).max_entries == 0
                &&& *final(buf) == *old(buf)
            }),
            buffer_area(*final(buf)) == buffer_area(*old(buf)),
            forall|p: (int, int)|
                !(area.x <= p.0 < area.x + area.width && area.y <= p.1 < area.y + area.height)
                    ==> buffer_cells(*final(buf))[p] == buffer_cells(*old(buf))[p],
            self.active(area) ==> ({
                let frags = crate::render::render_spec(
                    self.history@,
                    bounds_spec(
                        old(state).selected as int,
                        old(state).offset as int,
                        area.height as int,
                        self.history@.len() as int,
                    ).0,
                    window_count(
                        old(state).selected as int,
                        old(state).offset as int,
                        area.height as int,
                        self.history@.len() as int,
                    ),
                    self.columns@,
                    area.width as int,
                    area.height as int,
                    self.inverted,
                    self.now_ns as int,
                    crate::render::hls_view(highlights@),
                    *self.theme,
                    old(state).selected as int,
                    mode_spec(self.alternate_highlight),
                );
                all_ascii(frags) ==> forall|p: (int, int)|
                    buffer_cells(*final(buf))[p] == blit_cell(
                        buffer_cells(*old(buf)),
                        frags,
                        area.x as int,
                        area.y as int,
                        area.width as int,
                        area.height as int,
                        buffer_area(*old(buf)),
                        frags.len() as int,
                        p,
                    )
            }),
    {
        if area.width < 1 || area.height < 1 || self.history.len() == 0 {
            state.max_entries = 0;
            return ;
        }
        let height: usize = area.height as usize;
        let length = self.history.len();
        let (start, end) = get_items_bounds(state.selected, state.offset, height, length);
        state.offset = start;
        state.max_entries = end - start;
        let count: usize = if end <= length {
            end - start
        } else {
            length - start
        };
        let avail: usize = area.width as usize;
        let widths = compute_widths(self.columns, avail);
        let mode = if self.alternate_highlight {
            SelectionMode::Reversal
        } else {
            SelectionMode::Background
        };
        let frags = render_frags(
            self.history,
            start,
            count,
            self.columns,
            &widths,
            avail,
            height,
            self.inverted,
            self.now_ns,
            highlights,
            self.theme,
            state.selected,
            mode,
        );
        let barea = buf_area(buf);
        let ghost bq = buffer_area(*buf);
        let ghost cells0 = buffer_cells(*buf);
        let ghost fv = crate::render::frags_view(frags@);
        let mut k: usize = 0;
        while k < frags.len()
            invariant
                k <= frags@.len(),
                avail == area.width as int,
                height == area.height as int,
                fv == crate::render::frags_view(frags@),
                buffer_area(*buf) == bq,
                (barea.x as int, barea.y as int, barea.width as int, barea.height as int) == bq,
                forall|p: (int, int)|
                    !(area.x <= p.0 < area.x + area.width && area.y <= p.1 < area.y
                        + area.height) ==> buffer_cells(*buf)[p] == cells0[p],
                all_ascii(fv) ==> forall|p: (int, int)|
                    buffer_cells(*buf)[p] == blit_cell(
                        cells0,
                        fv,
                        area.x as int,
                        area.y as int,
                        avail as int,
                        height as int,
                        bq,
                        k as int,
                        p,
                    ),
            decreases frags@.len() - k,
        {
            let f = &frags[k];
            let ghost fk = fv[k as int];
            proof {
                assert(fk == (f.x as int, f.y as int, f.text@, f.style));
            }
            let ghost pre = buffer_cells(*buf);
            let mut drawn: bool = false;
            if f.x < avail && f.y < height {
                let cx32: u32 = area.x as u32 + f.x as u32;
                let cy32: u32 = area.y as u32 + f.y as u32;
                let bright: u32 = barea.x as u32 + barea.width as u32;
                let bbot: u32 = barea.y as u32 + barea.height as u32;
                if cx32 <= 65535 && cy32 <= 65535 && cx32 >= barea.x as u32 && cy32 >= barea.y
                    as u32 && cy32 < bbot && bbot <= 65535 && bright <= 65535 {
                    let maxw: u16 = (avail - f.x) as u16;
                    draw_frag(buf, cx32 as u16, cy32 as u16, &f.text, maxw, f.style);
                    drawn = true;
                }
            }
            proof {
                let ax = area.x as int;
                let ay = area.y as int;
                let cxi = ax + fk.0;
                let cyi = ay + fk.1;
                if drawn {
                    assert(frag_drawn(fk, ax, ay, avail as int, height as int, bq));
                    assert forall|p: (int, int)|
                        !(area.x <= p.0 < area.x + area.width && area.y <= p.1 < area.y
                            + area.height) implies buffer_cells(*buf)[p] == cells0[p] by {
                        assert(p.1 != cyi || p.0 < cxi || p.0 >= cxi + (avail - fk.0));
                    }
                    if all_ascii(fv) {
                        assert(ascii_printable(fk.2));
                        let n = cells_written(fk.2.len() as int, avail - fk.0, cxi, bq.0 + bq.2);
                        assert forall|p: (int, int)|
                            buffer_cells(*buf)[p] == blit_cell(
                                cells0,
                                fv,
                                ax,
                                ay,
                                avail as int,
                                height as int,
                                bq,
                                k + 1,
                                p,
                            ) by {
                            if p.1 == cyi && cxi <= p.0 < cxi + n {
                                let i = p.0 - cxi;
                                assert(buffer_cells(*buf)[(cxi + i, cyi)] == (
                                    seq![fk.2[i]],
                                    style_patch(pre[(cxi + i, cyi)].1, fk.3),
                                ));
                                assert(p == (cxi + i, cyi));
                            } else {
                                assert(buffer_cells(*buf)[p] == pre[p]);
                            }
                        }
                    }
                } else {
                    assert(!frag_drawn(fk, ax, ay, avail as int, height as int, bq));
                    if all_ascii(fv) {
                        assert forall|p: (int, int)|
                            buffer_cells(*buf)[p] == blit_cell(
                                cells0,
                                fv,
                                ax,
                                ay,
                                avail as int,
                                height as int,
                                bq,
                                k + 1,
                                p,
                            ) by {}
                    }
                }
            }
            k += 1;
        }
    }

    /// Renders one frame into `buf` at `area` and stores the window back
    /// into the list state: queries the match engine once per visible row
    /// for the normalized command's match positions and hands them to
    /// `render_with_highlights`, which pins the written cells exactly. What
    /// the engine returns is its own; this function guarantees the state
    /// update, the area preserved, and that no cell outside `area` changes.
    pub fn render(
        &self,
        area: ratatui::layout::Rect,
        buf: &mut ratatui::buffer::Buffer,
        state: &mut ListState,
    )
        requires
            self.history@.len() > 0 ==> old(state).selected < self.history@.len(),
            self.history@.len() + area.height <= usize::MAX,
        ensures
            final(state).selected == old(state).selected,
            self.active(area) ==> {
                let (start, end) = bounds_spec(
                    old(state).selected as int,
                    old(state).offset as int,
                    area.height as int,
                    self.history@.len() as int,
                );
                &&& final(state).offset == start
                &&& final(state).max_entries == end - start
            },
            !self.active(area) ==> ({
                &&& final(state).offset == old(state).offset
                &&& final(state).max_entries == 0
                &&& *final(buf) == *old(buf)
            }),
            buffer_area(*final(buf)) == buffer_area(*old(buf)),
            forall|p: (int, int)|
                !(area.x <= p.0 < area.x + area.width && area.y <= p.1 < area.y + area.height)
                    ==> buffer_cells(*final(buf))[p] == buffer_cells(*old(buf))[p],
    {
        if area.width < 1 || area.height < 1 || self.history.len() == 0 {
            let empty: Vec<Vec<usize>> = Vec::new();
            self.render_with_highlights(area, buf, state, &empty);
            return ;
        }
        let height: usize = area.height as usize;
        let length = self.history.len();
        let (start, end) = get_items_bounds(state.selected, state.offset, height, length);
        let count: usize = if end <= length {
            end - start
        } else {
            length - start
        };
        let mut highlights: Vec<Vec<usize>> = Vec::new();
        let mut r: usize = 0;
        while r < count
            invariant
                r <= count,
                start + count <= self.history@.len(),
                self.history@.len() <= usize::MAX,
                highlights@.len() == r,
            decreases count - r,
        {
            let item = &self.history[start + r];
            let cmd = to_chars(item.command.as_str());
            let escaped = escape_control(&cmd);
            let words = split_words(&escaped);
            let joined = join_words(&words);
            let normalized = chars_to_string(&joined);
            highlights.push(self.history_highlighter.get_highlight_indices(normalized.as_str()));
            r += 1;
        }
        self.render_with_highlights(area, buf, state, &highlights);
    }
}

} // verus!

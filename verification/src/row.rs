//! Row rendering: one history item becomes an ordered list of styled text
//! pieces, one column at a time, with match highlighting inside the command
//! column and the selection overlay on every piece of the selected row.

use vstd::prelude::*;
use crate::datetime::{datetime_placeholder, datetime_rep, format_datetime, placeholder_chars};
use crate::item::{success_spec, HistoryItem};
use crate::layout::{column_width_spec, ColumnKind, ColumnSpec};
use crate::text::{
    dec_rep_signed, duration_rep, escape_control, escape_rep, format_duration, left_trunc,
    left_trunc_spec, pad_left, pad_left_spec, pad_right, pad_right_spec, push_dec, right_trunc,
    right_trunc_spec, spaces, to_chars,
};
use crate::theme::{
    overlay, overlay_spec, plain_style, selection_style_spec, SelectionMode, Style, Theme,
};
use crate::words::{
    host_part, join_rep, lemma_join_len, lemma_word_start_mono, split_host_user, split_words,
    user_part, word_start, words_spec, words_view,
};

verus! {

broadcast use vstd::seq_lib::group_seq_properties;

/// One styled run of text within a row, before clipping.
pub struct Piece {
    pub text: Vec<char>,
    pub style: Style,
}

/// The view of a piece list: text and style of each piece.
pub open spec fn pieces_view(ps: Seq<Piece>) -> Seq<(Seq<char>, Style)> {
    ps.map_values(|p: Piece| (p.text@, p.style))
}

proof fn lemma_pieces_view_push(ps: Seq<Piece>, p: Piece)
    ensures
        pieces_view(ps.push(p)) == pieces_view(ps).push((p.text@, p.style)),
{
    assert(pieces_view(ps.push(p)) =~= pieces_view(ps).push((p.text@, p.style)));
}

/// Clamps a mathematical integer into the range of a duration in nanoseconds.
pub open spec fn clamp_u64(n: int) -> int {
    if n < 0 {
        0
    } else if n > u64::MAX {
        u64::MAX as int
    } else {
        n
    }
}

/// The duration column text: the item's run time, right-aligned.
pub open spec fn duration_text_spec(duration: int, width: int) -> Seq<char> {
    pad_left_spec(duration_rep(clamp_u64(duration)), width)
}

pub open spec fn ago_suffix() -> Seq<char> {
    seq![' ', 'a', 'g', 'o']
}

/// The time column text: how long ago the item ran, right-aligned; a
/// timestamp in the future counts as zero elapsed time.
pub open spec fn time_text_spec(now_ns: int, ts_ns: int, width: int) -> Seq<char> {
    pad_left_spec(duration_rep(clamp_u64(now_ns - ts_ns)) + ago_suffix(), width)
}

/// The datetime column text: the formatted timestamp, or the placeholder on
/// formatting failure, left-aligned.
pub open spec fn datetime_text_spec(ts_ns: int, width: int) -> Seq<char> {
    match datetime_rep(ts_ns) {
        Some(s) => pad_right_spec(s, width),
        None => pad_right_spec(datetime_placeholder(), width),
    }
}

/// The exit column text: the exit status, right-aligned.
pub open spec fn exit_text_spec(exit: int, width: int) -> Seq<char> {
    pad_left_spec(dec_rep_signed(exit), width)
}

/// The style of a status-colored column: one alert tone for success, the
/// other for failure.
pub open spec fn status_style_spec(theme: Theme, ok: bool) -> Style {
    if ok {
        theme.alert_info
    } else {
        theme.alert_error
    }
}

/// The text of every column but the command one.
pub open spec fn column_text_spec(kind: ColumnKind, width: int, h: HistoryItem, now_ns: int) -> Seq<
    char,
> {
    match kind {
        ColumnKind::Duration => duration_text_spec(h.duration as int, width),
        ColumnKind::Time => time_text_spec(now_ns, h.timestamp as int, width),
        ColumnKind::Datetime => datetime_text_spec(h.timestamp as int, width),
        ColumnKind::Directory => left_trunc_spec(h.cwd@, width),
        ColumnKind::Host => right_trunc_spec(host_part(h.hostname@), width),
        ColumnKind::User => right_trunc_spec(user_part(h.hostname@), width),
        ColumnKind::Exit => exit_text_spec(h.exit as int, width),
        ColumnKind::Command => Seq::<char>::empty(),
    }
}

/// The style of every column but the command one.
pub open spec fn column_style_spec(kind: ColumnKind, h: HistoryItem, theme: Theme) -> Style {
    match kind {
        ColumnKind::Duration => status_style_spec(theme, success_spec(h)),
        ColumnKind::Time => theme.guidance,
        ColumnKind::Datetime => theme.guidance,
        ColumnKind::Directory => theme.annotation,
        ColumnKind::Host => theme.annotation,
        ColumnKind::User => theme.annotation,
        ColumnKind::Exit => status_style_spec(theme, success_spec(h)),
        ColumnKind::Command => theme.base,
    }
}

/// Whether a normalized position is among the match positions.
pub open spec fn hl_contains(hs: Seq<usize>, pos: int) -> bool {
    0 <= pos <= usize::MAX && hs.contains(pos as usize)
}

/// The style of one command character: matched characters are bold, and on a
/// selected row under the background overlay they are recolored to an alert
/// tone so the emphasis stays visible.
pub open spec fn cmd_char_style_spec(
    theme: Theme,
    sel: bool,
    mode: SelectionMode,
    hl: bool,
) -> Style {
    if hl {
        if sel && mode == SelectionMode::Background {
            Style { bold: true, ..theme.alert_warn }
        } else {
            Style { bold: true, ..theme.base }
        }
    } else {
        theme.base
    }
}

/// The pieces of one command word: one piece per character, so each can carry
/// its own emphasis; character `j` of the word sits at normalized position
/// `start + j`.
pub open spec fn word_pieces_spec(
    w: Seq<char>,
    start: int,
    hs: Seq<usize>,
    theme: Theme,
    sel: bool,
    mode: SelectionMode,
) -> Seq<(Seq<char>, Style)> {
    Seq::new(
        w.len(),
        |j: int|
            (
                seq![w[j]],
                overlay_spec(
                    cmd_char_style_spec(theme, sel, mode, hl_contains(hs, start + j)),
                    sel,
                    mode,
                    theme,
                ),
            ),
    )
}

/// The separator drawn between command words.
pub open spec fn cmd_sep_piece_spec(theme: Theme, sel: bool, mode: SelectionMode) -> (
    Seq<char>,
    Style,
) {
    (seq![' '], overlay_spec(theme.base, sel, mode, theme))
}

/// The pieces of the first `t` command words, separators included.
pub open spec fn command_pieces_upto(
    ws: Seq<Seq<char>>,
    hs: Seq<usize>,
    theme: Theme,
    sel: bool,
    mode: SelectionMode,
    t: int,
) -> Seq<(Seq<char>, Style)>
    decreases t,
{
    if t <= 0 {
        Seq::<(Seq<char>, Style)>::empty()
    } else {
        command_pieces_upto(ws, hs, theme, sel, mode, t - 1) + (if t - 1 > 0 {
            seq![cmd_sep_piece_spec(theme, sel, mode)]
        } else {
            Seq::<(Seq<char>, Style)>::empty()
        }) + word_pieces_spec(ws[t - 1], word_start(ws, t - 1), hs, theme, sel, mode)
    }
}

/// The pieces of the command column.
pub open spec fn command_pieces_spec(
    ws: Seq<Seq<char>>,
    hs: Seq<usize>,
    theme: Theme,
    sel: bool,
    mode: SelectionMode,
) -> Seq<(Seq<char>, Style)> {
    command_pieces_upto(ws, hs, theme, sel, mode, ws.len() as int)
}

/// Looks a position up among the match positions.
pub fn contains_pos(v: &Vec<usize>, x: usize) -> (b: bool)
    ensures
        b == v@.contains(x),
{
    let mut i: usize = 0;
    while i < v.len()
        invariant
            i <= v@.len(),
            forall|k: int| 0 <= k < i ==> v@[k] != x,
        decreases v@.len() - i,
    {
        if v[i] == x {
            assert(v@[i as int] == x);
            return true;
        }
        i += 1;
    }
    false
}

/// The style one command character is drawn with.
pub fn cmd_char_style(theme: &Theme, sel: bool, mode: SelectionMode, hl: bool) -> (r: Style)
    ensures
        r == cmd_char_style_spec(*theme, sel, mode, hl),
{
    if hl {
        if sel && matches!(mode, SelectionMode::Background) {
            Style { bold: true, ..theme.alert_warn }
        } else {
            Style { bold: true, ..theme.base }
        }
    } else {
        theme.base
    }
}

/// Appends the pieces of the command column: words separated by single
/// spaces, each character styled by whether its normalized position is a
/// match position.
pub fn command_pieces(
    words: &Vec<Vec<char>>,
    highlights: &Vec<usize>,
    theme: &Theme,
    sel: bool,
    mode: SelectionMode,
    out: &mut Vec<Piece>,
)
    requires
        join_rep(words_view(words@)).len() <= usize::MAX,
    ensures
        pieces_view(final(out)@) == pieces_view(old(out)@) + command_pieces_spec(
            words_view(words@),
            highlights@,
            *theme,
            sel,
            mode,
        ),
{
    let ghost ws = words_view(words@);
    let ghost n = words@.len() as int;
    let mut pos: usize = 0;
    let mut t: usize = 0;
    while t < words.len()
        invariant
            t <= n,
            n == words@.len(),
            ws == words_view(words@),
            join_rep(ws).len() <= usize::MAX,
            pos as int == if t < n || n == 0 {
                word_start(ws, t as int)
            } else {
                word_start(ws, n) - 1
            },
            pieces_view(out@) == pieces_view(old(out)@) + command_pieces_upto(
                ws,
                highlights@,
                *theme,
                sel,
                mode,
                t as int,
            ),
        decreases n - t,
    {
        proof {
            lemma_join_len(ws);
            lemma_word_start_mono(ws, t + 1, n);
        }
        if t > 0 {
            let mut sep: Vec<char> = Vec::new();
            sep.push(' ');
            let p = Piece { text: sep, style: overlay(theme.base, sel, mode, theme) };
            proof {
                lemma_pieces_view_push(out@, p);
            }
            out.push(p);
        }
        let ghost base_pieces = pieces_view(out@);
        let ghost wp = word_pieces_spec(ws[t as int], word_start(ws, t as int), highlights@, *theme, sel, mode);
        let word = &words[t];
        let mut j: usize = 0;
        while j < word.len()
            invariant
                j <= word@.len(),
                t < n,
                n == words@.len(),
                ws == words_view(words@),
                word == &words@[t as int],
                join_rep(ws).len() <= usize::MAX,
                word_start(ws, t + 1) == word_start(ws, t as int) + word@.len() + 1,
                word_start(ws, t + 1) + (n - (t + 1)) <= word_start(ws, n),
                join_rep(ws).len() == word_start(ws, n) - 1,
                pos as int == word_start(ws, t as int) + j,
                wp == word_pieces_spec(ws[t as int], word_start(ws, t as int), highlights@, *theme, sel, mode),
                base_pieces == pieces_view(out@).take(base_pieces.len() as int),
                pieces_view(out@) == base_pieces + wp.take(j as int),
            decreases word@.len() - j,
        {
            let hl = contains_pos(highlights, pos);
            let st = cmd_char_style(theme, sel, mode, hl);
            let mut txt: Vec<char> = Vec::new();
            txt.push(word[j]);
            let p = Piece { text: txt, style: overlay(st, sel, mode, theme) };
            proof {
                lemma_pieces_view_push(out@, p);
                assert(hl == hl_contains(highlights@, word_start(ws, t as int) + j));
                assert(wp.take(j + 1) =~= wp.take(j as int).push(wp[j as int]));
                assert((base_pieces + wp.take(j as int)).push(wp[j as int]) =~= base_pieces
                    + wp.take(j + 1));
            }
            out.push(p);
            pos += 1;
            j += 1;
        }
        proof {
            assert(wp.take(word@.len() as int) =~= wp);
            assert(pieces_view(out@) =~= pieces_view(old(out)@) + command_pieces_upto(
                ws,
                highlights@,
                *theme,
                sel,
                mode,
                t + 1,
            ));
        }
        if t + 1 < words.len() {
            pos += 1;
        }
        t += 1;
    }
    proof {
        assert(pieces_view(out@) =~= pieces_view(old(out)@) + command_pieces_spec(
            ws,
            highlights@,
            *theme,
            sel,
            mode,
        ));
    }
}

/// The text of one non-command column for one item.
pub fn column_text(kind: ColumnKind, width: usize, item: &HistoryItem, now_ns: i128) -> (r: Vec<
    char,
>)
    requires
        !(kind == ColumnKind::Command),
    ensures
        r@ == column_text_spec(kind, width as int, *item, now_ns as int),
{
    match kind {
        ColumnKind::Duration => {
            let ns: u64 = if item.duration < 0 {
                0
            } else {
                item.duration as u64
            };
            let text = format_duration(ns);
            pad_left(&text, width)
        },
        ColumnKind::Time => {
            let elapsed: u64 = match now_ns.checked_sub(item.timestamp) {
                Some(d) => {
                    if d <= 0 {
                        0
                    } else if d > u64::MAX as i128 {
                        u64::MAX
                    } else {
                        d as u64
                    }
                },
                None => {
                    if now_ns >= 0 {
                        u64::MAX
                    } else {
                        0
                    }
                },
            };
            let mut text = format_duration(elapsed);
            text.push(' ');
            text.push('a');
            text.push('g');
            text.push('o');
            assert(text@ =~= duration_rep(clamp_u64(now_ns - item.timestamp)) + ago_suffix());
            pad_left(&text, width)
        },
        ColumnKind::Datetime => {
            let text = match format_datetime(item.timestamp) {
                Some(t) => t,
                None => placeholder_chars(),
            };
            pad_right(&text, width)
        },
        ColumnKind::Directory => {
            let cwd = to_chars(item.cwd.as_str());
            left_trunc(&cwd, width)
        },
        ColumnKind::Host => {
            let hn = to_chars(item.hostname.as_str());
            let (host, _user) = split_host_user(&hn);
            right_trunc(&host, width)
        },
        ColumnKind::User => {
            let hn = to_chars(item.hostname.as_str());
            let (_host, user) = split_host_user(&hn);
            right_trunc(&user, width)
        },
        ColumnKind::Exit => {
            let mut text: Vec<char> = Vec::new();
            if item.exit < 0 {
                text.push('-');
                let mag: u64 = if item.exit == i64::MIN {
                    0x8000_0000_0000_0000u64
                } else {
                    (-item.exit) as u64
                };
                push_dec(mag, &mut text);
                assert(text@ =~= dec_rep_signed(item.exit as int));
            } else {
                push_dec(item.exit as u64, &mut text);
            }
            pad_left(&text, width)
        },
        ColumnKind::Command => {
            // unreachable under the precondition; the command column has its
            // own piece builder
            Vec::new()
        },
    }
}

/// The pieces of one column: one padded text piece for the simple columns,
/// the word walk for the command column. The selection overlay is applied to
/// every piece.
pub open spec fn column_pieces_spec(
    c: ColumnSpec,
    width: int,
    h: HistoryItem,
    now_ns: int,
    hs: Seq<usize>,
    theme: Theme,
    sel: bool,
    mode: SelectionMode,
) -> Seq<(Seq<char>, Style)> {
    if c.kind == ColumnKind::Command {
        command_pieces_spec(words_spec(escape_rep(h.command@)), hs, theme, sel, mode)
    } else {
        seq![
            (
                column_text_spec(c.kind, width, h, now_ns),
                overlay_spec(column_style_spec(c.kind, h, theme), sel, mode, theme),
            ),
        ]
    }
}

/// The separator drawn before every column after the first, and the left
/// padding cell of every row.
pub open spec fn layout_sep_piece_spec(theme: Theme, sel: bool, mode: SelectionMode) -> (
    Seq<char>,
    Style,
) {
    (seq![' '], overlay_spec(plain_style(), sel, mode, theme))
}

/// The pieces of the first `i` columns of one row, beginning with the left
/// padding cell.
pub open spec fn row_pieces_upto(
    cols: Seq<ColumnSpec>,
    avail: int,
    h: HistoryItem,
    now_ns: int,
    hs: Seq<usize>,
    theme: Theme,
    sel: bool,
    mode: SelectionMode,
    i: int,
) -> Seq<(Seq<char>, Style)>
    decreases i,
{
    if i <= 0 {
        seq![layout_sep_piece_spec(theme, sel, mode)]
    } else {
        row_pieces_upto(cols, avail, h, now_ns, hs, theme, sel, mode, i - 1) + (if i - 1 > 0 {
            seq![layout_sep_piece_spec(theme, sel, mode)]
        } else {
            Seq::<(Seq<char>, Style)>::empty()
        }) + column_pieces_spec(
            cols[i - 1],
            column_width_spec(cols, avail, i - 1),
            h,
            now_ns,
            hs,
            theme,
            sel,
            mode,
        )
    }
}

/// Whether the selected row gets a trailing background fill: only under the
/// background overlay, and only when the theme has a selection background.
pub open spec fn has_row_fill(sel: bool, mode: SelectionMode, theme: Theme) -> bool {
    sel && mode == SelectionMode::Background && theme.selection.bg is Some
}

/// All pieces of one row: the left padding, every column in order with one
/// separator cell before each column after the first, and, on the selected
/// row, a run of background-colored spaces that the clipping stage cuts to
/// the unused tail of the row.
pub open spec fn row_pieces_spec(
    cols: Seq<ColumnSpec>,
    avail: int,
    h: HistoryItem,
    now_ns: int,
    hs: Seq<usize>,
    theme: Theme,
    sel: bool,
    mode: SelectionMode,
) -> Seq<(Seq<char>, Style)> {
    row_pieces_upto(cols, avail, h, now_ns, hs, theme, sel, mode, cols.len() as int) + (if has_row_fill(
        sel,
        mode,
        theme,
    ) {
        seq![(spaces(avail), selection_style_spec(theme))]
    } else {
        Seq::<(Seq<char>, Style)>::empty()
    })
}

/// Builds all pieces of one row.
pub fn row_pieces(
    cols: &Vec<ColumnSpec>,
    widths: &Vec<usize>,
    avail: usize,
    item: &HistoryItem,
    now_ns: i128,
    highlights: &Vec<usize>,
    theme: &Theme,
    sel: bool,
    mode: SelectionMode,
) -> (r: Vec<Piece>)
    requires
        widths@.len() == cols@.len(),
        forall|i: int|
            0 <= i < cols@.len() ==> widths@[i] as int == column_width_spec(cols@, avail as int, i),
    ensures
        pieces_view(r@) == row_pieces_spec(
            cols@,
            avail as int,
            *item,
            now_ns as int,
            highlights@,
            *theme,
            sel,
            mode,
        ),
{
    let mut out: Vec<Piece> = Vec::new();
    let mut pad: Vec<char> = Vec::new();
    pad.push(' ');
    let pad_piece = Piece { text: pad, style: overlay(Style::plain(), sel, mode, theme) };
    proof {
        lemma_pieces_view_push(out@, pad_piece);
    }
    out.push(pad_piece);
    proof {
        assert(pieces_view(out@) =~= row_pieces_upto(
            cols@,
            avail as int,
            *item,
            now_ns as int,
            highlights@,
            *theme,
            sel,
            mode,
            0,
        ));
    }
    let mut i: usize = 0;
    while i < cols.len()
        invariant
            i <= cols@.len(),
            widths@.len() == cols@.len(),
            forall|k: int|
                0 <= k < cols@.len() ==> widths@[k] as int == column_width_spec(
                    cols@,
                    avail as int,
                    k,
                ),
            pieces_view(out@) == row_pieces_upto(
                cols@,
                avail as int,
                *item,
                now_ns as int,
                highlights@,
                *theme,
                sel,
                mode,
                i as int,
            ),
        decreases cols@.len() - i,
    {
        if i > 0 {
            let mut sep: Vec<char> = Vec::new();
            sep.push(' ');
            let p = Piece { text: sep, style: overlay(Style::plain(), sel, mode, theme) };
            proof {
                lemma_pieces_view_push(out@, p);
            }
            out.push(p);
        }
        let c = cols[i];
        let width = widths[i];
        if matches!(c.kind, ColumnKind::Command) {
            let cmd = to_chars(item.command.as_str());
            let escaped = escape_control(&cmd);
            let words = split_words(&escaped);
            let esc_len = escaped.len();
            proof {
                crate::words::lemma_normalized_no_longer(escaped@);
                assert(join_rep(words_view(words@)).len() <= esc_len);
            }
            command_pieces(&words, highlights, theme, sel, mode, &mut out);
        } else {
            let text = column_text(c.kind, width, item, now_ns);
            let style = match c.kind {
                ColumnKind::Duration => {
                    if item.success() {
                        theme.alert_info
                    } else {
                        theme.alert_error
                    }
                },
                ColumnKind::Time => theme.guidance,
                ColumnKind::Datetime => theme.guidance,
                ColumnKind::Directory => theme.annotation,
                ColumnKind::Host => theme.annotation,
                ColumnKind::User => theme.annotation,
                ColumnKind::Exit => {
                    if item.success() {
                        theme.alert_info
                    } else {
                        theme.alert_error
                    }
                },
                ColumnKind::Command => theme.base,
            };
            let p = Piece { text, style: overlay(style, sel, mode, theme) };
            proof {
                lemma_pieces_view_push(out@, p);
            }
            out.push(p);
        }
        proof {
            assert(pieces_view(out@) =~= row_pieces_upto(
                cols@,
                avail as int,
                *item,
                now_ns as int,
                highlights@,
                *theme,
                sel,
                mode,
                i + 1,
            ));
        }
        i += 1;
    }
    if sel && matches!(mode, SelectionMode::Background) && theme.selection.bg.is_some() {
        let mut fill: Vec<char> = Vec::new();
        crate::text::push_spaces(&mut fill, avail);
        let p = Piece { text: fill, style: crate::theme::get_selection_style(theme) };
        proof {
            lemma_pieces_view_push(out@, p);
        }
        out.push(p);
    }
    proof {
        assert(pieces_view(out@) =~= row_pieces_spec(
            cols@,
            avail as int,
            *item,
            now_ns as int,
            highlights@,
            *theme,
            sel,
            mode,
        ));
    }
    out
}

/// Earlier command pieces keep their place: the pieces of the first `t1`
/// words are a prefix of the pieces of the first `t2`.
proof fn lemma_cmd_upto_prefix(
    ws: Seq<Seq<char>>,
    hs: Seq<usize>,
    theme: Theme,
    sel: bool,
    mode: SelectionMode,
    t1: int,
    t2: int,
)
    requires
        0 <= t1 <= t2 <= ws.len(),
    ensures
        command_pieces_upto(ws, hs, theme, sel, mode, t1).len() <= command_pieces_upto(
            ws,
            hs,
            theme,
            sel,
            mode,
            t2,
        ).len(),
        forall|k: int|
            0 <= k < command_pieces_upto(ws, hs, theme, sel, mode, t1).len()
                ==> command_pieces_upto(ws, hs, theme, sel, mode, t2)[k] == command_pieces_upto(
                ws,
                hs,
                theme,
                sel,
                mode,
                t1,
            )[k],
    decreases t2 - t1,
{
    if t1 < t2 {
        lemma_cmd_upto_prefix(ws, hs, theme, sel, mode, t1, t2 - 1);
    }
}

/// The selection overlay never touches emphasis.
proof fn lemma_overlay_keeps_bold(st: Style, sel: bool, mode: SelectionMode, theme: Theme)
    ensures
        overlay_spec(st, sel, mode, theme).bold == st.bold,
{
}

/// For a base style without emphasis, exactly the characters at match
/// positions are emphasized and no others: the piece of character `j` of
/// word `t` is bold if and only if the normalized position
/// `word_start(ws, t) + j` is a match position — and the normalized text
/// carries this very character at that position, so the emphasis lands where
/// the match engine pointed.
pub proof fn lemma_highlight_exact(
    ws: Seq<Seq<char>>,
    hs: Seq<usize>,
    theme: Theme,
    sel: bool,
    mode: SelectionMode,
    t: int,
    j: int,
)
    requires
        theme.base.bold == false,
        0 <= t < ws.len(),
        0 <= j < ws[t].len(),
    ensures
        ({
            let ps = command_pieces_spec(ws, hs, theme, sel, mode);
            let idx = command_pieces_upto(ws, hs, theme, sel, mode, t).len() + (if t > 0 {
                1int
            } else {
                0int
            }) + j;
            let pos = word_start(ws, t) + j;
            &&& 0 <= idx < ps.len()
            &&& ps[idx].0 == seq![ws[t][j]]
            &&& ps[idx].1.bold == hl_contains(hs, pos)
            &&& join_rep(ws)[pos] == ws[t][j]
        }),
{
    lemma_cmd_upto_prefix(ws, hs, theme, sel, mode, t + 1, ws.len() as int);
    crate::words::lemma_join_index(ws, t, j);
    let wp = word_pieces_spec(ws[t], word_start(ws, t), hs, theme, sel, mode);
    let idx = command_pieces_upto(ws, hs, theme, sel, mode, t).len() + (if t > 0 {
        1int
    } else {
        0int
    }) + j;
    assert(command_pieces_upto(ws, hs, theme, sel, mode, t + 1)[idx] == wp[j]);
    lemma_overlay_keeps_bold(
        cmd_char_style_spec(theme, sel, mode, hl_contains(hs, word_start(ws, t) + j)),
        sel,
        mode,
        theme,
    );
}

} // verus!

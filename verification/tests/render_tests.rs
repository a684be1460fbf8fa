use history_list::item::HistoryItem;
use history_list::layout::{compute_widths, ColumnKind, ColumnSpec};
use history_list::list::{HistoryHighlighter, HistoryList, SearchEngine};
use history_list::row::{column_text, row_pieces};
use history_list::scroll::ListState;
use history_list::theme::{SelectionMode, Style, Theme, ThemeColor};
use ratatui::buffer::Buffer;
use ratatui::layout::Rect;

fn string(v: &[char]) -> String {
    v.iter().collect()
}

fn plain() -> Style {
    Style { fg: None, bg: None, bold: false, reversed: false }
}

fn theme() -> Theme {
    Theme {
        base: plain(),
        guidance: Style { fg: Some(ThemeColor::Rgb(100, 100, 100)), ..plain() },
        annotation: Style { fg: Some(ThemeColor::Rgb(120, 120, 120)), ..plain() },
        alert_info: Style { fg: Some(ThemeColor::Rgb(0, 200, 0)), ..plain() },
        alert_warn: Style { fg: Some(ThemeColor::Rgb(220, 180, 0)), ..plain() },
        alert_error: Style { fg: Some(ThemeColor::Rgb(220, 0, 0)), ..plain() },
        selection: Style { bg: Some(ThemeColor::Rgb(0x31, 0x32, 0x44)), ..plain() },
    }
}

fn item(command: &str) -> HistoryItem {
    HistoryItem {
        command: command.to_string(),
        duration: 65_000_000_000,
        exit: 0,
        timestamp: 1_609_459_200_000_000_000,
        cwd: "/home/alice/src".to_string(),
        hostname: "box:alice".to_string(),
    }
}

struct PrefixEngine;

impl SearchEngine for PrefixEngine {
    fn get_highlight_indices(&self, command: &str, query: &str) -> Vec<usize> {
        if query.is_empty() || !command.starts_with(query) {
            Vec::new()
        } else {
            (0..query.chars().count()).collect()
        }
    }
}

#[test]
fn datetime_column_formats_utc_calendar_minutes() {
    // 2021-01-01 00:00:00 UTC
    let text = column_text(ColumnKind::Datetime, 16, &item("x"), 0);
    assert_eq!(string(&text), "2021-01-01 00:00");
}

#[test]
fn datetime_epoch_start() {
    let mut h = item("x");
    h.timestamp = 0;
    let text = column_text(ColumnKind::Datetime, 16, &h, 0);
    assert_eq!(string(&text), "1970-01-01 00:00");
}

#[test]
fn datetime_failure_renders_placeholder_of_same_width() {
    let mut h = item("x");
    h.timestamp = -1;
    let text = column_text(ColumnKind::Datetime, 16, &h, 0);
    assert_eq!(string(&text), "????-??-?? ??:??");
}

#[test]
fn datetime_late_twentieth_century_date() {
    let mut h = item("x");
    // 1999-12-31 23:59:59 UTC
    h.timestamp = 946_684_799_000_000_000;
    let text = column_text(ColumnKind::Datetime, 16, &h, 0);
    assert_eq!(string(&text), "1999-12-31 23:59");
}

#[test]
fn time_column_clamps_future_timestamps_to_zero() {
    let h = item("x");
    // clock reads one minute before the item's timestamp
    let now = h.timestamp - 60_000_000_000;
    let text = column_text(ColumnKind::Time, 10, &h, now);
    assert_eq!(string(&text), "   0ns ago");
}

#[test]
fn time_column_formats_elapsed_time() {
    let h = item("x");
    let now = h.timestamp + 59_000_000_000;
    let text = column_text(ColumnKind::Time, 10, &h, now);
    assert_eq!(string(&text), "   59s ago");
}

#[test]
fn duration_column_clamps_unknown_durations() {
    let mut h = item("x");
    h.duration = -1;
    let text = column_text(ColumnKind::Duration, 6, &h, 0);
    assert_eq!(string(&text), "   0ns");
}

#[test]
fn exit_column_renders_signed_status() {
    let mut h = item("x");
    h.exit = -127;
    let text = column_text(ColumnKind::Exit, 5, &h, 0);
    assert_eq!(string(&text), " -127");
    h.exit = 0;
    let text = column_text(ColumnKind::Exit, 3, &h, 0);
    assert_eq!(string(&text), "  0");
}

#[test]
fn host_and_user_columns_read_the_compound_identifier() {
    let h = item("x");
    assert_eq!(string(&column_text(ColumnKind::Host, 5, &h, 0)), "box  ");
    assert_eq!(string(&column_text(ColumnKind::User, 6, &h, 0)), "alice ");
}

#[test]
fn exactly_the_matched_positions_are_emphasized() {
    let cols = vec![ColumnSpec { kind: ColumnKind::Command, fixed_width: 0, expand: true }];
    let widths = compute_widths(&cols, 40);
    let th = theme();
    // normalized command "foo bar": positions 0 and 4 are the word heads
    let highlights: Vec<usize> = vec![0, 4];
    let pieces = row_pieces(
        &cols,
        &widths,
        40,
        &item("foo bar"),
        0,
        &highlights,
        &th,
        false,
        SelectionMode::Background,
    );
    // piece 0 is the row padding; then f o o, separator, b a r
    let texts: Vec<String> = pieces.iter().map(|p| string(&p.text)).collect();
    assert_eq!(texts, vec![" ", "f", "o", "o", " ", "b", "a", "r"]);
    let bold: Vec<bool> = pieces.iter().map(|p| p.style.bold).collect();
    assert_eq!(bold, vec![false, true, false, false, false, true, false, false]);
}

#[test]
fn selected_row_recolors_emphasis_and_paints_background() {
    let cols = vec![ColumnSpec { kind: ColumnKind::Command, fixed_width: 0, expand: true }];
    let widths = compute_widths(&cols, 20);
    let th = theme();
    let highlights: Vec<usize> = vec![0];
    let pieces = row_pieces(
        &cols,
        &widths,
        20,
        &item("ls"),
        0,
        &highlights,
        &th,
        true,
        SelectionMode::Background,
    );
    // every piece of the selected row carries the selection background
    for p in &pieces {
        assert_eq!(p.style.bg, th.selection.bg);
    }
    // the emphasized character is recolored to the alert tone and stays bold
    assert!(pieces[1].style.bold);
    assert_eq!(pieces[1].style.fg, th.alert_warn.fg);
    // the trailing fill is the last piece, wide enough to pad the row
    assert_eq!(pieces.last().unwrap().text.len(), 20);
}

#[test]
fn reversal_mode_reverses_instead_of_painting() {
    let cols = vec![ColumnSpec { kind: ColumnKind::Command, fixed_width: 0, expand: true }];
    let widths = compute_widths(&cols, 20);
    let th = theme();
    let highlights: Vec<usize> = Vec::new();
    let pieces = row_pieces(
        &cols,
        &widths,
        20,
        &item("ls"),
        0,
        &highlights,
        &th,
        true,
        SelectionMode::Reversal,
    );
    for p in &pieces {
        assert!(p.style.reversed);
        assert_eq!(p.style.bg, None);
    }
}

fn columns() -> Vec<ColumnSpec> {
    vec![
        ColumnSpec { kind: ColumnKind::Duration, fixed_width: 5, expand: false },
        ColumnSpec { kind: ColumnKind::Time, fixed_width: 10, expand: false },
        ColumnSpec { kind: ColumnKind::Command, fixed_width: 0, expand: true },
    ]
}

fn row_text(buf: &Buffer, y: u16) -> String {
    let mut s = String::new();
    for x in 0..buf.area.width {
        s.push_str(buf.cell((x, y)).unwrap().symbol());
    }
    s
}

#[test]
fn render_writes_rows_bottom_up_and_updates_state() {
    let history = vec![item("first command"), item("second command")];
    let th = theme();
    let cols = columns();
    let engine = PrefixEngine;
    let highlighter = HistoryHighlighter { engine: &engine, search_input: "" };
    let now = history[0].timestamp + 59_000_000_000;
    let list = HistoryList::new(&history, false, false, now, &th, highlighter, &cols);
    let area = Rect::new(0, 0, 40, 5);
    let mut buf = Buffer::empty(area);
    let mut state = ListState::default();
    list.render(area, &mut buf, &mut state);
    assert_eq!(state.max_entries(), 5);
    assert_eq!(state.selected(), 0);
    // logical row 0 (the first item) is drawn at the bottom line
    assert_eq!(row_text(&buf, 4), "    1m    59s ago first command         ");
    assert_eq!(row_text(&buf, 3), "    1m    59s ago second command        ");
    assert_eq!(row_text(&buf, 2), "                                        ");
}

#[test]
fn render_inverted_writes_rows_top_down() {
    let history = vec![item("first command"), item("second command")];
    let th = theme();
    let cols = columns();
    let engine = PrefixEngine;
    let highlighter = HistoryHighlighter { engine: &engine, search_input: "" };
    let now = history[0].timestamp + 59_000_000_000;
    let list = HistoryList::new(&history, true, false, now, &th, highlighter, &cols);
    let area = Rect::new(0, 0, 40, 5);
    let mut buf = Buffer::empty(area);
    let mut state = ListState::default();
    list.render(area, &mut buf, &mut state);
    assert_eq!(row_text(&buf, 0), "    1m    59s ago first command         ");
    assert_eq!(row_text(&buf, 1), "    1m    59s ago second command        ");
}

#[test]
fn rendering_twice_with_identical_inputs_gives_identical_grids() {
    let history = vec![item("ls -la"), item("cargo build"), item("echo done")];
    let th = theme();
    let cols = columns();
    let engine = PrefixEngine;
    let now = history[0].timestamp + 120_000_000_000;
    let area = Rect::new(0, 0, 32, 4);

    let highlighter1 = HistoryHighlighter { engine: &engine, search_input: "cargo" };
    let list1 = HistoryList::new(&history, false, false, now, &th, highlighter1, &cols);
    let mut buf1 = Buffer::empty(area);
    let mut state1 = ListState::default();
    state1.select(1);
    list1.render(area, &mut buf1, &mut state1);

    let highlighter2 = HistoryHighlighter { engine: &engine, search_input: "cargo" };
    let list2 = HistoryList::new(&history, false, false, now, &th, highlighter2, &cols);
    let mut buf2 = Buffer::empty(area);
    let mut state2 = ListState::default();
    state2.select(1);
    list2.render(area, &mut buf2, &mut state2);

    assert_eq!(buf1, buf2);
    assert_eq!(state1.selected(), state2.selected());
    assert_eq!(state1.max_entries(), state2.max_entries());
}

#[test]
fn render_on_empty_list_leaves_state_untouched() {
    let history: Vec<HistoryItem> = Vec::new();
    let th = theme();
    let cols = columns();
    let engine = PrefixEngine;
    let highlighter = HistoryHighlighter { engine: &engine, search_input: "" };
    let list = HistoryList::new(&history, false, false, 0, &th, highlighter, &cols);
    let area = Rect::new(0, 0, 20, 4);
    let mut buf = Buffer::empty(area);
    let mut state = ListState::default();
    state.select(0);
    list.render(area, &mut buf, &mut state);
    assert_eq!(state.max_entries(), 0);
    assert_eq!(buf, Buffer::empty(area));
}

#[test]
fn command_beyond_row_width_is_clipped_not_wrapped() {
    let history = vec![item("a very long command line that cannot possibly fit")];
    let th = theme();
    let cols = vec![ColumnSpec { kind: ColumnKind::Command, fixed_width: 0, expand: true }];
    let engine = PrefixEngine;
    let highlighter = HistoryHighlighter { engine: &engine, search_input: "" };
    let list = HistoryList::new(&history, false, false, 0, &th, highlighter, &cols);
    let area = Rect::new(0, 0, 12, 1);
    let mut buf = Buffer::empty(area);
    let mut state = ListState::default();
    list.render(area, &mut buf, &mut state);
    assert_eq!(row_text(&buf, 0), " a very long");
}

#[test]
fn zero_width_area_renders_nothing_and_keeps_state() {
    let history = vec![item("ls")];
    let th = theme();
    let cols = columns();
    let engine = PrefixEngine;
    let highlighter = HistoryHighlighter { engine: &engine, search_input: "" };
    let list = HistoryList::new(&history, false, false, 0, &th, highlighter, &cols);
    let area = Rect::new(0, 0, 0, 4);
    let mut buf = Buffer::empty(Rect::new(0, 0, 10, 4));
    let mut state = ListState::default();
    state.select(0);
    list.render(area, &mut buf, &mut state);
    assert_eq!(state.max_entries(), 0);
    assert_eq!(buf, Buffer::empty(Rect::new(0, 0, 10, 4)));
}

#[test]
fn control_characters_render_escaped() {
    let history = vec![item("a\tb")];
    let th = theme();
    let cols = vec![ColumnSpec { kind: ColumnKind::Command, fixed_width: 0, expand: true }];
    let engine = PrefixEngine;
    let highlighter = HistoryHighlighter { engine: &engine, search_input: "" };
    let list = HistoryList::new(&history, false, false, 0, &th, highlighter, &cols);
    let area = Rect::new(0, 0, 8, 1);
    let mut buf = Buffer::empty(area);
    let mut state = ListState::default();
    list.render(area, &mut buf, &mut state);
    assert_eq!(row_text(&buf, 0), " a^Ib   ");
}

#[test]
fn multi_byte_text_counts_one_cell_per_character() {
    // each character takes one cell in the layout model
    let mut h = item("x");
    h.cwd = "/home/émile".to_string();
    let text = column_text(ColumnKind::Directory, 8, &h, 0);
    assert_eq!(string(&text), "...émile");
    assert_eq!(text.len(), 8);
}

#[test]
fn leap_day_formats_correctly() {
    let mut h = item("x");
    // 2020-02-29 12:00:00 UTC
    h.timestamp = 1_582_977_600_000_000_000;
    let text = column_text(ColumnKind::Datetime, 16, &h, 0);
    assert_eq!(string(&text), "2020-02-29 12:00");
}

#[test]
fn degenerate_render_resets_stale_row_count() {
    let history: Vec<HistoryItem> = Vec::new();
    let th = theme();
    let cols = columns();
    let engine = PrefixEngine;
    let highlighter = HistoryHighlighter { engine: &engine, search_input: "" };
    let list = HistoryList::new(&history, false, false, 0, &th, highlighter, &cols);
    let area = Rect::new(0, 0, 20, 4);
    let mut buf = Buffer::empty(area);
    // a stale window survives from an earlier frame over a longer list
    let mut state = ListState::default();
    let mut full = Vec::new();
    for _ in 0..9 {
        full.push(item("a"));
    }
    let highlighter2 = HistoryHighlighter { engine: &engine, search_input: "" };
    let list2 = HistoryList::new(&full, false, false, 0, &th, highlighter2, &cols);
    list2.render(area, &mut buf, &mut state);
    assert_eq!(state.max_entries(), 4);
    let mut buf2 = Buffer::empty(area);
    list.render(area, &mut buf2, &mut state);
    assert_eq!(state.max_entries(), 0);
}

#[test]
fn render_leaves_cells_outside_area_untouched() {
    let history = vec![item("echo hi")];
    let th = theme();
    let cols = columns();
    let engine = PrefixEngine;
    let highlighter = HistoryHighlighter { engine: &engine, search_input: "" };
    let list = HistoryList::new(&history, false, false, 0, &th, highlighter, &cols);
    let buffer_area = Rect::new(0, 0, 30, 6);
    let area = Rect::new(2, 1, 20, 3);
    let mut buf = Buffer::empty(buffer_area);
    let mut state = ListState::default();
    list.render(area, &mut buf, &mut state);
    for y in 0..buffer_area.height {
        for x in 0..buffer_area.width {
            let inside = x >= area.x && x < area.x + area.width && y >= area.y && y < area.y
                + area.height;
            if !inside {
                assert_eq!(buf.cell((x, y)).unwrap().symbol(), " ");
            }
        }
    }
    // the row itself did land inside the area
    let row: String = (area.x..area.x + area.width)
        .map(|x| buf.cell((x, area.y + area.height - 1)).unwrap().symbol().to_string())
        .collect();
    assert!(row.contains("0ns ago"));
}

#[test]
fn palette_colors_reach_the_terminal_cells() {
    let history = vec![item("ls")];
    let mut th = theme();
    th.base = Style { fg: Some(ThemeColor::Red), ..plain() };
    th.selection = Style { bg: Some(ThemeColor::Indexed(17)), ..plain() };
    let cols = vec![ColumnSpec { kind: ColumnKind::Command, fixed_width: 0, expand: true }];
    let engine = PrefixEngine;
    let highlighter = HistoryHighlighter { engine: &engine, search_input: "" };
    let list = HistoryList::new(&history, false, false, 0, &th, highlighter, &cols);
    let area = Rect::new(0, 0, 6, 1);
    let mut buf = Buffer::empty(area);
    let mut state = ListState::default();
    state.select(0);
    list.render(area, &mut buf, &mut state);
    // " ls   " with the base foreground on the letters and the selection
    // background everywhere on the selected row
    let cell = buf.cell((1, 0)).unwrap();
    assert_eq!(cell.symbol(), "l");
    assert_eq!(cell.fg, ratatui::style::Color::Red);
    assert_eq!(cell.bg, ratatui::style::Color::Indexed(17));
}

use history_list::layout::{compute_widths, ColumnKind, ColumnSpec};
use history_list::scroll::get_items_bounds;
use history_list::text::{escape_control, format_duration, left_trunc, pad_left, right_trunc};
use history_list::words::{join_words, split_host_user, split_words};

fn chars(s: &str) -> Vec<char> {
    s.chars().collect()
}

fn string(v: &[char]) -> String {
    v.iter().collect()
}

#[test]
fn bounds_scrolls_down_to_keep_selection_visible() {
    // length=20, selected=19, height=5, offset=0: the window snaps to the end
    assert_eq!(get_items_bounds(19, 0, 5, 20), (15, 20));
}

#[test]
fn bounds_snaps_up_when_selection_moves_above_window() {
    // length=20, selected=0, height=5, offset=10: the window snaps to the top
    assert_eq!(get_items_bounds(0, 10, 5, 20), (0, 5));
}

#[test]
fn bounds_keeps_window_while_selection_inside() {
    // the selection sits at the bottom margin of the current window: no move
    assert_eq!(get_items_bounds(18, 10, 10, 20), (10, 20));
}

#[test]
fn bounds_clamps_stale_offset() {
    let (start, end) = get_items_bounds(2, 100, 3, 5);
    assert!(start <= 2 && 2 < end);
    assert_eq!(end - start, 3);
}

#[test]
fn duration_picks_largest_whole_unit() {
    assert_eq!(string(&format_duration(0)), "0ns");
    assert_eq!(string(&format_duration(999)), "999ns");
    assert_eq!(string(&format_duration(1_500)), "1us");
    assert_eq!(string(&format_duration(123_000_000)), "123ms");
    assert_eq!(string(&format_duration(59_000_000_000)), "59s");
    assert_eq!(string(&format_duration(65_000_000_000)), "1m");
    assert_eq!(string(&format_duration(3_700_000_000_000)), "1h");
    assert_eq!(string(&format_duration(200_000_000_000_000)), "2d");
}

#[test]
fn duration_right_aligned_in_eight_cells() {
    // 65_000_000_000 ns in an 8-wide column: flush right, spaces leading
    let text = pad_left(&format_duration(65_000_000_000), 8);
    assert_eq!(string(&text), "      1m");
    assert_eq!(text.len(), 8);
}

#[test]
fn directory_truncates_from_the_left() {
    let dir = chars("/very/long/path/that/is/too/long");
    let cell = left_trunc(&dir, 10);
    assert_eq!(string(&cell), "...oo/long");
    assert_eq!(cell.len(), 10);
}

#[test]
fn directory_narrowest_truncation_keeps_one_character() {
    let dir = chars("abcdef");
    assert_eq!(string(&left_trunc(&dir, 4)), "...f");
}

#[test]
fn directory_shorter_than_width_is_right_padded() {
    assert_eq!(string(&left_trunc(&chars("/tmp"), 8)), "/tmp    ");
}

#[test]
fn host_truncates_from_the_right() {
    let host = chars("very-long-hostname");
    let cell = right_trunc(&host, 10);
    assert_eq!(string(&cell), "very-l... ");
    assert_eq!(cell.len(), 10);
}

#[test]
fn host_narrow_column_without_truncation_room() {
    let host = chars("abcdef");
    assert_eq!(string(&right_trunc(&host, 4)), "... ");
}

#[test]
fn compound_identifier_splits_at_first_colon() {
    let (host, user) = split_host_user(&chars("box:alice"));
    assert_eq!(string(&host), "box");
    assert_eq!(string(&user), "alice");
    let (host, user) = split_host_user(&chars("box-only"));
    assert_eq!(string(&host), "box-only");
    assert_eq!(string(&user), "");
    let (host, user) = split_host_user(&chars("a:b:c"));
    assert_eq!(string(&host), "a");
    assert_eq!(string(&user), "b:c");
}

#[test]
fn control_characters_are_escaped_in_caret_notation() {
    assert_eq!(string(&escape_control(&chars("a\tb"))), "a^Ib");
    assert_eq!(string(&escape_control(&chars("x\ny"))), "x^Jy");
    assert_eq!(string(&escape_control(&chars("\u{7f}"))), "^?");
    assert_eq!(string(&escape_control(&chars("plain"))), "plain");
}

#[test]
fn words_split_and_rejoin_with_single_spaces() {
    let words = split_words(&chars("  foo   bar "));
    assert_eq!(words.len(), 2);
    assert_eq!(string(&words[0]), "foo");
    assert_eq!(string(&words[1]), "bar");
    assert_eq!(string(&join_words(&words)), "foo bar");
    assert_eq!(join_words(&split_words(&chars("   "))).len(), 0);
}

#[test]
fn layout_gives_expander_the_leftover_width() {
    let cols = vec![
        ColumnSpec { kind: ColumnKind::Duration, fixed_width: 5, expand: false },
        ColumnSpec { kind: ColumnKind::Time, fixed_width: 10, expand: false },
        ColumnSpec { kind: ColumnKind::Command, fixed_width: 0, expand: true },
    ];
    // 40 cells: 1 padding + (5 + 1) + (10 + 1) leaves 22 for the command
    assert_eq!(compute_widths(&cols, 40), vec![5, 10, 22]);
}

#[test]
fn layout_clamps_expander_to_zero_when_fixed_columns_overflow() {
    let cols = vec![
        ColumnSpec { kind: ColumnKind::Duration, fixed_width: 50, expand: false },
        ColumnSpec { kind: ColumnKind::Command, fixed_width: 0, expand: true },
    ];
    assert_eq!(compute_widths(&cols, 20), vec![50, 0]);
}

#[test]
fn layout_fits_available_width_with_one_expander() {
    let cols = vec![
        ColumnSpec { kind: ColumnKind::Duration, fixed_width: 5, expand: false },
        ColumnSpec { kind: ColumnKind::Command, fixed_width: 0, expand: true },
    ];
    let avail = 30;
    let widths = compute_widths(&cols, avail);
    let with_separators = 1 + widths.iter().sum::<usize>() + (widths.len() - 1);
    assert!(with_separators <= avail);
}

#[test]
fn text_exactly_as_wide_as_the_column_is_untouched() {
    let dir = chars("/home/user");
    assert_eq!(string(&left_trunc(&dir, 10)), "/home/user");
    let host = chars("0123456789");
    assert_eq!(string(&right_trunc(&host, 10)), "0123456789");
}

#[test]
fn truncation_below_the_ellipsis_floor_overflows_instead() {
    // width under 4 leaves no room for a marker; the text is kept and the
    // draw cursor clips it at the row edge
    let dir = chars("abcdef");
    assert_eq!(string(&left_trunc(&dir, 3)), "abcdef");
}

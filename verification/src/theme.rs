//! Colors, styles, theme roles and the selection overlay.

use vstd::prelude::*;

verus! {

/// A terminal color: true color, one of the classic palette names, or an
/// indexed palette entry.
#[derive(Clone, Copy, Debug, PartialEq, Eq)]
pub enum ThemeColor {
    Rgb(u8, u8, u8),
    Indexed(u8),
    Black,
    DarkGray,
    Red,
    Green,
    Yellow,
    Blue,
    Magenta,
    Cyan,
    White,
    Gray,
    Reset,
}

/// A text style: optional foreground and background colors plus the two
/// attributes the renderer uses.
#[derive(Clone, Copy, Debug, PartialEq, Eq)]
pub struct Style {
    pub fg: Option<ThemeColor>,
    pub bg: Option<ThemeColor>,
    pub bold: bool,
    pub reversed: bool,
}

impl Style {
    /// The empty style: no colors, no attributes.
    pub fn plain() -> (r: Style)
        ensures
            r == plain_style(),
    {
        Style { fg: None, bg: None, bold: false, reversed: false }
    }
}

pub open spec fn plain_style() -> Style {
    Style { fg: None, bg: None, bold: false, reversed: false }
}

/// The theme roles a style can be asked for.
#[derive(Clone, Copy, Debug, PartialEq, Eq)]
pub enum Meaning {
    Base,
    Guidance,
    Annotation,
    AlertInfo,
    AlertWarn,
    AlertError,
    Selection,
}

/// A theme: one style per role.
#[derive(Clone, Copy, Debug, PartialEq, Eq)]
pub struct Theme {
    pub base: Style,
    pub guidance: Style,
    pub annotation: Style,
    pub alert_info: Style,
    pub alert_warn: Style,
    pub alert_error: Style,
    pub selection: Style,
}

pub open spec fn as_style_spec(t: Theme, m: Meaning) -> Style {
    match m {
        Meaning::Base => t.base,
        Meaning::Guidance => t.guidance,
        Meaning::Annotation => t.annotation,
        Meaning::AlertInfo => t.alert_info,
        Meaning::AlertWarn => t.alert_warn,
        Meaning::AlertError => t.alert_error,
        Meaning::Selection => t.selection,
    }
}

impl Theme {
    /// The style the theme gives a role.
    pub fn as_style(&self, m: Meaning) -> (r: Style)
        ensures
            r == as_style_spec(*self, m),
    {
        match m {
            Meaning::Base => self.base,
            Meaning::Guidance => self.guidance,
            Meaning::Annotation => self.annotation,
            Meaning::AlertInfo => self.alert_info,
            Meaning::AlertWarn => self.alert_warn,
            Meaning::AlertError => self.alert_error,
            Meaning::Selection => self.selection,
        }
    }
}

/// How the selected row is marked: a background-color overlay from the
/// theme's selection role, or a full video reversal of the row.
#[derive(Clone, Copy, Debug, PartialEq, Eq)]
pub enum SelectionMode {
    Background,
    Reversal,
}

/// The style a fragment actually carries, given the style its content asked
/// for and whether its row is the selected one. On the selected row the
/// background mode paints the theme's selection background under every
/// fragment (when the theme has one); the reversal mode sets the reversed
/// attribute instead. Exactly one mode applies; other rows are untouched.
pub open spec fn overlay_spec(st: Style, selected: bool, mode: SelectionMode, theme: Theme) -> Style {
    if !selected {
        st
    } else {
        match mode {
            SelectionMode::Reversal => Style { reversed: true, ..st },
            SelectionMode::Background => {
                match theme.selection.bg {
                    Some(c) => Style { bg: Some(c), ..st },
                    None => st,
                }
            },
        }
    }
}

/// Applies the selection overlay to one fragment style.
pub fn overlay(st: Style, selected: bool, mode: SelectionMode, theme: &Theme) -> (r: Style)
    ensures
        r == overlay_spec(st, selected, mode, *theme),
{
    if !selected {
        st
    } else {
        match mode {
            SelectionMode::Reversal => Style { reversed: true, ..st },
            SelectionMode::Background => {
                match theme.selection.bg {
                    Some(c) => Style { bg: Some(c), ..st },
                    None => st,
                }
            },
        }
    }
}

/// The style that fills the unused tail of the selected row: the theme's
/// selection background alone, when it has one.
pub open spec fn selection_style_spec(theme: Theme) -> Style {
    match theme.selection.bg {
        Some(c) => Style { fg: None, bg: Some(c), bold: false, reversed: false },
        None => plain_style(),
    }
}

/// A style carrying only the theme's selection background color.
pub fn get_selection_style(theme: &Theme) -> (r: Style)
    ensures
        r == selection_style_spec(*theme),
{
    match theme.selection.bg {
        Some(c) => Style { fg: None, bg: Some(c), bold: false, reversed: false },
        None => Style::plain(),
    }
}

/// Whether the row drawn at logical index `row` is the selected one.
pub open spec fn is_selected_spec(row: int, offset: int, selected: int) -> bool {
    row + offset == selected
}

/// Decides whether a logical row is the selected one.
pub fn is_selected_row(row: usize, offset: usize, selected: usize) -> (r: bool)
    ensures
        r == is_selected_spec(row as int, offset as int, selected as int),
{
    offset <= selected && selected - offset == row
}

} // verus!

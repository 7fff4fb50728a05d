//! What the screen shows, as plain values: geometry of the overlays and the choices of
//! text and style that the drawing code renders.
use vstd::prelude::*;
use crate::model::{tab_label, Focus, ServiceState, Tab, ToastKind};
use crate::text::{dec, push_decimal};
use crate::theme::{Color, Style, Theme};

verus! {

/// A rectangle of terminal cells.
#[derive(Clone, Copy, PartialEq, Eq, Structural, Debug)]
pub struct Rect {
    pub x: u16,
    pub y: u16,
    pub width: u16,
    pub height: u16,
}

/// `a + b`, or `u16::MAX` when that does not fit.
pub open spec fn sat_add16(a: u16, b: u16) -> u16 {
    if a + b > u16::MAX {
        u16::MAX
    } else {
        (a + b) as u16
    }
}

/// `a - b`, or 0 when that is negative.
pub open spec fn sat_sub16(a: u16, b: u16) -> u16 {
    if a < b {
        0
    } else {
        (a - b) as u16
    }
}

pub open spec fn min16(a: u16, b: u16) -> u16 {
    if a < b {
        a
    } else {
        b
    }
}

/// The rectangle at `(x, y)` of the given size, shrunk so that it ends on the screen's
/// coordinate range.
pub open spec fn rect_at(x: u16, y: u16, width: u16, height: u16) -> Rect {
    Rect {
        x,
        y,
        width: min16(width, (u16::MAX - x) as u16),
        height: min16(height, (u16::MAX - y) as u16),
    }
}

impl Rect {
    /// A rectangle, shrunk so that its right and bottom edges stay within `u16`.
    pub fn new(x: u16, y: u16, width: u16, height: u16) -> (res: Rect)
        ensures
            res == rect_at(x, y, width, height),
            res.x + res.width <= u16::MAX,
            res.y + res.height <= u16::MAX,
    {
        let max_width = u16::MAX - x;
        let max_height = u16::MAX - y;
        let width = if width > max_width {
            max_width
        } else {
            width
        };
        let height = if height > max_height {
            max_height
        } else {
            height
        };
        Rect { x, y, width, height }
    }

    /// The column just past the rectangle (saturating).
    pub fn right(self) -> (res: u16)
        ensures
            res == sat_add16(self.x, self.width),
    {
        self.x.saturating_add(self.width)
    }
}

/// Where the toast for a text of `text_len` bytes goes in `area`: three rows high,
/// four columns wider than the text but at most 48 and at most the area's width less two,
/// one row below the top and one column left of the right edge.
pub open spec fn toast_rect_spec(area: Rect, text_len: usize) -> Rect {
    let max_width = min16(sat_sub16(area.width, 2), 48);
    let width = min16(((text_len as u16) + 4) as u16, max_width);
    rect_at(sat_sub16(sat_add16(area.x, area.width), (width + 1) as u16), (area.y + 1) as u16, width, 3)
}

/// The rectangle of the toast that shows a text of `text_len` bytes in `area`.
pub fn toast_rect(area: Rect, text_len: usize) -> (res: Rect)
    requires
        (text_len as u16) + 4 <= u16::MAX,
        area.y < u16::MAX,
    ensures
        res == toast_rect_spec(area, text_len),
        // The toast stays one column inside the right edge and clear of the left edge.
        area.width >= 2 && area.x + area.width <= u16::MAX ==> {
            &&& res.x >= area.x + 1
            &&& res.x + res.width + 1 == area.x + area.width
            &&& res.width <= 48
        },
{
    let sub = area.width.saturating_sub(2);
    let max_width: u16 = if sub < 48 {
        sub
    } else {
        48
    };
    let wanted: u16 = text_len as u16 + 4;
    let width: u16 = if wanted < max_width {
        wanted
    } else {
        max_width
    };
    Rect::new(area.right().saturating_sub(width + 1), area.y + 1, width, 3)
}

/// The help overlay: at most 44 columns wide, centered horizontally in `area`, on the
/// rows of `band`.
pub open spec fn help_popup_spec(area: Rect, band: Rect) -> Rect {
    let width = min16(area.width, 44);
    rect_at((area.x + (area.width - width) / 2) as u16, band.y, width, band.height)
}

/// The rectangle of the help overlay in `area`, on the rows of `band` (the middle band of
/// a 25/50/25 vertical split of `area`).
pub fn help_popup_rect(area: Rect, band: Rect) -> (res: Rect)
    requires
        area.x + (area.width - min16(area.width, 44)) / 2 <= u16::MAX,
    ensures
        res == help_popup_spec(area, band),
        // Centered inside the area: the left margin is half the space left over.
        area.x + area.width <= u16::MAX ==> {
            &&& res.width == min16(area.width, 44)
            &&& res.x - area.x == (area.width - res.width) / 2
            &&& res.x + res.width <= area.x + area.width
        },
{
    let width: u16 = if area.width < 44 {
        area.width
    } else {
        44
    };
    let x = area.x + (area.width.saturating_sub(width)) / 2;
    Rect::new(x, band.y, width, band.height)
}

/// The tree glyph in front of the `i`-th of `len` rows: a corner for the last row.
pub open spec fn list_prefix_spec(i: usize, len: usize) -> Seq<char> {
    if i + 1 == len {
        "└ "@
    } else {
        "├ "@
    }
}

pub fn list_prefix(i: usize, len: usize) -> (res: &'static str)
    ensures
        res@ == list_prefix_spec(i, len),
{
    if len > 0 && i == len - 1 {
        "└ "
    } else {
        "├ "
    }
}

/// The badge color of a service state.
pub open spec fn state_color_spec(s: ServiceState) -> Color {
    match s {
        ServiceState::Running => Color::Green,
        ServiceState::Stopped => Color::DarkGray,
        ServiceState::Restarting => Color::Yellow,
    }
}

pub fn state_color(s: ServiceState) -> (res: Color)
    ensures
        res == state_color_spec(s),
{
    match s {
        ServiceState::Running => Color::Green,
        ServiceState::Stopped => Color::DarkGray,
        ServiceState::Restarting => Color::Yellow,
    }
}

/// The style of a state in the detail header: success, muted or warning.
pub fn state_style(theme: &Theme, s: ServiceState) -> (res: Style)
    ensures
        res == match s {
            ServiceState::Running => crate::theme::fg_style(theme.palette().success, true),
            ServiceState::Stopped => crate::theme::fg_style(theme.palette().muted, false),
            ServiceState::Restarting => crate::theme::fg_style(theme.palette().warning, true),
        },
{
    match s {
        ServiceState::Running => theme.success(),
        ServiceState::Stopped => theme.muted(),
        ServiceState::Restarting => theme.warning(),
    }
}

/// The border of a pane: accent when it has the focus.
pub fn pane_border(theme: &Theme, focused: bool) -> (res: Style)
    ensures
        res == if focused {
            crate::theme::fg_style(theme.palette().accent, true)
        } else {
            crate::theme::fg_style(theme.palette().muted, false)
        },
{
    if focused {
        theme.accent()
    } else {
        theme.border()
    }
}

/// The border of a toast: accent for information, the error color for errors.
pub fn toast_border(theme: &Theme, kind: ToastKind) -> (res: Style)
    ensures
        res == match kind {
            ToastKind::Info => crate::theme::fg_style(theme.palette().accent, true),
            ToastKind::Error => crate::theme::fg_style(theme.palette().error, true),
        },
{
    match kind {
        ToastKind::Info => theme.accent(),
        ToastKind::Error => theme.error(),
    }
}

/// Position of a tab in the tab bar: the overview first, the logs second.
pub open spec fn tab_index_spec(t: Tab) -> usize {
    match t {
        Tab::Logs => 1,
        _ => 0,
    }
}

pub fn tab_index(t: Tab) -> (res: usize)
    ensures
        res == tab_index_spec(t),
{
    match t {
        Tab::Logs => 1,
        _ => 0,
    }
}

/// The titles of the tab bar: the overview and the logs.
pub fn tab_titles() -> (res: Vec<&'static str>)
    ensures
        res@.len() == 2,
        res@[0]@ == tab_label(Tab::Dashboard),
        res@[1]@ == tab_label(Tab::Logs),
        res@[tab_index_spec(Tab::Dashboard) as int]@ == tab_label(Tab::Dashboard),
        res@[tab_index_spec(Tab::Logs) as int]@ == tab_label(Tab::Logs),
{
    let mut v: Vec<&'static str> = Vec::new();
    v.push(Tab::Dashboard.label());
    v.push(Tab::Logs.label());
    v
}

/// What the right-hand pane shows.
#[derive(Clone, Copy, PartialEq, Eq, Structural, Debug)]
pub enum Pane {
    Overview,
    Logs,
}

pub open spec fn right_pane_spec(t: Tab) -> Pane {
    match t {
        Tab::Logs => Pane::Logs,
        _ => Pane::Overview,
    }
}

/// The right-hand pane for a tab: the logs on the Logs tab, the service details otherwise.
pub fn right_pane(t: Tab) -> (res: Pane)
    ensures
        res == right_pane_spec(t),
{
    match t {
        Tab::Logs => Pane::Logs,
        _ => Pane::Overview,
    }
}

/// What the status bar names as the focused place.
pub open spec fn focus_label_spec(focus: Focus, tab: Tab) -> Seq<char> {
    match focus {
        Focus::List => "list"@,
        Focus::Detail => match tab {
            Tab::Logs => "logs"@,
            _ => "overview"@,
        },
    }
}

pub fn focus_label(focus: Focus, tab: Tab) -> (res: &'static str)
    ensures
        res@ == focus_label_spec(focus, tab),
{
    match focus {
        Focus::List => "list",
        Focus::Detail => match tab {
            Tab::Logs => "logs",
            _ => "overview",
        },
    }
}

/// The status bar badge ` R/T up ` for `running` of `total` services.
pub open spec fn status_badge_spec(running: nat, total: nat) -> Seq<char> {
    seq![' '] + dec(running) + seq!['/'] + dec(total) + seq![' ', 'u', 'p', ' ']
}

pub fn status_badge(running: usize, total: usize) -> (res: String)
    ensures
        res@ == status_badge_spec(running as nat, total as nat),
{
    proof {
        reveal_strlit(" ");
        reveal_strlit("/");
        reveal_strlit(" up ");
    }
    let mut out = String::from_str(" ");
    push_decimal(&mut out, running as u64);
    out.append("/");
    push_decimal(&mut out, total as u64);
    out.append(" up ");
    proof {
        assert(out@ =~= status_badge_spec(running as nat, total as nat));
    }
    out
}

/// Index of the first log line shown in a pane `height` rows high: the pane shows the
/// latest `height - 2` lines (its borders take two rows).
pub open spec fn log_tail_start_spec(len: usize, height: u16) -> usize {
    let rows = sat_sub16(height, 2);
    if len > rows {
        (len - rows) as usize
    } else {
        0
    }
}

pub fn log_tail_start(len: usize, height: u16) -> (res: usize)
    ensures
        res == log_tail_start_spec(len, height),
        res <= len,
        len - res <= sat_sub16(height, 2),
        // as many of the latest lines as fit
        len - res == if len < sat_sub16(height, 2) {
            len as int
        } else {
            sat_sub16(height, 2) as int
        },
{
    let rows = height.saturating_sub(2) as usize;
    if len > rows {
        len - rows
    } else {
        0
    }
}

} // verus!

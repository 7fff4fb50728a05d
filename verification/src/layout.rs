//! The screen's layout: how the frame is cut into the tab bar, the two panes and the status
//! bar, the rows of the detail pane, and the band of the help overlay.
use vstd::prelude::*;
use crate::view::{help_popup_rect, help_popup_spec, min16, sat_add16, sat_sub16, Rect};
use ratatui::layout::{Constraint as TermConstraint, Direction as TermDirection, Layout};

verus! {

/// The direction in which an area is cut.
#[derive(Clone, Copy, PartialEq, Eq, Structural, Debug)]
pub enum Direction {
    Horizontal,
    Vertical,
}

/// The size asked for one part of an area.
#[derive(Clone, Copy, PartialEq, Eq, Structural, Debug)]
pub enum Constraint {
    /// Exactly this many cells.
    Length(u16),
    /// At least this many cells.
    Min(u16),
    /// This percentage of the area.
    Percentage(u16),
}

/// `part` lies inside `area` along a cut in `direction` and spans `area` across it: a
/// horizontal cut keeps the rows and stays within the columns, a vertical cut keeps the
/// columns and stays within the rows.
pub open spec fn part_of(part: Rect, area: Rect, direction: Direction) -> bool {
    match direction {
        Direction::Horizontal => {
            &&& part.y == area.y
            &&& part.height == area.height
            &&& area.x <= part.x
            &&& part.x + part.width <= sat_add16(area.x, area.width)
        },
        Direction::Vertical => {
            &&& part.x == area.x
            &&& part.width == area.width
            &&& area.y <= part.y
            &&& part.y + part.height <= sat_add16(area.y, area.height)
        },
    }
}

/// Calls ratatui's `Layout::split`, with the given direction and constraints and the
/// default margin, spacing and flex. The contract claims one part per constraint, each
/// inside the area along the cut and spanning it across the cut (the solver keeps every
/// edge between the area's start and end, and the parts take the area's other coordinates).
/// Which parts come out is left unsaid: ratatui computes them with a constraint solver
/// whose choice among equally good layouts can differ from one process to the next.
#[verifier::external_body]
pub fn split(area: Rect, direction: Direction, constraints: &Vec<Constraint>) -> (res: Vec<Rect>)
    ensures
        res@.len() == constraints@.len(),
        forall|i: int| 0 <= i < res@.len() ==> part_of(#[trigger] res@[i], area, direction),
{
    let dir = match direction {
        Direction::Horizontal => TermDirection::Horizontal,
        Direction::Vertical => TermDirection::Vertical,
    };
    let cs: Vec<TermConstraint> = constraints.iter().map(|c| match *c {
        Constraint::Length(n) => TermConstraint::Length(n),
        Constraint::Min(n) => TermConstraint::Min(n),
        Constraint::Percentage(p) => TermConstraint::Percentage(p),
    }).collect();
    let r = ratatui::layout::Rect { x: area.x, y: area.y, width: area.width, height: area.height };
    let parts = Layout::default().direction(dir).constraints(cs).split(r);
    parts.iter().map(|p| Rect { x: p.x, y: p.y, width: p.width, height: p.height }).collect()
}

/// The inside of a block with borders on all four sides and a title on top (ratatui's
/// `Block::inner` for such a block): one cell in from each edge, as far as the area allows.
pub open spec fn block_inner_spec(area: Rect) -> Rect {
    let right = sat_add16(area.x, area.width);
    let bottom = sat_add16(area.y, area.height);
    Rect {
        x: min16(sat_add16(area.x, 1), right),
        y: min16(sat_add16(area.y, 1), bottom),
        width: sat_sub16(sat_sub16(area.width, 1), 1),
        height: sat_sub16(sat_sub16(area.height, 1), 1),
    }
}

pub fn block_inner(area: Rect) -> (res: Rect)
    ensures
        res == block_inner_spec(area),
{
    let right = area.x.saturating_add(area.width);
    let bottom = area.y.saturating_add(area.height);
    let x1 = area.x.saturating_add(1);
    let y1 = area.y.saturating_add(1);
    Rect {
        x: if x1 < right {
            x1
        } else {
            right
        },
        y: if y1 < bottom {
            y1
        } else {
            bottom
        },
        width: area.width.saturating_sub(1).saturating_sub(1),
        height: area.height.saturating_sub(1).saturating_sub(1),
    }
}

/// `part` lies within `area`.
pub open spec fn inside(part: Rect, area: Rect) -> bool {
    &&& area.x <= part.x
    &&& part.x + part.width <= sat_add16(area.x, area.width)
    &&& area.y <= part.y
    &&& part.y + part.height <= sat_add16(area.y, area.height)
}

/// Where the parts of the dashboard go.
#[derive(Clone, Copy, PartialEq, Eq, Structural, Debug)]
pub struct ScreenLayout {
    pub main: Rect,
    pub tabs: Rect,
    pub list: Rect,
    pub detail: Rect,
    pub status: Rect,
}

/// Cuts the frame into rows (a one-row tab bar, the main area, a one-row status bar) and
/// the main area into the service list (45%) and the right-hand pane (55%). Every part
/// lies within the frame; the rows span its width and the panes the main area's height.
pub fn screen_layout(area: Rect) -> (res: ScreenLayout)
    ensures
        part_of(res.tabs, area, Direction::Vertical),
        part_of(res.main, area, Direction::Vertical),
        part_of(res.status, area, Direction::Vertical),
        part_of(res.list, res.main, Direction::Horizontal),
        part_of(res.detail, res.main, Direction::Horizontal),
        inside(res.list, area),
        inside(res.detail, area),
{
    let rows = split(
        area,
        Direction::Vertical,
        &vec![Constraint::Length(1), Constraint::Min(0), Constraint::Length(1)],
    );
    let main = rows[1];
    let panes = split(
        main,
        Direction::Horizontal,
        &vec![Constraint::Percentage(45), Constraint::Percentage(55)],
    );
    ScreenLayout { main, tabs: rows[0], list: panes[0], detail: panes[1], status: rows[2] }
}

/// Where the parts of the detail pane go.
#[derive(Clone, Copy, PartialEq, Eq, Structural, Debug)]
pub struct DetailLayout {
    pub inner: Rect,
    pub header: Rect,
    pub cpu: Rect,
    pub mem: Rect,
    pub rest: Rect,
    pub history_title: Rect,
    pub history: Rect,
}

/// Cuts the detail pane `area` (its border included): inside the border, a header row, a
/// CPU gauge row, a memory gauge row and the rest, which holds a one-row title over the CPU
/// history. Every row spans the inside's width and lies within it.
pub fn detail_layout(area: Rect) -> (res: DetailLayout)
    ensures
        res.inner == block_inner_spec(area),
        part_of(res.header, res.inner, Direction::Vertical),
        part_of(res.cpu, res.inner, Direction::Vertical),
        part_of(res.mem, res.inner, Direction::Vertical),
        part_of(res.rest, res.inner, Direction::Vertical),
        part_of(res.history_title, res.rest, Direction::Vertical),
        part_of(res.history, res.rest, Direction::Vertical),
{
    let inner = block_inner(area);
    let rows = split(
        inner,
        Direction::Vertical,
        &vec![
            Constraint::Length(1),
            Constraint::Length(1),
            Constraint::Length(1),
            Constraint::Min(0),
        ],
    );
    let rest = rows[3];
    let spark = split(
        rest,
        Direction::Vertical,
        &vec![Constraint::Length(1), Constraint::Min(0)],
    );
    DetailLayout {
        inner,
        header: rows[0],
        cpu: rows[1],
        mem: rows[2],
        rest,
        history_title: spark[0],
        history: spark[1],
    }
}

/// The rectangle of the help overlay in the frame `area`: at most 44 columns wide,
/// centered horizontally, on the rows of the middle part of a 25/50/25 vertical cut.
pub fn help_popup(area: Rect) -> (res: Rect)
    requires
        area.x + (area.width - min16(area.width, 44)) / 2 <= u16::MAX,
    ensures
        exists|band: Rect|
            part_of(band, area, Direction::Vertical) && res == help_popup_spec(area, band),
        res.x == area.x + (area.width - min16(area.width, 44)) / 2,
        res.width == min16(min16(area.width, 44), (u16::MAX - res.x) as u16),
        area.y <= res.y,
        res.y + res.height <= sat_add16(area.y, area.height),
{
    let rows = split(
        area,
        Direction::Vertical,
        &vec![Constraint::Percentage(25), Constraint::Percentage(50), Constraint::Percentage(25)],
    );
    let band = rows[1];
    assert(part_of(band, area, Direction::Vertical));
    help_popup_rect(area, band)
}

} // verus!

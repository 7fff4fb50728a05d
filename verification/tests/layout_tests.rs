use servicedash::layout::{
    block_inner, detail_layout, help_popup, screen_layout, split, Constraint, Direction,
};
use servicedash::Rect;

fn r(x: u16, y: u16, width: u16, height: u16) -> Rect {
    Rect { x, y, width, height }
}

#[test]
fn split_cuts_an_area() {
    let parts = split(
        r(2, 2, 10, 10),
        Direction::Vertical,
        &vec![Constraint::Length(5), Constraint::Min(0)],
    );
    assert_eq!(parts, vec![r(2, 2, 10, 5), r(2, 7, 10, 5)]);
    let cols = split(
        r(0, 0, 100, 3),
        Direction::Horizontal,
        &vec![Constraint::Percentage(45), Constraint::Percentage(55)],
    );
    assert_eq!(cols, vec![r(0, 0, 45, 3), r(45, 0, 55, 3)]);
}

#[test]
fn screen_layout_of_a_frame() {
    let s = screen_layout(r(0, 0, 100, 30));
    assert_eq!(s.tabs, r(0, 0, 100, 1));
    assert_eq!(s.status, r(0, 29, 100, 1));
    assert_eq!(s.list, r(0, 1, 45, 28));
    assert_eq!(s.detail, r(45, 1, 55, 28));
}

#[test]
fn block_inner_is_one_cell_in() {
    assert_eq!(block_inner(r(0, 0, 10, 5)), r(1, 1, 8, 3));
    assert_eq!(block_inner(r(3, 4, 1, 1)), r(4, 5, 0, 0));
    assert_eq!(block_inner(r(3, 4, 0, 0)), r(3, 4, 0, 0));
}

#[test]
fn detail_layout_rows() {
    let d = detail_layout(r(45, 1, 55, 28));
    assert_eq!(d.header, r(46, 2, 53, 1));
    assert_eq!(d.cpu, r(46, 3, 53, 1));
    assert_eq!(d.mem, r(46, 4, 53, 1));
    assert_eq!(d.history_title, r(46, 5, 53, 1));
    assert_eq!(d.history, r(46, 6, 53, 22));
}

#[test]
fn help_popup_in_a_frame() {
    assert_eq!(help_popup(r(0, 0, 100, 40)), r(28, 10, 44, 20));
    assert_eq!(help_popup(r(0, 0, 30, 8)), r(0, 2, 30, 4));
}

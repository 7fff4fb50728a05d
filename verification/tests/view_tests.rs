use servicedash::theme::{Color, Palette, Style, Theme};
use servicedash::view::{
    focus_label, help_popup_rect, list_prefix, log_tail_start, pane_border, state_color,
    right_pane, state_style, status_badge, tab_index, tab_titles, toast_border, toast_rect, Pane,
};
use servicedash::{Focus, Rect, ServiceState, Tab, ToastKind};

fn fg(c: Color, bold: bool) -> Style {
    Style { fg: Some(c), bg: None, bold }
}

#[test]
fn dark_theme_styles() {
    let t = Theme::new(Palette::dark());
    assert_eq!(t.accent(), fg(Color::Cyan, true));
    assert_eq!(t.normal(), fg(Color::Gray, false));
    assert_eq!(t.muted(), fg(Color::DarkGray, false));
    assert_eq!(t.success(), fg(Color::Green, true));
    assert_eq!(t.warning(), fg(Color::Yellow, true));
    assert_eq!(t.error(), fg(Color::Red, true));
    assert_eq!(t.border(), fg(Color::DarkGray, false));
    assert_eq!(
        t.selected(),
        Style { fg: Some(Color::Cyan), bg: Some(Color::Rgb(45, 45, 85)), bold: false }
    );
    assert_eq!(t.background(), Style { fg: None, bg: Some(Color::Black), bold: false });
    assert_eq!(
        t.status_bar(),
        Style { fg: Some(Color::Gray), bg: Some(Color::Rgb(45, 45, 85)), bold: false }
    );
    assert_eq!(
        t.badge(Color::Green),
        Style { fg: Some(Color::Black), bg: Some(Color::Green), bold: true }
    );
}

#[test]
fn light_palette_colors() {
    let p = Palette::light();
    assert_eq!(p.background, Color::White);
    assert_eq!(p.accent, Color::Blue);
    assert_eq!(p.selection_fg, Color::Rgb(0, 0, 120));
    let t = Theme::new(p);
    assert_eq!(t.error(), fg(Color::Rgb(180, 0, 0), true));
}

#[test]
fn state_colors_and_styles() {
    let t = Theme::new(Palette::dark());
    assert_eq!(state_color(ServiceState::Running), Color::Green);
    assert_eq!(state_color(ServiceState::Stopped), Color::DarkGray);
    assert_eq!(state_color(ServiceState::Restarting), Color::Yellow);
    assert_eq!(state_style(&t, ServiceState::Running), t.success());
    assert_eq!(state_style(&t, ServiceState::Stopped), t.muted());
    assert_eq!(state_style(&t, ServiceState::Restarting), t.warning());
    assert_eq!(pane_border(&t, true), t.accent());
    assert_eq!(pane_border(&t, false), t.border());
    assert_eq!(toast_border(&t, ToastKind::Info), t.accent());
    assert_eq!(toast_border(&t, ToastKind::Error), t.error());
}

#[test]
fn rect_new_clamps_to_screen_range() {
    assert_eq!(Rect::new(1, 2, 3, 4), Rect { x: 1, y: 2, width: 3, height: 4 });
    assert_eq!(
        Rect::new(65530, 65000, 100, 1000),
        Rect { x: 65530, y: 65000, width: 5, height: 535 }
    );
    assert_eq!(Rect::new(10, 0, 5, 1).right(), 15);
    assert_eq!(Rect { x: 65535, y: 0, width: 10, height: 1 }.right(), 65535);
}

#[test]
fn toast_rect_geometry() {
    let area = Rect { x: 0, y: 0, width: 80, height: 24 };
    assert_eq!(toast_rect(area, 11), Rect { x: 64, y: 1, width: 15, height: 3 });
    // Long texts are capped at 48 columns.
    assert_eq!(toast_rect(area, 200), Rect { x: 31, y: 1, width: 48, height: 3 });
    // Narrow areas cap the toast at the width less two.
    let narrow = Rect { x: 5, y: 3, width: 10, height: 5 };
    assert_eq!(toast_rect(narrow, 11), Rect { x: 6, y: 4, width: 8, height: 3 });
    // A one-column area gets an empty toast.
    let tiny = Rect { x: 0, y: 0, width: 1, height: 1 };
    assert_eq!(toast_rect(tiny, 4).width, 0);
}

#[test]
fn help_popup_is_centered() {
    let area = Rect { x: 0, y: 0, width: 100, height: 40 };
    let band = Rect { x: 0, y: 10, width: 100, height: 20 };
    assert_eq!(help_popup_rect(area, band), Rect { x: 28, y: 10, width: 44, height: 20 });
    let small = Rect { x: 3, y: 0, width: 30, height: 10 };
    let band2 = Rect { x: 3, y: 2, width: 30, height: 5 };
    assert_eq!(help_popup_rect(small, band2), Rect { x: 3, y: 2, width: 30, height: 5 });
    let odd = Rect { x: 10, y: 0, width: 49, height: 10 };
    assert_eq!(help_popup_rect(odd, band2).x, 12);
}

#[test]
fn list_prefixes() {
    assert_eq!(list_prefix(0, 3), "├ ");
    assert_eq!(list_prefix(1, 3), "├ ");
    assert_eq!(list_prefix(2, 3), "└ ");
    assert_eq!(list_prefix(0, 1), "└ ");
}

#[test]
fn tab_indices_and_focus_labels() {
    assert_eq!(tab_titles(), vec!["Dashboard", "Logs"]);
    assert_eq!(tab_index(Tab::Dashboard), 0);
    assert_eq!(tab_index(Tab::Metrics), 0);
    assert_eq!(tab_index(Tab::Logs), 1);
    assert_eq!(focus_label(Focus::List, Tab::Logs), "list");
    assert_eq!(focus_label(Focus::Detail, Tab::Dashboard), "overview");
    assert_eq!(focus_label(Focus::Detail, Tab::Metrics), "overview");
    assert_eq!(focus_label(Focus::Detail, Tab::Logs), "logs");
    assert_eq!(right_pane(Tab::Dashboard), Pane::Overview);
    assert_eq!(right_pane(Tab::Metrics), Pane::Overview);
    assert_eq!(right_pane(Tab::Logs), Pane::Logs);
}

#[test]
fn status_badge_text() {
    assert_eq!(status_badge(4, 6), " 4/6 up ");
    assert_eq!(status_badge(0, 0), " 0/0 up ");
    assert_eq!(status_badge(12, 130), " 12/130 up ");
}

#[test]
fn log_tail_shows_latest_lines_that_fit() {
    assert_eq!(log_tail_start(100, 12), 90);
    assert_eq!(log_tail_start(5, 12), 0);
    assert_eq!(log_tail_start(5, 1), 5);
    assert_eq!(log_tail_start(0, 0), 0);
}

use servicedash::model::{step, Action, Event};
use servicedash::input::decode_key;
use servicedash::{handle_key, App, Command, Focus, KeyCode, KeyEvent, ServiceState, Tab, ToastKind};

fn key(code: KeyCode) -> KeyEvent {
    KeyEvent { code, ctrl: false }
}

fn ch(c: char) -> KeyEvent {
    key(KeyCode::Char(c))
}

#[test]
fn quit_keys() {
    let mut app = App::new();
    let mut g = false;
    assert!(handle_key(&mut app, ch('q'), &mut g));
    assert!(handle_key(&mut app, key(KeyCode::Esc), &mut g));
    assert!(handle_key(&mut app, KeyEvent { code: KeyCode::Char('c'), ctrl: true }, &mut g));
    assert!(!handle_key(&mut app, ch('c'), &mut g));
    assert!(handle_key(&mut app, KeyEvent { code: KeyCode::Char('q'), ctrl: true }, &mut g));
}

#[test]
fn help_overlay_is_modal() {
    let mut app = App::new();
    let mut g = false;
    assert!(!handle_key(&mut app, ch('?'), &mut g));
    assert!(app.show_help);
    // Keys other than Esc, q and ? do nothing while help is shown.
    g = true;
    assert!(!handle_key(&mut app, ch('j'), &mut g));
    assert!(!handle_key(&mut app, key(KeyCode::Enter), &mut g));
    assert_eq!(app.selected, 0);
    assert_eq!(app.services[0].state, ServiceState::Running);
    assert!(app.show_help);
    assert!(g);
    // q closes help instead of quitting, and keeps the pending g.
    assert!(!handle_key(&mut app, ch('q'), &mut g));
    assert!(!app.show_help);
    assert!(g);
    for k in [key(KeyCode::Esc), ch('?')] {
        app.show_help = true;
        assert!(!handle_key(&mut app, k, &mut g));
        assert!(!app.show_help);
    }
}

#[test]
fn help_key_clears_pending_g() {
    let mut app = App::new();
    let mut g = true;
    handle_key(&mut app, ch('?'), &mut g);
    assert!(!g);
}

#[test]
fn gg_selects_first_and_g_alone_waits() {
    let mut app = App::new();
    let mut g = false;
    handle_key(&mut app, ch('G'), &mut g);
    assert_eq!(app.selected, 5);
    handle_key(&mut app, ch('g'), &mut g);
    assert!(g);
    assert_eq!(app.selected, 5);
    handle_key(&mut app, ch('g'), &mut g);
    assert!(!g);
    assert_eq!(app.selected, 0);
    // An unbound key between the two g's cancels the sequence.
    handle_key(&mut app, ch('G'), &mut g);
    handle_key(&mut app, ch('g'), &mut g);
    handle_key(&mut app, ch('x'), &mut g);
    assert!(!g);
    handle_key(&mut app, ch('g'), &mut g);
    assert_eq!(app.selected, 5);
}

#[test]
fn movement_keys() {
    let mut app = App::new();
    let mut g = false;
    handle_key(&mut app, ch('j'), &mut g);
    handle_key(&mut app, key(KeyCode::Down), &mut g);
    assert_eq!(app.selected, 2);
    handle_key(&mut app, ch('k'), &mut g);
    assert_eq!(app.selected, 1);
    handle_key(&mut app, key(KeyCode::Up), &mut g);
    handle_key(&mut app, key(KeyCode::Up), &mut g);
    assert_eq!(app.selected, 0);
}

#[test]
fn focus_and_tab_keys() {
    let mut app = App::new();
    let mut g = false;
    handle_key(&mut app, ch('l'), &mut g);
    assert_eq!(app.focus, Focus::Detail);
    handle_key(&mut app, ch('h'), &mut g);
    assert_eq!(app.focus, Focus::List);
    handle_key(&mut app, key(KeyCode::Right), &mut g);
    assert_eq!(app.focus, Focus::Detail);
    handle_key(&mut app, key(KeyCode::Left), &mut g);
    assert_eq!(app.focus, Focus::List);
    handle_key(&mut app, key(KeyCode::Tab), &mut g);
    assert_eq!(app.tab, Tab::Logs);
    handle_key(&mut app, key(KeyCode::Tab), &mut g);
    assert_eq!(app.tab, Tab::Dashboard);
}

#[test]
fn service_keys() {
    let mut app = App::new();
    let mut g = false;
    handle_key(&mut app, key(KeyCode::Enter), &mut g);
    assert_eq!(app.services[0].state, ServiceState::Stopped);
    assert_eq!(app.toast, Some(("toggled api".to_string(), ToastKind::Info)));
    handle_key(&mut app, ch('S'), &mut g);
    assert_eq!(app.services[0].state, ServiceState::Running);
    handle_key(&mut app, ch('s'), &mut g);
    assert_eq!(app.services[0].state, ServiceState::Stopped);
    handle_key(&mut app, ch('r'), &mut g);
    assert_eq!(app.services[0].state, ServiceState::Restarting);
    assert_eq!(app.logs.last().unwrap(), "00:00:00 restart api");
}

#[test]
fn decode_key_commands() {
    assert_eq!(decode_key(false, ch('j')), Command::Next);
    assert_eq!(decode_key(false, key(KeyCode::Other)), Command::Unbound);
    assert_eq!(decode_key(true, ch('j')), Command::Ignore);
    assert_eq!(decode_key(true, ch('q')), Command::CloseHelp);
    assert_eq!(decode_key(false, ch('g')), Command::GoFirstPrefix);
    assert_eq!(decode_key(false, KeyEvent { code: KeyCode::Char('j'), ctrl: true }), Command::Next);
}

#[test]
fn keys_other_than_down_work_at_the_largest_selection() {
    let mut app = App::new();
    app.selected = usize::MAX;
    let mut g = false;
    handle_key(&mut app, ch('k'), &mut g);
    assert_eq!(app.selected, usize::MAX - 1);
    app.selected = usize::MAX;
    handle_key(&mut app, ch('l'), &mut g);
    assert_eq!(app.focus, Focus::Detail);
    handle_key(&mut app, key(KeyCode::Enter), &mut g);
    assert_eq!(app.toast, Some(("toggled ".to_string(), ToastKind::Info)));
    handle_key(&mut app, ch('G'), &mut g);
    assert_eq!(app.selected, 5);
    app.selected = usize::MAX;
    assert!(handle_key(&mut app, ch('q'), &mut g));
}

#[test]
fn event_loop_step() {
    let mut app = App::new();
    let mut g = false;
    assert!(matches!(step(&mut app, Event::Resize, &mut g), Action::Continue));
    assert!(matches!(step(&mut app, Event::Key(ch('j')), &mut g), Action::Continue));
    assert_eq!(app.selected, 1);
    match step(&mut app, Event::Idle, &mut g) {
        Action::Sample(d) => assert_eq!(d.len(), 6),
        _ => panic!("a timeout runs a tick"),
    }
    assert_eq!(app.clock_str(), "00:00:01");
    assert!(matches!(step(&mut app, Event::Key(ch('q')), &mut g), Action::Quit));
}

#[test]
fn event_loop_over_inputs_quits_only_on_quit_key() {
    let mut app = App::new();
    let mut g = false;
    let inputs = vec![
        Event::Key(ch('j')),
        Event::Idle,
        Event::Resize,
        Event::Key(ch('?')),
        Event::Key(ch('q')),
        Event::Idle,
        Event::Key(ch('x')),
    ];
    for e in inputs {
        let action = step(&mut app, e, &mut g);
        assert!(!matches!(action, Action::Quit));
        if let Action::Sample(d) = action {
            app.record_cpu(&vec![3; d.len()]);
        }
    }
    assert_eq!(app.clock_str(), "00:00:02");
    assert!(matches!(step(&mut app, Event::Key(key(KeyCode::Esc)), &mut g), Action::Quit));
}

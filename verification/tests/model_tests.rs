use servicedash::model::next_sample;
use servicedash::{App, Focus, ServiceState, Tab, ToastKind};

fn names(app: &App) -> Vec<String> {
    app.services.iter().map(|s| s.name.clone()).collect()
}

fn lcg(r: u64) -> u64 {
    r.wrapping_mul(6364136223846793005).wrapping_add(1442695040888963407)
}

#[test]
fn state_and_tab_labels() {
    assert_eq!(ServiceState::Running.label(), " RUNNING ");
    assert_eq!(ServiceState::Stopped.label(), " STOPPED ");
    assert_eq!(ServiceState::Restarting.label(), " RESTART ");
    assert_eq!(Tab::Dashboard.label(), "Dashboard");
    assert_eq!(Tab::Metrics.label(), "Metrics");
    assert_eq!(Tab::Logs.label(), "Logs");
}

#[test]
fn tab_next_toggles_overview_and_logs() {
    assert_eq!(Tab::Dashboard.next(), Tab::Logs);
    assert_eq!(Tab::Logs.next(), Tab::Dashboard);
    assert_eq!(Tab::Metrics.next(), Tab::Logs);
    for t in [Tab::Dashboard, Tab::Logs] {
        assert_eq!(t.next().next(), t);
    }
}

#[test]
fn new_app_initial_state() {
    let app = App::new();
    assert_eq!(names(&app), vec!["api", "db", "cache", "worker", "scheduler", "proxy"]);
    let states: Vec<ServiceState> = app.services.iter().map(|s| s.state).collect();
    assert_eq!(
        states,
        vec![
            ServiceState::Running,
            ServiceState::Running,
            ServiceState::Stopped,
            ServiceState::Running,
            ServiceState::Stopped,
            ServiceState::Running
        ]
    );
    assert!(app.services.iter().all(|s| s.uptime_s == 0 && s.cpu_history.is_empty()));
    assert_eq!(app.selected, 0);
    assert_eq!(app.focus, Focus::List);
    assert_eq!(app.tab, Tab::Dashboard);
    assert!(!app.show_help);
    assert!(app.toast.is_none());
    assert_eq!(app.logs, vec!["00:00:00 daemon started", "00:00:00 6 services discovered"]);
    assert_eq!(app.running_count(), 4);
    assert_eq!(app.clock_str(), "00:00:00");
}

#[test]
fn navigation_stops_at_both_ends() {
    let mut app = App::new();
    app.prev();
    assert_eq!(app.selected, 0);
    app.next();
    assert_eq!(app.selected, 1);
    app.next();
    app.next();
    app.next();
    app.next();
    assert_eq!(app.selected, 5);
    app.next();
    assert_eq!(app.selected, 5);
    app.prev();
    assert_eq!(app.selected, 4);
    app.first();
    assert_eq!(app.selected, 0);
    app.first();
    assert_eq!(app.selected, 0);
    app.last();
    assert_eq!(app.selected, 5);
    app.last();
    assert_eq!(app.selected, 5);
}

#[test]
fn next_then_prev_restores_selection() {
    let mut app = App::new();
    app.selected = 2;
    app.next();
    app.prev();
    assert_eq!(app.selected, 2);
    app.prev();
    app.next();
    assert_eq!(app.selected, 2);
}

#[test]
fn navigation_on_empty_service_list() {
    let mut app = App::new();
    app.services.clear();
    app.selected = 0;
    app.next();
    assert_eq!(app.selected, 0);
    app.last();
    assert_eq!(app.selected, 0);
    app.prev();
    assert_eq!(app.selected, 0);
}

#[test]
fn toggle_logs_and_toasts() {
    let mut app = App::new();
    app.toggle();
    assert_eq!(app.services[0].state, ServiceState::Stopped);
    assert_eq!(app.logs.last().unwrap(), "00:00:00 toggle api");
    assert_eq!(app.toast, Some(("toggled api".to_string(), ToastKind::Info)));
    assert_eq!(app.running_count(), 3);
    app.toggle();
    assert_eq!(app.services[0].state, ServiceState::Running);
    assert_eq!(app.running_count(), 4);
}

#[test]
fn toggle_twice_on_restarting_ends_stopped() {
    let mut app = App::new();
    app.selected = 2;
    app.restart();
    assert_eq!(app.services[2].state, ServiceState::Restarting);
    app.toggle();
    assert_eq!(app.services[2].state, ServiceState::Running);
    app.toggle();
    assert_eq!(app.services[2].state, ServiceState::Stopped);
}

#[test]
fn stop_start_restart_messages() {
    let mut app = App::new();
    app.selected = 1;
    app.stop();
    assert_eq!(app.services[1].state, ServiceState::Stopped);
    assert_eq!(app.logs.last().unwrap(), "00:00:00 stop db");
    assert_eq!(app.toast, Some(("stopped db".to_string(), ToastKind::Info)));
    assert_eq!(app.running_count(), 3);
    app.stop();
    assert_eq!(app.running_count(), 3);
    app.start();
    assert_eq!(app.services[1].state, ServiceState::Running);
    assert_eq!(app.logs.last().unwrap(), "00:00:00 start db");
    assert_eq!(app.toast, Some(("started db".to_string(), ToastKind::Info)));
    assert_eq!(app.running_count(), 4);
    app.restart();
    assert_eq!(app.services[1].state, ServiceState::Restarting);
    assert_eq!(app.logs.last().unwrap(), "00:00:00 restart db");
    assert_eq!(app.toast, Some(("restarting db".to_string(), ToastKind::Info)));
    assert_eq!(app.running_count(), 3);
    assert_eq!(app.logs.len(), 6);
}

#[test]
fn action_with_selection_past_the_list_changes_no_service() {
    let mut app = App::new();
    app.selected = 17;
    app.toggle();
    assert_eq!(app.running_count(), 4);
    assert_eq!(app.logs.last().unwrap(), "00:00:00 toggle ");
    assert_eq!(app.toast, Some(("toggled ".to_string(), ToastKind::Info)));
}

#[test]
fn restart_then_tick_runs_again_with_fresh_uptime() {
    let mut app = App::new();
    app.tick();
    app.tick();
    assert_eq!(app.services[0].uptime_s, 2);
    app.restart();
    app.tick();
    assert_eq!(app.services[0].state, ServiceState::Running);
    assert_eq!(app.services[0].uptime_s, 1);
}

#[test]
fn tick_advances_clock_uptime_and_draws() {
    let mut app = App::new();
    let draws = app.tick();
    assert_eq!(app.clock_str(), "00:00:01");
    assert_eq!(draws.len(), 6);
    let running: Vec<bool> = draws.iter().map(|d| d.is_some()).collect();
    assert_eq!(running, vec![true, true, false, true, false, true]);
    let uptimes: Vec<u64> = app.services.iter().map(|s| s.uptime_s).collect();
    assert_eq!(uptimes, vec![1, 1, 0, 1, 0, 1]);
    // The samples come from the generator, two per running service, in order.
    let mut r: u64 = 0x9e37_79b9_7f4a_7c15;
    let mut expected = Vec::new();
    for d in &draws {
        if d.is_some() {
            r = lcg(r);
            let a = (r >> 33) as u32;
            r = lcg(r);
            let b = (r >> 33) as u32;
            expected.push(Some((a, b)));
        } else {
            expected.push(None);
        }
    }
    assert_eq!(draws, expected);
    // A tick leaves the histories alone.
    assert!(app.services.iter().all(|s| s.cpu_history.is_empty()));
}

#[test]
fn next_sample_steps_the_generator() {
    let mut r: u64 = 0x9e37_79b9_7f4a_7c15;
    let s = next_sample(&mut r);
    let expected_state = 0x9e37_79b9_7f4a_7c15u64
        .wrapping_mul(6364136223846793005)
        .wrapping_add(1442695040888963407);
    assert_eq!(r, expected_state);
    assert_eq!(s, (expected_state >> 33) as u32);
    let mut z: u64 = 0;
    assert_eq!(next_sample(&mut z), (1442695040888963407u64 >> 33) as u32);
    assert_eq!(z, 1442695040888963407);
}

#[test]
fn toast_expires_after_nine_ticks() {
    let mut app = App::new();
    app.toggle();
    for _ in 0..8 {
        app.tick();
        assert_eq!(app.toast, Some(("toggled api".to_string(), ToastKind::Info)));
    }
    app.tick();
    assert!(app.toast.is_none());
}

#[test]
fn set_toast_restarts_lifetime() {
    let mut app = App::new();
    app.set_toast("hello".to_string(), ToastKind::Error);
    for _ in 0..5 {
        app.tick();
    }
    app.set_toast("again".to_string(), ToastKind::Info);
    for _ in 0..8 {
        app.tick();
    }
    assert_eq!(app.toast, Some(("again".to_string(), ToastKind::Info)));
    app.tick();
    assert_eq!(app.toast, None);
}

#[test]
fn heartbeat_every_24_ticks() {
    let mut app = App::new();
    for _ in 0..23 {
        app.tick();
    }
    assert_eq!(app.logs.len(), 2);
    app.tick();
    assert_eq!(app.logs.len(), 3);
    assert_eq!(app.logs.last().unwrap(), "00:00:24 metrics heartbeat");
    for _ in 0..24 {
        app.tick();
    }
    assert_eq!(app.logs.len(), 4);
    assert_eq!(app.logs.last().unwrap(), "00:00:48 metrics heartbeat");
}

#[test]
fn log_keeps_latest_200_lines() {
    let mut app = App::new();
    for i in 0..300 {
        app.log(&format!("line {i}"));
    }
    assert_eq!(app.logs.len(), 200);
    assert_eq!(app.logs[0], "00:00:00 line 100");
    assert_eq!(app.logs[199], "00:00:00 line 299");
}

#[test]
fn log_line_is_stamped_with_clock() {
    let mut app = App::new();
    for _ in 0..3725 {
        app.tick();
    }
    app.log("hello");
    assert_eq!(app.logs.last().unwrap(), "01:02:05 hello");
    assert_eq!(app.clock_str(), "01:02:05");
}

#[test]
fn record_cpu_uses_zero_for_stopped_services() {
    let mut app = App::new();
    app.tick();
    app.record_cpu(&vec![40, 20, 99, 70, 99, 5]);
    let last: Vec<u64> = app.services.iter().map(|s| *s.cpu_history.last().unwrap()).collect();
    assert_eq!(last, vec![40, 20, 0, 70, 0, 5]);
}

#[test]
fn cpu_history_keeps_latest_64_samples() {
    let mut app = App::new();
    for i in 0..100u64 {
        app.record_cpu(&vec![i, i, i, i, i, i]);
    }
    for s in &app.services {
        assert_eq!(s.cpu_history.len(), 64);
    }
    let expected: Vec<u64> = (36..100).collect();
    assert_eq!(app.services[0].cpu_history, expected);
    assert_eq!(app.services[2].cpu_history, vec![0; 64]);
}

#[test]
fn getters_report_the_state() {
    let mut app = App::new();
    assert_eq!(app.selected_index(), 0);
    assert!(!app.help_shown());
    assert_eq!(app.service_count(), 6);
    app.last();
    app.show_help = true;
    assert_eq!(app.selected_index(), 5);
    assert!(app.help_shown());
}

#[test]
fn clock_counts_ticks_with_other_operations_between() {
    let mut app = App::new();
    for i in 0..30u64 {
        app.next();
        app.log("x");
        app.record_cpu(&vec![i; 6]);
        app.tick();
        app.prev();
        app.stop();
    }
    assert_eq!(app.clock_str(), "00:00:30");
    assert_eq!(names(&app), vec!["api", "db", "cache", "worker", "scheduler", "proxy"]);
}

#[test]
fn toast_lives_eight_ticks_with_other_operations_between() {
    let mut app = App::new();
    app.restart();
    for _ in 0..8 {
        app.next();
        app.log("between");
        app.record_cpu(&vec![1; 6]);
        app.tick();
        app.first();
    }
    assert_eq!(app.toast, Some(("restarting api".to_string(), ToastKind::Info)));
    app.next();
    app.tick();
    assert!(app.toast.is_none());
    app.log("later");
    app.tick();
    assert!(app.toast.is_none());
}

#[test]
fn same_calls_give_same_state() {
    let mut a = App::new();
    let mut b = App::new();
    let mut da = Vec::new();
    let mut db = Vec::new();
    for _ in 0..50 {
        a.next();
        b.next();
        da.push(a.tick());
        db.push(b.tick());
    }
    assert_eq!(da, db);
    assert_eq!(a.logs, b.logs);
    assert_eq!(a.selected, b.selected);
    let ua: Vec<u64> = a.services.iter().map(|s| s.uptime_s).collect();
    let ub: Vec<u64> = b.services.iter().map(|s| s.uptime_s).collect();
    assert_eq!(ua, ub);
}

//! What the operations are for, stated over all inputs: the generator runs on from tick to
//! tick, a pending `g` survives only a `g`, each service action leaves the service in its
//! state, the clock and uptime texts add back up to the seconds, and the status label
//! names the focused pane.
use vstd::prelude::*;
use crate::input::{command_for, Command, KeyCode, KeyEvent};
use crate::model::{
    count_running, lcg_sample, lcg_step, log_line, tick_services, AppView, Focus, ServiceState,
    ServiceView, Tab, ToastKind,
};
use crate::text::{clock_text, digits_value, pad2, uptime_text};
use crate::view::{focus_label_spec, right_pane_spec, Pane};

verus! {

/// The generator's state after `n` steps from `r`.
pub open spec fn lcg_iter(r: u64, n: nat) -> u64
    decreases n,
{
    if n == 0 {
        r
    } else {
        lcg_step(lcg_iter(r, (n - 1) as nat))
    }
}

proof fn lemma_tick_services_generator(s: Seq<ServiceView>, r: u64)
    ensures
        tick_services(s, r).0.len() == s.len(),
        tick_services(s, r).1.len() == s.len(),
        tick_services(s, r).2 == lcg_iter(r, 2 * count_running(tick_services(s, r).0)),
        forall|i: int|
            0 <= i < s.len() ==> #[trigger] tick_services(s, r).1[i] == if tick_services(
                s,
                r,
            ).0[i].state == ServiceState::Running {
                let j = count_running(tick_services(s, r).0.take(i));
                Some((lcg_sample(lcg_iter(r, 2 * j + 1)), lcg_sample(lcg_iter(r, 2 * j + 2))))
            } else {
                None
            },
    decreases s.len(),
{
    reveal(tick_services);
    reveal(crate::model::tick_service);
    if s.len() > 0 {
        lemma_tick_services_generator(s.drop_last(), r);
        let p = tick_services(s.drop_last(), r);
        let q = crate::model::tick_service(s.last(), p.2);
        let t = tick_services(s, r);
        assert(t == (p.0.push(q.0), p.1.push(q.1), q.2));
        assert(t.0.drop_last() =~= p.0);
        let c = count_running(p.0);
        assert(lcg_iter(r, 2 * c + 1) == lcg_step(p.2));
        assert(lcg_iter(r, 2 * c + 2) == lcg_step(lcg_step(p.2)));
        assert forall|i: int| 0 <= i < s.len() implies #[trigger] t.1[i] == if t.0[i].state
            == ServiceState::Running {
            let j = count_running(t.0.take(i));
            Some((lcg_sample(lcg_iter(r, 2 * j + 1)), lcg_sample(lcg_iter(r, 2 * j + 2))))
        } else {
            None
        } by {
            if i < s.len() - 1 {
                assert(t.0.take(i) =~= p.0.take(i));
                assert(t.1[i] == p.1[i]);
                assert(t.0[i] == p.0[i]);
            } else {
                assert(t.0.take(i) =~= p.0);
            }
        }
    }
}

/// A tick runs the generator on: its draws are the next samples of one pseudo-random
/// sequence, two per service that runs after the tick, in service order, and the generator
/// ends where the last of them left it, so the next tick continues the sequence.
pub proof fn lemma_tick_continues_generator(a: AppView)
    ensures
        a.tick_spec().rng == lcg_iter(a.rng, 2 * count_running(a.tick_spec().services)),
        a.tick_draws().len() == a.services.len(),
        forall|i: int|
            0 <= i < a.services.len() ==> #[trigger] a.tick_draws()[i] == if a.tick_spec().services[i].state
                == ServiceState::Running {
                let j = count_running(a.tick_spec().services.take(i));
                Some((lcg_sample(lcg_iter(a.rng, 2 * j + 1)), lcg_sample(lcg_iter(a.rng, 2 * j + 2))))
            } else {
                None
            },
{
    lemma_tick_services_generator(a.services, a.rng);
}

/// The pending `g`: outside the help overlay a key that does not quit leaves it set
/// exactly when the key is `g` and no `g` was pending (the first half of `gg`); every other
/// key clears it. The help overlay and the quit keys leave it as it was.
pub proof fn lemma_pending_g(a: AppView, g: bool, k: KeyEvent)
    ensures
        a.show_help ==> a.command_spec(g, command_for(a.show_help, k)).1 == g,
        command_for(a.show_help, k) == Command::Quit ==> a.command_spec(
            g,
            command_for(a.show_help, k),
        ).1 == g,
        !a.show_help && command_for(a.show_help, k) != Command::Quit ==> a.command_spec(
            g,
            command_for(a.show_help, k),
        ).1 == (k.code == KeyCode::Char('g') && !g),
{
}

/// `b` is `a` after an action on the selected service logged as `verb` and toasted as
/// `past`: the other services, the selected one's name, uptime and history, and the
/// selection stay; the log ends with the action and the service's name, stamped with the
/// clock; an information toast names them.
pub open spec fn action_outcome(a: AppView, b: AppView, verb: Seq<char>, past: Seq<char>) -> bool {
    let i = a.selected as int;
    let name = a.services[i].name;
    &&& b.services.len() == a.services.len()
    &&& forall|j: int|
        0 <= j < a.services.len() && j != i ==> #[trigger] b.services[j] == a.services[j]
    &&& b.services[i].name == name
    &&& b.services[i].uptime_s == a.services[i].uptime_s
    &&& b.services[i].cpu_history == a.services[i].cpu_history
    &&& b.selected == a.selected
    &&& b.logs.last() == clock_text(a.clock as nat) + seq![' '] + verb + name
    &&& b.toast == Some((past + name, ToastKind::Info))
}

proof fn lemma_action_outcome(a: AppView, st: ServiceState, verb: Seq<char>, past: Seq<char>)
    requires
        a.selected < a.services.len(),
    ensures
        action_outcome(a, a.service_action(st, verb, past), verb, past),
        a.service_action(st, verb, past).services[a.selected as int].state == st,
{
    let name = a.services[a.selected as int].name;
    assert(log_line(a.clock, verb + name) =~= clock_text(a.clock as nat) + seq![' '] + verb
        + name);
}

/// Each action on the selected service leaves it in its state, whatever it was before:
/// `stop` stopped, `start` running, `restart` restarting, `toggle` stopped if it ran and
/// running otherwise; and each has the outcome `action_outcome` describes.
pub proof fn lemma_service_actions(a: AppView)
    requires
        a.selected < a.services.len(),
    ensures
        a.stop_spec().services[a.selected as int].state == ServiceState::Stopped,
        a.start_spec().services[a.selected as int].state == ServiceState::Running,
        a.restart_spec().services[a.selected as int].state == ServiceState::Restarting,
        a.toggle_spec().services[a.selected as int].state == if a.services[a.selected as int].state
            == ServiceState::Running {
            ServiceState::Stopped
        } else {
            ServiceState::Running
        },
        action_outcome(a, a.stop_spec(), "stop "@, "stopped "@),
        action_outcome(a, a.start_spec(), "start "@, "started "@),
        action_outcome(a, a.restart_spec(), "restart "@, "restarting "@),
        action_outcome(a, a.toggle_spec(), "toggle "@, "toggled "@),
{
    lemma_action_outcome(a, ServiceState::Stopped, "stop "@, "stopped "@);
    lemma_action_outcome(a, ServiceState::Running, "start "@, "started "@);
    lemma_action_outcome(a, ServiceState::Restarting, "restart "@, "restarting "@);
    lemma_action_outcome(a, a.toggle_target(), "toggle "@, "toggled "@);
}

/// The uptime text `HHh MMm SSs` is made of hours, minutes below 60 and seconds below 60
/// that add back up to the seconds, each at least two digits that read back as the field.
pub proof fn lemma_uptime_fields(secs: nat)
    ensures
        exists|h: nat, m: nat, s: nat|
            {
                &&& uptime_text(secs) == pad2(h) + seq!['h', ' '] + pad2(m) + seq!['m', ' ']
                    + pad2(s) + seq!['s']
                &&& m < 60
                &&& s < 60
                &&& h * 3600 + m * 60 + s == secs
            },
{
    crate::text::lemma_clock_fields(secs);
    let h = secs / 3600;
    let m = (secs / 60) % 60;
    let s = secs % 60;
    assert(uptime_text(secs) == pad2(h) + seq!['h', ' '] + pad2(m) + seq!['m', ' '] + pad2(s)
        + seq!['s']);
}

/// The clock text `HH:MM:SS` is made of hours, minutes below 60 and seconds below 60 that
/// add back up to the seconds.
pub proof fn lemma_clock_text_fields(secs: nat)
    ensures
        exists|h: nat, m: nat, s: nat|
            {
                &&& clock_text(secs) == pad2(h) + seq![':'] + pad2(m) + seq![':'] + pad2(s)
                &&& m < 60
                &&& s < 60
                &&& h * 3600 + m * 60 + s == secs
                &&& digits_value(pad2(h)) == h
            },
{
    crate::text::lemma_clock_fields(secs);
    let h = secs / 3600;
    let m = (secs / 60) % 60;
    let s = secs % 60;
    assert(clock_text(secs) == pad2(h) + seq![':'] + pad2(m) + seq![':'] + pad2(s));
}

/// The status bar names the focused pane: "list" while the list has the focus, whatever
/// the tab; otherwise the pane the tab shows on the right, "logs" or "overview".
pub proof fn lemma_focus_label_names_pane(f: Focus, t: Tab)
    ensures
        f == Focus::List ==> focus_label_spec(f, t) == "list"@,
        f == Focus::Detail ==> focus_label_spec(f, t) == if right_pane_spec(t) == Pane::Logs {
            "logs"@
        } else {
            "overview"@
        },
        focus_label_spec(Focus::List, t) != focus_label_spec(Focus::Detail, t),
{
    reveal_strlit("list");
    reveal_strlit("logs");
    reveal_strlit("overview");
    assert("list"@[1] != "logs"@[1]);
    assert("list"@[0] != "overview"@[0]);
}

/// Navigation moves the selection by one step at a time and only the selection: down
/// stops at the last service, up at the first, `first` and `last` jump to the ends.
pub proof fn lemma_navigation_steps(a: AppView)
    requires
        a.selected < a.services.len(),
        a.services.len() <= usize::MAX,
    ensures
        a.next_spec().selected == if a.selected + 1 < a.services.len() {
            a.selected + 1
        } else {
            a.selected as int
        },
        a.prev_spec().selected == if a.selected > 0 {
            a.selected - 1
        } else {
            0
        },
        a.first_spec().selected == 0,
        a.last_spec().selected == a.services.len() - 1,
        a.next_spec().services == a.services && a.next_spec().logs == a.logs
            && a.next_spec().toast == a.toast && a.next_spec().focus == a.focus
            && a.next_spec().tab == a.tab,
        a.prev_spec().services == a.services && a.prev_spec().logs == a.logs
            && a.prev_spec().toast == a.toast && a.prev_spec().focus == a.focus
            && a.prev_spec().tab == a.tab,
{
}

/// The key bindings outside the help overlay: `j`/Down and `k`/Up move the selection down
/// and up by one, `G` selects the last service, `h`/Left and `l`/Right focus the list and
/// the detail pane, `?` opens the help, Tab switches between the overview and the logs,
/// and Enter, `r`, `s`, `S` toggle, restart, stop and start the selected service.
pub proof fn lemma_key_bindings(a: AppView, g: bool, k: KeyEvent)
    requires
        !a.show_help,
        a.selected < a.services.len(),
        a.services.len() <= usize::MAX,
    ensures
        ({
            let r = a.command_spec(g, command_for(a.show_help, k)).0;
            let i = a.selected as int;
            &&& (k.code == KeyCode::Char('j') || k.code == KeyCode::Down) ==> r.selected
                == if a.selected + 1 < a.services.len() {
                a.selected + 1
            } else {
                a.selected as int
            }
            &&& (k.code == KeyCode::Char('k') || k.code == KeyCode::Up) ==> r.selected
                == if a.selected > 0 {
                a.selected - 1
            } else {
                0
            }
            &&& k.code == KeyCode::Char('G') ==> r.selected == a.services.len() - 1
            &&& (k.code == KeyCode::Char('h') || k.code == KeyCode::Left) ==> r.focus
                == Focus::List
            &&& (k.code == KeyCode::Char('l') || k.code == KeyCode::Right) ==> r.focus
                == Focus::Detail
            &&& k.code == KeyCode::Char('?') ==> r.show_help
            &&& k.code == KeyCode::Tab ==> r.tab == if a.tab == Tab::Logs {
                Tab::Dashboard
            } else {
                Tab::Logs
            }
            &&& k.code == KeyCode::Enter ==> r.services[i].state == if a.services[i].state
                == ServiceState::Running {
                ServiceState::Stopped
            } else {
                ServiceState::Running
            }
            &&& k.code == KeyCode::Char('r') ==> r.services[i].state == ServiceState::Restarting
            &&& k.code == KeyCode::Char('s') ==> r.services[i].state == ServiceState::Stopped
            &&& k.code == KeyCode::Char('S') ==> r.services[i].state == ServiceState::Running
        }),
{
    lemma_service_actions(a);
}

/// Recording CPU samples appends one sample to each service's history: the given one for
/// a running service, 0 for any other, after the samples it held before (the oldest
/// dropped beyond `CPU_HISTORY_LEN`).
pub proof fn lemma_record_cpu_appends(a: AppView, samples: Seq<u64>)
    requires
        samples.len() == a.services.len(),
    ensures
        a.record_cpu_spec(samples).services.len() == a.services.len(),
        forall|i: int|
            0 <= i < a.services.len() ==> {
                let h = #[trigger] a.record_cpu_spec(samples).services[i].cpu_history;
                let o = a.services[i];
                &&& h.last() == if o.state == ServiceState::Running {
                    samples[i]
                } else {
                    0
                }
                &&& h.drop_last() == if o.cpu_history.len() + 1 > crate::model::CPU_HISTORY_LEN {
                    o.cpu_history.drop_first()
                } else {
                    o.cpu_history
                }
                &&& a.record_cpu_spec(samples).services[i].state == o.state
                &&& a.record_cpu_spec(samples).services[i].name == o.name
            },
{
    assert forall|i: int| 0 <= i < a.services.len() implies {
        let h = #[trigger] a.record_cpu_spec(samples).services[i].cpu_history;
        let o = a.services[i];
        h.drop_last() == if o.cpu_history.len() + 1 > crate::model::CPU_HISTORY_LEN {
            o.cpu_history.drop_first()
        } else {
            o.cpu_history
        }
    } by {
        let o = a.services[i];
        let h = a.record_cpu_spec(samples).services[i].cpu_history;
        if o.cpu_history.len() + 1 > crate::model::CPU_HISTORY_LEN {
            assert(h.drop_last() =~= o.cpu_history.drop_first());
        } else {
            assert(h.drop_last() =~= o.cpu_history);
        }
    }
}

/// Writing to the log appends the line stamped with the clock, after the lines kept before.
pub proof fn lemma_log_appends(a: AppView, text: Seq<char>)
    ensures
        a.logged(text).logs.last() == clock_text(a.clock as nat) + seq![' '] + text,
        a.logged(text).logs.drop_last() == if a.logs.len() + 1 > crate::model::LOG_MAX {
            a.logs.drop_first()
        } else {
            a.logs
        },
        a.logged(text).services == a.services,
        a.logged(text).selected == a.selected,
{
    if a.logs.len() + 1 > crate::model::LOG_MAX {
        assert(a.logged(text).logs.drop_last() =~= a.logs.drop_first());
    } else {
        assert(a.logged(text).logs.drop_last() =~= a.logs);
    }
}

/// The running count counts running services: none when no service runs, all when all
/// do, and one more for each running service added at the end.
pub proof fn lemma_running_count_counts(s: Seq<ServiceView>, v: ServiceView)
    ensures
        count_running(s) <= s.len(),
        (forall|i: int| 0 <= i < s.len() ==> #[trigger] s[i].state != ServiceState::Running)
            ==> count_running(s) == 0,
        (forall|i: int| 0 <= i < s.len() ==> #[trigger] s[i].state == ServiceState::Running)
            ==> count_running(s) == s.len(),
        count_running(s.push(v)) == count_running(s) + if v.state == ServiceState::Running {
            1int
        } else {
            0int
        },
    decreases s.len(),
{
    assert(s.push(v).drop_last() =~= s);
    if s.len() > 0 {
        lemma_running_count_counts(s.drop_last(), s.last());
        assert(s.drop_last().push(s.last()) =~= s);
    }
}

/// The status badge reads back as ` R/T up ` with the decimal digits of the running and
/// total counts.
pub proof fn lemma_status_badge_reads_back(running: nat, total: nat)
    ensures
        exists|r: Seq<char>, t: Seq<char>|
            {
                &&& crate::view::status_badge_spec(running, total) == seq![' '] + r + seq!['/']
                    + t + seq![' ', 'u', 'p', ' ']
                &&& crate::text::all_digits(r) && digits_value(r) == running
                &&& crate::text::all_digits(t) && digits_value(t) == total
            },
{
    crate::text::lemma_dec_round_trip(running);
    crate::text::lemma_dec_round_trip(total);
    let r = crate::text::dec(running);
    let t = crate::text::dec(total);
    assert(crate::view::status_badge_spec(running, total) == seq![' '] + r + seq!['/'] + t
        + seq![' ', 'u', 'p', ' ']);
}

/// Exactly the last row of a list gets the corner glyph; every other row a tee.
pub proof fn lemma_list_prefix_corner(i: usize, len: usize)
    requires
        i < len,
    ensures
        crate::view::list_prefix_spec(i, len) == if i == len - 1 {
            "└ "@
        } else {
            "├ "@
        },
        "└ "@ != "├ "@,
{
    reveal_strlit("└ ");
    reveal_strlit("├ ");
    assert("└ "@[0] != "├ "@[0]);
}

/// The tab bar, the right-hand pane and the state colors tell things apart: the two tabs
/// sit at different positions, the Logs tab and only it shows the logs pane, and the three
/// states have three different badge colors.
pub proof fn lemma_views_distinguish(t: Tab)
    ensures
        crate::view::tab_index_spec(Tab::Dashboard) != crate::view::tab_index_spec(Tab::Logs),
        crate::view::tab_index_spec(crate::model::tab_after(t)) != crate::view::tab_index_spec(t)
            || t == Tab::Metrics,
        (right_pane_spec(t) == Pane::Logs) == (t == Tab::Logs),
        crate::view::state_color_spec(ServiceState::Running) != crate::view::state_color_spec(
            ServiceState::Stopped,
        ),
        crate::view::state_color_spec(ServiceState::Running) != crate::view::state_color_spec(
            ServiceState::Restarting,
        ),
        crate::view::state_color_spec(ServiceState::Stopped) != crate::view::state_color_spec(
            ServiceState::Restarting,
        ),
{
}

/// The inside of a bordered block is one cell in from every edge when the block is at
/// least two cells wide and high, and lies within the block whenever the block ends within
/// the coordinate range.
pub proof fn lemma_block_inner(area: crate::view::Rect)
    ensures
        area.x + area.width <= u16::MAX && area.y + area.height <= u16::MAX
            ==> crate::layout::inside(crate::layout::block_inner_spec(area), area),
        area.width >= 2 && area.height >= 2 && area.x + area.width <= u16::MAX && area.y
            + area.height <= u16::MAX ==> crate::layout::block_inner_spec(area)
            == (crate::view::Rect {
            x: (area.x + 1) as u16,
            y: (area.y + 1) as u16,
            width: (area.width - 2) as u16,
            height: (area.height - 2) as u16,
        }),
{
}

/// The toast is as wide as its text plus four, but at most 48 and at most the area's
/// width less two, and three rows high when the area leaves room below its top row.
pub proof fn lemma_toast_size(area: crate::view::Rect, text_len: usize)
    requires
        (text_len as u16) + 4 <= u16::MAX,
        area.y < u16::MAX - 3,
        area.x + area.width <= u16::MAX,
    ensures
        crate::view::toast_rect_spec(area, text_len).width == crate::view::min16(
            crate::view::min16(((text_len as u16) + 4) as u16, 48),
            crate::view::sat_sub16(area.width, 2),
        ),
        crate::view::toast_rect_spec(area, text_len).height == 3,
        crate::view::toast_rect_spec(area, text_len).y == area.y + 1,
{
}

} // verus!

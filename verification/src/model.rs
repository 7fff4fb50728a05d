//! Application state of the service dashboard, independent of any terminal library.
use vstd::prelude::*;
use crate::input::{command_for, decode_key, Command, KeyCode, KeyEvent};
use crate::text::{clock_text, fmt_clock};

verus! {

/// How many CPU samples a service keeps.
pub const CPU_HISTORY_LEN: usize = 64;

/// How many log lines the application keeps.
pub const LOG_MAX: usize = 200;

/// Lifecycle state of a supervised service.
#[derive(Clone, Copy, PartialEq, Eq, Structural, Debug)]
pub enum ServiceState {
    Running,
    Stopped,
    Restarting,
}

pub open spec fn service_state_label(s: ServiceState) -> Seq<char> {
    match s {
        ServiceState::Running => " RUNNING "@,
        ServiceState::Stopped => " STOPPED "@,
        ServiceState::Restarting => " RESTART "@,
    }
}

impl ServiceState {
    /// The badge text shown for the state.
    pub fn label(self) -> (res: &'static str)
        ensures
            res@ == service_state_label(self),
    {
        match self {
            ServiceState::Running => " RUNNING ",
            ServiceState::Stopped => " STOPPED ",
            ServiceState::Restarting => " RESTART ",
        }
    }
}

/// The state that toggling a service leads to.
pub open spec fn toggled_state(s: ServiceState) -> ServiceState {
    match s {
        ServiceState::Running => ServiceState::Stopped,
        ServiceState::Stopped => ServiceState::Running,
        ServiceState::Restarting => ServiceState::Running,
    }
}

/// A supervised service. Its CPU and memory readings are floating-point values kept by
/// the program that drives the dashboard; the history of whole CPU percentages is here.
pub struct Service {
    pub name: String,
    pub state: ServiceState,
    pub uptime_s: u64,
    pub cpu_history: Vec<u64>,
}

/// What a service is, as plain values.
pub struct ServiceView {
    pub name: Seq<char>,
    pub state: ServiceState,
    pub uptime_s: u64,
    pub cpu_history: Seq<u64>,
}

impl View for Service {
    type V = ServiceView;

    open spec fn view(&self) -> ServiceView {
        ServiceView {
            name: self.name@,
            state: self.state,
            uptime_s: self.uptime_s,
            cpu_history: self.cpu_history@,
        }
    }
}

impl Service {
    fn new(name: &str, state: ServiceState) -> (res: Service)
        ensures
            res@ == (ServiceView { name: name@, state, uptime_s: 0, cpu_history: seq![] }),
    {
        Service {
            name: String::from_str(name),
            state,
            uptime_s: 0,
            cpu_history: Vec::with_capacity(CPU_HISTORY_LEN),
        }
    }
}

/// Which pane has the keyboard focus.
#[derive(Clone, Copy, PartialEq, Eq, Structural, Debug)]
pub enum Focus {
    List,
    Detail,
}

/// The tab shown in the right-hand pane.
#[derive(Clone, Copy, PartialEq, Eq, Structural, Debug)]
pub enum Tab {
    Dashboard,
    Metrics,
    Logs,
}

pub open spec fn tab_label(t: Tab) -> Seq<char> {
    match t {
        Tab::Dashboard => "Dashboard"@,
        Tab::Metrics => "Metrics"@,
        Tab::Logs => "Logs"@,
    }
}

/// The tab the Tab key switches to: the tab bar holds the overview (`Dashboard`, which
/// `Metrics` also shows) and `Logs`, and the key switches between the two.
pub open spec fn tab_after(t: Tab) -> Tab {
    match t {
        Tab::Logs => Tab::Dashboard,
        _ => Tab::Logs,
    }
}

impl Tab {
    /// The title of the tab.
    pub fn label(self) -> (res: &'static str)
        ensures
            res@ == tab_label(self),
    {
        match self {
            Tab::Dashboard => "Dashboard",
            Tab::Metrics => "Metrics",
            Tab::Logs => "Logs",
        }
    }

    /// The tab the Tab key switches to: from the logs to the overview, otherwise to the logs.
    pub fn next(self) -> (res: Tab)
        ensures
            res == tab_after(self),
    {
        match self {
            Tab::Logs => Tab::Dashboard,
            _ => Tab::Logs,
        }
    }
}

/// How a toast is framed.
#[derive(Clone, Copy, PartialEq, Eq, Structural, Debug)]
pub enum ToastKind {
    Info,
    Error,
}

/// Appends `x`, then drops the oldest element when the sequence grew past `cap`.
pub open spec fn push_bounded<T>(s: Seq<T>, x: T, cap: nat) -> Seq<T> {
    if s.len() + 1 > cap {
        s.push(x).drop_first()
    } else {
        s.push(x)
    }
}

/// The last `n` elements of `h` (all of them when there are fewer).
pub open spec fn latest<T>(h: Seq<T>, n: nat) -> Seq<T> {
    if h.len() <= n {
        h
    } else {
        h.subrange(h.len() - n, h.len() as int)
    }
}

/// A bounded buffer fed one element at a time holds exactly the latest `cap` elements of
/// everything that was fed to it, oldest first.
pub proof fn lemma_push_bounded_keeps_latest<T>(h: Seq<T>, x: T, cap: nat)
    requires
        cap > 0,
    ensures
        push_bounded(latest(h, cap), x, cap) == latest(h.push(x), cap),
        push_bounded(latest(h, cap), x, cap).len() <= cap,
        push_bounded(latest(h, cap), x, cap).last() == x,
{
    assert(push_bounded(latest(h, cap), x, cap) =~= latest(h.push(x), cap));
}

/// Number of running services.
pub open spec fn count_running(s: Seq<ServiceView>) -> nat
    decreases s.len(),
{
    if s.len() == 0 {
        0
    } else {
        count_running(s.drop_last()) + if s.last().state == ServiceState::Running {
            1nat
        } else {
            0nat
        }
    }
}

/// One step of the generator behind the simulated metrics.
pub open spec fn lcg_step(r: u64) -> u64 {
    r.wrapping_mul(6364136223846793005).wrapping_add(1442695040888963407)
}

/// The 32-bit sample drawn from a generator state.
pub open spec fn lcg_sample(r: u64) -> u32 {
    (r >> 33u64) as u32
}

/// Advances the generator and returns the high 32 bits of its new state.
pub fn next_sample(rng: &mut u64) -> (res: u32)
    ensures
        *final(rng) == lcg_step(*old(rng)),
        res == lcg_sample(*final(rng)),
{
    *rng = rng.wrapping_mul(6364136223846793005).wrapping_add(1442695040888963407);
    (*rng >> 33u64) as u32
}

/// One service through one tick: a restarting service runs again with its uptime reset,
/// a running service gains a second of uptime and draws two samples.
#[verifier::opaque]
pub open spec fn tick_service(s: ServiceView, r: u64) -> (ServiceView, Option<(u32, u32)>, u64) {
    let st = if s.state == ServiceState::Restarting {
        ServiceState::Running
    } else {
        s.state
    };
    let up: int = if s.state == ServiceState::Restarting {
        0
    } else {
        s.uptime_s as int
    };
    if st == ServiceState::Running {
        let r1 = lcg_step(r);
        let r2 = lcg_step(r1);
        (
            ServiceView { state: st, uptime_s: (up + 1) as u64, ..s },
            Some((lcg_sample(r1), lcg_sample(r2))),
            r2,
        )
    } else {
        (ServiceView { state: st, uptime_s: up as u64, ..s }, None, r)
    }
}

/// All services through one tick, in order, threading the generator through them.
#[verifier::opaque]
pub open spec fn tick_services(s: Seq<ServiceView>, r: u64) -> (
    Seq<ServiceView>,
    Seq<Option<(u32, u32)>>,
    u64,
)
    decreases s.len(),
{
    if s.len() == 0 {
        (seq![], seq![], r)
    } else {
        let (ps, pd, pr) = tick_services(s.drop_last(), r);
        let (t, d, r2) = tick_service(s.last(), pr);
        (ps.push(t), pd.push(d), r2)
    }
}

/// The CPU sample recorded for a service: the given one while it runs, 0 otherwise.
pub open spec fn recorded_sample(s: ServiceView, sample: u64) -> u64 {
    if s.state == ServiceState::Running {
        sample
    } else {
        0
    }
}

/// The views of a list of services.
pub open spec fn services_view(v: Seq<Service>) -> Seq<ServiceView> {
    v.map_values(|s: Service| s@)
}

fn tick_one(s: &mut Service, rng: &mut u64) -> (d: Option<(u32, u32)>)
    requires
        old(s).state == ServiceState::Running ==> old(s).uptime_s < u64::MAX,
    ensures
        (final(s)@, d, *final(rng)) == tick_service(old(s)@, *old(rng)),
{
    reveal(tick_service);
    if s.state == ServiceState::Restarting {
        s.state = ServiceState::Running;
        s.uptime_s = 0;
    }
    if s.state == ServiceState::Running {
        s.uptime_s = s.uptime_s + 1;
        let a = next_sample(rng);
        let b = next_sample(rng);
        Some((a, b))
    } else {
        None
    }
}

fn record_one(s: &mut Service, sample: u64)
    ensures
        final(s)@ == (ServiceView {
            cpu_history: push_bounded(
                old(s)@.cpu_history,
                recorded_sample(old(s)@, sample),
                CPU_HISTORY_LEN as nat,
            ),
            ..old(s)@
        }),
{
    let v = if s.state == ServiceState::Running {
        sample
    } else {
        0
    };
    s.cpu_history.push(v);
    if s.cpu_history.len() > CPU_HISTORY_LEN {
        s.cpu_history.remove(0);
    }
    proof {
        assert(s.cpu_history@ =~= push_bounded(
            old(s)@.cpu_history,
            recorded_sample(old(s)@, sample),
            CPU_HISTORY_LEN as nat,
        ));
    }
}

proof fn lemma_tick_services_step(s: Seq<ServiceView>, i: int, r: u64)
    requires
        0 <= i < s.len(),
    ensures
        ({
            let p = tick_services(s.take(i), r);
            let q = tick_service(s[i], p.2);
            tick_services(s.take(i + 1), r) == (p.0.push(q.0), p.1.push(q.1), q.2)
        }),
{
    reveal(tick_services);
    assert(s.take(i + 1).drop_last() =~= s.take(i));
    assert(s.take(i + 1).last() == s[i]);
}

proof fn lemma_view_update_take(before: Seq<Service>, after: Seq<Service>, i: int)
    requires
        0 <= i < before.len(),
        after == before.update(i, after[i]),
    ensures
        services_view(after).take(i + 1) =~= services_view(before).take(i).push(after[i]@),
        forall|j: int| i < j < after.len() ==> #[trigger] after[j] == before[j],
{
}

/// A freshly seeded service.
pub open spec fn seeded(name: Seq<char>, state: ServiceState) -> ServiceView {
    ServiceView { name, state, uptime_s: 0, cpu_history: seq![] }
}

/// The services the dashboard starts with.
pub open spec fn seed_view() -> Seq<ServiceView> {
    seq![
        seeded("api"@, ServiceState::Running),
        seeded("db"@, ServiceState::Running),
        seeded("cache"@, ServiceState::Stopped),
        seeded("worker"@, ServiceState::Running),
        seeded("scheduler"@, ServiceState::Stopped),
        seeded("proxy"@, ServiceState::Running),
    ]
}

fn seed() -> (res: Vec<Service>)
    ensures
        services_view(res@) == seed_view(),
{
    let mut v: Vec<Service> = Vec::new();
    v.push(Service::new("api", ServiceState::Running));
    v.push(Service::new("db", ServiceState::Running));
    v.push(Service::new("cache", ServiceState::Stopped));
    v.push(Service::new("worker", ServiceState::Running));
    v.push(Service::new("scheduler", ServiceState::Stopped));
    v.push(Service::new("proxy", ServiceState::Running));
    proof {
        assert(services_view(v@) =~= seed_view());
    }
    v
}

/// None of the first `n` services is running with the largest uptime.
pub open spec fn uptimes_have_room(s: Seq<ServiceView>, n: int) -> bool {
    forall|j: int|
        0 <= j < n && #[trigger] s[j].state == ServiceState::Running ==> s[j].uptime_s < u64::MAX
}

/// The whole application state as plain values.
pub struct AppView {
    pub services: Seq<ServiceView>,
    pub selected: usize,
    pub focus: Focus,
    pub tab: Tab,
    pub show_help: bool,
    pub toast: Option<(Seq<char>, ToastKind)>,
    pub logs: Seq<Seq<char>>,
    pub toast_ticks: u32,
    pub rng: u64,
    pub clock: u64,
    pub tick_count: u64,
}

/// The log line for `text` written at `clock`.
pub open spec fn log_line(clock: u64, text: Seq<char>) -> Seq<char> {
    clock_text(clock as nat) + seq![' '] + text
}

impl AppView {
    /// Bounds that every operation keeps: the log and the CPU histories stay within their
    /// capacities and the selection points at a service whenever there is one.
    pub open spec fn wf(self) -> bool {
        &&& self.logs.len() <= LOG_MAX
        &&& forall|i: int|
            0 <= i < self.services.len() ==> #[trigger] self.services[i].cpu_history.len()
                <= CPU_HISTORY_LEN
        &&& self.services.len() > 0 ==> self.selected < self.services.len()
        &&& self.services.len() <= usize::MAX
    }

    pub open spec fn with_selected(self, sel: usize) -> AppView {
        AppView { selected: sel, ..self }
    }

    pub open spec fn next_spec(self) -> AppView {
        if self.services.len() > 0 {
            let n = if self.selected + 1 < self.services.len() {
                (self.selected + 1) as usize
            } else {
                (self.services.len() - 1) as usize
            };
            self.with_selected(n)
        } else {
            self
        }
    }

    pub open spec fn prev_spec(self) -> AppView {
        self.with_selected(if self.selected > 0 { (self.selected - 1) as usize } else { 0 })
    }

    pub open spec fn first_spec(self) -> AppView {
        self.with_selected(0)
    }

    pub open spec fn last_spec(self) -> AppView {
        if self.services.len() > 0 {
            self.with_selected((self.services.len() - 1) as usize)
        } else {
            self
        }
    }

    /// The state after writing `text` to the log.
    pub open spec fn logged(self, text: Seq<char>) -> AppView {
        AppView { logs: push_bounded(self.logs, log_line(self.clock, text), LOG_MAX as nat), ..self }
    }

    pub open spec fn toast_set(self, text: Seq<char>, kind: ToastKind) -> AppView {
        AppView { toast: Some((text, kind)), toast_ticks: 0, ..self }
    }

    /// Name of the selected service, empty when the selection points past the list.
    pub open spec fn selected_name_spec(self) -> Seq<char> {
        if self.selected < self.services.len() {
            self.services[self.selected as int].name
        } else {
            seq![]
        }
    }

    /// The selected service put into state `st` (no change when nothing is selected).
    pub open spec fn with_selected_state(self, st: ServiceState) -> AppView {
        if self.selected < self.services.len() {
            let s = self.services[self.selected as int];
            AppView {
                services: self.services.update(self.selected as int, ServiceView { state: st, ..s }),
                ..self
            }
        } else {
            self
        }
    }

    /// An action on the selected service: its new state, a log line `log_prefix + name`
    /// and an information toast `toast_prefix + name`.
    pub open spec fn service_action(
        self,
        st: ServiceState,
        log_prefix: Seq<char>,
        toast_prefix: Seq<char>,
    ) -> AppView {
        let name = self.selected_name_spec();
        self.with_selected_state(st).logged(log_prefix + name).toast_set(
            toast_prefix + name,
            ToastKind::Info,
        )
    }

    /// State of the selected service after toggling (Running when nothing is selected,
    /// which then changes nothing).
    pub open spec fn toggle_target(self) -> ServiceState {
        if self.selected < self.services.len() {
            toggled_state(self.services[self.selected as int].state)
        } else {
            ServiceState::Running
        }
    }

    pub open spec fn toggle_spec(self) -> AppView {
        self.service_action(self.toggle_target(), "toggle "@, "toggled "@)
    }

    pub open spec fn stop_spec(self) -> AppView {
        self.service_action(ServiceState::Stopped, "stop "@, "stopped "@)
    }

    pub open spec fn start_spec(self) -> AppView {
        self.service_action(ServiceState::Running, "start "@, "started "@)
    }

    pub open spec fn restart_spec(self) -> AppView {
        self.service_action(ServiceState::Restarting, "restart "@, "restarting "@)
    }

    /// The state of a new application: the seeded services, the first one selected,
    /// the list focused, the dashboard tab, and two start-up log lines at 00:00:00.
    pub open spec fn initial() -> AppView {
        AppView {
            services: seed_view(),
            selected: 0,
            focus: Focus::List,
            tab: Tab::Dashboard,
            show_help: false,
            toast: None,
            logs: seq![],
            toast_ticks: 0,
            rng: 0x9e37_79b9_7f4a_7c15,
            clock: 0,
            tick_count: 0,
        }.logged("daemon started"@).logged("6 services discovered"@)
    }

    /// The state and the pending-`g` flag after `cmd`, from pending flag `g`.
    pub open spec fn command_spec(self, g: bool, cmd: Command) -> (AppView, bool) {
        match cmd {
            Command::Quit => (self, g),
            Command::CloseHelp => (AppView { show_help: false, ..self }, g),
            Command::Ignore => (self, g),
            Command::OpenHelp => (AppView { show_help: true, ..self }, false),
            Command::Next => (self.next_spec(), false),
            Command::Prev => (self.prev_spec(), false),
            Command::GoFirstPrefix => if g {
                (self.first_spec(), false)
            } else {
                (self, true)
            },
            Command::Last => (self.last_spec(), false),
            Command::FocusList => (AppView { focus: Focus::List, ..self }, false),
            Command::FocusDetail => (AppView { focus: Focus::Detail, ..self }, false),
            Command::SwitchTab => (AppView { tab: tab_after(self.tab), ..self }, false),
            Command::Toggle => (self.toggle_spec(), false),
            Command::Restart => (self.restart_spec(), false),
            Command::Stop => (self.stop_spec(), false),
            Command::Start => (self.start_spec(), false),
            Command::Unbound => (self, false),
        }
    }

    pub open spec fn running_count_spec(self) -> nat {
        count_running(self.services)
    }

    /// A tick can run without an overflow: the counters have room and no running service
    /// has reached the largest uptime.
    pub open spec fn can_tick(self) -> bool {
        &&& self.clock < u64::MAX
        &&& self.tick_count < u64::MAX
        &&& self.toast_ticks < u32::MAX
        &&& uptimes_have_room(self.services, self.services.len() as int)
    }

    /// The samples a tick draws, one entry per service (`None` for one that does not run).
    pub open spec fn tick_draws(self) -> Seq<Option<(u32, u32)>> {
        tick_services(self.services, self.rng).1
    }

    /// The state after one tick: services advance, the clock and tick counter grow,
    /// every 24th tick logs a heartbeat, and a toast older than 8 ticks disappears.
    pub open spec fn tick_spec(self) -> AppView {
        let t = tick_services(self.services, self.rng);
        let tc = (self.tick_count + 1) as u64;
        let a = AppView {
            services: t.0,
            rng: t.2,
            clock: (self.clock + 1) as u64,
            tick_count: tc,
            ..self
        };
        let b = if tc % 24 == 0 {
            a.logged("metrics heartbeat"@)
        } else {
            a
        };
        let tt = (self.toast_ticks + 1) as u32;
        AppView { toast_ticks: tt, toast: if tt > 8 { None } else { b.toast }, ..b }
    }

    /// Each service's CPU history after recording `samples`.
    pub open spec fn record_cpu_spec(self, samples: Seq<u64>) -> AppView {
        AppView {
            services: Seq::new(
                self.services.len(),
                |i: int|
                    ServiceView {
                        cpu_history: push_bounded(
                            self.services[i].cpu_history,
                            recorded_sample(self.services[i], samples[i]),
                            CPU_HISTORY_LEN as nat,
                        ),
                        ..self.services[i]
                    },
            ),
            ..self
        }
    }
}

/// The application: services, selection, focus, tab, help overlay, toast and log.
pub struct App {
    pub services: Vec<Service>,
    pub selected: usize,
    pub focus: Focus,
    pub tab: Tab,
    pub show_help: bool,
    pub toast: Option<(String, ToastKind)>,
    pub logs: Vec<String>,
    toast_ticks: u32,
    rng: u64,
    clock: u64,
    tick_count: u64,
}

pub open spec fn toast_view(t: Option<(String, ToastKind)>) -> Option<(Seq<char>, ToastKind)> {
    match t {
        Some((s, k)) => Some((s@, k)),
        None => None,
    }
}

impl View for App {
    type V = AppView;

    closed spec fn view(&self) -> AppView {
        AppView {
            services: services_view(self.services@),
            selected: self.selected,
            focus: self.focus,
            tab: self.tab,
            show_help: self.show_help,
            toast: toast_view(self.toast),
            logs: self.logs@.map_values(|l: String| l@),
            toast_ticks: self.toast_ticks,
            rng: self.rng,
            clock: self.clock,
            tick_count: self.tick_count,
        }
    }
}

impl App {
    /// Moves the selection one service down, stopping at the last one.
    pub fn next(&mut self)
        requires
            old(self)@.services.len() > 0 ==> old(self)@.selected < usize::MAX,
        ensures
            final(self)@ == old(self)@.next_spec(),
    {
        if self.services.len() > 0 {
            let last = self.services.len() - 1;
            let n = self.selected + 1;
            self.selected = if n < last { n } else { last };
        }
    }

    /// Moves the selection one service up, stopping at the first one.
    pub fn prev(&mut self)
        ensures
            final(self)@ == old(self)@.prev_spec(),
    {
        self.selected = self.selected.saturating_sub(1);
    }

    /// Selects the first service.
    pub fn first(&mut self)
        ensures
            final(self)@ == old(self)@.first_spec(),
    {
        self.selected = 0;
    }

    /// Selects the last service.
    pub fn last(&mut self)
        ensures
            final(self)@ == old(self)@.last_spec(),
    {
        if self.services.len() > 0 {
            self.selected = self.services.len() - 1;
        }
    }

    /// A new application in its initial state.
    pub fn new() -> (res: App)
        ensures
            res@ == AppView::initial(),
    {
        let mut app = App {
            services: seed(),
            selected: 0,
            focus: Focus::List,
            tab: Tab::Dashboard,
            show_help: false,
            toast: None,
            logs: Vec::new(),
            toast_ticks: 0,
            rng: 0x9e37_79b9_7f4a_7c15,
            clock: 0,
            tick_count: 0,
        };
        proof {
            assert(app@.logs =~= Seq::<Seq<char>>::empty());
        }
        app.log("daemon started");
        app.log("6 services discovered");
        app
    }

    fn selected_name(&self) -> (res: String)
        ensures
            res@ == self@.selected_name_spec(),
    {
        if self.selected < self.services.len() {
            self.services[self.selected].name.clone()
        } else {
            String::new()
        }
    }

    fn set_selected_state(&mut self, st: ServiceState)
        ensures
            final(self)@ == old(self)@.with_selected_state(st),
    {
        if self.selected < self.services.len() {
            let i = self.selected;
            self.services[i].state = st;
            proof {
                assert(self@.services =~= old(self)@.with_selected_state(st).services);
                assert(self@.logs =~= old(self)@.logs);
            }
        }
    }

    fn service_action(&mut self, st: ServiceState, log_prefix: &str, toast_prefix: &str)
        ensures
            final(self)@ == old(self)@.service_action(st, log_prefix@, toast_prefix@),
    {
        self.set_selected_state(st);
        let name = self.selected_name();
        let mut line = String::from_str(log_prefix);
        line.append(name.as_str());
        self.log(line.as_str());
        let mut text = String::from_str(toast_prefix);
        text.append(name.as_str());
        self.set_toast(text, ToastKind::Info);
    }

    /// Toggles the selected service: running stops, stopped or restarting runs.
    pub fn toggle(&mut self)
        ensures
            final(self)@ == old(self)@.toggle_spec(),
    {
        let st = if self.selected < self.services.len() {
            match self.services[self.selected].state {
                ServiceState::Running => ServiceState::Stopped,
                ServiceState::Stopped => ServiceState::Running,
                ServiceState::Restarting => ServiceState::Running,
            }
        } else {
            ServiceState::Running
        };
        self.service_action(st, "toggle ", "toggled ");
    }

    /// Stops the selected service.
    pub fn stop(&mut self)
        ensures
            final(self)@ == old(self)@.stop_spec(),
    {
        self.service_action(ServiceState::Stopped, "stop ", "stopped ");
    }

    /// Starts the selected service.
    pub fn start(&mut self)
        ensures
            final(self)@ == old(self)@.start_spec(),
    {
        self.service_action(ServiceState::Running, "start ", "started ");
    }

    /// Puts the selected service into the restarting state; the next tick runs it again.
    pub fn restart(&mut self)
        ensures
            final(self)@ == old(self)@.restart_spec(),
    {
        self.service_action(ServiceState::Restarting, "restart ", "restarting ");
    }

    /// Number of running services.
    pub fn running_count(&self) -> (res: usize)
        ensures
            res == self@.running_count_spec(),
            res <= self@.services.len(),
    {
        let mut n: usize = 0;
        let mut i: usize = 0;
        while i < self.services.len()
            invariant
                i <= self.services.len(),
                n == count_running(self@.services.take(i as int)),
                n <= i,
            decreases self.services.len() - i,
        {
            proof {
                assert(self@.services.take(i + 1).drop_last() =~= self@.services.take(i as int));
            }
            if self.services[i].state == ServiceState::Running {
                n = n + 1;
            }
            i = i + 1;
        }
        proof {
            assert(self@.services.take(i as int) =~= self@.services);
        }
        n
    }

    /// Index of the selected service.
    pub fn selected_index(&self) -> (res: usize)
        ensures
            res == self@.selected,
    {
        self.selected
    }

    /// Whether the help overlay is shown.
    pub fn help_shown(&self) -> (res: bool)
        ensures
            res == self@.show_help,
    {
        self.show_help
    }

    /// Number of services.
    pub fn service_count(&self) -> (res: usize)
        ensures
            res == self@.services.len(),
    {
        self.services.len()
    }

    /// The service list and the log of an application fit in `usize`, as every `Vec` does.
    pub proof fn lemma_len_fits(&self)
        ensures
            self@.services.len() <= usize::MAX,
            self@.logs.len() <= usize::MAX,
    {
        assert(self.services.len() == self.services@.len());
        assert(self.logs.len() == self.logs@.len());
    }

    /// Whether a tick can run without a counter overflowing.
    pub fn can_tick(&self) -> (res: bool)
        ensures
            res == self@.can_tick(),
    {
        let counters = self.clock < u64::MAX && self.tick_count < u64::MAX && self.toast_ticks
            < u32::MAX;
        let mut ok = true;
        let mut i: usize = 0;
        while i < self.services.len()
            invariant
                i <= self.services.len(),
                ok == uptimes_have_room(self@.services, i as int),
            decreases self.services.len() - i,
        {
            proof {
                assert(self@.services[i as int] == self.services@[i as int]@);
                assert(uptimes_have_room(self@.services, i + 1) == (uptimes_have_room(
                    self@.services,
                    i as int,
                ) && !(self@.services[i as int].state == ServiceState::Running
                    && self@.services[i as int].uptime_s == u64::MAX)));
            }
            if self.services[i].state == ServiceState::Running && self.services[i].uptime_s
                == u64::MAX {
                ok = false;
            }
            i = i + 1;
        }
        counters && ok
    }

    /// Advances the simulation by one tick. Returns, for each service, the two samples
    /// drawn for its simulated CPU and memory readings, or `None` when it does not run.
    pub fn tick(&mut self) -> (draws: Vec<Option<(u32, u32)>>)
        requires
            old(self)@.can_tick(),
        ensures
            final(self)@ == old(self)@.tick_spec(),
            draws@ == old(self)@.tick_draws(),
    {
        let mut svcs: Vec<Service> = Vec::new();
        std::mem::swap(&mut svcs, &mut self.services);
        let ghost s0 = old(self)@.services;
        let ghost r0 = old(self).rng;
        let mut rng = self.rng;
        let mut draws: Vec<Option<(u32, u32)>> = Vec::new();
        let n = svcs.len();
        let mut i: usize = 0;
        proof {
            reveal(tick_services);
            assert(s0.take(0) =~= Seq::<ServiceView>::empty());
        }
        while i < n
            invariant
                n == svcs.len(),
                n == s0.len(),
                i <= n,
                forall|j: int|
                    0 <= j < s0.len() && #[trigger] s0[j].state == ServiceState::Running
                        ==> s0[j].uptime_s < u64::MAX,
                tick_services(s0.take(i as int), r0).0 == services_view(svcs@).take(i as int),
                tick_services(s0.take(i as int), r0).1 == draws@,
                tick_services(s0.take(i as int), r0).2 == rng,
                forall|j: int| i <= j < n ==> #[trigger] svcs@[j]@ == s0[j],
            decreases n - i,
        {
            proof {
                lemma_tick_services_step(s0, i as int, r0);
            }
            let ghost before = svcs@;
            assert(svcs@[i as int]@ == s0[i as int]);
            assert(s0[i as int].state == ServiceState::Running ==> s0[i as int].uptime_s < u64::MAX);
            let d = tick_one(&mut svcs[i], &mut rng);
            draws.push(d);
            proof {
                lemma_view_update_take(before, svcs@, i as int);
            }
            i = i + 1;
        }
        proof {
            assert(s0.take(n as int) =~= s0);
            assert(services_view(svcs@).take(n as int) =~= services_view(svcs@));
        }
        self.services = svcs;
        self.rng = rng;
        self.clock = self.clock + 1;
        self.tick_count = self.tick_count + 1;
        if self.tick_count % 24 == 0 {
            self.log("metrics heartbeat");
        }
        self.toast_ticks = self.toast_ticks + 1;
        if self.toast_ticks > 8 {
            self.toast = None;
        }
        proof {
            assert(self@.services =~= old(self)@.tick_spec().services);
            assert(self@.logs =~= old(self)@.tick_spec().logs);
        }
        draws
    }

    /// Appends one CPU sample to each service's history, keeping the latest
    /// `CPU_HISTORY_LEN`: `samples[i]` for a running service, 0 for any other.
    pub fn record_cpu(&mut self, samples: &Vec<u64>)
        requires
            samples.len() == old(self)@.services.len(),
        ensures
            final(self)@ == old(self)@.record_cpu_spec(samples@),
    {
        let mut svcs: Vec<Service> = Vec::new();
        std::mem::swap(&mut svcs, &mut self.services);
        let ghost s0 = old(self)@.services;
        let ghost target = old(self)@.record_cpu_spec(samples@).services;
        let n = svcs.len();
        let mut i: usize = 0;
        while i < n
            invariant
                n == svcs.len(),
                n == s0.len(),
                n == samples.len(),
                i <= n,
                target == old(self)@.record_cpu_spec(samples@).services,
                s0 == old(self)@.services,
                forall|j: int| 0 <= j < i ==> #[trigger] svcs@[j]@ == target[j],
                forall|j: int| i <= j < n ==> #[trigger] svcs@[j]@ == s0[j],
            decreases n - i,
        {
            record_one(&mut svcs[i], samples[i]);
            i = i + 1;
        }
        proof {
            assert(services_view(svcs@) =~= target);
        }
        self.services = svcs;
        proof {
            assert(self@.services =~= target);
            assert(self@.logs =~= old(self)@.logs);
        }
    }

    /// The clock as `HH:MM:SS`.
    pub fn clock_str(&self) -> (res: String)
        ensures
            res@ == clock_text(self@.clock as nat),
    {
        fmt_clock(self.clock)
    }

    /// Shows a toast and restarts its lifetime.
    pub fn set_toast(&mut self, text: String, kind: ToastKind)
        ensures
            final(self)@ == old(self)@.toast_set(text@, kind),
    {
        self.toast = Some((text, kind));
        self.toast_ticks = 0;
        proof {
            assert(self@.services =~= old(self)@.services);
            assert(self@.logs =~= old(self)@.logs);
        }
    }

    /// Writes a line stamped with the clock to the log, keeping the latest `LOG_MAX` lines.
    pub fn log(&mut self, text: &str)
        ensures
            final(self)@ == old(self)@.logged(text@),
    {
        let mut line = fmt_clock(self.clock);
        proof {
            reveal_strlit(" ");
        }
        line.append(" ");
        line.append(text);
        let ghost line_view = line@;
        self.logs.push(line);
        if self.logs.len() > LOG_MAX {
            self.logs.remove(0);
        }
        proof {
            assert(line_view =~= log_line(old(self).clock, text@));
            assert(self@.services =~= old(self)@.services);
            assert(self@.logs =~= old(self)@.logged(text@).logs);
        }
    }
}

/// Applies a key press. `prev_g` remembers a pending `g` so that `gg` selects the first
/// service. Returns whether the program should quit.
pub fn handle_key(app: &mut App, key: KeyEvent, prev_g: &mut bool) -> (quit: bool)
    requires
        command_for(old(app)@.show_help, key) == Command::Next ==> (old(app)@.services.len() > 0
            ==> old(app)@.selected < usize::MAX),
    ensures
        quit == (command_for(old(app)@.show_help, key) == Command::Quit),
        (final(app)@, *final(prev_g)) == old(app)@.command_spec(
            *old(prev_g),
            command_for(old(app)@.show_help, key),
        ),
{
    let cmd = decode_key(app.show_help, key);
    match cmd {
        Command::Quit => {
            return true;
        },
        Command::CloseHelp => {
            app.show_help = false;
        },
        Command::Ignore => {},
        Command::OpenHelp => {
            app.show_help = true;
            *prev_g = false;
        },
        Command::Next => {
            app.next();
            *prev_g = false;
        },
        Command::Prev => {
            app.prev();
            *prev_g = false;
        },
        Command::GoFirstPrefix => {
            if *prev_g {
                app.first();
                *prev_g = false;
            } else {
                *prev_g = true;
            }
        },
        Command::Last => {
            app.last();
            *prev_g = false;
        },
        Command::FocusList => {
            app.focus = Focus::List;
            *prev_g = false;
        },
        Command::FocusDetail => {
            app.focus = Focus::Detail;
            *prev_g = false;
        },
        Command::SwitchTab => {
            app.tab = app.tab.next();
            *prev_g = false;
        },
        Command::Toggle => {
            app.toggle();
            *prev_g = false;
        },
        Command::Restart => {
            app.restart();
            *prev_g = false;
        },
        Command::Stop => {
            app.stop();
            *prev_g = false;
        },
        Command::Start => {
            app.start();
            *prev_g = false;
        },
        Command::Unbound => {
            *prev_g = false;
        },
    }
    proof {
        assert(app@.services =~= old(app)@.command_spec(*old(prev_g), cmd).0.services);
        assert(app@.logs =~= old(app)@.command_spec(*old(prev_g), cmd).0.logs);
    }
    false
}

} // verus!

verus! {

/// The state a service is in after a tick.
pub open spec fn ticked_state(s: ServiceState) -> ServiceState {
    if s == ServiceState::Restarting {
        ServiceState::Running
    } else {
        s
    }
}

/// A tick keeps every service's name and history, runs restarting services again,
/// counts a second of uptime for each running service (restarting ones start from 0),
/// and draws samples exactly for the services that run.
pub proof fn lemma_tick_services_shape(s: Seq<ServiceView>, r: u64)
    ensures
        tick_services(s, r).0.len() == s.len(),
        tick_services(s, r).1.len() == s.len(),
        forall|i: int|
            0 <= i < s.len() ==> {
                let t = #[trigger] tick_services(s, r).0[i];
                &&& t.name == s[i].name
                &&& t.cpu_history == s[i].cpu_history
                &&& t.state == ticked_state(s[i].state)
                &&& t.uptime_s == if s[i].state == ServiceState::Restarting {
                    1
                } else if s[i].state == ServiceState::Running {
                    (s[i].uptime_s + 1) as u64
                } else {
                    s[i].uptime_s
                }
                &&& (tick_services(s, r).1[i] is Some) == (t.state == ServiceState::Running)
            },
    decreases s.len(),
{
    reveal(tick_services);
    reveal(tick_service);
    if s.len() > 0 {
        lemma_tick_services_shape(s.drop_last(), r);
        let p = tick_services(s.drop_last(), r);
        let q = tick_service(s.last(), p.2);
        assert(tick_services(s, r) == (p.0.push(q.0), p.1.push(q.1), q.2));
        assert forall|i: int| 0 <= i < s.len() - 1 implies s.drop_last()[i] == s[i] by {}
    }
}

/// Every operation keeps the bounds of `wf`: the log holds at most `LOG_MAX` lines, each
/// history at most `CPU_HISTORY_LEN` samples, and the selection stays on a service.
pub proof fn lemma_operations_keep_bounds(a: AppView, text: Seq<char>, samples: Seq<u64>)
    requires
        a.wf(),
    ensures
        a.next_spec().wf(),
        a.prev_spec().wf(),
        a.first_spec().wf(),
        a.last_spec().wf(),
        a.logged(text).wf(),
        a.toast_set(text, ToastKind::Info).wf(),
        a.toast_set(text, ToastKind::Error).wf(),
        a.toggle_spec().wf(),
        a.stop_spec().wf(),
        a.start_spec().wf(),
        a.restart_spec().wf(),
        a.tick_spec().wf(),
        samples.len() == a.services.len() ==> a.record_cpu_spec(samples).wf(),
{
    lemma_logged_keeps_bounds(a, text);
    lemma_action_keeps_bounds(a, a.toggle_target(), "toggle "@, "toggled "@);
    lemma_action_keeps_bounds(a, ServiceState::Stopped, "stop "@, "stopped "@);
    lemma_action_keeps_bounds(a, ServiceState::Running, "start "@, "started "@);
    lemma_action_keeps_bounds(a, ServiceState::Restarting, "restart "@, "restarting "@);
    lemma_tick_services_shape(a.services, a.rng);
    let t = tick_services(a.services, a.rng);
    let tc = (a.tick_count + 1) as u64;
    let base = AppView {
        services: t.0,
        rng: t.2,
        clock: (a.clock + 1) as u64,
        tick_count: tc,
        ..a
    };
    assert forall|i: int| 0 <= i < base.services.len() implies #[trigger] base.services[i].cpu_history.len()
        <= CPU_HISTORY_LEN by {
        assert(base.services[i].cpu_history == a.services[i].cpu_history);
    }
    assert(base.wf());
    lemma_logged_keeps_bounds(base, "metrics heartbeat"@);
    if samples.len() == a.services.len() {
        let b = a.record_cpu_spec(samples);
        assert forall|i: int| 0 <= i < b.services.len() implies #[trigger] b.services[i].cpu_history.len()
            <= CPU_HISTORY_LEN by {
            assert(a.services[i].cpu_history.len() <= CPU_HISTORY_LEN);
        }
    }
}

proof fn lemma_logged_keeps_bounds(a: AppView, text: Seq<char>)
    requires
        a.wf(),
    ensures
        a.logged(text).wf(),
        a.logged(text).services == a.services,
        a.logged(text).selected == a.selected,
{
}

proof fn lemma_action_keeps_bounds(a: AppView, st: ServiceState, lp: Seq<char>, tp: Seq<char>)
    requires
        a.wf(),
    ensures
        a.service_action(st, lp, tp).wf(),
{
    let b = a.with_selected_state(st);
    assert forall|i: int| 0 <= i < b.services.len() implies #[trigger] b.services[i].cpu_history.len()
        <= CPU_HISTORY_LEN by {
        assert(b.services[i].cpu_history == a.services[i].cpu_history);
    }
    assert(b.wf());
    lemma_logged_keeps_bounds(b, lp + b.selected_name_spec());
}

/// A new application satisfies the bounds and starts with two log lines.
pub proof fn lemma_initial_state()
    ensures
        AppView::initial().wf(),
        AppView::initial().logs.len() == 2,
        AppView::initial().services.len() == 6,
        AppView::initial().running_count_spec() == 4,
{
    let s = seed_view();
    assert(s.drop_last().drop_last().drop_last().drop_last().drop_last().drop_last() =~= Seq::<
        ServiceView,
    >::empty());
    reveal_with_fuel(count_running, 7);
}

/// Navigation: moving down on the last service and up on the first change nothing,
/// `first` and `last` are idempotent, and a step down undone by a step up (or the other
/// way round) restores the selection.
pub proof fn lemma_navigation(a: AppView)
    requires
        a.wf(),
    ensures
        a.services.len() > 0 && a.selected == a.services.len() - 1 ==> a.next_spec() == a,
        a.selected == 0 ==> a.prev_spec() == a,
        a.first_spec().first_spec() == a.first_spec(),
        a.last_spec().last_spec() == a.last_spec(),
        a.selected + 1 < a.services.len() ==> a.next_spec().prev_spec() == a,
        a.services.len() > 0 && a.selected > 0 ==> a.prev_spec().next_spec() == a,
        a.services.len() > 0 ==> a.last_spec().next_spec() == a.last_spec(),
        a.first_spec().prev_spec() == a.first_spec(),
{
    if a.selected + 1 < a.services.len() {
        assert(a.next_spec().selected == a.selected + 1);
        assert(a.next_spec().prev_spec().selected == a.selected);
        assert(a.next_spec().prev_spec() == a.with_selected(a.selected));
    }
    if a.services.len() > 0 && a.selected > 0 {
        assert(a.prev_spec().selected == a.selected - 1);
        assert(a.prev_spec().next_spec().selected == a.selected);
        assert(a.prev_spec().next_spec() == a.with_selected(a.selected));
    }
    assert(a.with_selected(a.selected) == a);
}

/// Toggling twice brings a running or stopped service back to its state; a restarting
/// one ends up stopped.
pub proof fn lemma_toggle_twice(a: AppView)
    requires
        a.selected < a.services.len(),
    ensures
        a.toggle_spec().toggle_spec().services[a.selected as int].state == if a.services[a.selected as int].state
            == ServiceState::Restarting {
            ServiceState::Stopped
        } else {
            a.services[a.selected as int].state
        },
        a.toggle_spec().toggle_spec().services.len() == a.services.len(),
{
}

/// A restarted service runs again on the next tick, with one second of uptime.
pub proof fn lemma_restart_then_tick(a: AppView)
    requires
        a.selected < a.services.len(),
    ensures
        a.restart_spec().tick_spec().services[a.selected as int].state == ServiceState::Running,
        a.restart_spec().tick_spec().services[a.selected as int].uptime_s == 1,
        a.restart_spec().tick_spec().services[a.selected as int].name == a.services[a.selected as int].name,
{
    let b = a.restart_spec();
    lemma_tick_services_shape(b.services, b.rng);
    assert(b.services[a.selected as int].state == ServiceState::Restarting);
}

/// `n` ticks in a row.
pub open spec fn ticks(a: AppView, n: nat) -> AppView
    decreases n,
{
    if n == 0 {
        a
    } else {
        ticks(a, (n - 1) as nat).tick_spec()
    }
}

/// A fresh toast stays up for 8 ticks and is gone from the 9th on.
pub proof fn lemma_toast_lifetime(a: AppView, text: Seq<char>, kind: ToastKind, n: nat)
    ensures
        n <= 8 ==> ticks(a.toast_set(text, kind), n).toast == Some((text, kind)),
        n >= 9 ==> ticks(a.toast_set(text, kind), n).toast is None,
        n <= u32::MAX ==> ticks(a.toast_set(text, kind), n).toast_ticks == n,
    decreases n,
{
    if n > 0 {
        lemma_toast_lifetime(a, text, kind, (n - 1) as nat);
    }
}

/// The log of an application holds the latest `LOG_MAX` of all lines ever written: if it
/// held the latest lines of a history `h`, after writing `text` it holds the latest lines
/// of `h` followed by the new line.
pub proof fn lemma_log_keeps_latest(a: AppView, h: Seq<Seq<char>>, text: Seq<char>)
    requires
        a.logs == latest(h, LOG_MAX as nat),
    ensures
        a.logged(text).logs == latest(h.push(log_line(a.clock, text)), LOG_MAX as nat),
        a.logged(text).logs.last() == log_line(a.clock, text),
{
    lemma_push_bounded_keeps_latest(h, log_line(a.clock, text), LOG_MAX as nat);
}

/// Each CPU history holds the latest `CPU_HISTORY_LEN` recorded samples: if service `i`
/// held the latest samples of a history `h`, after recording it holds the latest samples
/// of `h` followed by the recorded one (0 for a service that is not running).
pub proof fn lemma_history_keeps_latest(a: AppView, samples: Seq<u64>, i: int, h: Seq<u64>)
    requires
        samples.len() == a.services.len(),
        0 <= i < a.services.len(),
        a.services[i].cpu_history == latest(h, CPU_HISTORY_LEN as nat),
    ensures
        a.record_cpu_spec(samples).services[i].cpu_history == latest(
            h.push(recorded_sample(a.services[i], samples[i])),
            CPU_HISTORY_LEN as nat,
        ),
{
    lemma_push_bounded_keeps_latest(
        h,
        recorded_sample(a.services[i], samples[i]),
        CPU_HISTORY_LEN as nat,
    );
}

/// How the running count changes when service `i` is replaced by `v`.
proof fn lemma_count_update(s: Seq<ServiceView>, i: int, v: ServiceView)
    requires
        0 <= i < s.len(),
    ensures
        count_running(s.update(i, v)) + (if s[i].state == ServiceState::Running { 1int } else { 0int })
            == count_running(s) + (if v.state == ServiceState::Running { 1int } else { 0int }),
    decreases s.len(),
{
    if i < s.len() - 1 {
        lemma_count_update(s.drop_last(), i, v);
        assert(s.update(i, v).drop_last() =~= s.drop_last().update(i, v));
    } else {
        assert(s.update(i, v).drop_last() =~= s.drop_last());
    }
}

/// Stopping a running service lowers the running count by one, starting a stopped one
/// raises it by one; stopping a stopped or starting a running service keeps it.
pub proof fn lemma_running_count_follows_actions(a: AppView)
    requires
        a.selected < a.services.len(),
    ensures
        a.services[a.selected as int].state == ServiceState::Running ==> a.stop_spec().running_count_spec() + 1
            == a.running_count_spec(),
        a.services[a.selected as int].state != ServiceState::Running ==> a.start_spec().running_count_spec()
            == a.running_count_spec() + 1,
        a.services[a.selected as int].state == ServiceState::Stopped ==> a.stop_spec().running_count_spec()
            == a.running_count_spec(),
        a.services[a.selected as int].state == ServiceState::Running ==> a.start_spec().running_count_spec()
            == a.running_count_spec(),
{
    let i = a.selected as int;
    let s = a.services[i];
    lemma_count_update(a.services, i, ServiceView { state: ServiceState::Stopped, ..s });
    lemma_count_update(a.services, i, ServiceView { state: ServiceState::Running, ..s });
}

} // verus!

verus! {

/// A key press without Control.
pub open spec fn plain_key(code: KeyCode) -> KeyEvent {
    KeyEvent { code, ctrl: false }
}

/// Pressing `g` twice, with no `g` pending before, selects the first service.
pub proof fn lemma_gg_selects_first(a: AppView)
    requires
        !a.show_help,
    ensures
        ({
            let k = plain_key(KeyCode::Char('g'));
            let (a1, g1) = a.command_spec(false, command_for(a.show_help, k));
            let (a2, g2) = a1.command_spec(g1, command_for(a1.show_help, k));
            &&& a1 == a && g1
            &&& a2 == a.first_spec() && !g2
        }),
{
}

/// While the help overlay is shown it takes every key: `Esc`, `q` and `?` close it and
/// change nothing else, any other key changes nothing at all, and no key quits.
pub proof fn lemma_help_is_modal(a: AppView, g: bool, k: KeyEvent)
    requires
        a.show_help,
    ensures
        command_for(a.show_help, k) != Command::Quit,
        (k.code == KeyCode::Esc || k.code == KeyCode::Char('q') || k.code == KeyCode::Char('?'))
            ==> a.command_spec(g, command_for(a.show_help, k)) == (
            AppView { show_help: false, ..a },
            g,
        ),
        !(k.code == KeyCode::Esc || k.code == KeyCode::Char('q') || k.code == KeyCode::Char('?'))
            ==> a.command_spec(g, command_for(a.show_help, k)) == (a, g),
{
}

/// Without the help overlay, `q`, `Esc` and Control-`c` quit, and they are the only keys
/// that do.
pub proof fn lemma_quit_keys(k: KeyEvent)
    ensures
        command_for(false, k) == Command::Quit <==> (k.code == KeyCode::Char('q') || k.code
            == KeyCode::Esc || (k.code == KeyCode::Char('c') && k.ctrl)),
{
}

/// The Tab key switches the overview and the logs back and forth.
pub proof fn lemma_tab_toggles(t: Tab)
    ensures
        t == Tab::Dashboard ==> tab_after(t) == Tab::Logs,
        t == Tab::Logs ==> tab_after(t) == Tab::Dashboard,
        t != Tab::Metrics ==> tab_after(tab_after(t)) == t,
        tab_after(t) != t,
{
}

} // verus!

verus! {

/// Whatever key is pressed, the application stays within the bounds of `wf`.
pub proof fn lemma_keys_keep_bounds(a: AppView, g: bool, k: KeyEvent)
    requires
        a.wf(),
    ensures
        a.command_spec(g, command_for(a.show_help, k)).0.wf(),
{
    lemma_operations_keep_bounds(a, seq![], seq![]);
}

} // verus!

verus! {

/// Whatever key is pressed, a selection on a service stays on a service and the service
/// list keeps its length.
pub proof fn lemma_keys_keep_selection(a: AppView, g: bool, k: KeyEvent)
    requires
        a.selected < a.services.len(),
        a.services.len() <= usize::MAX,
    ensures
        a.command_spec(g, command_for(a.show_help, k)).0.selected < a.services.len(),
        a.command_spec(g, command_for(a.show_help, k)).0.services.len() == a.services.len(),
{
}

/// The clock counts ticks: every operation other than a tick leaves the clock and the
/// tick counter alone, and a tick advances both by one. A tick also keeps the services'
/// names and number, the selection, focus, tab and help overlay, and writes a heartbeat
/// line, stamped with the new clock, exactly when the new tick count is a multiple of 24.
pub proof fn lemma_clock_counts_ticks(
    a: AppView,
    g: bool,
    k: KeyEvent,
    text: Seq<char>,
    kind: ToastKind,
    samples: Seq<u64>,
)
    requires
        a.can_tick(),
    ensures
        a.command_spec(g, command_for(a.show_help, k)).0.clock == a.clock,
        a.command_spec(g, command_for(a.show_help, k)).0.tick_count == a.tick_count,
        a.logged(text).clock == a.clock && a.logged(text).tick_count == a.tick_count,
        a.toast_set(text, kind).clock == a.clock && a.toast_set(text, kind).tick_count
            == a.tick_count,
        a.record_cpu_spec(samples).clock == a.clock && a.record_cpu_spec(samples).tick_count
            == a.tick_count,
        a.tick_spec().clock == a.clock + 1,
        a.tick_spec().tick_count == a.tick_count + 1,
        a.tick_spec().services.len() == a.services.len(),
        forall|i: int|
            0 <= i < a.services.len() ==> #[trigger] a.tick_spec().services[i].name
                == a.services[i].name,
        a.tick_spec().selected == a.selected,
        a.tick_spec().focus == a.focus,
        a.tick_spec().tab == a.tab,
        a.tick_spec().show_help == a.show_help,
        a.tick_spec().logs == if (a.tick_count + 1) % 24 == 0 {
            push_bounded(a.logs, log_line((a.clock + 1) as u64, "metrics heartbeat"@), LOG_MAX as nat)
        } else {
            a.logs
        },
{
    lemma_tick_services_shape(a.services, a.rng);
}

/// What a tick does to each service: a restarting service runs again with one second of
/// uptime, a running one keeps running with one more second, a stopped one stays as it
/// is; no service is restarting afterwards and the histories are untouched.
pub proof fn lemma_tick_advances_services(a: AppView)
    requires
        a.can_tick(),
    ensures
        a.tick_spec().services.len() == a.services.len(),
        forall|i: int|
            0 <= i < a.services.len() ==> {
                let s = #[trigger] a.tick_spec().services[i];
                let o = a.services[i];
                &&& o.state == ServiceState::Restarting ==> s.state == ServiceState::Running
                    && s.uptime_s == 1
                &&& o.state == ServiceState::Running ==> s.state == ServiceState::Running
                    && s.uptime_s == o.uptime_s + 1
                &&& o.state == ServiceState::Stopped ==> s.state == ServiceState::Stopped
                    && s.uptime_s == o.uptime_s
                &&& s.state != ServiceState::Restarting
                &&& s.cpu_history == o.cpu_history
            },
{
    lemma_tick_services_shape(a.services, a.rng);
    assert forall|i: int| 0 <= i < a.services.len() && a.services[i].state == ServiceState::Running
        implies a.services[i].uptime_s < u64::MAX by {
        assert(uptimes_have_room(a.services, a.services.len() as int));
    }
}

} // verus!

verus! {

/// What the event loop received: a key, a resize, or no event before the tick timeout.
#[derive(Clone, Copy, PartialEq, Eq, Structural, Debug)]
pub enum Event {
    Key(KeyEvent),
    Resize,
    Idle,
}

/// What the event loop does next.
pub enum Action {
    /// Leave the program.
    Quit,
    /// Draw and wait for the next event.
    Continue,
    /// A tick ran: compute the readings from these samples, record the CPU samples with
    /// `App::record_cpu`, then draw and wait.
    Sample(Vec<Option<(u32, u32)>>),
}

/// One turn of the event loop: a key goes to `handle_key`, a resize changes nothing, and a
/// timeout without an event runs a tick.
pub fn step(app: &mut App, event: Event, prev_g: &mut bool) -> (res: Action)
    requires
        event matches Event::Key(k) ==> (command_for(old(app)@.show_help, k) == Command::Next
            ==> (old(app)@.services.len() > 0 ==> old(app)@.selected < usize::MAX)),
        event == Event::Idle ==> old(app)@.can_tick(),
    ensures
        match event {
            Event::Key(k) => {
                &&& (res is Quit) == (command_for(old(app)@.show_help, k) == Command::Quit)
                &&& (res is Quit || res is Continue)
                &&& (final(app)@, *final(prev_g)) == old(app)@.command_spec(
                    *old(prev_g),
                    command_for(old(app)@.show_help, k),
                )
            },
            Event::Resize => res is Continue && final(app)@ == old(app)@ && *final(prev_g)
                == *old(prev_g),
            Event::Idle => {
                &&& res matches Action::Sample(d) && d@ == old(app)@.tick_draws()
                &&& final(app)@ == old(app)@.tick_spec()
                &&& *final(prev_g) == *old(prev_g)
            },
        },
{
    match event {
        Event::Key(k) => {
            if handle_key(app, k, prev_g) {
                Action::Quit
            } else {
                Action::Continue
            }
        },
        Event::Resize => Action::Continue,
        Event::Idle => Action::Sample(app.tick()),
    }
}

} // verus!

verus! {

/// An operation on the application, as the library's functions perform it: a command
/// (`handle_key` and the methods `next`, `toggle`, ... behave as the command), a log line,
/// a toast, a round of CPU samples, or a tick.
pub enum Op {
    Cmd(Command),
    Log(Seq<char>),
    SetToast(Seq<char>, ToastKind),
    RecordCpu(Seq<u64>),
    Tick,
}

/// The state (and pending-`g` flag) after one operation.
pub open spec fn apply_op(s: (AppView, bool), op: Op) -> (AppView, bool) {
    match op {
        Op::Cmd(c) => s.0.command_spec(s.1, c),
        Op::Log(t) => (s.0.logged(t), s.1),
        Op::SetToast(t, k) => (s.0.toast_set(t, k), s.1),
        Op::RecordCpu(x) => (s.0.record_cpu_spec(x), s.1),
        Op::Tick => (s.0.tick_spec(), s.1),
    }
}

/// The state after a sequence of operations, in order.
pub open spec fn run_ops(s: (AppView, bool), ops: Seq<Op>) -> (AppView, bool)
    decreases ops.len(),
{
    if ops.len() == 0 {
        s
    } else {
        apply_op(run_ops(s, ops.drop_last()), ops.last())
    }
}

/// Number of ticks in a sequence of operations.
pub open spec fn tick_total(ops: Seq<Op>) -> nat
    decreases ops.len(),
{
    if ops.len() == 0 {
        0
    } else {
        tick_total(ops.drop_last()) + if ops.last() is Tick {
            1nat
        } else {
            0nat
        }
    }
}

/// Whether an operation shows a toast.
pub open spec fn sets_toast(op: Op) -> bool {
    match op {
        Op::Cmd(c) => c == Command::Toggle || c == Command::Restart || c == Command::Stop || c
            == Command::Start,
        Op::SetToast(_, _) => true,
        _ => false,
    }
}

proof fn lemma_op_keeps_clock_and_names(s: (AppView, bool), op: Op)
    ensures
        !(op is Tick) ==> apply_op(s, op).0.clock == s.0.clock && apply_op(s, op).0.tick_count
            == s.0.tick_count,
        op is Tick ==> apply_op(s, op).0.clock == (s.0.clock + 1) as u64 && apply_op(
            s,
            op,
        ).0.tick_count == (s.0.tick_count + 1) as u64,
        apply_op(s, op).0.services.len() == s.0.services.len(),
        forall|i: int|
            0 <= i < s.0.services.len() ==> #[trigger] apply_op(s, op).0.services[i].name
                == s.0.services[i].name,
        !sets_toast(op) && !(op is Tick) ==> apply_op(s, op).0.toast == s.0.toast && apply_op(
            s,
            op,
        ).0.toast_ticks == s.0.toast_ticks,
{
    lemma_tick_services_shape(s.0.services, s.0.rng);
}

/// The clock counts ticks over any sequence of operations: it and the tick counter move
/// by exactly the number of ticks, and the services keep their number and names.
pub proof fn lemma_clock_counts_all_ticks(s: (AppView, bool), ops: Seq<Op>)
    requires
        s.0.clock + tick_total(ops) <= u64::MAX,
        s.0.tick_count + tick_total(ops) <= u64::MAX,
    ensures
        run_ops(s, ops).0.clock == s.0.clock + tick_total(ops),
        run_ops(s, ops).0.tick_count == s.0.tick_count + tick_total(ops),
        run_ops(s, ops).0.services.len() == s.0.services.len(),
        forall|i: int|
            0 <= i < s.0.services.len() ==> #[trigger] run_ops(s, ops).0.services[i].name
                == s.0.services[i].name,
    decreases ops.len(),
{
    if ops.len() > 0 {
        lemma_clock_counts_all_ticks(s, ops.drop_last());
        lemma_op_keeps_clock_and_names(run_ops(s, ops.drop_last()), ops.last());
    }
}

/// From a new application, after any sequence of operations with `k` ticks, the clock
/// reads `k` seconds.
pub proof fn lemma_clock_from_start(ops: Seq<Op>)
    requires
        tick_total(ops) <= u64::MAX,
    ensures
        run_ops((AppView::initial(), false), ops).0.clock == tick_total(ops),
        clock_text(run_ops((AppView::initial(), false), ops).0.clock as nat) == clock_text(
            tick_total(ops),
        ),
{
    lemma_clock_counts_all_ticks((AppView::initial(), false), ops);
}

/// A toast outlives 8 ticks and is gone from the 9th on, whatever operations that show no
/// other toast come in between.
pub proof fn lemma_toast_lives_eight_ticks(
    s: (AppView, bool),
    t: Seq<char>,
    k: ToastKind,
    ops: Seq<Op>,
)
    requires
        forall|i: int| 0 <= i < ops.len() ==> !sets_toast(#[trigger] ops[i]),
    ensures
        tick_total(ops) <= 8 ==> run_ops((s.0.toast_set(t, k), s.1), ops).0.toast == Some((t, k))
            && run_ops((s.0.toast_set(t, k), s.1), ops).0.toast_ticks == tick_total(ops),
        tick_total(ops) >= 9 ==> run_ops((s.0.toast_set(t, k), s.1), ops).0.toast is None,
    decreases ops.len(),
{
    if ops.len() > 0 {
        lemma_toast_lives_eight_ticks(s, t, k, ops.drop_last());
        lemma_op_keeps_clock_and_names(run_ops((s.0.toast_set(t, k), s.1), ops.drop_last()), ops.last());
    }
}

/// The application is deterministic: the same operations on the same state give the same
/// state (the simulated metrics come from a generator with a fixed seed).
pub proof fn lemma_same_ops_same_state(s1: (AppView, bool), s2: (AppView, bool), ops: Seq<Op>)
    requires
        s1 == s2,
    ensures
        run_ops(s1, ops) == run_ops(s2, ops),
{
}

/// What the event loop is given: a key, a resize, or a timeout after which it ticks and
/// records these CPU samples (one per service, computed by the front end).
pub enum LoopInput {
    Key(KeyEvent),
    Resize,
    Idle(Seq<u64>),
}

/// One turn of the event loop (as `step`, followed by `App::record_cpu` after a tick):
/// the new state, pending-`g` flag, and whether the loop quits.
pub open spec fn turn(s: (AppView, bool), input: LoopInput) -> (AppView, bool, bool) {
    match input {
        LoopInput::Key(k) => {
            let c = command_for(s.0.show_help, k);
            let r = s.0.command_spec(s.1, c);
            (r.0, r.1, c == Command::Quit)
        },
        LoopInput::Resize => (s.0, s.1, false),
        LoopInput::Idle(x) => (s.0.tick_spec().record_cpu_spec(x), s.1, false),
    }
}

/// The event loop over a sequence of inputs: it runs each turn in order and stops at the
/// first turn that quits.
pub open spec fn run_loop(s: (AppView, bool), inputs: Seq<LoopInput>) -> (AppView, bool, bool)
    decreases inputs.len(),
{
    if inputs.len() == 0 {
        (s.0, s.1, false)
    } else {
        let r = run_loop(s, inputs.drop_last());
        if r.2 {
            r
        } else {
            turn((r.0, r.1), inputs.last())
        }
    }
}

/// Number of timeouts among the loop's inputs.
pub open spec fn idle_total(inputs: Seq<LoopInput>) -> nat
    decreases inputs.len(),
{
    if inputs.len() == 0 {
        0
    } else {
        idle_total(inputs.drop_last()) + if inputs.last() is Idle {
            1nat
        } else {
            0nat
        }
    }
}

/// Whether an input is a key that can quit: `q`, `Esc` or Control-`c`.
pub open spec fn is_quit_key(input: LoopInput) -> bool {
    match input {
        LoopInput::Key(k) => k.code == KeyCode::Char('q') || k.code == KeyCode::Esc || (k.code
            == KeyCode::Char('c') && k.ctrl),
        _ => false,
    }
}

/// Once the loop has quit, later inputs change nothing.
pub proof fn lemma_loop_stops_after_quit(
    s: (AppView, bool),
    inputs: Seq<LoopInput>,
    more: Seq<LoopInput>,
)
    requires
        run_loop(s, inputs).2,
    ensures
        run_loop(s, inputs + more) == run_loop(s, inputs),
    decreases more.len(),
{
    if more.len() > 0 {
        lemma_loop_stops_after_quit(s, inputs, more.drop_last());
        assert((inputs + more).drop_last() =~= inputs + more.drop_last());
    } else {
        assert(inputs + more =~= inputs);
    }
}

/// The loop quits only on a quit key: without `q`, `Esc` or Control-`c` among the inputs
/// it runs on, and its clock advances by the number of timeouts.
pub proof fn lemma_loop_runs_without_quit_keys(s: (AppView, bool), inputs: Seq<LoopInput>)
    requires
        forall|i: int| 0 <= i < inputs.len() ==> !is_quit_key(#[trigger] inputs[i]),
        s.0.clock + idle_total(inputs) <= u64::MAX,
        s.0.tick_count + idle_total(inputs) <= u64::MAX,
    ensures
        !run_loop(s, inputs).2,
        run_loop(s, inputs).0.clock == s.0.clock + idle_total(inputs),
        run_loop(s, inputs).0.tick_count == s.0.tick_count + idle_total(inputs),
    decreases inputs.len(),
{
    if inputs.len() > 0 {
        lemma_loop_runs_without_quit_keys(s, inputs.drop_last());
        let r = run_loop(s, inputs.drop_last());
        assert(!is_quit_key(inputs[inputs.len() - 1]));
        match inputs.last() {
            LoopInput::Key(k) => {
                lemma_quit_keys(k);
                lemma_op_keeps_clock_and_names((r.0, r.1), Op::Cmd(command_for(r.0.show_help, k)));
            },
            LoopInput::Resize => {},
            LoopInput::Idle(x) => {
                lemma_op_keeps_clock_and_names((r.0, r.1), Op::Tick);
            },
        }
    }
}

} // verus!

//! The health-check engine of a provider.
//!
//! The engine decides; it does not probe. Whoever drives it reports what
//! happened (the timer fired, the provider was used, a pass came back) and
//! is told what to do next (start the timer, run a probe pass). An engine
//! never asks for a pass while one is still out.
//!
//! Times are in seconds on any clock that does not run backwards; delays are
//! in milliseconds.
use vstd::prelude::*;

verus! {

/// What is known about one handle.
#[derive(Debug, Clone, Copy, PartialEq, Eq, Structural)]
pub enum Health {
    /// No probe of this handle has been recorded yet.
    Unknown,
    /// The last probe got through, with this round-trip delay.
    Alive(u64),
    /// The last probe failed or timed out.
    Dead,
}

impl Health {
    /// Whether the handle may be used: it is unless its last probe failed. A
    /// handle that was never probed counts as usable.
    pub open spec fn live(self) -> bool {
        !(self is Dead)
    }

    /// The measured delay, if the last probe got through.
    pub open spec fn delay(self) -> Option<u64> {
        match self {
            Health::Alive(d) => Some(d),
            _ => None,
        }
    }

    /// Whether the handle may be used.
    pub fn is_live(&self) -> (b: bool)
        ensures
            b == self.live(),
    {
        match self {
            Health::Dead => false,
            _ => true,
        }
    }

    /// Whether the last probe got through.
    pub fn is_alive(&self) -> (b: bool)
        ensures
            b == (*self is Alive),
    {
        match self {
            Health::Alive(_) => true,
            _ => false,
        }
    }

    /// The measured delay, if the last probe got through.
    pub fn last_delay(&self) -> (d: Option<u64>)
        ensures
            d == self.delay(),
    {
        match self {
            Health::Alive(d) => Some(*d),
            _ => None,
        }
    }

    /// What a probe's outcome says about the handle: a measured delay means
    /// alive, none means dead.
    pub open spec fn of_probe(outcome: Option<u64>) -> Health {
        match outcome {
            Some(d) => Health::Alive(d),
            None => Health::Dead,
        }
    }

    /// Records a probe's outcome.
    pub fn from_probe(outcome: Option<u64>) -> (h: Health)
        ensures
            h == Health::of_probe(outcome),
    {
        match outcome {
            Some(d) => Health::Alive(d),
            None => Health::Dead,
        }
    }
}

/// How the handles of a provider or of a group are to be probed.
#[derive(Debug, Clone, PartialEq, Eq)]
pub struct HealthCheckConfig {
    /// The URL that probes fetch.
    pub url: String,
    /// Seconds between timer ticks; 0 means never probe by timer.
    pub interval: u64,
    /// Whether probing waits for the handles to be used.
    pub lazy: bool,
    /// By how many milliseconds another handle has to be faster before a
    /// lowest-latency group moves to it; none where that does not matter.
    pub tolerance: Option<u64>,
}

impl HealthCheckConfig {
    /// Whether the timer is to run from construction on: the engine probes
    /// by timer and does not wait for use.
    pub open spec fn runs_from_start(&self) -> bool {
        self.interval > 0 && !self.lazy
    }

    /// Whether the timer is to run from construction on.
    pub fn auto(&self) -> (auto: bool)
        ensures
            auto == self.runs_from_start(),
    {
        self.interval > 0 && !self.lazy
    }
}

/// Seconds from `then` to `now`; none if `now` is not later.
pub open spec fn elapsed(now: u64, then: u64) -> int {
    if now >= then {
        now - then
    } else {
        0
    }
}

/// The state of an engine, as contracts see it.
pub struct EngineState {
    /// The URL that probes fetch.
    pub url: Seq<char>,
    /// Seconds between timer ticks; 0 means the engine never probes by timer.
    pub interval: u64,
    /// Whether probing waits for the provider to be used.
    pub lazy: bool,
    /// Whether the timer has been started.
    pub started: bool,
    /// Whether a probe pass is out.
    pub probing: bool,
    /// Whether the pass that is out was started for handles that have been
    /// replaced since: what it reports is dropped.
    pub stale: bool,
    /// When the provider was last used.
    pub last_touch: Option<u64>,
    /// When the last completed pass was recorded.
    pub last_probe: Option<u64>,
    /// The result of the last completed pass, by handle position.
    pub table: Seq<Health>,
}

/// What can happen to an engine.
pub enum Event {
    /// The owner asks for the timer.
    KickOff,
    /// The provider was used at the given time.
    Touch(u64),
    /// The timer fired at the given time.
    Tick(u64),
    /// A probe pass is demanded now.
    Check,
    /// The pass that was out came back at the given time with one outcome per
    /// handle: the delay measured, or none for a failure or a timeout.
    PassDone(u64, Seq<Option<u64>>),
    /// The pass that was out could not be carried out.
    PassFailed,
    /// The handles were replaced: what was recorded is about handles that
    /// are gone.
    Forget,
}

impl EngineState {
    /// The state of an engine that has done nothing yet.
    pub open spec fn fresh(url: Seq<char>, interval: u64, lazy: bool) -> EngineState {
        EngineState {
            url,
            interval,
            lazy,
            started: false,
            probing: false,
            stale: false,
            last_touch: None,
            last_probe: None,
            table: Seq::empty(),
        }
    }

    /// Whether the timer is to run from construction on: the engine probes
    /// by timer and does not wait for use.
    pub open spec fn auto(self) -> bool {
        self.interval > 0 && !self.lazy
    }

    /// Whether the provider was used within the last interval.
    pub open spec fn used_recently(self, now: u64) -> bool {
        match self.last_touch {
            Some(t) => elapsed(now, t) <= self.interval,
            None => false,
        }
    }

    /// Whether a pass was recorded less than an interval ago.
    pub open spec fn probed_recently(self, now: u64) -> bool {
        match self.last_probe {
            Some(p) => elapsed(now, p) < self.interval,
            None => false,
        }
    }

    /// Whether a timer tick at `now` leads to a pass. No pass may be out and
    /// the timer must be running. A lazy engine moreover skips the tick when
    /// the provider was not used within the last interval, or when a pass was
    /// recorded less than an interval ago.
    pub open spec fn tick_runs(self, now: u64) -> bool {
        &&& self.started
        &&& !self.probing
        &&& self.interval > 0
        &&& self.lazy ==> self.used_recently(now) && !self.probed_recently(now)
    }

    /// Whether a kick-off has a timer to start.
    pub open spec fn kick_off_starts(self) -> bool {
        self.interval > 0 && !self.started
    }

    /// Whether a touch has a timer to start: only on a lazy engine, whose
    /// timer waits for the first use.
    pub open spec fn touch_starts(self) -> bool {
        self.lazy && self.interval > 0 && !self.started
    }

    /// What is known about the handle at position `i`. A position without a
    /// recorded result is unknown.
    pub open spec fn health_of(self, i: int) -> Health {
        if 0 <= i < self.table.len() {
            self.table[i]
        } else {
            Health::Unknown
        }
    }

    /// The number of passes that are out: 0 or 1.
    pub open spec fn in_flight(self) -> nat {
        if self.probing {
            1
        } else {
            0
        }
    }

    /// Whether the event makes the engine ask for the timer.
    pub open spec fn starts_timer(self, e: Event) -> bool {
        match e {
            Event::KickOff => self.kick_off_starts(),
            Event::Touch(_) => self.touch_starts(),
            _ => false,
        }
    }

    /// Whether the event makes the engine ask for a probe pass.
    pub open spec fn starts_pass(self, e: Event) -> bool {
        match e {
            Event::Tick(now) => self.tick_runs(now),
            Event::Check => !self.probing,
            _ => false,
        }
    }

    /// Whether the event ends the pass that is out.
    pub open spec fn ends_pass(self, e: Event) -> bool {
        self.probing && (e is PassDone || e is PassFailed)
    }

    /// Whether the event has its outcomes recorded: they are when they come
    /// from the pass that is out and the handles are still the ones it was
    /// started for.
    pub open spec fn records(self, e: Event) -> bool {
        self.probing && !self.stale && e is PassDone
    }

    /// The state after the event.
    pub open spec fn step(self, e: Event) -> EngineState {
        match e {
            Event::KickOff => EngineState {
                started: self.started || self.kick_off_starts(),
                ..self
            },
            Event::Touch(now) => EngineState {
                last_touch: Some(now),
                started: self.started || self.touch_starts(),
                ..self
            },
            Event::Tick(now) => EngineState { probing: self.probing || self.tick_runs(now), ..self },
            Event::Check => EngineState { probing: true, ..self },
            Event::PassDone(now, outcomes) => if self.probing && !self.stale {
                EngineState {
                    probing: false,
                    last_probe: Some(now),
                    table: outcomes.map_values(|o: Option<u64>| Health::of_probe(o)),
                    ..self
                }
            } else {
                EngineState { probing: false, stale: false, ..self }
            },
            Event::PassFailed => EngineState { probing: false, stale: false, ..self },
            Event::Forget => EngineState {
                stale: self.probing,
                last_probe: None,
                table: Seq::empty(),
                ..self
            },
        }
    }

    /// The state after a run of events, first to last.
    pub open spec fn run(self, events: Seq<Event>) -> EngineState
        decreases events.len(),
    {
        if events.len() == 0 {
            self
        } else {
            self.run(events.drop_last()).step(events.last())
        }
    }

    /// How many passes the engine asks for during a run of events.
    pub open spec fn passes_started(self, events: Seq<Event>) -> nat
        decreases events.len(),
    {
        if events.len() == 0 {
            0
        } else {
            let before = self.run(events.drop_last());
            self.passes_started(events.drop_last()) + if before.starts_pass(events.last()) {
                1nat
            } else {
                0nat
            }
        }
    }

    /// How many passes end during a run of events.
    pub open spec fn passes_ended(self, events: Seq<Event>) -> nat
        decreases events.len(),
    {
        if events.len() == 0 {
            0
        } else {
            let before = self.run(events.drop_last());
            self.passes_ended(events.drop_last()) + if before.ends_pass(events.last()) {
                1nat
            } else {
                0nat
            }
        }
    }
}

/// Probe passes of one engine never overlap. Whatever happens to an engine,
/// in whatever order, it asks for a pass only while none is out, so the
/// passes asked for and not yet ended, counted from any state over any run of
/// events, are never more than one.
pub proof fn passes_never_overlap(s: EngineState, events: Seq<Event>)
    ensures
        s.in_flight() + s.passes_started(events) - s.passes_ended(events) == s.run(
            events,
        ).in_flight(),
        s.in_flight() + s.passes_started(events) - s.passes_ended(events) <= 1,
        forall|e: Event| #[trigger] s.run(events).starts_pass(e) ==> s.run(events).in_flight() == 0,
    decreases events.len(),
{
    if events.len() > 0 {
        passes_never_overlap(s, events.drop_last());
    }
}

/// The table is never half written. Whatever happens to an engine, the table
/// either stays as it was, or holds the outcomes of one whole pass, each at
/// the position of its handle, or is empty because the handles were replaced.
/// One handle's failure does not touch what is recorded for the others.
pub proof fn table_changes_as_a_whole(s: EngineState, e: Event)
    ensures
        s.step(e).table == s.table || s.records(e) || e is Forget,
        s.records(e) ==> (e matches Event::PassDone(_, outcomes) && s.step(e).table.len()
            == outcomes.len() && forall|i: int|
            0 <= i < outcomes.len() ==> s.step(e).health_of(i) == Health::of_probe(
                #[trigger] outcomes[i],
            )),
        e is Forget ==> s.step(e).table.len() == 0,
{
}

/// The health-check engine of one provider.
#[derive(Debug)]
pub struct HealthCheck {
    url: String,
    interval: u64,
    lazy: bool,
    started: bool,
    probing: bool,
    stale: bool,
    last_touch: Option<u64>,
    last_probe: Option<u64>,
    table: Vec<Health>,
}

impl View for HealthCheck {
    type V = EngineState;

    closed spec fn view(&self) -> EngineState {
        EngineState {
            url: self.url@,
            interval: self.interval,
            lazy: self.lazy,
            started: self.started,
            probing: self.probing,
            stale: self.stale,
            last_touch: self.last_touch,
            last_probe: self.last_probe,
            table: self.table@,
        }
    }
}

fn seconds_since(now: u64, then: u64) -> (d: u64)
    ensures
        d == elapsed(now, then),
{
    if now >= then {
        now - then
    } else {
        0
    }
}

impl HealthCheck {
    /// An engine that probes `url` every `interval` seconds (never, if 0),
    /// and only while the provider is in use if `lazy`. Nothing has happened
    /// to it yet.
    pub fn new(url: String, interval: u64, lazy: bool) -> (hc: HealthCheck)
        ensures
            hc@ == EngineState::fresh(url@, interval, lazy),
    {
        HealthCheck {
            url,
            interval,
            lazy,
            started: false,
            probing: false,
            stale: false,
            last_touch: None,
            last_probe: None,
            table: Vec::new(),
        }
    }

    /// An engine that probes as `config` says. Nothing has happened to it
    /// yet.
    pub fn from_config(config: &HealthCheckConfig) -> (hc: HealthCheck)
        ensures
            hc@ == EngineState::fresh(config.url@, config.interval, config.lazy),
            hc@.auto() == config.runs_from_start(),
    {
        HealthCheck::new(config.url.clone(), config.interval, config.lazy)
    }

    /// The URL that probes fetch.
    pub fn url(&self) -> (url: &str)
        ensures
            url@ == self@.url,
    {
        self.url.as_str()
    }

    /// Seconds between timer ticks; 0 means the engine never probes by timer.
    pub fn interval(&self) -> (interval: u64)
        ensures
            interval == self@.interval,
    {
        self.interval
    }

    /// Whether probing waits for the provider to be used.
    pub fn lazy(&self) -> (lazy: bool)
        ensures
            lazy == self@.lazy,
    {
        self.lazy
    }

    /// Whether the timer is to run from construction on.
    pub fn auto(&self) -> (auto: bool)
        ensures
            auto == self@.auto(),
    {
        self.interval > 0 && !self.lazy
    }

    /// Whether the timer has been started.
    pub fn started(&self) -> (started: bool)
        ensures
            started == self@.started,
    {
        self.started
    }

    /// Whether a probe pass is out.
    pub fn probing(&self) -> (probing: bool)
        ensures
            probing == self@.probing,
    {
        self.probing
    }

    /// When the provider was last used.
    pub fn last_touch(&self) -> (at: Option<u64>)
        ensures
            at == self@.last_touch,
    {
        self.last_touch
    }

    /// When the last completed pass was recorded.
    pub fn last_probe(&self) -> (at: Option<u64>)
        ensures
            at == self@.last_probe,
    {
        self.last_probe
    }

    /// What is known about the handle at position `i`.
    pub fn health(&self, i: usize) -> (h: Health)
        ensures
            h == self@.health_of(i as int),
    {
        if i < self.table.len() {
            self.table[i]
        } else {
            Health::Unknown
        }
    }

    /// Asks for the timer. Returns whether the caller has to start it now:
    /// it has if the engine probes by timer at all and the timer is not
    /// running yet.
    pub fn kick_off(&mut self) -> (start_timer: bool)
        ensures
            final(self)@ == old(self)@.step(Event::KickOff),
            start_timer == old(self)@.starts_timer(Event::KickOff),
    {
        let start: bool = self.interval > 0 && !self.started;
        if start {
            self.started = true;
        }
        start
    }

    /// Records that the provider was used at `now`. Returns whether the
    /// caller has to start the timer now: it has on the first use of a lazy
    /// engine that probes by timer.
    pub fn touch(&mut self, now: u64) -> (start_timer: bool)
        ensures
            final(self)@ == old(self)@.step(Event::Touch(now)),
            start_timer == old(self)@.starts_timer(Event::Touch(now)),
    {
        let start: bool = self.lazy && self.interval > 0 && !self.started;
        self.last_touch = Some(now);
        if start {
            self.started = true;
        }
        start
    }

    /// Reports that the timer fired at `now`. Returns whether the caller has
    /// to run a probe pass now; if so the pass counts as out until it is
    /// reported back.
    pub fn tick(&mut self, now: u64) -> (run_pass: bool)
        ensures
            final(self)@ == old(self)@.step(Event::Tick(now)),
            run_pass == old(self)@.starts_pass(Event::Tick(now)),
    {
        if !self.started || self.probing || self.interval == 0 {
            return false;
        }
        if self.lazy {
            let used: bool = match self.last_touch {
                Some(t) => seconds_since(now, t) <= self.interval,
                None => false,
            };
            let probed: bool = match self.last_probe {
                Some(p) => seconds_since(now, p) < self.interval,
                None => false,
            };
            if !used || probed {
                return false;
            }
        }
        self.probing = true;
        true
    }

    /// Demands a probe pass now, whatever the timer does. Returns whether the
    /// caller has to run one now. It has unless a pass is already out: then
    /// the caller waits for that pass to be reported back, and may ask again.
    pub fn check(&mut self) -> (run_pass: bool)
        ensures
            final(self)@ == old(self)@.step(Event::Check),
            run_pass == old(self)@.starts_pass(Event::Check),
    {
        let run: bool = !self.probing;
        self.probing = true;
        run
    }

    /// Reports the pass that was out back at `now`, with one outcome per
    /// handle, by position: the delay measured, or none for a failure or a
    /// timeout. The whole table is replaced at once. Returns whether the
    /// outcomes were recorded. They are dropped if no pass is out, or if the
    /// handles were replaced while the pass was out.
    pub fn finish_pass(&mut self, now: u64, outcomes: &Vec<Option<u64>>) -> (recorded: bool)
        ensures
            final(self)@ == old(self)@.step(Event::PassDone(now, outcomes@)),
            recorded == old(self)@.records(Event::PassDone(now, outcomes@)),
    {
        if !self.probing || self.stale {
            self.probing = false;
            self.stale = false;
            return false;
        }
        let mut table: Vec<Health> = Vec::new();
        let mut i: usize = 0;
        while i < outcomes.len()
            invariant
                i <= outcomes.len(),
                table@.len() == i,
                forall|j: int| 0 <= j < i ==> table@[j] == Health::of_probe(outcomes@[j]),
            decreases outcomes.len() - i,
        {
            table.push(Health::from_probe(outcomes[i]));
            i += 1;
        }
        assert(table@ =~= outcomes@.map_values(|o: Option<u64>| Health::of_probe(o)));
        self.table = table;
        self.last_probe = Some(now);
        self.probing = false;
        true
    }

    /// Reports that the pass that was out could not be carried out. The table
    /// stays as it was. Returns whether a pass was out.
    pub fn abort_pass(&mut self) -> (taken: bool)
        ensures
            final(self)@ == old(self)@.step(Event::PassFailed),
            taken == old(self)@.ends_pass(Event::PassFailed),
    {
        let was: bool = self.probing;
        self.probing = false;
        self.stale = false;
        was
    }

    /// Reports that the handles were replaced. What was recorded is about
    /// handles that are gone, so the table is emptied; a pass that is out
    /// stays out, and what it reports will be dropped.
    pub fn forget(&mut self)
        ensures
            final(self)@ == old(self)@.step(Event::Forget),
    {
        self.stale = self.probing;
        self.last_probe = None;
        self.table = Vec::new();
    }
}

} // verus!

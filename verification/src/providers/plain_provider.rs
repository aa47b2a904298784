//! The provider of a fixed handle list.
use vstd::prelude::*;
use vstd::string::StringExecFns;
use crate::error::ProxyError;
use crate::health::{EngineState, Event, HealthCheck};
use crate::member::Member;
use crate::providers::{
    copy_handles,
    shows,
    snapshot,
    summarize,
    summary_of,
    OutboundHandle,
    ProviderSummary,
    ProviderType,
    ProviderVehicleType,
};

verus! {

/// A provider whose handles are fixed by the configuration.
#[derive(Debug)]
pub struct PlainProvider {
    name: String,
    proxies: Vec<OutboundHandle>,
    hc: HealthCheck,
}

impl PlainProvider {
    /// The provider's name.
    pub closed spec fn name_view(&self) -> Seq<char> {
        self.name@
    }

    /// The handles the provider owns, in configured order.
    pub closed spec fn handles(&self) -> Seq<OutboundHandle> {
        self.proxies@
    }

    /// The state of the provider's engine.
    pub closed spec fn engine(&self) -> EngineState {
        self.hc@
    }

    /// The URL that the provider's engine probes.
    pub open spec fn probe_url(&self) -> Seq<char> {
        self.engine().url
    }

    /// Whether `other` is this provider but for the state of its engine.
    pub open spec fn same_but_engine(&self, other: &PlainProvider) -> bool {
        &&& self.name_view() == other.name_view()
        &&& self.handles() == other.handles()
        &&& self.probe_url() == other.probe_url()
    }

    /// Builds the provider. An empty handle list is refused. If the engine is
    /// to run from construction on, it is kicked off, and the caller starts
    /// the timer.
    pub fn new(name: String, proxies: Vec<OutboundHandle>, hc: HealthCheck) -> (made: Result<
        PlainProvider,
        ProxyError,
    >)
        ensures
            made is Err <==> proxies@.len() == 0,
            made matches Err(e) ==> e matches ProxyError::InvalidConfig(why) && why@ == name@
                + ": proxies is empty"@,
            made matches Ok(p) ==> {
                &&& p.name_view() == name@
                &&& p.handles() == proxies@
                &&& p.engine() == if hc@.auto() {
                    hc@.step(Event::KickOff)
                } else {
                    hc@
                }
            },
    {
        if proxies.len() == 0 {
            return Err(ProxyError::InvalidConfig(name.concat(": proxies is empty")));
        }
        let mut hc: HealthCheck = hc;
        if hc.auto() {
            hc.kick_off();
        }
        Ok(PlainProvider { name, proxies, hc })
    }

    /// The provider's name.
    pub fn name(&self) -> (name: &str)
        ensures
            name@ == self.name_view(),
    {
        self.name.as_str()
    }

    /// Where the handle list comes from: the configuration.
    pub fn vehicle_type(&self) -> (vehicle: ProviderVehicleType)
        ensures
            vehicle == ProviderVehicleType::Compatible,
    {
        ProviderVehicleType::Compatible
    }

    /// What the provider provides: proxies.
    pub fn typ(&self) -> (typ: ProviderType)
        ensures
            typ == ProviderType::Proxy,
    {
        ProviderType::Proxy
    }

    /// Nothing to fetch: the handles were given at construction.
    pub fn initialize(&mut self) -> (done: Result<(), ProxyError>)
        ensures
            done is Ok,
            *final(self) == *old(self),
    {
        Ok(())
    }

    /// Nothing to refresh: the handles are fixed.
    pub fn update(&self) -> (done: Result<(), ProxyError>)
        ensures
            done is Ok,
    {
        Ok(())
    }

    /// Whether the engine's timer has been asked for. After construction it
    /// has if the engine runs from the start; the caller starts it then.
    pub fn timer_started(&self) -> (started: bool)
        ensures
            started == self.engine().started,
    {
        self.hc.started()
    }

    /// Reports on the provider: its name, kind, source, and the names of its
    /// handles in order.
    pub fn as_map(&self) -> (report: ProviderSummary)
        ensures
            report@ == summary_of(
                self.name_view(),
                ProviderType::Proxy,
                ProviderVehicleType::Compatible,
                self.handles(),
            ),
    {
        summarize(&self.name, self.typ(), self.vehicle_type(), &self.proxies)
    }

    /// A copy of the handle list. Changing the copy does not change the
    /// provider.
    pub fn proxies(&self) -> (copy: Vec<OutboundHandle>)
        ensures
            copy@ == self.handles(),
    {
        copy_handles(&self.proxies)
    }

    /// The members a group sees: each handle's name with what the engine
    /// knows about it, in configured order.
    pub fn members(&self) -> (seen: Vec<Member>)
        ensures
            shows(seen@, self.handles(), self.engine()),
    {
        snapshot(&self.proxies, &self.hc)
    }

    /// Records that the provider was used at `now`. Returns whether the
    /// caller has to start the engine's timer now.
    pub fn touch(&mut self, now: u64) -> (start_timer: bool)
        ensures
            final(self).same_but_engine(old(self)),
            final(self).engine() == old(self).engine().step(Event::Touch(now)),
            start_timer == old(self).engine().starts_timer(Event::Touch(now)),
    {
        self.hc.touch(now)
    }

    /// Demands a probe pass now. Returns whether the caller has to run one
    /// now; it has unless a pass is already out.
    pub fn healthcheck(&mut self) -> (run_pass: bool)
        ensures
            final(self).same_but_engine(old(self)),
            final(self).engine() == old(self).engine().step(Event::Check),
            run_pass == old(self).engine().starts_pass(Event::Check),
    {
        self.hc.check()
    }

    /// Reports that the engine's timer fired at `now`. Returns whether the
    /// caller has to run a probe pass now.
    pub fn tick(&mut self, now: u64) -> (run_pass: bool)
        ensures
            final(self).same_but_engine(old(self)),
            final(self).engine() == old(self).engine().step(Event::Tick(now)),
            run_pass == old(self).engine().starts_pass(Event::Tick(now)),
    {
        self.hc.tick(now)
    }

    /// Reports the pass that was out back at `now`, with one outcome per
    /// handle in configured order. A report that does not cover the handles
    /// one for one counts as a pass that could not be carried out: the
    /// results stay as they were. Returns whether results were recorded.
    pub fn finish_pass(&mut self, now: u64, outcomes: &Vec<Option<u64>>) -> (recorded: bool)
        ensures
            final(self).same_but_engine(old(self)),
            final(self).engine() == old(self).engine().step(
                if outcomes@.len() == old(self).handles().len() {
                    Event::PassDone(now, outcomes@)
                } else {
                    Event::PassFailed
                },
            ),
            recorded == (old(self).engine().records(Event::PassDone(now, outcomes@))
                && outcomes@.len() == old(self).handles().len()),
    {
        if outcomes.len() == self.proxies.len() {
            self.hc.finish_pass(now, outcomes)
        } else {
            self.hc.abort_pass();
            false
        }
    }

    /// Reports that the pass that was out could not be carried out. The
    /// results stay as they were. Returns whether a pass was out.
    pub fn abort_pass(&mut self) -> (taken: bool)
        ensures
            final(self).same_but_engine(old(self)),
            final(self).engine() == old(self).engine().step(Event::PassFailed),
            taken == old(self).engine().ends_pass(Event::PassFailed),
    {
        self.hc.abort_pass()
    }
}

} // verus!

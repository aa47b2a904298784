//! The provider of a handle list that is fetched from a file or from a
//! subscription URL, and fetched again from time to time.
//!
//! The provider does not fetch. Whoever drives it fetches and hands in what
//! came back; the provider decides what to keep.
use vstd::prelude::*;
use vstd::string::StringExecFns;
use crate::error::ProxyError;
use crate::health::{EngineState, Event, HealthCheck};
use crate::member::Member;
use crate::providers::{
    copy_handles,
    shows,
    snapshot,
    summarize,
    summary_of,
    OutboundHandle,
    ProviderSummary,
    ProviderType,
    ProviderVehicleType,
};

verus! {

/// What a fetch came back with: the handles, or why there are none.
pub type Fetched = Result<Vec<OutboundHandle>, String>;

/// Whether a fetch came back with a list that a provider can take over: it
/// did if it succeeded and the list is not empty.
pub open spec fn usable(fetched: Fetched) -> bool {
    fetched matches Ok(list) && list@.len() > 0
}

/// The error that a provider called `name` answers an unusable fetch with:
/// the reason of a fetch that failed, or that the list is empty.
pub open spec fn refusal(name: Seq<char>, fetched: Fetched, e: ProxyError) -> bool {
    match fetched {
        Ok(_) => e matches ProxyError::InvalidConfig(why) && why@ == name + ": proxies is empty"@,
        Err(reason) => e matches ProxyError::RefreshFailed(why) && why@ == reason@,
    }
}

/// A provider whose handles come from a file or a subscription.
#[derive(Debug)]
pub struct ProxySetProvider {
    name: String,
    vehicle: ProviderVehicleType,
    proxies: Vec<OutboundHandle>,
    hc: HealthCheck,
}

impl ProxySetProvider {
    /// The provider's name.
    pub closed spec fn name_view(&self) -> Seq<char> {
        self.name@
    }

    /// Where the handle list comes from.
    pub closed spec fn vehicle(&self) -> ProviderVehicleType {
        self.vehicle
    }

    /// The handles the provider owns, in the order they were fetched in.
    /// None before the first fetch; never none after a fetch was taken over.
    pub closed spec fn handles(&self) -> Seq<OutboundHandle> {
        self.proxies@
    }

    /// The state of the provider's engine.
    pub closed spec fn engine(&self) -> EngineState {
        self.hc@
    }

    /// The URL that the provider's engine probes.
    pub open spec fn probe_url(&self) -> Seq<char> {
        self.engine().url
    }

    /// Whether `other` is this provider but for its handles and the state of
    /// its engine.
    pub open spec fn same_identity(&self, other: &ProxySetProvider) -> bool {
        &&& self.name_view() == other.name_view()
        &&& self.vehicle() == other.vehicle()
        &&& self.probe_url() == other.probe_url()
    }

    /// A provider that has not fetched anything yet.
    pub fn new(name: String, vehicle: ProviderVehicleType, hc: HealthCheck) -> (p: ProxySetProvider)
        ensures
            p.name_view() == name@,
            p.vehicle() == vehicle,
            p.handles() == Seq::<OutboundHandle>::empty(),
            p.engine() == hc@,
    {
        ProxySetProvider { name, vehicle, proxies: Vec::new(), hc }
    }

    /// The provider's name.
    pub fn name(&self) -> (name: &str)
        ensures
            name@ == self.name_view(),
    {
        self.name.as_str()
    }

    /// Where the handle list comes from.
    pub fn vehicle_type(&self) -> (vehicle: ProviderVehicleType)
        ensures
            vehicle == self.vehicle(),
    {
        self.vehicle
    }

    /// What the provider provides: proxies.
    pub fn typ(&self) -> (typ: ProviderType)
        ensures
            typ == ProviderType::Proxy,
    {
        ProviderType::Proxy
    }

    /// Takes over the first fetch. An unusable fetch is refused and leaves
    /// the provider as it was. A usable one becomes the handle list; then, if
    /// the engine is to run from the start, it is kicked off, and the caller
    /// starts the timer.
    pub fn initialize(&mut self, fetched: Fetched) -> (done: Result<(), ProxyError>)
        ensures
            done is Ok <==> usable(fetched),
            done matches Err(e) ==> refusal(old(self).name_view(), fetched, e) && *final(self)
                == *old(self),
            done is Ok ==> {
                &&& final(self).same_identity(old(self))
                &&& final(self).handles() == fetched->Ok_0@
                &&& final(self).engine() == if old(self).engine().auto() {
                    old(self).engine().step(Event::Forget).step(Event::KickOff)
                } else {
                    old(self).engine().step(Event::Forget)
                }
            },
    {
        match self.update(fetched) {
            Ok(_) => {
                if self.hc.auto() {
                    self.hc.kick_off();
                }
                Ok(())
            },
            Err(e) => Err(e),
        }
    }

    /// Takes over a later fetch, all of it or nothing. An unusable fetch is
    /// refused and leaves the provider as it was, handles and results. A
    /// usable one replaces the handle list; the engine forgets what it
    /// recorded, since that was about the handles that are gone.
    pub fn update(&mut self, fetched: Fetched) -> (done: Result<(), ProxyError>)
        ensures
            done is Ok <==> usable(fetched),
            done matches Err(e) ==> refusal(old(self).name_view(), fetched, e) && *final(self)
                == *old(self),
            done is Ok ==> {
                &&& final(self).same_identity(old(self))
                &&& final(self).handles() == fetched->Ok_0@
                &&& final(self).engine() == old(self).engine().step(Event::Forget)
            },
    {
        match fetched {
            Ok(list) => {
                if list.len() == 0 {
                    return Err(
                        ProxyError::InvalidConfig(self.name.clone().concat(": proxies is empty")),
                    );
                }
                self.proxies = list;
                self.hc.forget();
                Ok(())
            },
            Err(reason) => Err(ProxyError::RefreshFailed(reason)),
        }
    }

    /// Whether the engine's timer has been asked for. After construction it
    /// has if the engine runs from the start; the caller starts it then.
    pub fn timer_started(&self) -> (started: bool)
        ensures
            started == self.engine().started,
    {
        self.hc.started()
    }

    /// Reports on the provider: its name, kind, source, and the names of its
    /// handles in order.
    pub fn as_map(&self) -> (report: ProviderSummary)
        ensures
            report@ == summary_of(
                self.name_view(),
                ProviderType::Proxy,
                self.vehicle(),
                self.handles(),
            ),
    {
        summarize(&self.name, self.typ(), self.vehicle_type(), &self.proxies)
    }

    /// A copy of the handle list. Changing the copy does not change the
    /// provider.
    pub fn proxies(&self) -> (copy: Vec<OutboundHandle>)
        ensures
            copy@ == self.handles(),
    {
        copy_handles(&self.proxies)
    }

    /// The members a group sees: each handle's name with what the engine
    /// knows about it, in order.
    pub fn members(&self) -> (seen: Vec<Member>)
        ensures
            shows(seen@, self.handles(), self.engine()),
    {
        snapshot(&self.proxies, &self.hc)
    }

    /// Records that the provider was used at `now`. Returns whether the
    /// caller has to start the engine's timer now.
    pub fn touch(&mut self, now: u64) -> (start_timer: bool)
        ensures
            final(self).same_identity(old(self)),
            final(self).handles() == old(self).handles(),
            final(self).engine() == old(self).engine().step(Event::Touch(now)),
            start_timer == old(self).engine().starts_timer(Event::Touch(now)),
    {
        self.hc.touch(now)
    }

    /// Demands a probe pass now. Returns whether the caller has to run one
    /// now; it has unless a pass is already out.
    pub fn healthcheck(&mut self) -> (run_pass: bool)
        ensures
            final(self).same_identity(old(self)),
            final(self).handles() == old(self).handles(),
            final(self).engine() == old(self).engine().step(Event::Check),
            run_pass == old(self).engine().starts_pass(Event::Check),
    {
        self.hc.check()
    }

    /// Reports that the engine's timer fired at `now`. Returns whether the
    /// caller has to run a probe pass now.
    pub fn tick(&mut self, now: u64) -> (run_pass: bool)
        ensures
            final(self).same_identity(old(self)),
            final(self).handles() == old(self).handles(),
            final(self).engine() == old(self).engine().step(Event::Tick(now)),
            run_pass == old(self).engine().starts_pass(Event::Tick(now)),
    {
        self.hc.tick(now)
    }

    /// Reports the pass that was out back at `now`, with one outcome per
    /// handle in order. A report that does not cover the handles one for one
    /// counts as a pass that could not be carried out: the results stay as
    /// they were. So do they if the handles were replaced while the pass was
    /// out. Returns whether results were recorded.
    pub fn finish_pass(&mut self, now: u64, outcomes: &Vec<Option<u64>>) -> (recorded: bool)
        ensures
            final(self).same_identity(old(self)),
            final(self).handles() == old(self).handles(),
            final(self).engine() == old(self).engine().step(
                if outcomes@.len() == old(self).handles().len() {
                    Event::PassDone(now, outcomes@)
                } else {
                    Event::PassFailed
                },
            ),
            recorded == (old(self).engine().records(Event::PassDone(now, outcomes@))
                && outcomes@.len() == old(self).handles().len()),
    {
        if outcomes.len() == self.proxies.len() {
            self.hc.finish_pass(now, outcomes)
        } else {
            self.hc.abort_pass();
            false
        }
    }

    /// Reports that the pass that was out could not be carried out. The
    /// results stay as they were. Returns whether a pass was out.
    pub fn abort_pass(&mut self) -> (taken: bool)
        ensures
            final(self).same_identity(old(self)),
            final(self).handles() == old(self).handles(),
            final(self).engine() == old(self).engine().step(Event::PassFailed),
            taken == old(self).engine().ends_pass(Event::PassFailed),
    {
        self.hc.abort_pass()
    }
}

} // verus!

//! Proxy groups: strategies that pick, out of a group's members, the proxy
//! for the next connection.
//!
//! A group does not own its members. Whoever asks it hands it the members
//! as they are now, in declared order, and gets positions in that list back.
use vstd::prelude::*;
use crate::config::{LoadBalanceStrategy, OutboundGroupProtocol};
use crate::error::ProxyError;
use crate::group::consistent_hash::is_nearest;
use crate::group::fallback::{fallback, is_first_live};
use crate::group::load_balance::{LoadBalance, LoadBalanceState};
use crate::group::round_robin::{advanced, is_next_live};
use crate::group::selector::{pointed, Selector};
use crate::group::url_test::{is_fastest, settled, UrlTest, UrlTestState};
use crate::health::HealthCheckConfig;
use crate::member::{any_live, Member};

pub mod consistent_hash;
pub mod fallback;
pub mod load_balance;
pub mod relay;
pub mod round_robin;
pub mod selector;

verus! {

/// The state of a group, by kind.
#[derive(Debug)]
pub enum ProxyGroup {
    /// Chains all members; keeps no state.
    Relay,
    /// Uses the member the user pointed at.
    Select(Selector),
    /// Uses the first live member; keeps no state.
    Fallback,
    /// Uses the fastest live member, within a tolerance.
    UrlTest(UrlTest),
    /// Spreads requests over the live members.
    LoadBalance(LoadBalance),
}

/// The tolerance a lowest-latency group works with, in milliseconds: the
/// configured one, or none where the configuration gives none or a negative
/// one.
pub open spec fn tolerance_of(configured: Option<i32>) -> u64 {
    match configured {
        Some(t) => if t > 0 {
            t as u64
        } else {
            0
        },
        None => 0,
    }
}

/// The strategy a load-balancing group works with: the configured one, or
/// taking turns.
pub open spec fn strategy_of(configured: Option<LoadBalanceStrategy>) -> LoadBalanceStrategy {
    match configured {
        Some(s) => s,
        None => LoadBalanceStrategy::RoundRobin,
    }
}

/// The key a request is mapped by: its own, or 0 if it has none.
pub open spec fn key_of(key: Option<u64>) -> u64 {
    match key {
        Some(k) => k,
        None => 0,
    }
}

/// The positions from 0 up to `len`, in order.
pub open spec fn all_positions(len: nat) -> Seq<usize> {
    Seq::new(len, |i: int| i as usize)
}

/// Whether a group that was in state `before` answers a request with key
/// `key` over the members `ms` with `answer` and is in state `after` then.
pub open spec fn answers(
    before: ProxyGroup,
    after: ProxyGroup,
    ms: Seq<Member>,
    key: Option<u64>,
    answer: Result<Seq<usize>, ProxyError>,
) -> bool {
    match before {
        ProxyGroup::Relay => after is Relay && answer == Ok::<Seq<usize>, ProxyError>(
            all_positions(ms.len()),
        ),
        ProxyGroup::Select(s) => {
            &&& after == before
            &&& match answer {
                Ok(path) => ms.len() > 0 && path == seq![pointed(s@, ms.len()) as usize],
                Err(e) => e is NoLiveProxy && ms.len() == 0,
            }
        },
        ProxyGroup::Fallback => {
            &&& after is Fallback
            &&& match answer {
                Ok(path) => path.len() == 1 && is_first_live(ms, path[0] as int),
                Err(e) => e is NoLiveProxy && !any_live(ms),
            }
        },
        ProxyGroup::UrlTest(u) => {
            &&& after matches ProxyGroup::UrlTest(v)
            &&& v@.tolerance == u@.tolerance
            &&& match answer {
                Ok(path) => {
                    &&& path.len() == 1
                    &&& v@.current == Some(path[0])
                    &&& exists|best: int|
                        is_fastest(ms, best) && path[0] == settled(
                            ms,
                            u@.current,
                            u@.tolerance,
                            best,
                        )
                },
                Err(e) => e is NoLiveProxy && !any_live(ms) && v@.current == u@.current,
            }
        },
        ProxyGroup::LoadBalance(b) => {
            &&& after matches ProxyGroup::LoadBalance(a)
            &&& a@.strategy == b@.strategy
            &&& match answer {
                Ok(path) => path.len() == 1 && match b@.strategy {
                    LoadBalanceStrategy::RoundRobin => {
                        &&& is_next_live(ms, b@.cursor as int, path[0] as int)
                        &&& a@.cursor == advanced(ms.len() as int, path[0] as int)
                    },
                    LoadBalanceStrategy::ConsistentHashing => {
                        &&& is_nearest(ms, key_of(key), path[0] as int)
                        &&& a@.cursor == b@.cursor
                    },
                },
                Err(e) => e is NoLiveProxy && !any_live(ms) && a@.cursor == b@.cursor,
            }
        },
    }
}

fn tolerance_from(configured: Option<i32>) -> (tolerance: u64)
    ensures
        tolerance == tolerance_of(configured),
{
    match configured {
        Some(t) => if t > 0 {
            t as u64
        } else {
            0
        },
        None => 0,
    }
}

fn single(i: usize) -> (path: Vec<usize>)
    ensures
        path@ == seq![i],
{
    let mut path: Vec<usize> = Vec::new();
    path.push(i);
    assert(path@ =~= seq![i]);
    path
}

impl ProxyGroup {
    /// The state a group of the configured kind starts in: nothing used yet,
    /// the pointer of a manual group at its first member, the cursor of a
    /// load balancer at the head of the list.
    pub fn from_config(config: &OutboundGroupProtocol) -> (group: ProxyGroup)
        ensures
            match *config {
                OutboundGroupProtocol::Relay(_) => group is Relay,
                OutboundGroupProtocol::Select(_) => group matches ProxyGroup::Select(s) && s@ == 0,
                OutboundGroupProtocol::Fallback(_) => group is Fallback,
                OutboundGroupProtocol::UrlTest(c) => group matches ProxyGroup::UrlTest(u) && u@ == (
                UrlTestState { tolerance: tolerance_of(c.tolerance), current: None }),
                OutboundGroupProtocol::LoadBalance(c) => group matches ProxyGroup::LoadBalance(b)
                    && b@ == (LoadBalanceState { strategy: strategy_of(c.strategy), cursor: 0 }),
            },
    {
        match config {
            OutboundGroupProtocol::Relay(_) => ProxyGroup::Relay,
            OutboundGroupProtocol::Select(_) => ProxyGroup::Select(Selector::new()),
            OutboundGroupProtocol::Fallback(_) => ProxyGroup::Fallback,
            OutboundGroupProtocol::UrlTest(c) => ProxyGroup::UrlTest(
                UrlTest::new(tolerance_from(c.tolerance)),
            ),
            OutboundGroupProtocol::LoadBalance(c) => ProxyGroup::LoadBalance(
                LoadBalance::new(c.strategy),
            ),
        }
    }

    /// How a group of the configured kind has its members probed: not at all
    /// for the kinds that do not probe (relay, manual choice); for the others
    /// with the configured URL and interval. Only a lowest-latency group can
    /// be lazy, and only it has a tolerance.
    pub fn health_check(config: &OutboundGroupProtocol) -> (probing: Option<HealthCheckConfig>)
        ensures
            match *config {
                OutboundGroupProtocol::Relay(_) => probing is None,
                OutboundGroupProtocol::Select(_) => probing is None,
                OutboundGroupProtocol::Fallback(c) => probing matches Some(p) && p.url@ == c.url@
                    && p.interval == c.interval && !p.lazy && p.tolerance is None,
                OutboundGroupProtocol::UrlTest(c) => probing matches Some(p) && p.url@ == c.url@
                    && p.interval == c.interval && p.lazy == (c.lazy == Some(true)) && p.tolerance
                    == Some(tolerance_of(c.tolerance)),
                OutboundGroupProtocol::LoadBalance(c) => probing matches Some(p) && p.url@
                    == c.url@ && p.interval == c.interval && !p.lazy && p.tolerance is None,
            },
    {
        match config {
            OutboundGroupProtocol::Relay(_) => None,
            OutboundGroupProtocol::Select(_) => None,
            OutboundGroupProtocol::Fallback(c) => Some(
                HealthCheckConfig {
                    url: c.url.clone(),
                    interval: c.interval,
                    lazy: false,
                    tolerance: None,
                },
            ),
            OutboundGroupProtocol::UrlTest(c) => {
                let lazy: bool = match c.lazy {
                    Some(l) => l,
                    None => false,
                };
                Some(
                    HealthCheckConfig {
                        url: c.url.clone(),
                        interval: c.interval,
                        lazy,
                        tolerance: Some(tolerance_from(c.tolerance)),
                    },
                )
            },
            OutboundGroupProtocol::LoadBalance(c) => Some(
                HealthCheckConfig {
                    url: c.url.clone(),
                    interval: c.interval,
                    lazy: false,
                    tolerance: None,
                },
            ),
        }
    }

    /// Answers a request: the positions of the members to connect through,
    /// in order. A relay group names all its members, whatever their health.
    /// Every other kind names one member, picked by its strategy. `key` is
    /// what a hashing load balancer maps; a request without one is mapped as
    /// if its key were 0. The key plays no part elsewhere.
    pub fn select(&mut self, members: &Vec<Member>, key: Option<u64>) -> (answer: Result<
        Vec<usize>,
        ProxyError,
    >)
        ensures
            answers(
                *old(self),
                *final(self),
                members@,
                key,
                match answer {
                    Ok(path) => Ok(path@),
                    Err(e) => Err(e),
                },
            ),
    {
        match self {
            ProxyGroup::Relay => {
                let mut path: Vec<usize> = Vec::new();
                let mut i: usize = 0;
                while i < members.len()
                    invariant
                        i <= members@.len(),
                        path@ == all_positions(i as nat),
                    decreases members.len() - i,
                {
                    path.push(i);
                    assert(path@ =~= all_positions((i + 1) as nat));
                    i += 1;
                }
                Ok(path)
            },
            ProxyGroup::Select(s) => match s.current(members) {
                Ok(i) => Ok(single(i)),
                Err(e) => Err(e),
            },
            ProxyGroup::Fallback => match fallback(members) {
                Ok(i) => Ok(single(i)),
                Err(e) => Err(e),
            },
            ProxyGroup::UrlTest(u) => match u.select(members) {
                Ok(i) => Ok(single(i)),
                Err(e) => Err(e),
            },
            ProxyGroup::LoadBalance(b) => {
                let key: u64 = match key {
                    Some(k) => k,
                    None => 0,
                };
                match b.select(members, key) {
                    Ok(i) => Ok(single(i)),
                    Err(e) => Err(e),
                }
            },
        }
    }
}

} // verus!

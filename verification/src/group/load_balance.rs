//! Load balancing: the group spreads requests over its live members, either
//! in turn or by the place of a request's key on a hash ring.
use vstd::prelude::*;
use crate::config::LoadBalanceStrategy;
use crate::error::ProxyError;
use crate::group::consistent_hash::{consistent_hash, is_nearest};
use crate::group::round_robin::{advanced, is_next_live, round_robin};
use crate::member::{any_live, Member};

verus! {

/// The state of a load-balancing group as contracts see it.
pub struct LoadBalanceState {
    pub strategy: LoadBalanceStrategy,
    pub cursor: usize,
}

/// The state of a load-balancing group: its strategy, and for taking turns
/// the cursor, which stands where the search for the next turn begins.
#[derive(Debug)]
pub struct LoadBalance {
    strategy: LoadBalanceStrategy,
    cursor: usize,
}

impl View for LoadBalance {
    type V = LoadBalanceState;

    closed spec fn view(&self) -> LoadBalanceState {
        LoadBalanceState { strategy: self.strategy, cursor: self.cursor }
    }
}

impl LoadBalance {
    /// A group that has served no request yet. Without a strategy it takes
    /// turns.
    pub fn new(strategy: Option<LoadBalanceStrategy>) -> (lb: LoadBalance)
        ensures
            lb@.cursor == 0,
            lb@.strategy == match strategy {
                Some(s) => s,
                None => LoadBalanceStrategy::RoundRobin,
            },
    {
        let strategy: LoadBalanceStrategy = match strategy {
            Some(s) => s,
            None => LoadBalanceStrategy::RoundRobin,
        };
        LoadBalance { strategy, cursor: 0 }
    }

    /// The strategy.
    pub fn strategy(&self) -> (s: LoadBalanceStrategy)
        ensures
            s == self@.strategy,
    {
        self.strategy
    }

    /// Where the search for the next turn begins.
    pub fn cursor(&self) -> (c: usize)
        ensures
            c == self@.cursor,
    {
        self.cursor
    }

    /// Picks the member for a request, by position. A group that takes turns
    /// gives the turn to the first live member at or after its cursor and
    /// moves the cursor behind it; the key plays no part. A group that hashes
    /// maps the key to a live member on the ring and has no cursor to move.
    /// Fails with `NoLiveProxy` exactly when no member is live, and then
    /// leaves the cursor where it was.
    pub fn select(&mut self, members: &Vec<Member>, key: u64) -> (picked: Result<
        usize,
        ProxyError,
    >)
        ensures
            final(self)@.strategy == old(self)@.strategy,
            match picked {
                Ok(i) => match old(self)@.strategy {
                    LoadBalanceStrategy::RoundRobin => {
                        &&& is_next_live(members@, old(self)@.cursor as int, i as int)
                        &&& final(self)@.cursor == advanced(members@.len() as int, i as int)
                    },
                    LoadBalanceStrategy::ConsistentHashing => {
                        &&& is_nearest(members@, key, i as int)
                        &&& final(self)@.cursor == old(self)@.cursor
                    },
                },
                Err(e) => {
                    &&& e is NoLiveProxy
                    &&& !any_live(members@)
                    &&& final(self)@.cursor == old(self)@.cursor
                },
            },
    {
        match self.strategy {
            LoadBalanceStrategy::RoundRobin => {
                match round_robin(members, self.cursor) {
                    Ok((i, next)) => {
                        self.cursor = next;
                        Ok(i)
                    },
                    Err(e) => Err(e),
                }
            },
            LoadBalanceStrategy::ConsistentHashing => consistent_hash(members, key),
        }
    }
}

} // verus!

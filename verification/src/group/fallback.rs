//! Ordered failover: the first live member wins.
use vstd::prelude::*;
use crate::error::ProxyError;
use crate::member::{any_live, live_at, Member};

verus! {

/// Whether `i` is the position of the first live member in declared order.
pub open spec fn is_first_live(ms: Seq<Member>, i: int) -> bool {
    &&& live_at(ms, i)
    &&& forall|j: int| 0 <= j < i ==> !live_at(ms, j)
}

/// Picks the first live member in declared order, by position. Fails with
/// `NoLiveProxy` exactly when no member is live.
pub fn fallback(members: &Vec<Member>) -> (picked: Result<usize, ProxyError>)
    ensures
        match picked {
            Ok(i) => is_first_live(members@, i as int),
            Err(e) => e is NoLiveProxy && !any_live(members@),
        },
{
    let mut i: usize = 0;
    while i < members.len()
        invariant
            i <= members.len(),
            forall|j: int| 0 <= j < i ==> !live_at(members@, j),
        decreases members.len() - i,
    {
        if members[i].health.is_live() {
            return Ok(i);
        }
        i += 1;
    }
    Err(ProxyError::NoLiveProxy)
}

/// A group has one first live member at most: two positions that both
/// qualify are the same.
pub proof fn first_live_is_unique(ms: Seq<Member>, i: int, j: int)
    requires
        is_first_live(ms, i),
        is_first_live(ms, j),
    ensures
        i == j,
{
}

} // verus!

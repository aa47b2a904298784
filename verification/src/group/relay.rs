//! Chaining: a relay group sends a connection through all of its members,
//! in declared order. It has no live set of its own; each member answers
//! for itself.
use vstd::prelude::*;
use crate::error::ProxyError;
use crate::text::{extend_names, names};

verus! {

/// What one member of a relay group resolved to: the proxies to go through
/// for it, in order, or why it has none to offer. A proxy resolves to
/// itself; a group resolves to what it selects, a relay group to its whole
/// chain.
pub type Hop = Result<Vec<String>, ProxyError>;

/// Whether `i` is the position of the first member that could not be
/// resolved.
pub open spec fn is_first_failure(hops: Seq<Hop>, i: int) -> bool {
    &&& 0 <= i < hops.len()
    &&& hops[i] is Err
    &&& forall|j: int| 0 <= j < i ==> (#[trigger] hops[j]) is Ok
}

/// Whether every member could be resolved.
pub open spec fn all_resolved(hops: Seq<Hop>) -> bool {
    forall|i: int| 0 <= i < hops.len() ==> (#[trigger] hops[i]) is Ok
}

/// The chains of the members that could be resolved, one after the other.
pub open spec fn joined(hops: Seq<Hop>) -> Seq<Seq<char>>
    decreases hops.len(),
{
    if hops.len() == 0 {
        Seq::empty()
    } else {
        joined(hops.drop_last()) + match hops.last() {
            Ok(chain) => names(chain@),
            Err(_) => Seq::empty(),
        }
    }
}

/// Composes the chain of a relay group from what its members resolved to,
/// in declared order. Succeeds exactly when every member could be resolved,
/// with the members' chains one after the other; else fails with the error
/// of the first member that could not.
pub fn relay_chain(hops: &Vec<Hop>) -> (chain: Result<Vec<String>, ProxyError>)
    ensures
        match chain {
            Ok(c) => all_resolved(hops@) && names(c@) == joined(hops@),
            Err(e) => exists|i: int|
                is_first_failure(hops@, i) && (#[trigger] hops@[i]) == Err::<Vec<String>, ProxyError>(
                    e,
                ),
        },
{
    let mut out: Vec<String> = Vec::new();
    let mut i: usize = 0;
    assert(names(out@) =~= joined(hops@.take(0)));
    while i < hops.len()
        invariant
            i <= hops@.len(),
            forall|j: int| 0 <= j < i ==> (#[trigger] hops@[j]) is Ok,
            names(out@) == joined(hops@.take(i as int)),
        decreases hops.len() - i,
    {
        match &hops[i] {
            Ok(chain) => {
                extend_names(&mut out, chain);
                assert(hops@.take(i as int + 1).drop_last() =~= hops@.take(i as int));
                assert(hops@.take(i as int + 1).last() == hops@[i as int]);
            },
            Err(e) => {
                assert(is_first_failure(hops@, i as int));
                return Err(e.clone());
            },
        }
        i += 1;
    }
    assert(hops@.take(i as int) =~= hops@);
    Ok(out)
}

} // verus!

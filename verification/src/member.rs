//! The members a group selects from, and which of them are live.
//!
//! A group sees its members in declared order: the handles of the providers
//! it uses, each with what that provider's engine knows about it. A member is
//! live unless its last probe failed; one that was never probed is live.
use vstd::prelude::*;
use crate::health::Health;

verus! {

/// One member of a group as a selection sees it: a name and what is known
/// about the handle behind it.
#[derive(Debug, PartialEq, Eq)]
pub struct Member {
    pub name: String,
    pub health: Health,
}

impl Clone for Member {
    fn clone(&self) -> (copy: Self)
        ensures
            copy == *self,
    {
        Member { name: self.name.clone(), health: self.health }
    }
}

/// The members of several providers, one provider after the other.
pub open spec fn gathered(parts: Seq<Vec<Member>>) -> Seq<Member>
    decreases parts.len(),
{
    if parts.len() == 0 {
        Seq::empty()
    } else {
        gathered(parts.drop_last()) + parts.last()@
    }
}

/// Puts together the members of a group that draws on several providers:
/// what each provider shows, in the order the group uses the providers.
pub fn gather(parts: &Vec<Vec<Member>>) -> (all: Vec<Member>)
    ensures
        all@ == gathered(parts@),
{
    let mut all: Vec<Member> = Vec::new();
    let mut i: usize = 0;
    assert(all@ =~= gathered(parts@.take(0)));
    while i < parts.len()
        invariant
            i <= parts@.len(),
            all@ == gathered(parts@.take(i as int)),
        decreases parts.len() - i,
    {
        let part: &Vec<Member> = &parts[i];
        let ghost before = all@;
        let mut k: usize = 0;
        assert(all@ =~= before + part@.take(0));
        while k < part.len()
            invariant
                k <= part@.len(),
                all@ == before + part@.take(k as int),
            decreases part.len() - k,
        {
            all.push(part[k].clone());
            assert(all@ =~= before + part@.take(k as int + 1));
            k += 1;
        }
        assert(part@.take(k as int) =~= part@);
        assert(parts@.take(i as int + 1).drop_last() =~= parts@.take(i as int));
        assert(parts@.take(i as int + 1).last() == parts@[i as int]);
        i += 1;
    }
    assert(parts@.take(i as int) =~= parts@);
    all
}

/// Whether `i` is the position of a live member.
pub open spec fn live_at(ms: Seq<Member>, i: int) -> bool {
    0 <= i < ms.len() && ms[i].health.live()
}

/// Whether any member is live.
pub open spec fn any_live(ms: Seq<Member>) -> bool {
    exists|i: int| live_at(ms, i)
}

/// How many of the members before position `i` are live. For a live member
/// this is its place among the live members, counted from 0 in declared
/// order.
pub open spec fn live_before(ms: Seq<Member>, i: int) -> nat
    decreases i,
{
    if i <= 0 {
        0
    } else {
        live_before(ms, i - 1) + if live_at(ms, i - 1) {
            1nat
        } else {
            0nat
        }
    }
}

/// How many members are live.
pub open spec fn live_count(ms: Seq<Member>) -> nat {
    live_before(ms, ms.len() as int)
}

/// The count of live members before a position does not shrink as the
/// position moves on.
pub proof fn live_before_grows(ms: Seq<Member>, a: int, b: int)
    requires
        a <= b,
    ensures
        live_before(ms, a) <= live_before(ms, b),
    decreases b - a,
{
    if a < b {
        live_before_grows(ms, a, b - 1);
    }
}

/// The count of live members before a position stays the same across a
/// stretch without live members.
pub proof fn live_before_skips(ms: Seq<Member>, a: int, b: int)
    requires
        a <= b,
        forall|j: int| a <= j < b ==> !live_at(ms, j),
    ensures
        live_before(ms, b) == live_before(ms, a),
    decreases b - a,
{
    if a < b {
        live_before_skips(ms, a, b - 1);
    }
}

/// Two live members have different places among the live members: the one
/// that is declared first has the lower place.
pub proof fn live_places_differ(ms: Seq<Member>, i: int, j: int)
    requires
        live_at(ms, i),
        live_at(ms, j),
        i < j,
    ensures
        live_before(ms, i) < live_before(ms, j),
{
    live_before_grows(ms, i + 1, j);
}

/// The members with the one at position `d` marked dead.
pub open spec fn with_dead(ms: Seq<Member>, d: int) -> Seq<Member> {
    ms.update(d, Member { name: ms[d].name, health: Health::Dead })
}

/// The position that the member at `i` has after the member at `r` left.
pub open spec fn shifted(i: int, r: int) -> int {
    if i < r {
        i
    } else {
        i - 1
    }
}

/// The live set: the positions of the live members, in declared order.
pub fn live_set(members: &Vec<Member>) -> (live: Vec<usize>)
    ensures
        forall|k: int| 0 <= k < live@.len() ==> live_at(members@, #[trigger] live@[k] as int),
        forall|k: int, l: int| 0 <= k < l < live@.len() ==> live@[k] < live@[l],
        forall|i: int| live_at(members@, i) ==> live@.contains(i as usize),
        live@.len() == live_count(members@),
{
    let mut live: Vec<usize> = Vec::new();
    let mut i: usize = 0;
    while i < members.len()
        invariant
            i <= members.len(),
            forall|k: int| 0 <= k < live@.len() ==> live_at(members@, #[trigger] live@[k] as int),
            forall|k: int| 0 <= k < live@.len() ==> (#[trigger] live@[k]) < i,
            forall|k: int, l: int| 0 <= k < l < live@.len() ==> live@[k] < live@[l],
            forall|j: int| 0 <= j < i && live_at(members@, j) ==> live@.contains(j as usize),
            live@.len() == live_before(members@, i as int),
        decreases members.len() - i,
    {
        if members[i].health.is_live() {
            let ghost before = live@;
            live.push(i);
            assert(live@[live@.len() - 1] == i);
            assert forall|j: int| 0 <= j < i + 1 && live_at(members@, j) implies live@.contains(
                j as usize,
            ) by {
                if j < i {
                    let k = choose|k: int| 0 <= k < before.len() && before[k] == j as usize;
                    assert(live@[k] == j as usize);
                }
            }
        }
        i += 1;
    }
    live
}

} // verus!

//! Taking turns: each request goes to the next live member in declared
//! order, around the end of the list.
use vstd::prelude::*;
use vstd::arithmetic::div_mod::{
    lemma_add_mod_noop_right,
    lemma_mod_add_multiples_vanish,
    lemma_mod_equivalence,
    lemma_mod_self_0,
    lemma_small_mod,
};
use crate::error::ProxyError;
use crate::member::{
    any_live,
    live_at,
    live_before,
    live_before_grows,
    live_before_skips,
    live_count,
    live_places_differ,
    with_dead,
    Member,
};

verus! {


/// How many steps forward lead from position `from` to position `to` on a
/// circle of `len` positions.
pub open spec fn steps(len: int, from: int, to: int) -> int {
    if to >= from {
        to - from
    } else {
        to - from + len
    }
}

/// The position `k` steps forward from `from` on a circle of `len`
/// positions, for `k` up to `len`.
pub open spec fn forward(len: int, from: int, k: int) -> int {
    if from + k < len {
        from + k
    } else {
        from + k - len
    }
}

/// The position after `i` on a circle of `len` positions.
pub open spec fn advanced(len: int, i: int) -> int {
    if i + 1 >= len {
        0
    } else {
        i + 1
    }
}

/// Whether the member at `i` is the one whose turn it is when the cursor
/// stands at `cursor`: the first live member found by walking forward from
/// the cursor, around the end of the list if need be.
pub open spec fn is_next_live(ms: Seq<Member>, cursor: int, i: int) -> bool {
    &&& live_at(ms, i)
    &&& forall|j: int|
        live_at(ms, j) ==> steps(ms.len() as int, cursor % (ms.len() as int), i) <= steps(
            ms.len() as int,
            cursor % (ms.len() as int),
            j,
        )
}

/// Gives the turn to the first live member at or after the cursor, walking
/// around the end of the list if need be. Returns its position and the
/// cursor for the next turn, which stands just behind it. Dead members are
/// passed over. Fails with `NoLiveProxy` exactly when no member is live.
pub fn round_robin(members: &Vec<Member>, cursor: usize) -> (turn: Result<
    (usize, usize),
    ProxyError,
>)
    ensures
        match turn {
            Ok((i, next)) => is_next_live(members@, cursor as int, i as int) && next == advanced(
                members@.len() as int,
                i as int,
            ),
            Err(e) => e is NoLiveProxy && !any_live(members@),
        },
{
    let len: usize = members.len();
    if len == 0 {
        return Err(ProxyError::NoLiveProxy);
    }
    let start: usize = cursor % len;
    let mut k: usize = 0;
    while k < len
        invariant
            k <= len,
            len == members@.len(),
            start < len,
            start as int == (cursor as int) % (len as int),
            forall|o: int| 0 <= o < k ==> !live_at(members@, #[trigger] forward(len as int, start as int, o)),
        decreases len - k,
    {
        let i: usize = if k < len - start {
            start + k
        } else {
            k - (len - start)
        };
        assert(i == forward(len as int, start as int, k as int));
        if members[i].health.is_live() {
            let next: usize = if i + 1 >= len {
                0
            } else {
                i + 1
            };
            assert forall|j: int| live_at(members@, j) implies steps(
                len as int,
                start as int,
                i as int,
            ) <= steps(len as int, start as int, j) by {
                let o = steps(len as int, start as int, j);
                if o < k {
                    assert(forward(len as int, start as int, o) == j);
                }
            }
            return Ok((i, next));
        }
        k += 1;
    }
    assert forall|j: int| !live_at(members@, j) by {
        if 0 <= j < len {
            let o = steps(len as int, start as int, j);
            assert(forward(len as int, start as int, o) == j);
        }
    }
    Err(ProxyError::NoLiveProxy)
}

/// At most one member has the turn: two positions that both qualify are the
/// same.
pub proof fn next_live_is_unique(ms: Seq<Member>, cursor: int, i: int, j: int)
    requires
        is_next_live(ms, cursor, i),
        is_next_live(ms, cursor, j),
    ensures
        i == j,
{
}

/// The turn passes to the next live member in declared order. If the member
/// at `p` had the turn and the member at `q` gets the one after, then `q`
/// stands one place behind `p` among the live members, or is the first of
/// them if `p` was the last.
pub proof fn turn_passes_on(ms: Seq<Member>, p: int, q: int)
    requires
        live_at(ms, p),
        is_next_live(ms, advanced(ms.len() as int, p), q),
    ensures
        live_count(ms) > 0,
        live_before(ms, q) == (live_before(ms, p) as int + 1) % (live_count(ms) as int),
{
    let len = ms.len() as int;
    let n = live_count(ms);
    let start = advanced(len, p);
    assert(start % len == start) by {
        lemma_small_mod(start as nat, len as nat);
    }
    live_before_grows(ms, p + 1, len);
    live_before_grows(ms, q + 1, len);
    if q > p {
        assert forall|j: int| p + 1 <= j < q implies !live_at(ms, j) by {
            if live_at(ms, j) {
                assert(steps(len, start, q) <= steps(len, start, j));
            }
        }
        live_before_skips(ms, p + 1, q);
        lemma_small_mod(live_before(ms, q), n);
    } else {
        assert forall|j: int| p + 1 <= j < len implies !live_at(ms, j) by {
            if live_at(ms, j) {
                assert(steps(len, start, q) <= steps(len, start, j));
            }
        }
        assert forall|j: int| 0 <= j < q implies !live_at(ms, j) by {
            if live_at(ms, j) {
                assert(steps(len, start, q) <= steps(len, start, j));
            }
        }
        live_before_skips(ms, p + 1, len);
        live_before_skips(ms, 0, q);
        lemma_mod_self_0(n as int);
    }
}

/// Whether `picks` are the members that get consecutive turns, starting
/// with the cursor at `cursor`, while no member's health changes.
pub open spec fn is_rotation(ms: Seq<Member>, cursor: int, picks: Seq<int>) -> bool {
    forall|k: int|
        0 <= k < picks.len() ==> is_next_live(
            ms,
            if k == 0 {
                cursor
            } else {
                advanced(ms.len() as int, picks[k - 1])
            },
            #[trigger] picks[k],
        )
}

/// Turns go round in declared order. While no member's health changes, the
/// member that gets the `k`-th turn after the first stands `k` places behind
/// the first pick among the live members, counted around the end of the
/// list.
pub proof fn rotation_follows_declared_order(ms: Seq<Member>, cursor: int, picks: Seq<int>, k: int)
    requires
        is_rotation(ms, cursor, picks),
        0 <= k < picks.len(),
    ensures
        live_at(ms, picks[k]),
        live_count(ms) > 0,
        live_before(ms, picks[k]) == (live_before(ms, picks[0]) + k) % (live_count(ms) as int),
    decreases k,
{
    let n = live_count(ms) as int;
    assert(live_at(ms, picks[k]));
    live_before_grows(ms, picks[k] + 1, ms.len() as int);
    if k == 0 {
        lemma_small_mod(live_before(ms, picks[0]), live_count(ms));
    } else {
        rotation_follows_declared_order(ms, cursor, picks, k - 1);
        turn_passes_on(ms, picks[k - 1], picks[k]);
        lemma_add_mod_noop_right(1, live_before(ms, picks[0]) + k - 1, n);
    }
}

proof fn places_in_a_round(first: int, k: int, l: int, n: int)
    requires
        n > 0,
        0 <= first,
        0 <= k < l,
    ensures
        l - k == n ==> (first + k) % n == (first + l) % n,
        l - k < n ==> (first + k) % n != (first + l) % n,
{
    if l - k == n {
        lemma_mod_add_multiples_vanish(first + k, n);
    } else if l - k < n {
        lemma_mod_equivalence(first + l, first + k, n);
        lemma_small_mod((l - k) as nat, n as nat);
    }
}

/// Every live member gets one turn in each round. While no member's health
/// changes and `n` members are live, any `n` consecutive turns go to `n`
/// different members, and the turn after those goes to the member that had
/// the first of them.
pub proof fn rotation_visits_each_once(
    ms: Seq<Member>,
    cursor: int,
    picks: Seq<int>,
    k: int,
    l: int,
)
    requires
        is_rotation(ms, cursor, picks),
        0 <= k < l < picks.len(),
    ensures
        l - k < live_count(ms) ==> picks[k] != picks[l],
        l - k == live_count(ms) ==> picks[k] == picks[l],
{
    let n = live_count(ms) as int;
    let first = live_before(ms, picks[0]) as int;
    rotation_follows_declared_order(ms, cursor, picks, k);
    rotation_follows_declared_order(ms, cursor, picks, l);
    places_in_a_round(first, k, l, n);
    if picks[k] < picks[l] {
        live_places_differ(ms, picks[k], picks[l]);
    } else if picks[l] < picks[k] {
        live_places_differ(ms, picks[l], picks[k]);
    }
}

/// A member that dies is passed over, and nothing else changes. If the
/// member at `d` dies while the member at `p` has the turn, then `p` keeps
/// the turn unless it is the one that died; if it is, the turn goes to the
/// member that would have followed it.
pub proof fn rotation_skips_the_dead(ms: Seq<Member>, cursor: int, d: int, p: int, q: int)
    requires
        0 <= d < ms.len(),
        is_next_live(ms, cursor, p),
    ensures
        p != d ==> is_next_live(with_dead(ms, d), cursor, p),
        p == d && q != d ==> (is_next_live(with_dead(ms, d), cursor, q) <==> is_next_live(
            ms,
            advanced(ms.len() as int, d),
            q,
        )),
{
    let len = ms.len() as int;
    let after = with_dead(ms, d);
    let start = cursor % len;
    let behind = advanced(len, d);
    assert(behind % len == behind) by {
        lemma_small_mod(behind as nat, len as nat);
    }
    assert(0 <= start < len);
    assert forall|j: int| live_at(after, j) <==> live_at(ms, j) && j != d by {}
    if p != d {
        assert(is_next_live(after, cursor, p));
    }
    if p == d && q != d {
        if is_next_live(after, cursor, q) {
            assert forall|j: int| live_at(ms, j) implies steps(len, behind, q) <= steps(
                len,
                behind,
                j,
            ) by {
                if j != d {
                    assert(live_at(after, j));
                    assert(steps(len, start, q) <= steps(len, start, j));
                    assert(steps(len, start, d) <= steps(len, start, j));
                    assert(steps(len, start, d) <= steps(len, start, q));
                }
            }
            assert(is_next_live(ms, behind, q));
        }
        if is_next_live(ms, behind, q) {
            assert forall|j: int| live_at(after, j) implies steps(len, start, q) <= steps(
                len,
                start,
                j,
            ) by {
                assert(live_at(ms, j));
                assert(steps(len, behind, q) <= steps(len, behind, j));
                assert(steps(len, start, d) <= steps(len, start, j));
                assert(steps(len, start, d) <= steps(len, start, q));
            }
            assert(is_next_live(after, cursor, q));
        }
    }
}

} // verus!

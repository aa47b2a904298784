//! Consistent hashing: each member has a place on a ring, given by its
//! name, and a request goes to the live member whose place comes first
//! clockwise from the request's key. When a member leaves or dies, only the
//! keys that mapped to it move.
use vstd::prelude::*;
use vstd::utf8::encode_utf8;
use crate::error::ProxyError;
use crate::member::{any_live, live_at, shifted, with_dead, Member};

verus! {

/// The value the name hash starts from.
pub const HASH_BASIS: u64 = 0xcbf2_9ce4_8422_2325;

/// The multiplier of the name hash.
pub const HASH_PRIME: u64 = 0x0000_0100_0000_01b3;

/// One round of the name hash: mixes the byte in, then multiplies, keeping
/// the low 64 bits.
pub open spec fn hash_round(h: u64, b: u8) -> u64 {
    (((h ^ (b as u64)) as nat * HASH_PRIME as nat) % 0x1_0000_0000_0000_0000) as u64
}

/// The hash of a run of bytes (FNV-1a, 64 bits).
pub open spec fn hash_bytes(bytes: Seq<u8>) -> u64
    decreases bytes.len(),
{
    if bytes.len() == 0 {
        HASH_BASIS
    } else {
        hash_round(hash_bytes(bytes.drop_last()), bytes.last())
    }
}

/// The place of a name on the hash ring: the hash of its UTF-8 bytes. It
/// depends on the name alone, so it is the same in every group and on every
/// run.
pub open spec fn ring_point(name: Seq<char>) -> u64 {
    hash_bytes(encode_utf8(name))
}

/// Computes the place of a name on the hash ring.
pub fn ring_point_of(name: &str) -> (point: u64)
    ensures
        point == ring_point(name@),
{
    let bytes: &[u8] = name.as_bytes();
    let mut h: u64 = HASH_BASIS;
    let mut i: usize = 0;
    while i < bytes.len()
        invariant
            i <= bytes@.len(),
            h == hash_bytes(bytes@.take(i as int)),
        decreases bytes.len() - i,
    {
        assert(bytes@.take(i as int + 1).drop_last() =~= bytes@.take(i as int));
        h = (h ^ (bytes[i] as u64)).wrapping_mul(HASH_PRIME);
        i += 1;
    }
    assert(bytes@.take(i as int) =~= bytes@);
    h
}

/// How far clockwise the ring point `point` lies from `key`.
pub open spec fn ring_steps(key: u64, point: u64) -> int {
    if point >= key {
        point - key
    } else {
        point - key + 0x1_0000_0000_0000_0000
    }
}

/// How far clockwise from `key` the member at `i` lies on the ring.
pub open spec fn ring_distance(ms: Seq<Member>, key: u64, i: int) -> int {
    ring_steps(key, ring_point(ms[i].name@))
}

/// Whether the member at `i` is the one that `key` maps to: the live member
/// whose ring point comes first clockwise from the key, and the first in
/// declared order among those that share that point.
pub open spec fn is_nearest(ms: Seq<Member>, key: u64, i: int) -> bool {
    &&& live_at(ms, i)
    &&& forall|j: int|
        live_at(ms, j) ==> ring_distance(ms, key, i) < ring_distance(ms, key, j) || (ring_distance(
            ms,
            key,
            i,
        ) == ring_distance(ms, key, j) && i <= j)
}

fn ring_steps_of(key: u64, point: u64) -> (d: u64)
    ensures
        d == ring_steps(key, point),
{
    if point >= key {
        point - key
    } else {
        u64::MAX - key + point + 1
    }
}

/// Maps `key` to a live member, by position: the one whose ring point comes
/// first clockwise from the key. Dead members are passed over. Fails with
/// `NoLiveProxy` exactly when no member is live.
pub fn consistent_hash(members: &Vec<Member>, key: u64) -> (picked: Result<usize, ProxyError>)
    ensures
        match picked {
            Ok(i) => is_nearest(members@, key, i as int),
            Err(e) => e is NoLiveProxy && !any_live(members@),
        },
{
    let mut found: Option<(usize, u64)> = None;
    let mut i: usize = 0;
    while i < members.len()
        invariant
            i <= members.len(),
            found is None ==> forall|j: int| 0 <= j < i ==> !live_at(members@, j),
            found matches Some((b, d)) ==> {
                &&& b < i
                &&& live_at(members@, b as int)
                &&& d == ring_distance(members@, key, b as int)
                &&& forall|j: int|
                    0 <= j < i && live_at(members@, j) ==> d < ring_distance(members@, key, j) || (d
                        == ring_distance(members@, key, j) && b <= j)
            },
        decreases members.len() - i,
    {
        if members[i].health.is_live() {
            let d: u64 = ring_steps_of(key, ring_point_of(members[i].name.as_str()));
            match found {
                None => {
                    found = Some((i, d));
                },
                Some((_, least)) => {
                    if d < least {
                        found = Some((i, d));
                    }
                },
            }
        }
        i += 1;
    }
    match found {
        None => Err(ProxyError::NoLiveProxy),
        Some((b, _)) => Ok(b),
    }
}

/// A key maps to one member at most: two positions that both qualify are
/// the same.
pub proof fn nearest_is_unique(ms: Seq<Member>, key: u64, i: int, j: int)
    requires
        is_nearest(ms, key, i),
        is_nearest(ms, key, j),
    ensures
        i == j,
{
}

/// Removing a member moves only the keys that mapped to it. A key that maps
/// to the member at `i` still maps to that member after the member at
/// another position `r` has left the list. Read the other way round: when a
/// member joins, a key either moves to the newcomer or stays where it was.
pub proof fn removal_keeps_other_keys(ms: Seq<Member>, key: u64, i: int, r: int)
    requires
        is_nearest(ms, key, i),
        0 <= r < ms.len(),
        i != r,
    ensures
        ms.remove(r)[shifted(i, r)] == ms[i],
        is_nearest(ms.remove(r), key, shifted(i, r)),
{
    let after = ms.remove(r);
    ms.remove_ensures(r);
    let at = shifted(i, r);
    assert(after[at] == ms[i]);
    assert forall|j: int| live_at(after, j) implies ring_distance(after, key, at) < ring_distance(
        after,
        key,
        j,
    ) || (ring_distance(after, key, at) == ring_distance(after, key, j) && at <= j) by {
        let was = if j < r {
            j
        } else {
            j + 1
        };
        assert(after[j] == ms[was]);
        assert(live_at(ms, was));
    }
}

/// A member that dies loses its keys and no other key moves. A key that maps
/// to the member at `i` still maps to it after the member at another
/// position `d` has died. Read the other way round: when a member comes back
/// to life, a key either moves to it or stays where it was.
pub proof fn failure_keeps_other_keys(ms: Seq<Member>, key: u64, i: int, d: int)
    requires
        is_nearest(ms, key, i),
        0 <= d < ms.len(),
        i != d,
    ensures
        is_nearest(with_dead(ms, d), key, i),
{
    let after = with_dead(ms, d);
    assert forall|j: int| live_at(after, j) implies ring_distance(after, key, i) < ring_distance(
        after,
        key,
        j,
    ) || (ring_distance(after, key, i) == ring_distance(after, key, j) && i <= j) by {
        assert(live_at(ms, j));
    }
}

} // verus!

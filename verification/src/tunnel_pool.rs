//! The tunnels connected to an ingress, and the round-robin choice of the tunnel
//! that carries the next connection or datagram.
use vstd::prelude::*;

use vstd::arithmetic::div_mod::{lemma_mod_self_0, lemma_small_mod};

use crate::error::Error;
use crate::frames::v1::TunnelId;

verus! {

broadcast use vstd::array::group_array_axioms;

/// Tunnels attached to one ingress, each under the id the server gave it, and the
/// rotation counter of the round robin.
pub struct TunnelPool<T> {
    tunnels: Vec<(TunnelId, T)>,
    rotation: usize,
}

/// The index that the round robin picks among `len` tunnels when its counter is
/// `rotation`: the only tunnel when there is one, otherwise the counter modulo
/// the number of tunnels.
pub open spec fn spec_pick_index(len: nat, rotation: nat) -> Option<nat> {
    if len == 0 {
        None
    } else if len == 1 {
        Some(0)
    } else {
        Some(rotation % len)
    }
}

/// The rotation counter after a pick among `len` tunnels: it moves on, wrapping
/// around at the top of `usize`, only when there is a choice to make.
pub open spec fn spec_next_rotation(len: nat, rotation: usize) -> usize {
    if len >= 2 {
        if rotation == usize::MAX {
            0
        } else {
            (rotation + 1) as usize
        }
    } else {
        rotation
    }
}

/// Whether two tunnel ids are the same bytes.
pub fn same_tunnel_id(a: &TunnelId, b: &TunnelId) -> (r: bool)
    ensures
        r == (a.0@ == b.0@),
{
    let mut i: usize = 0;
    while i < 16
        invariant
            i <= 16,
            forall|j: int| 0 <= j < i ==> a.0@[j] == b.0@[j],
        decreases 16 - i,
    {
        if a.0[i] != b.0[i] {
            return false;
        }
        i = i + 1;
    }
    assert(a.0@ =~= b.0@);
    true
}

impl<T> TunnelPool<T> {
    /// The ids of the attached tunnels, in their current order.
    pub closed spec fn spec_ids(&self) -> Seq<Seq<u8>> {
        self.tunnels@.map_values(|e: (TunnelId, T)| e.0.0@)
    }

    /// The attached tunnels, in their current order.
    pub closed spec fn spec_tunnels(&self) -> Seq<T> {
        self.tunnels@.map_values(|e: (TunnelId, T)| e.1)
    }

    /// The rotation counter.
    pub closed spec fn spec_rotation(&self) -> usize {
        self.rotation
    }

    /// A pool without tunnels whose rotation starts at 0.
    pub fn new() -> (r: Self)
        ensures
            r.spec_ids().len() == 0,
            r.spec_tunnels().len() == 0,
            r.spec_rotation() == 0,
    {
        TunnelPool { tunnels: Vec::new(), rotation: 0 }
    }

    /// Number of attached tunnels.
    pub fn len(&self) -> (r: usize)
        ensures
            r == self.spec_tunnels().len(),
            r == self.spec_ids().len(),
    {
        self.tunnels.len()
    }

    /// Attaches a tunnel at the end of the pool.
    pub fn push(&mut self, id: TunnelId, tunnel: T)
        ensures
            final(self).spec_ids() == old(self).spec_ids().push(id.0@),
            final(self).spec_tunnels() == old(self).spec_tunnels().push(tunnel),
            final(self).spec_rotation() == old(self).spec_rotation(),
    {
        let ghost ids = self.spec_ids();
        let ghost ts = self.spec_tunnels();
        self.tunnels.push((id, tunnel));
        assert(self.spec_ids() =~= ids.push(id.0@));
        assert(self.spec_tunnels() =~= ts.push(tunnel));
    }

    /// Picks the tunnel for the next connection: `None` without tunnels, the
    /// only tunnel when there is one, otherwise the tunnels in turn.
    pub fn pick(&mut self) -> (r: Option<&T>)
        ensures
            final(self).spec_tunnels() == old(self).spec_tunnels(),
            final(self).spec_ids() == old(self).spec_ids(),
            final(self).spec_rotation() == spec_next_rotation(
                old(self).spec_tunnels().len(),
                old(self).spec_rotation(),
            ),
            r is None <==> old(self).spec_tunnels().len() == 0,
            r matches Some(t) ==> *t == old(self).spec_tunnels()[spec_pick_index(
                old(self).spec_tunnels().len(),
                old(self).spec_rotation() as nat,
            )->Some_0 as int],
            old(self).spec_tunnels().len() >= 2 ==> final(self).spec_rotation() as int == (
            old(self).spec_rotation() as int + 1) % (usize::MAX as int + 1),
            old(self).spec_tunnels().len() < 2 ==> final(self).spec_rotation() == old(
                self,
            ).spec_rotation(),
    {
        let n = self.tunnels.len();
        if n == 0 {
            return None;
        }
        if n == 1 {
            return Some(&self.tunnels[0].1);
        }
        let i = self.rotation % n;
        proof {
            if self.rotation < usize::MAX {
                lemma_small_mod((self.rotation + 1) as nat, (usize::MAX + 1) as nat);
            } else {
                lemma_mod_self_0(usize::MAX as int + 1);
            }
        }
        self.rotation = self.rotation.wrapping_add(1);
        Some(&self.tunnels[i].1)
    }

    /// Picks the tunnel that carries the next datagram, as `pick` does, and fails
    /// with `NoTunnelAvailable` when no tunnel is attached.
    pub fn pick_for_datagram(&mut self) -> (r: Result<&T, Error>)
        ensures
            final(self).spec_tunnels() == old(self).spec_tunnels(),
            final(self).spec_ids() == old(self).spec_ids(),
            final(self).spec_rotation() == spec_next_rotation(
                old(self).spec_tunnels().len(),
                old(self).spec_rotation(),
            ),
            old(self).spec_tunnels().len() >= 2 ==> final(self).spec_rotation() as int == (
            old(self).spec_rotation() as int + 1) % (usize::MAX as int + 1),
            r is Err <==> old(self).spec_tunnels().len() == 0,
            r matches Err(e) ==> e is NoTunnelAvailable,
            r matches Ok(t) ==> *t == old(self).spec_tunnels()[spec_pick_index(
                old(self).spec_tunnels().len(),
                old(self).spec_rotation() as nat,
            )->Some_0 as int],
    {
        match self.pick() {
            Some(t) => Ok(t),
            None => Err(Error::NoTunnelAvailable),
        }
    }

    /// Detaches the first tunnel attached under `id`, moving the last tunnel into
    /// its place; returns whether one was found.
    pub fn remove(&mut self, id: &TunnelId) -> (r: bool)
        ensures
            final(self).spec_rotation() == old(self).spec_rotation(),
            r <==> old(self).spec_ids().contains(id.0@),
            !r ==> final(self).spec_ids() == old(self).spec_ids() && final(self).spec_tunnels()
                == old(self).spec_tunnels(),
            r ==> exists|i: int|
                #![trigger old(self).spec_ids()[i]]
                0 <= i < old(self).spec_ids().len()
                && old(self).spec_ids()[i] == id.0@
                && (forall|j: int| 0 <= j < i ==> old(self).spec_ids()[j] != id.0@)
                && final(self).spec_ids() == old(self).spec_ids().update(i, old(self).spec_ids().last()).drop_last()
                && final(self).spec_tunnels() == old(self).spec_tunnels().update(i, old(self).spec_tunnels().last()).drop_last(),
            old(self).spec_ids().no_duplicates() ==> !final(self).spec_ids().contains(id.0@)
                && final(self).spec_ids().no_duplicates(),
    {
        let ghost ids = self.spec_ids();
        let ghost ts = self.spec_tunnels();
        let ghost rot = self.rotation;
        let mut i: usize = 0;
        while i < self.tunnels.len()
            invariant
                i <= self.tunnels@.len(),
                self.rotation == rot,
                rot == old(self).rotation,
                ids == old(self).spec_ids(),
                ts == old(self).spec_tunnels(),
                ids == self.spec_ids(),
                ts == self.spec_tunnels(),
                ids.len() == self.tunnels@.len(),
                forall|j: int| 0 <= j < i ==> ids[j] != id.0@,
            decreases self.tunnels@.len() - i,
        {
            if same_tunnel_id(&self.tunnels[i].0, id) {
                let ghost before = self.tunnels@;
                let _removed = self.tunnels.swap_remove(i);
                assert(self.spec_ids() =~= ids.update(i as int, ids.last()).drop_last());
                assert(self.spec_tunnels() =~= ts.update(i as int, ts.last()).drop_last());
                assert(ids[i as int] == id.0@);
                assert(ids.contains(id.0@));
                proof {
                    let n = ids.len() as int;
                    let f = self.spec_ids();
                    if ids.no_duplicates() {
                        assert forall|a: int, b: int| 0 <= a < b < f.len() implies f[a] != f[b] by {
                            let ia = if a == i { n - 1 } else { a };
                            let ib = if b == i { n - 1 } else { b };
                            assert(f[a] == ids[ia] && f[b] == ids[ib]);
                        }
                        assert forall|k: int| 0 <= k < f.len() implies f[k] != id.0@ by {
                            let ik = if k == i { n - 1 } else { k };
                            assert(f[k] == ids[ik]);
                        }
                    }
                }
                return true;
            }
            i = i + 1;
        }
        assert(!ids.contains(id.0@));
        false
    }
}

/// Round robin: among two or more tunnels, the picks made from any counter value
/// reach every tunnel within as many picks as there are tunnels.
#[verifier::spinoff_prover]
pub proof fn lemma_round_robin_reaches_every_tunnel(len: nat, rotation: nat, i: nat)
    requires
        len >= 2,
        i < len,
    ensures
        exists|k: nat|
            #![trigger spec_pick_index(len, rotation + k)]
            k < len && spec_pick_index(len, rotation + k) == Some(i),
{
    let r = rotation % len;
    let k: nat = if i >= r {
        (i - r) as nat
    } else {
        (len - r + i) as nat
    };
    assert((rotation + k) % len == i) by (nonlinear_arith)
        requires
            len >= 2,
            i < len,
            r == rotation % len,
            k == if i >= r {
                (i - r) as nat
            } else {
                (len - r + i) as nat
            },
    {
        assert(rotation == len * (rotation / len) + r);
        assert(rotation + k == len * (rotation / len) + r + k);
        if i >= r {
            assert(r + k == i);
        } else {
            assert(r + k == len + i);
            assert(rotation + k == len * (rotation / len + 1) + i);
        }
    }
    assert(spec_pick_index(len, rotation + k) == Some(i));
}

/// Round robin over consecutive picks: when the rotation counters of `k` picks in
/// a row each move on by one (as `pick` moves it among two or more tunnels) and do
/// not wrap around, and `k` is at most the number of tunnels, the `k` picks go to
/// `k` different tunnels. With exactly two tunnels, two picks in a row go to both.
pub proof fn lemma_consecutive_picks_take_turns(len: nat, rotations: Seq<usize>)
    requires
        len >= 2,
        rotations.len() <= len,
        forall|i: int|
            0 <= i < rotations.len() - 1 ==> #[trigger] rotations[i + 1] as int == (rotations[i]
                as int + 1) % (usize::MAX as int + 1),
        rotations.len() > 0 ==> rotations[0] + rotations.len() <= usize::MAX + 1,
    ensures
        forall|i: int, j: int|
            0 <= i < j < rotations.len() ==> spec_pick_index(len, #[trigger] rotations[i] as nat)
                != spec_pick_index(len, #[trigger] rotations[j] as nat),
{
    if rotations.len() > 0 {
        let r0 = rotations[0] as int;
        assert forall|i: int| 0 <= i < rotations.len() implies #[trigger] rotations[i] as int == r0 + i by {
            lemma_rotations_step(rotations, i);
        }
        assert forall|i: int, j: int| 0 <= i < j < rotations.len() implies spec_pick_index(
            len,
            #[trigger] rotations[i] as nat,
        ) != spec_pick_index(len, #[trigger] rotations[j] as nat) by {
            let a = rotations[i] as int;
            let b = rotations[j] as int;
            assert(a == r0 + i && b == r0 + j);
            assert(a % (len as int) != b % (len as int)) by (nonlinear_arith)
                requires
                    len >= 2,
                    0 <= a < b,
                    b - a < len,
            {
                if a % (len as int) == b % (len as int) {
                    assert(a == (len as int) * (a / (len as int)) + a % (len as int));
                    assert(b == (len as int) * (b / (len as int)) + b % (len as int));
                    assert((len as int) * (b / (len as int) - a / (len as int)) == b - a);
                }
            }
        }
    }
}

/// The counters of consecutive picks that do not wrap around count up one by one.
proof fn lemma_rotations_step(rotations: Seq<usize>, i: int)
    requires
        0 <= i < rotations.len(),
        forall|k: int|
            0 <= k < rotations.len() - 1 ==> #[trigger] rotations[k + 1] as int == (rotations[k]
                as int + 1) % (usize::MAX as int + 1),
        rotations[0] + rotations.len() <= usize::MAX + 1,
    ensures
        rotations[i] as int == rotations[0] as int + i,
    decreases i,
{
    if i > 0 {
        lemma_rotations_step(rotations, i - 1);
        let k = i - 1;
        assert(rotations[k + 1] as int == (rotations[k] as int + 1) % (usize::MAX as int + 1));
        assert(rotations[i - 1] as int + 1 < usize::MAX as int + 1);
        lemma_small_mod((rotations[i - 1] + 1) as nat, (usize::MAX + 1) as nat);
    }
}

/// Once a disconnected tunnel is detached from the pool, the round robin never
/// picks it: every pick is one of the tunnels still attached.
pub proof fn lemma_detached_tunnel_not_picked(ids: Seq<Seq<u8>>, detached: Seq<u8>, rotation: nat)
    requires
        !ids.contains(detached),
        ids.len() > 0,
    ensures
        spec_pick_index(ids.len(), rotation) matches Some(k) && k < ids.len() && ids[k as int]
            != detached,
{
    let k = spec_pick_index(ids.len(), rotation)->Some_0;
    assert(k < ids.len()) by (nonlinear_arith)
        requires
            ids.len() > 0,
            k == (if ids.len() == 1 { 0 } else { rotation % ids.len() }),
    ;
}

} // verus!

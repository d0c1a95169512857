//! Values registered under distinct keys: the ingresses of a server, the egresses
//! of a client, and the datagram routes of a UDP egress, keyed by origin.
use vstd::prelude::*;

use crate::error::Error;
use crate::net::{IpAddress, SocketAddress};
use crate::types::{EgressId, IngressId};

verus! {

/// A key that values can be registered under; keys are told apart by their view.
pub trait RegistryKey: View + Sized {
    /// Whether two keys have the same view.
    fn same_key(&self, other: &Self) -> (r: bool)
        ensures
            r == (self@ == other@),
    ;
}

impl RegistryKey for IngressId {
    fn same_key(&self, other: &Self) -> (r: bool) {
        self == other
    }
}

impl RegistryKey for EgressId {
    fn same_key(&self, other: &Self) -> (r: bool) {
        self == other
    }
}

/// Whether two IP addresses are the same.
fn same_ip(a: &IpAddress, b: &IpAddress) -> (r: bool)
    ensures
        r == (*a == *b),
{
    match a {
        IpAddress::V4(x) => match b {
            IpAddress::V4(y) => same_octets(x, y),
            IpAddress::V6(_) => false,
        },
        IpAddress::V6(x) => match b {
            IpAddress::V4(_) => false,
            IpAddress::V6(y) => same_octets(x, y),
        },
    }
}

/// Whether two arrays of octets are the same.
fn same_octets<const N: usize>(x: &[u8; N], y: &[u8; N]) -> (r: bool)
    ensures
        r == (*x == *y),
{
    let mut i: usize = 0;
    while i < N
        invariant
            i <= N,
            x@.len() == N,
            y@.len() == N,
            forall|k: int| 0 <= k < i ==> x@[k] == y@[k],
        decreases N - i,
    {
        if x[i] != y[i] {
            assert(x@[i as int] != y@[i as int]);
            return false;
        }
        i = i + 1;
    }
    assert(x@ =~= y@);
    assert(*x =~= *y);
    true
}

impl View for SocketAddress {
    type V = SocketAddress;

    open spec fn view(&self) -> SocketAddress {
        *self
    }
}

impl RegistryKey for SocketAddress {
    fn same_key(&self, other: &Self) -> (r: bool) {
        same_ip(&self.ip, &other.ip) && self.port == other.port
    }
}

/// Values registered under keys, at most one value per key, in the order they
/// were registered.
pub struct Registry<K: RegistryKey, V> {
    entries: Vec<(K, V)>,
}

/// No key occurs twice.
pub open spec fn spec_keys_distinct<KV, V>(s: Seq<(KV, V)>) -> bool {
    forall|i: int, j: int| 0 <= i < j < s.len() ==> s[i].0 != s[j].0
}

/// The position of the key `k`, if it is registered.
pub open spec fn spec_position_of<KV, V>(s: Seq<(KV, V)>, k: KV) -> Option<int> {
    if exists|i: int| 0 <= i < s.len() && s[i].0 == k {
        Some(choose|i: int| 0 <= i < s.len() && s[i].0 == k)
    } else {
        None
    }
}

/// The value registered under `k`, if any.
pub open spec fn spec_lookup<KV, V>(s: Seq<(KV, V)>, k: KV) -> Option<V> {
    match spec_position_of(s, k) {
        Some(i) => Some(s[i].1),
        None => None,
    }
}

impl<K: RegistryKey, V> View for Registry<K, V> {
    type V = Seq<(K::V, V)>;

    closed spec fn view(&self) -> Seq<(K::V, V)> {
        self.entries@.map_values(|e: (K, V)| (e.0@, e.1))
    }
}

impl<K: RegistryKey, V> Registry<K, V> {
    /// No key is registered twice.
    pub open spec fn well_formed(&self) -> bool {
        spec_keys_distinct(self@)
    }

    /// An empty registry.
    pub fn new() -> (r: Self)
        ensures
            r@ == Seq::<(K::V, V)>::empty(),
            r.well_formed(),
    {
        let r = Registry { entries: Vec::new() };
        assert(r.entries@.map_values(|e: (K, V)| (e.0@, e.1)) =~= Seq::<(K::V, V)>::empty());
        r
    }

    /// Number of registered values.
    pub fn len(&self) -> (r: usize)
        ensures
            r == self@.len(),
    {
        self.entries.len()
    }

    fn position(&self, key: &K) -> (r: Option<usize>)
        ensures
            r matches Some(i) ==> i < self@.len() && self@[i as int].0 == key@,
            r is None ==> spec_position_of(self@, key@) is None,
    {
        let mut i: usize = 0;
        while i < self.entries.len()
            invariant
                i <= self.entries@.len(),
                self@.len() == self.entries@.len(),
                forall|j: int| 0 <= j < i ==> self@[j].0 != key@,
            decreases self.entries@.len() - i,
        {
            if self.entries[i].0.same_key(key) {
                return Some(i);
            }
            i = i + 1;
        }
        None
    }

    /// Registers `value` under `key`. When `key` is already registered, nothing
    /// changes and the key is handed back.
    pub fn insert(&mut self, key: K, value: V) -> (r: Result<(), K>)
        requires
            old(self).well_formed(),
        ensures
            final(self).well_formed(),
            r is Err <==> spec_position_of(old(self)@, key@) is Some,
            r matches Err(k) ==> k@ == key@ && final(self)@ == old(self)@,
            r is Ok ==> final(self)@ == old(self)@.push((key@, value)),
    {
        match self.position(&key) {
            Some(_) => Err(key),
            None => {
                let ghost k = key@;
                let ghost old_view = self@;
                self.entries.push((key, value));
                assert(self@ =~= old_view.push((k, value)));
                Ok(())
            },
        }
    }

    /// The value registered under `key`, if any.
    pub fn get(&self, key: &K) -> (r: Option<&V>)
        requires
            self.well_formed(),
        ensures
            r matches Some(v) ==> spec_lookup(self@, key@) == Some(*v),
            r is None ==> spec_lookup(self@, key@) is None,
    {
        match self.position(key) {
            Some(i) => {
                proof {
                    let j = choose|j: int| 0 <= j < self@.len() && self@[j].0 == key@;
                    assert(j == i);
                }
                Some(&self.entries[i].1)
            },
            None => None,
        }
    }

    /// Removes the value registered under `key` and returns it; `None`, and nothing
    /// changes, when nothing is registered under `key`. The other values keep their
    /// order.
    pub fn remove(&mut self, key: &K) -> (r: Option<V>)
        requires
            old(self).well_formed(),
        ensures
            final(self).well_formed(),
            r == spec_lookup(old(self)@, key@),
            spec_lookup(final(self)@, key@) is None,
            match spec_position_of(old(self)@, key@) {
                Some(i) => final(self)@ == old(self)@.remove(i),
                None => final(self)@ == old(self)@,
            },
    {
        match self.position(key) {
            Some(i) => {
                let ghost old_view = self@;
                proof {
                    let j = choose|j: int| 0 <= j < old_view.len() && old_view[j].0 == key@;
                    assert(j == i);
                }
                let (_, v) = self.entries.remove(i);
                assert(self@ =~= old_view.remove(i as int));
                assert(!(exists|j: int| 0 <= j < self@.len() && self@[j].0 == key@)) by {
                    if exists|j: int| 0 <= j < self@.len() && self@[j].0 == key@ {
                        let j = choose|j: int| 0 <= j < self@.len() && self@[j].0 == key@;
                        if j < i {
                            assert(old_view[j].0 == old_view[i as int].0);
                        } else {
                            assert(old_view[j + 1].0 == old_view[i as int].0);
                        }
                    }
                }
                Some(v)
            },
            None => None,
        }
    }

    /// Removes every registered value and returns them in registration order.
    pub fn drain(&mut self) -> (r: Vec<(K, V)>)
        ensures
            final(self)@ == Seq::<(K::V, V)>::empty(),
            final(self).well_formed(),
            r@.map_values(|e: (K, V)| (e.0@, e.1)) == old(self)@,
    {
        let mut entries: Vec<(K, V)> = Vec::new();
        std::mem::swap(&mut entries, &mut self.entries);
        assert(self@ =~= Seq::<(K::V, V)>::empty());
        entries
    }
}

impl<V> Registry<IngressId, V> {
    /// Registers an ingress under its id. Fails with `IngressIDAlreadyAssigned`
    /// when an ingress is already registered under that id.
    pub fn assign_ingress(&mut self, id: IngressId, ingress: V) -> (r: Result<(), Error>)
        requires
            old(self).well_formed(),
        ensures
            final(self).well_formed(),
            r is Err <==> spec_position_of(old(self)@, id@) is Some,
            r matches Err(e) ==> (e matches Error::IngressIDAlreadyAssigned(i) && i@ == id@)
                && final(self)@ == old(self)@,
            r is Ok ==> final(self)@ == old(self)@.push((id@, ingress)),
    {
        match self.insert(id, ingress) {
            Ok(()) => Ok(()),
            Err(id) => Err(Error::IngressIDAlreadyAssigned(id)),
        }
    }
}

impl<V> Registry<EgressId, V> {
    /// Registers an egress under its id. Fails with `EgressIDAlreadyAssigned`
    /// when an egress is already registered under that id.
    pub fn assign_egress(&mut self, id: EgressId, egress: V) -> (r: Result<(), Error>)
        requires
            old(self).well_formed(),
        ensures
            final(self).well_formed(),
            r is Err <==> spec_position_of(old(self)@, id@) is Some,
            r matches Err(e) ==> (e matches Error::EgressIDAlreadyAssigned(i) && i@ == id@)
                && final(self)@ == old(self)@,
            r is Ok ==> final(self)@ == old(self)@.push((id@, egress)),
    {
        match self.insert(id, egress) {
            Ok(()) => Ok(()),
            Err(id) => Err(Error::EgressIDAlreadyAssigned(id)),
        }
    }
}

} // verus!

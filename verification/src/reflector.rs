//! Stable reflector identities for keyed script-visible objects.
//!
//! A [`ReflectorRegistry`] hands out one [`ReflectorId`] per distinct key.
//! Identities are allocated from a counter that starts at one, are never
//! reused for another key, and survive a rekey of the object they name.

use vstd::prelude::*;

verus! {

/// The identity of one reflector.
#[derive(Debug, Clone, Copy, PartialEq, Eq, Hash)]
pub struct ReflectorId(u64);

impl ReflectorId {
    /// The raw value of this identity.
    pub closed spec fn value(self) -> u64 {
        self.0
    }

    /// Wraps a raw identity value.
    pub fn from_raw(raw: u64) -> (id: Self)
        ensures
            id.value() == raw,
    {
        ReflectorId(raw)
    }

    /// The raw value of this identity.
    pub fn raw(self) -> (raw: u64)
        ensures
            raw == self.value(),
    {
        self.0
    }
}

/// A key that a registry can compare and copy by its view.
pub trait ReflectorKey: View + Sized {
    /// Whether two keys name the same object.
    fn key_eq(&self, other: &Self) -> (same: bool)
        ensures
            same == (self@ == other@),
    ;

    /// A copy of this key.
    fn key_clone(&self) -> (copy: Self)
        ensures
            copy@ == self@,
    ;
}

impl ReflectorKey for u32 {
    fn key_eq(&self, other: &Self) -> (same: bool) {
        *self == *other
    }

    fn key_clone(&self) -> (copy: Self) {
        *self
    }
}

impl ReflectorKey for u64 {
    fn key_eq(&self, other: &Self) -> (same: bool) {
        *self == *other
    }

    fn key_clone(&self) -> (copy: Self) {
        *self
    }
}

impl ReflectorKey for String {
    fn key_eq(&self, other: &Self) -> (same: bool) {
        *self == *other
    }

    fn key_clone(&self) -> (copy: Self) {
        self.clone()
    }
}

impl<A: ReflectorKey, B: ReflectorKey> ReflectorKey for (A, B) {
    fn key_eq(&self, other: &Self) -> (same: bool) {
        self.0.key_eq(&other.0) && self.1.key_eq(&other.1)
    }

    fn key_clone(&self) -> (copy: Self) {
        (self.0.key_clone(), self.1.key_clone())
    }
}

/// A key together with the identity the registry gave it.
#[derive(Debug, Clone, Copy, PartialEq, Eq, Hash)]
pub struct Reflector<K> {
    id: ReflectorId,
    key: K,
}

impl<K: ReflectorKey> Reflector<K> {
    /// The identity of this reflector.
    pub closed spec fn spec_id(&self) -> ReflectorId {
        self.id
    }

    /// The key of this reflector, by view.
    pub closed spec fn spec_key(&self) -> K::V {
        self.key@
    }

    /// The identity of this reflector.
    pub fn id(&self) -> (id: ReflectorId)
        ensures
            id == self.spec_id(),
    {
        self.id
    }

    /// A copy of the key of this reflector.
    pub fn key(&self) -> (key: K)
        ensures
            key@ == self.spec_key(),
    {
        self.key.key_clone()
    }
}

/// A pointer to a DOM object, identified by its key.
#[derive(Debug, Clone, Copy, PartialEq, Eq, Hash)]
pub struct DomPtr<K>(K);

impl<K: ReflectorKey> DomPtr<K> {
    /// The key this pointer names, by view.
    pub closed spec fn spec_key(&self) -> K::V {
        self.0@
    }

    /// A pointer to the object with the given key.
    pub fn new(key: K) -> (ptr: Self)
        ensures
            ptr.spec_key() == key@,
    {
        DomPtr(key)
    }

    /// A copy of the key this pointer names.
    pub fn key(&self) -> (key: K)
        ensures
            key@ == self.spec_key(),
    {
        self.0.key_clone()
    }
}

/// A rooted DOM object: a pointer that has been given a reflector.
#[derive(Debug, Clone, Copy, PartialEq, Eq, Hash)]
pub struct DomRoot<K> {
    reflector: Reflector<K>,
}

impl<K: ReflectorKey> DomRoot<K> {
    /// The reflector of this root.
    pub closed spec fn spec_reflector(&self) -> Reflector<K> {
        self.reflector
    }

    /// The identity of the rooted object's reflector.
    pub fn reflector_id(&self) -> (id: ReflectorId)
        ensures
            id == self.spec_reflector().spec_id(),
    {
        self.reflector.id()
    }
}

/// The abstract state of a registry: the last identity handed out and the
/// identity of every registered key.
#[verifier::reject_recursive_types(V)]
pub struct ReflectorRegistryView<V> {
    pub last_id: nat,
    pub ids: Map<V, u64>,
}

/// Optional key, by view.
pub open spec fn opt_key_view<K: View>(key: Option<K>) -> Option<K::V> {
    match key {
        Some(k) => Some(k@),
        None => None,
    }
}

/// The key that carries `id`, if any.
pub open spec fn key_with_id<V>(ids: Map<V, u64>, id: u64) -> Option<V> {
    if exists|k: V| ids.contains_key(k) && ids[k] == id {
        Some(choose|k: V| ids.contains_key(k) && ids[k] == id)
    } else {
        None
    }
}

/// The replacement closure, applied to a key with view `k`, returned `out`.
pub open spec fn replacement_returned<K: View, F: Fn(&K) -> Option<K>>(
    replacement: F,
    k: K::V,
    out: Option<K::V>,
) -> bool {
    exists|kk: K, r: Option<K>|
        kk@ == k && #[trigger] call_ensures(replacement, (&kk,), r) && opt_key_view(r) == out
}

/// Where a registered key ends up under the chosen replacements.
pub open spec fn rekey_target<V>(chosen: Map<V, Option<V>>, k: V) -> V {
    match chosen[k] {
        Some(new_key) => new_key,
        None => k,
    }
}

/// The chosen replacements can be applied all at once: no two keys move to
/// the same destination, and no key moves onto another registered key.
pub open spec fn rekey_set_is_admissible<V>(ids: Map<V, u64>, chosen: Map<V, Option<V>>) -> bool {
    &&& forall|k1: V, k2: V|
        #![trigger chosen[k1], chosen[k2]]
        ids.contains_key(k1) && ids.contains_key(k2) && k1 != k2 && chosen[k1] is Some
            && chosen[k2] is Some ==> chosen[k1]->0 != chosen[k2]->0
    &&& forall|k1: V, k2: V|
        #![trigger chosen[k1], ids.contains_key(k2)]
        ids.contains_key(k1) && ids.contains_key(k2) && chosen[k1] == Some(k2) ==> k1 == k2
}

/// `new_ids` is `ids` with every key moved to its target and its identity kept.
pub open spec fn rekeyed_by<V>(
    ids: Map<V, u64>,
    chosen: Map<V, Option<V>>,
    new_ids: Map<V, u64>,
) -> bool {
    &&& forall|k: V|
        #[trigger] ids.contains_key(k) ==> new_ids.contains_key(rekey_target(chosen, k))
            && new_ids[rekey_target(chosen, k)] == ids[k]
    &&& forall|k2: V|
        #[trigger] new_ids.contains_key(k2) ==> exists|k: V|
            ids.contains_key(k) && #[trigger] rekey_target(chosen, k) == k2
}

/// The registered keys that the chosen replacements move (or rename to
/// themselves).
pub open spec fn replaced_keys<V>(ids: Map<V, u64>, chosen: Map<V, Option<V>>) -> Set<V> {
    ids.dom().filter(|k: V| chosen[k] is Some)
}

/// Index-wise form of [`rekey_set_is_admissible`] over the registry's keys
/// `keys` and the replacement results `outs` in the same order.
pub open spec fn outs_are_admissible<V>(keys: Seq<V>, outs: Seq<Option<V>>) -> bool {
    &&& forall|a: int, b: int|
        #![trigger outs[a], outs[b]]
        0 <= a < outs.len() && 0 <= b < outs.len() && a != b && outs[a] is Some && outs[b] is Some
            ==> outs[a]->0 != outs[b]->0
    &&& forall|a: int, b: int|
        #![trigger outs[a], keys[b]]
        0 <= a < outs.len() && 0 <= b < keys.len() && a != b ==> outs[a] != Some(keys[b])
}

/// The replacement result of every registered key, read off the entry-ordered
/// results `outs`.
pub open spec fn chosen_map<V>(ids: Map<V, u64>, keys: Seq<V>, outs: Seq<Option<V>>) -> Map<
    V,
    Option<V>,
> {
    Map::new(
        |k: V| ids.contains_key(k),
        |k: V| outs[choose|j: int| 0 <= j < keys.len() && keys[j] == k],
    )
}

/// The registry after interning `k`: unchanged when `k` is registered,
/// otherwise `k` receives the next identity.
pub open spec fn interned<V>(v: ReflectorRegistryView<V>, k: V) -> ReflectorRegistryView<V> {
    if v.ids.contains_key(k) {
        v
    } else {
        ReflectorRegistryView {
            last_id: v.last_id + 1,
            ids: v.ids.insert(k, (v.last_id + 1) as u64),
        }
    }
}

/// The registry and result after renaming `old_key` to `new_key`.
pub open spec fn rekeyed<V>(v: ReflectorRegistryView<V>, old_key: V, new_key: V) -> (
    ReflectorRegistryView<V>,
    Option<u64>,
) {
    if old_key == new_key {
        (v, if v.ids.contains_key(old_key) { Some(v.ids[old_key]) } else { None })
    } else if v.ids.contains_key(new_key) || !v.ids.contains_key(old_key) {
        (v, None)
    } else {
        (
            ReflectorRegistryView {
                last_id: v.last_id,
                ids: v.ids.remove(old_key).insert(new_key, v.ids[old_key]),
            },
            Some(v.ids[old_key]),
        )
    }
}

/// What a well-formed registry guarantees of its abstract state.
pub open spec fn view_wf<V>(v: ReflectorRegistryView<V>) -> bool {
    &&& v.ids.dom().finite()
    &&& v.last_id <= u64::MAX
    &&& forall|k: V| #[trigger] v.ids.contains_key(k) ==> 1 <= v.ids[k] <= v.last_id
    &&& forall|k1: V, k2: V|
        v.ids.contains_key(k1) && v.ids.contains_key(k2) && k1 != k2 ==> #[trigger] v.ids[k1]
            != #[trigger] v.ids[k2]
}

/// Allocates stable identities for keys.
#[derive(Clone)]
pub struct ReflectorRegistry<K: ReflectorKey> {
    next_id: u64,
    entries: Vec<(K, ReflectorId)>,
    ids: Ghost<Map<<K as View>::V, u64>>,
}

impl<K: ReflectorKey> Default for ReflectorRegistry<K> {
    fn default() -> (registry: Self)
        ensures
            registry.wf(),
            registry@.last_id == 0,
            registry@.ids == Map::<K::V, u64>::empty(),
    {
        Self::new()
    }
}

impl<K: ReflectorKey> View for ReflectorRegistry<K> {
    type V = ReflectorRegistryView<K::V>;

    closed spec fn view(&self) -> ReflectorRegistryView<K::V> {
        ReflectorRegistryView { last_id: self.next_id as nat, ids: self.ids@ }
    }
}

impl<K: ReflectorKey> ReflectorRegistry<K> {
    /// The registry's entries agree with its abstract map, keys and
    /// identities are distinct, and every identity lies in `1..=last_id`.
    pub closed spec fn wf(&self) -> bool {
        &&& forall|i: int|
            0 <= i < self.entries@.len() ==> #[trigger] self.ids@.contains_key(
                self.entries@[i].0@,
            ) && self.ids@[self.entries@[i].0@] == self.entries@[i].1.0
        &&& forall|k: K::V| #[trigger]
            self.ids@.contains_key(k) ==> exists|i: int|
                0 <= i < self.entries@.len() && #[trigger] self.entries@[i].0@ == k
        &&& forall|i: int, j: int|
            0 <= i < self.entries@.len() && 0 <= j < self.entries@.len() && i != j
                ==> #[trigger] self.entries@[i].0@ != #[trigger] self.entries@[j].0@
                && self.entries@[i].1.0 != self.entries@[j].1.0
        &&& forall|i: int|
            0 <= i < self.entries@.len() ==> 1 <= #[trigger] self.entries@[i].1.0 <= self.next_id
    }

    /// What a well-formed registry guarantees of its abstract state:
    /// identities are distinct, lie in `1..=last_id`, and the map is finite.
    pub proof fn lemma_wf_view(&self)
        requires
            self.wf(),
        ensures
            view_wf(self@),
            self@.ids.dom().finite(),
            forall|k: K::V| #[trigger]
                self@.ids.contains_key(k) ==> 1 <= self@.ids[k] <= self@.last_id,
            forall|k1: K::V, k2: K::V|
                self@.ids.contains_key(k1) && self@.ids.contains_key(k2) && k1 != k2
                    ==> #[trigger] self@.ids[k1] != #[trigger] self@.ids[k2],
    {
        self.lemma_dom_is_entry_keys();
        assert forall|k1: K::V, k2: K::V|
            self@.ids.contains_key(k1) && self@.ids.contains_key(k2) && k1 != k2
                implies #[trigger] self@.ids[k1] != #[trigger] self@.ids[k2] by {
            let i = choose|i: int| 0 <= i < self.entries@.len() && self.entries@[i].0@ == k1;
            let j = choose|j: int| 0 <= j < self.entries@.len() && self.entries@[j].0@ == k2;
            assert(self.ids@.contains_key(self.entries@[i].0@));
            assert(self.ids@.contains_key(self.entries@[j].0@));
        }
        assert forall|k: K::V| #[trigger]
            self@.ids.contains_key(k) implies 1 <= self@.ids[k] <= self@.last_id by {
            let i = choose|i: int| 0 <= i < self.entries@.len() && self.entries@[i].0@ == k;
            assert(self.ids@.contains_key(self.entries@[i].0@));
        }
    }

    /// The abstract domain is the set of entry keys.
    proof fn lemma_dom_is_entry_keys(&self)
        requires
            self.wf(),
        ensures
            self.ids@.dom() == self.entries@.map_values(|e: (K, ReflectorId)| e.0@).to_set(),
            self.ids@.dom().finite(),
    {
        let keys = self.entries@.map_values(|e: (K, ReflectorId)| e.0@);
        assert forall|k: K::V| self.ids@.dom().contains(k) <==> keys.to_set().contains(k) by {
            if self.ids@.dom().contains(k) {
                let i = choose|i: int| 0 <= i < self.entries@.len() && self.entries@[i].0@ == k;
                assert(keys[i] == k);
            }
            if keys.to_set().contains(k) {
                let i = choose|i: int| 0 <= i < keys.len() && keys[i] == k;
                assert(self.ids@.contains_key(self.entries@[i].0@));
            }
        }
        assert(self.ids@.dom() =~= keys.to_set());
        keys.lemma_cardinality_of_set();
    }

    /// An empty registry.
    pub fn new() -> (registry: Self)
        ensures
            registry.wf(),
            registry@.last_id == 0,
            registry@.ids == Map::<K::V, u64>::empty(),
    {
        ReflectorRegistry { next_id: 0, entries: Vec::new(), ids: Ghost(Map::empty()) }
    }

    /// The position of the entry for `key`, if it is registered.
    fn find_key(&self, key: &K) -> (found: Option<usize>)
        requires
            self.wf(),
        ensures
            match found {
                Some(i) => i < self.entries@.len() && self.entries@[i as int].0@ == key@,
                None => !self@.ids.contains_key(key@),
            },
    {
        let n = self.entries.len();
        let mut i: usize = 0;
        while i < n
            invariant
                self.wf(),
                n == self.entries@.len(),
                i <= n,
                forall|j: int| 0 <= j < i ==> self.entries@[j].0@ != key@,
            decreases n - i,
        {
            if self.entries[i].0.key_eq(key) {
                return Some(i);
            }
            i += 1;
        }
        proof {
            if self.ids@.contains_key(key@) {
                let j = choose|j: int| 0 <= j < self.entries@.len() && self.entries@[j].0@ == key@;
                assert(self.entries@[j].0@ != key@);
            }
        }
        None
    }

    /// The position of the entry with identity `id`, if any.
    fn find_id(&self, id: ReflectorId) -> (found: Option<usize>)
        requires
            self.wf(),
        ensures
            match found {
                Some(i) => i < self.entries@.len() && self.entries@[i as int].1 == id,
                None => forall|i: int|
                    0 <= i < self.entries@.len() ==> #[trigger] self.entries@[i].1 != id,
            },
    {
        let n = self.entries.len();
        let mut i: usize = 0;
        while i < n
            invariant
                self.wf(),
                n == self.entries@.len(),
                i <= n,
                forall|j: int| 0 <= j < i ==> #[trigger] self.entries@[j].1 != id,
            decreases n - i,
        {
            if self.entries[i].1.0 == id.0 {
                return Some(i);
            }
            i += 1;
        }
        None
    }

    /// Returns the reflector of `key`, allocating the next identity when the
    /// key is not registered yet.
    pub fn intern(&mut self, key: K) -> (reflector: Reflector<K>)
        requires
            old(self).wf(),
            old(self)@.ids.contains_key(key@) || old(self)@.last_id < u64::MAX,
        ensures
            final(self).wf(),
            reflector.spec_key() == key@,
            final(self)@.ids.contains_key(key@),
            reflector.spec_id().value() == final(self)@.ids[key@],
            final(self)@ == interned(old(self)@, key@),
    {
        if let Some(i) = self.find_key(&key) {
            let id = self.entries[i].1;
            return Reflector { id, key };
        }
        self.next_id = self.next_id + 1;
        let id = ReflectorId(self.next_id);
        let stored = key.key_clone();
        let ghost old_entries = self.entries@;
        self.entries.push((stored, id));
        self.ids = Ghost(self.ids@.insert(key@, id.0));
        proof {
            let n = old_entries.len() as int;
            assert forall|k: K::V| #[trigger]
                self.ids@.contains_key(k) implies exists|i: int|
                    0 <= i < self.entries@.len() && #[trigger] self.entries@[i].0@ == k by {
                if k == key@ {
                    assert(self.entries@[n].0@ == k);
                } else {
                    let i = choose|i: int| 0 <= i < old_entries.len() && old_entries[i].0@ == k;
                    assert(self.entries@[i] == old_entries[i]);
                }
            }
            assert forall|i: int| 0 <= i < self.entries@.len() implies 1 <= #[trigger] self.entries@[i].1.0
                <= self.next_id by {
                if i < n {
                    assert(self.entries@[i] == old_entries[i]);
                }
            }
            assert forall|i: int, j: int|
                0 <= i < self.entries@.len() && 0 <= j < self.entries@.len() && i != j
                    implies #[trigger] self.entries@[i].0@ != #[trigger] self.entries@[j].0@
                    && self.entries@[i].1.0 != self.entries@[j].1.0 by {
                if i == n {
                    assert(self.entries@[j] == old_entries[j]);
                    assert(old(self).ids@.contains_key(old_entries[j].0@));
                    assert(old_entries[j].1.0 <= old(self).next_id);
                } else if j == n {
                    assert(self.entries@[i] == old_entries[i]);
                    assert(old(self).ids@.contains_key(old_entries[i].0@));
                    assert(old_entries[i].1.0 <= old(self).next_id);
                } else {
                    assert(self.entries@[i] == old_entries[i]);
                    assert(self.entries@[j] == old_entries[j]);
                }
            }
        }
        Reflector { id, key }
    }

    /// The reflector of `key`, if the key is registered.
    pub fn existing(&self, key: K) -> (reflector: Option<Reflector<K>>)
        requires
            self.wf(),
        ensures
            match reflector {
                Some(r) => self@.ids.contains_key(key@) && r.spec_key() == key@
                    && r.spec_id().value() == self@.ids[key@],
                None => !self@.ids.contains_key(key@),
            },
    {
        match self.find_key(&key) {
            Some(i) => {
                proof {
                    assert(self.ids@.contains_key(self.entries@[i as int].0@));
                }
                Some(Reflector { id: self.entries[i].1, key })
            },
            None => None,
        }
    }

    /// Roots the object behind `ptr`, registering its key when needed.
    pub fn root(&mut self, ptr: DomPtr<K>) -> (root: DomRoot<K>)
        requires
            old(self).wf(),
            old(self)@.ids.contains_key(ptr.spec_key()) || old(self)@.last_id < u64::MAX,
        ensures
            final(self).wf(),
            root.spec_reflector().spec_key() == ptr.spec_key(),
            final(self)@.ids.contains_key(ptr.spec_key()),
            root.spec_reflector().spec_id().value() == final(self)@.ids[ptr.spec_key()],
            final(self)@ == interned(old(self)@, ptr.spec_key()),
    {
        DomRoot { reflector: self.intern(ptr.key()) }
    }

    /// A copy of the key that carries `id`, if any.
    pub fn key_for_id(&self, id: ReflectorId) -> (key: Option<K>)
        requires
            self.wf(),
        ensures
            opt_key_view(key) == key_with_id(self@.ids, id.value()),
    {
        proof {
            self.lemma_wf_view();
        }
        match self.find_id(id) {
            Some(i) => {
                let key = self.entries[i].0.key_clone();
                proof {
                    let k = self.entries@[i as int].0@;
                    assert(self.ids@.contains_key(k));
                    let c = choose|c: K::V| self@.ids.contains_key(c) && self@.ids[c] == id.0;
                    assert(c == k);
                }
                Some(key)
            },
            None => {
                proof {
                    if exists|k: K::V| self@.ids.contains_key(k) && self@.ids[k] == id.0 {
                        let k = choose|k: K::V| self@.ids.contains_key(k) && self@.ids[k] == id.0;
                        let i = choose|i: int|
                            0 <= i < self.entries@.len() && self.entries@[i].0@ == k;
                        assert(self.ids@.contains_key(self.entries@[i].0@));
                        assert(self.entries@[i].1 != id);
                    }
                }
                None
            },
        }
    }

    /// Moves the identity of `old_key` to `new_key`.
    ///
    /// Renaming a key to itself returns its identity unchanged.  Renaming
    /// onto another registered key, or renaming an unregistered key, fails
    /// and changes nothing.
    pub fn rekey(&mut self, old_key: K, new_key: K) -> (id: Option<ReflectorId>)
        requires
            old(self).wf(),
        ensures
            final(self).wf(),
            final(self)@ == rekeyed(old(self)@, old_key@, new_key@).0,
            match id {
                Some(i) => rekeyed(old(self)@, old_key@, new_key@).1 == Some(i.value()),
                None => rekeyed(old(self)@, old_key@, new_key@).1 is None,
            },
    {
        if old_key.key_eq(&new_key) {
            return match self.find_key(&old_key) {
                Some(i) => Some(self.entries[i].1),
                None => None,
            };
        }
        if self.find_key(&new_key).is_some() {
            return None;
        }
        match self.find_key(&old_key) {
            None => None,
            Some(i) => {
                let id = self.entries[i].1;
                let ghost old_entries = self.entries@;
                let ghost old_ids = self.ids@;
                self.entries.set(i, (new_key, id));
                self.ids = Ghost(old_ids.remove(old_key@).insert(new_key@, id.0));
                proof {
                    assert forall|j: int|
                        0 <= j < self.entries@.len() implies #[trigger] self.ids@.contains_key(
                            self.entries@[j].0@,
                        ) && self.ids@[self.entries@[j].0@] == self.entries@[j].1.0 by {
                        if j != i {
                            assert(old_entries[j].0@ != old_key@);
                            assert(old_ids.contains_key(old_entries[j].0@));
                        }
                    }
                    assert forall|k: K::V| #[trigger]
                        self.ids@.contains_key(k) implies exists|j: int|
                            0 <= j < self.entries@.len() && #[trigger] self.entries@[j].0@ == k by {
                        if k == new_key@ {
                            assert(self.entries@[i as int].0@ == k);
                        } else {
                            let j = choose|j: int|
                                0 <= j < old_entries.len() && old_entries[j].0@ == k;
                            assert(j != i);
                            assert(self.entries@[j] == old_entries[j]);
                        }
                    }
                    assert forall|j: int| 0 <= j < self.entries@.len() implies 1
                        <= #[trigger] self.entries@[j].1.0 <= self.next_id by {
                        if j != i {
                            assert(self.entries@[j] == old_entries[j]);
                        }
                    }
                    assert forall|a: int, b: int|
                        0 <= a < self.entries@.len() && 0 <= b < self.entries@.len() && a != b
                            implies #[trigger] self.entries@[a].0@ != #[trigger] self.entries@[b].0@
                            && self.entries@[a].1.0 != self.entries@[b].1.0 by {
                        if a == i {
                            assert(old_ids.contains_key(old_entries[b].0@));
                        } else if b == i {
                            assert(old_ids.contains_key(old_entries[a].0@));
                        }
                    }
                }
                Some(id)
            },
        }
    }

    /// The keys of the entries, by view, in entry order.
    closed spec fn entry_keys(&self) -> Seq<K::V> {
        self.entries@.map_values(|e: (K, ReflectorId)| e.0@)
    }

    /// The chosen map agrees with the entry-ordered results at every entry.
    proof fn lemma_chosen_at_entries(&self, chosen: Map<K::V, Option<K::V>>, ov: Seq<Option<K::V>>)
        requires
            self.wf(),
            ov.len() == self.entries@.len(),
            chosen == chosen_map(self.ids@, self.entry_keys(), ov),
        ensures
            chosen.dom() == self.ids@.dom(),
            forall|j: int|
                0 <= j < self.entries@.len() ==> #[trigger] chosen.contains_key(
                    self.entry_keys()[j],
                ) && chosen[self.entry_keys()[j]] == ov[j],
    {
        let keys = self.entry_keys();
        assert(chosen.dom() =~= self.ids@.dom());
        assert forall|j: int| 0 <= j < self.entries@.len() implies #[trigger] chosen.contains_key(
            keys[j],
        ) && chosen[keys[j]] == ov[j] by {
            assert(keys[j] == self.entries@[j].0@);
            assert(self.ids@.contains_key(self.entries@[j].0@));
            let c = choose|c: int| 0 <= c < keys.len() && keys[c] == keys[j];
            assert(keys[c] == self.entries@[c].0@);
        }
    }

    /// The index-wise admissibility of the results is the key-wise one.
    proof fn lemma_admissible_iff(&self, chosen: Map<K::V, Option<K::V>>, ov: Seq<Option<K::V>>)
        requires
            self.wf(),
            ov.len() == self.entries@.len(),
            chosen == chosen_map(self.ids@, self.entry_keys(), ov),
        ensures
            outs_are_admissible(self.entry_keys(), ov) == rekey_set_is_admissible(
                self.ids@,
                chosen,
            ),
    {
        let keys = self.entry_keys();
        let n = self.entries@.len();
        self.lemma_chosen_at_entries(chosen, ov);
        if outs_are_admissible(keys, ov) {
            assert forall|k1: K::V, k2: K::V|
                #![trigger chosen[k1], chosen[k2]]
                self.ids@.contains_key(k1) && self.ids@.contains_key(k2) && k1 != k2
                    && chosen[k1] is Some && chosen[k2] is Some implies chosen[k1]->0
                != chosen[k2]->0 by {
                let a = choose|a: int| 0 <= a < n && self.entries@[a].0@ == k1;
                let b = choose|b: int| 0 <= b < n && self.entries@[b].0@ == k2;
                assert(keys[a] == k1 && keys[b] == k2);
                assert(chosen.contains_key(keys[a]) && chosen.contains_key(keys[b]));
                assert(ov[a] is Some && ov[b] is Some);
            }
            assert forall|k1: K::V, k2: K::V|
                #![trigger chosen[k1], self.ids@.contains_key(k2)]
                self.ids@.contains_key(k1) && self.ids@.contains_key(k2) && chosen[k1] == Some(
                    k2,
                ) implies k1 == k2 by {
                let a = choose|a: int| 0 <= a < n && self.entries@[a].0@ == k1;
                let b = choose|b: int| 0 <= b < n && self.entries@[b].0@ == k2;
                assert(keys[a] == k1 && keys[b] == k2);
                assert(chosen.contains_key(keys[a]));
                assert(ov[a] == Some(keys[b]));
            }
        }
        if rekey_set_is_admissible(self.ids@, chosen) {
            assert forall|a: int, b: int|
                #![trigger ov[a], ov[b]]
                0 <= a < ov.len() && 0 <= b < ov.len() && a != b && ov[a] is Some && ov[b] is Some
                    implies ov[a]->0 != ov[b]->0 by {
                assert(keys[a] == self.entries@[a].0@ && keys[b] == self.entries@[b].0@);
                assert(self.ids@.contains_key(keys[a]) && self.ids@.contains_key(keys[b]));
                assert(chosen.contains_key(keys[a]) && chosen.contains_key(keys[b]));
                assert(chosen[keys[a]] == ov[a] && chosen[keys[b]] == ov[b]);
            }
            assert forall|a: int, b: int|
                #![trigger ov[a], keys[b]]
                0 <= a < ov.len() && 0 <= b < keys.len() && a != b implies ov[a] != Some(
                    keys[b],
                ) by {
                assert(keys[a] == self.entries@[a].0@ && keys[b] == self.entries@[b].0@);
                assert(self.ids@.contains_key(keys[a]) && self.ids@.contains_key(keys[b]));
                assert(chosen.contains_key(keys[a]));
                assert(chosen[keys[a]] == ov[a]);
            }
        }
    }

    /// One replacement step of `rekey_matching` keeps the registry well formed.
    proof fn lemma_apply_step_wf(
        before: &Self,
        after: &Self,
        last: int,
        old_key: K::V,
        new_view: K::V,
        keys0: Seq<K::V>,
        ov: Seq<Option<K::V>>,
    )
        requires
            before.wf(),
            0 <= last < before.entries@.len(),
            after.entries@.len() == before.entries@.len(),
            keys0.len() == before.entries@.len(),
            ov.len() == before.entries@.len(),
            outs_are_admissible(keys0, ov),
            forall|a: int, b: int|
                0 <= a < keys0.len() && 0 <= b < keys0.len() && a != b ==> #[trigger] keys0[a]
                    != #[trigger] keys0[b],
            forall|j: int| 0 <= j <= last ==> #[trigger] before.entries@[j].0@ == keys0[j],
            forall|j: int|
                last < j < before.entries@.len() ==> #[trigger] before.entries@[j].0@ == match ov[j] {
                    Some(t) => t,
                    None => keys0[j],
                },
            ov[last] == Some(new_view),
            keys0[last] == old_key,
            forall|j: int|
                0 <= j < before.entries@.len() && j != last ==> #[trigger] after.entries@[j]
                    == before.entries@[j],
            after.entries@[last].0@ == new_view,
            after.entries@[last].1 == before.entries@[last].1,
            after.ids@ == before.ids@.remove(old_key).insert(new_view, before.entries@[last].1.0),
            after.next_id == before.next_id,
        ensures
            after.wf(),
    {
        let n = before.entries@.len();
        assert(before.ids@.contains_key(before.entries@[last].0@));
        assert forall|j: int| 0 <= j < n && j != last implies #[trigger] after.entries@[j].0@
            != new_view && after.entries@[j].0@ != old_key by {
            assert(after.entries@[j] == before.entries@[j]);
            if j < last {
                assert(keys0[j] != keys0[last]);
                assert(ov[last] != Some(keys0[j]));
            } else {
                match ov[j] {
                    Some(t) => {
                        assert(ov[j]->0 != ov[last]->0);
                        assert(ov[j] != Some(keys0[last]));
                    },
                    None => {
                        assert(keys0[j] != keys0[last]);
                        assert(ov[last] != Some(keys0[j]));
                    },
                }
            }
        }
        assert forall|i: int|
            0 <= i < after.entries@.len() implies #[trigger] after.ids@.contains_key(
                after.entries@[i].0@,
            ) && after.ids@[after.entries@[i].0@] == after.entries@[i].1.0 by {
            if i != last {
                assert(before.ids@.contains_key(before.entries@[i].0@));
            }
        }
        assert forall|k: K::V| #[trigger] after.ids@.contains_key(k) implies exists|i: int|
            0 <= i < after.entries@.len() && #[trigger] after.entries@[i].0@ == k by {
            if k == new_view {
                assert(after.entries@[last].0@ == k);
            } else {
                assert(before.ids@.contains_key(k));
                let i = choose|i: int| 0 <= i < n && before.entries@[i].0@ == k;
                assert(i != last);
                assert(after.entries@[i] == before.entries@[i]);
            }
        }
        assert forall|a: int, b: int|
            0 <= a < after.entries@.len() && 0 <= b < after.entries@.len() && a != b
                implies #[trigger] after.entries@[a].0@ != #[trigger] after.entries@[b].0@
                && after.entries@[a].1.0 != after.entries@[b].1.0 by {
            if a != last && b != last {
                assert(after.entries@[a] == before.entries@[a]);
                assert(after.entries@[b] == before.entries@[b]);
                assert(before.entries@[a].0@ != before.entries@[b].0@);
                assert(before.entries@[a].1.0 != before.entries@[b].1.0);
            } else if a == last {
                assert(after.entries@[b] == before.entries@[b]);
                assert(after.entries@[b].0@ != new_view);
                assert(before.entries@[a].1.0 != before.entries@[b].1.0);
            } else {
                assert(after.entries@[a] == before.entries@[a]);
                assert(after.entries@[a].0@ != new_view);
                assert(before.entries@[a].1.0 != before.entries@[b].1.0);
            }
        }
        assert forall|i: int| 0 <= i < after.entries@.len() implies 1 <= #[trigger] after.entries@[i].1.0
            <= after.next_id by {
            if i != last {
                assert(after.entries@[i] == before.entries@[i]);
            }
        }
    }

    /// After every replacement is applied, the registry's map is the old map
    /// rekeyed by the chosen replacements.
    proof fn lemma_rekeyed_result(
        old_self: &Self,
        after: &Self,
        chosen: Map<K::V, Option<K::V>>,
        keys0: Seq<K::V>,
        ov: Seq<Option<K::V>>,
    )
        requires
            old_self.wf(),
            after.wf(),
            keys0 == old_self.entry_keys(),
            ov.len() == old_self.entries@.len(),
            chosen == chosen_map(old_self.ids@, keys0, ov),
            after.entries@.len() == old_self.entries@.len(),
            forall|j: int|
                0 <= j < after.entries@.len() ==> #[trigger] after.entries@[j].0@ == match ov[j] {
                    Some(t) => t,
                    None => keys0[j],
                } && after.entries@[j].1 == old_self.entries@[j].1,
        ensures
            rekeyed_by(old_self.ids@, chosen, after.ids@),
    {
        let n = old_self.entries@.len();
        old_self.lemma_chosen_at_entries(chosen, ov);
        assert forall|k: K::V| #[trigger] old_self.ids@.contains_key(k) implies after.ids@.contains_key(
            rekey_target(chosen, k),
        ) && after.ids@[rekey_target(chosen, k)] == old_self.ids@[k] by {
            let j = choose|j: int| 0 <= j < n && old_self.entries@[j].0@ == k;
            assert(keys0[j] == k);
            assert(chosen.contains_key(keys0[j]));
            assert(after.entries@[j].0@ == rekey_target(chosen, k));
            assert(old_self.ids@.contains_key(old_self.entries@[j].0@));
        }
        assert forall|k2: K::V| #[trigger] after.ids@.contains_key(k2) implies exists|k: K::V|
            old_self.ids@.contains_key(k) && #[trigger] rekey_target(chosen, k) == k2 by {
            let j = choose|j: int| 0 <= j < n && after.entries@[j].0@ == k2;
            assert(keys0[j] == old_self.entries@[j].0@);
            assert(old_self.ids@.contains_key(old_self.entries@[j].0@));
            assert(chosen.contains_key(keys0[j]));
            assert(rekey_target(chosen, keys0[j]) == k2);
        }
    }

    /// Whether applying `outs` (one result per entry, in entry order) would
    /// move two keys to one destination or a key onto another key.
    fn rekey_conflict(&self, outs: &Vec<Option<K>>) -> (conflict: bool)
        requires
            self.wf(),
            outs@.len() == self.entries@.len(),
        ensures
            conflict == !outs_are_admissible(
                self.entry_keys(),
                outs@.map_values(|o: Option<K>| opt_key_view(o)),
            ),
    {
        let n = self.entries.len();
        let ghost keys = self.entry_keys();
        let ghost ov = outs@.map_values(|o: Option<K>| opt_key_view(o));
        let mut a: usize = 0;
        while a < n
            invariant
                n == self.entries@.len(),
                n == outs@.len(),
                keys == self.entry_keys(),
                ov == outs@.map_values(|o: Option<K>| opt_key_view(o)),
                a <= n,
                forall|x: int, y: int|
                    #![trigger ov[x], ov[y]]
                    0 <= x < a && 0 <= y < n && x != y && ov[x] is Some && ov[y] is Some
                        ==> ov[x]->0 != ov[y]->0,
                forall|x: int, y: int|
                    #![trigger ov[x], keys[y]]
                    0 <= x < a && 0 <= y < n && x != y ==> ov[x] != Some(keys[y]),
            decreases n - a,
        {
            if let Some(target) = &outs[a] {
                let mut b: usize = 0;
                while b < n
                    invariant
                        n == self.entries@.len(),
                        n == outs@.len(),
                        keys == self.entry_keys(),
                        ov == outs@.map_values(|o: Option<K>| opt_key_view(o)),
                        a < n,
                        b <= n,
                        ov[a as int] == Some(target@),
                        forall|y: int|
                            #![trigger ov[y]]
                            0 <= y < b && y != a && ov[y] is Some ==> ov[y]->0 != target@,
                        forall|y: int|
                            #![trigger keys[y]]
                            0 <= y < b && y != a ==> keys[y] != target@,
                    decreases n - b,
                {
                    if b != a {
                        if let Some(other) = &outs[b] {
                            if other.key_eq(target) {
                                proof {
                                    assert(ov[b as int] == Some(other@));
                                }
                                return true;
                            }
                        }
                        if self.entries[b].0.key_eq(target) {
                            proof {
                                assert(keys[b as int] == self.entries@[b as int].0@);
                            }
                            return true;
                        }
                    }
                    proof {
                        assert(keys[b as int] == self.entries@[b as int].0@);
                        if outs@[b as int] is Some {
                            assert(ov[b as int] == opt_key_view(outs@[b as int]));
                        }
                    }
                    b += 1;
                }
            }
            a += 1;
        }
        false
    }

    /// Applies `replacement` to every registered key and, when every
    /// replacement can be applied together, moves each replaced key's
    /// identity to its new key, returning how many keys were replaced.
    ///
    /// The replacement is all or nothing: when two keys would move to the
    /// same destination, or a key would move onto another registered key,
    /// nothing changes and the result is `None`.
    #[verifier::spinoff_prover]
    #[verifier::rlimit(40)]
    pub fn rekey_matching<F: Fn(&K) -> Option<K>>(&mut self, replacement: F) -> (count: Option<
        usize,
    >)
        requires
            old(self).wf(),
            forall|k: &K| call_requires(replacement, (k,)),
        ensures
            final(self).wf(),
            exists|chosen: Map<K::V, Option<K::V>>|
                {
                    &&& chosen.dom() == old(self)@.ids.dom()
                    &&& forall|k: K::V| #[trigger]
                        chosen.contains_key(k) ==> replacement_returned(replacement, k, chosen[k])
                    &&& rekey_set_is_admissible(old(self)@.ids, chosen) ==> (count matches Some(n)
                        && n == replaced_keys(old(self)@.ids, chosen).len())
                        && final(self)@.last_id == old(self)@.last_id && rekeyed_by(
                        old(self)@.ids,
                        chosen,
                        final(self)@.ids,
                    )
                    &&& !rekey_set_is_admissible(old(self)@.ids, chosen) ==> count is None
                        && final(self)@ == old(self)@
                },
    {
        let n = self.entries.len();
        let mut outs: Vec<Option<K>> = Vec::new();
        let mut i: usize = 0;
        while i < n
            invariant
                self.wf(),
                n == self.entries@.len(),
                i <= n,
                outs@.len() == i,
                forall|k: &K| call_requires(replacement, (k,)),
                forall|j: int|
                    0 <= j < i ==> call_ensures(replacement, (&self.entries@[j].0,), outs@[j]),
            decreases n - i,
        {
            let out = replacement(&self.entries[i].0);
            outs.push(out);
            i += 1;
        }
        let ghost old_self = *self;
        let ghost keys0 = self.entry_keys();
        let ghost entries0 = self.entries@;
        let ghost outs0 = outs@;
        let ghost ov = outs0.map_values(|o: Option<K>| opt_key_view(o));
        let ghost old_ids = self.ids@;
        let ghost chosen = chosen_map(old_ids, keys0, ov);
        proof {
            self.lemma_chosen_at_entries(chosen, ov);
            assert forall|k: K::V| #[trigger]
                chosen.contains_key(k) implies replacement_returned(replacement, k, chosen[k]) by {
                let j = choose|j: int| 0 <= j < n && entries0[j].0@ == k;
                assert(keys0[j] == k);
                assert(call_ensures(replacement, (&entries0[j].0,), outs0[j]));
            }
            self.lemma_admissible_iff(chosen, ov);
        }
        if self.rekey_conflict(&outs) {
            return None;
        }
        proof {
            assert forall|a: int, b: int|
                0 <= a < keys0.len() && 0 <= b < keys0.len() && a != b implies #[trigger] keys0[a]
                != #[trigger] keys0[b] by {
                assert(keys0[a] == entries0[a].0@ && keys0[b] == entries0[b].0@);
            }
        }
        let mut count: usize = 0;
        let ghost mut picked: Seq<K::V> = Seq::empty();
        while outs.len() > 0
            invariant
                self.wf(),
                n == self.entries@.len(),
                outs@.len() <= n,
                entries0.len() == n,
                keys0 == entries0.map_values(|e: (K, ReflectorId)| e.0@),
                ov == outs0.map_values(|o: Option<K>| opt_key_view(o)),
                outs0.len() == n,
                outs_are_admissible(keys0, ov),
                forall|a: int, b: int|
                    0 <= a < keys0.len() && 0 <= b < keys0.len() && a != b ==> #[trigger] keys0[a]
                        != #[trigger] keys0[b],
                self.next_id == old_self.next_id,
                forall|j: int| 0 <= j < outs@.len() ==> outs@[j] == outs0[j],
                forall|j: int|
                    0 <= j < outs@.len() ==> #[trigger] self.entries@[j] == entries0[j],
                forall|j: int|
                    outs@.len() <= j < n ==> #[trigger] self.entries@[j].0@ == match ov[j] {
                        Some(t) => t,
                        None => keys0[j],
                    } && self.entries@[j].1 == entries0[j].1,
                count == picked.len(),
                count <= n - outs@.len(),
                picked.no_duplicates(),
                forall|k: K::V|
                    picked.contains(k) <==> exists|j: int|
                        outs@.len() <= j < n && ov[j] is Some && #[trigger] keys0[j] == k,
            decreases outs@.len(),
        {
            let ghost before = *self;
            let last = outs.len() - 1;
            let out = outs.pop().unwrap();
            match out {
                None => {
                    proof {
                        assert(ov[last as int] == opt_key_view(outs0[last as int]));
                        assert(self.entries@[last as int] == entries0[last as int]);
                        assert(keys0[last as int] == entries0[last as int].0@);
                        assert forall|k: K::V|
                            picked.contains(k) <==> exists|j: int|
                                outs@.len() <= j < n && ov[j] is Some && #[trigger] keys0[j]
                                    == k by {
                            if exists|j: int|
                                outs@.len() <= j < n && ov[j] is Some && #[trigger] keys0[j] == k {
                                let j = choose|j: int|
                                    outs@.len() <= j < n && ov[j] is Some && #[trigger] keys0[j]
                                        == k;
                                assert(j != last);
                            }
                        }
                    }
                },
                Some(new_key) => {
                    let id = self.entries[last].1;
                    let ghost old_key = entries0[last as int].0@;
                    let ghost new_view = new_key@;
                    self.entries.set(last, (new_key, id));
                    self.ids = Ghost(before.ids@.remove(old_key).insert(new_view, id.0));
                    proof {
                        assert(ov[last as int] == Some(new_view));
                        assert(keys0[last as int] == old_key);
                        assert(self.entries@[last as int].0@ == new_view);
                        assert(self.entries@[last as int].1 == entries0[last as int].1);
                        Self::lemma_apply_step_wf(&before, &*self, last as int, old_key, new_view, keys0, ov);
                        assert(!picked.contains(old_key)) by {
                            if picked.contains(old_key) {
                                let j = choose|j: int|
                                    last < j < n && ov[j] is Some && #[trigger] keys0[j] == old_key;
                                assert(keys0[j] == entries0[j].0@);
                            }
                        }
                        let ghost prev = picked;
                        picked = picked.push(old_key);
                        assert forall|k: K::V|
                            picked.contains(k) <==> exists|j: int|
                                outs@.len() <= j < n && ov[j] is Some && #[trigger] keys0[j]
                                    == k by {
                            if picked.contains(k) {
                                let p = choose|p: int| 0 <= p < picked.len() && picked[p] == k;
                                if p < prev.len() {
                                    assert(prev[p] == k);
                                    assert(prev.contains(k));
                                } else {
                                    assert(keys0[last as int] == k);
                                }
                            }
                            if exists|j: int|
                                outs@.len() <= j < n && ov[j] is Some && #[trigger] keys0[j] == k {
                                if k != old_key {
                                    let j = choose|j: int|
                                        outs@.len() <= j < n && ov[j] is Some && #[trigger] keys0[j]
                                            == k;
                                    assert(j != last);
                                    assert(prev.contains(k));
                                    let p = choose|p: int| 0 <= p < prev.len() && prev[p] == k;
                                    assert(picked[p] == k);
                                } else {
                                    assert(picked[picked.len() - 1] == old_key);
                                }
                            }
                        }
                        assert(picked.no_duplicates()) by {
                            assert forall|a: int, b: int|
                                0 <= a < picked.len() && 0 <= b < picked.len() && a != b implies picked[a]
                                != picked[b] by {
                                if a == prev.len() {
                                    assert(prev.contains(picked[b]));
                                } else if b == prev.len() {
                                    assert(prev.contains(picked[a]));
                                }
                            }
                        }
                    }
                    count = count + 1;
                },
            }
        }
        proof {
            Self::lemma_rekeyed_result(&old_self, &*self, chosen, keys0, ov);
            assert(picked.to_set() =~= replaced_keys(old_ids, chosen)) by {
                assert forall|k: K::V| picked.to_set().contains(k) <==> replaced_keys(
                    old_ids,
                    chosen,
                ).contains(k) by {
                    if picked.contains(k) {
                        let j = choose|j: int| 0 <= j < n && ov[j] is Some && #[trigger] keys0[j] == k;
                        assert(entries0[j].0@ == k);
                        assert(old_self.ids@.contains_key(old_self.entries@[j].0@));
                    }
                    if replaced_keys(old_ids, chosen).contains(k) {
                        let j = choose|j: int| 0 <= j < n && entries0[j].0@ == k;
                        assert(keys0[j] == k);
                    }
                }
            }
            picked.unique_seq_to_set();
        }
        Some(count)
    }

    /// The number of registered keys.
    pub fn len(&self) -> (n: usize)
        requires
            self.wf(),
        ensures
            n == self@.ids.len(),
    {
        proof {
            self.lemma_dom_is_entry_keys();
            let keys = self.entries@.map_values(|e: (K, ReflectorId)| e.0@);
            assert forall|i: int, j: int|
                0 <= i < keys.len() && 0 <= j < keys.len() && i != j implies keys[i]
                != keys[j] by {
                assert(self.entries@[i].0@ != self.entries@[j].0@);
            }
            keys.unique_seq_to_set();
        }
        self.entries.len()
    }

    /// Whether no key is registered.
    pub fn is_empty(&self) -> (empty: bool)
        requires
            self.wf(),
        ensures
            empty == (self@.ids.len() == 0),
    {
        self.len() == 0
    }
}

/// Interning a key that is already registered changes nothing and yields the
/// identity it already had: interning is idempotent.
pub proof fn law_intern_is_idempotent<V>(v: ReflectorRegistryView<V>, k: V)
    ensures
        interned(interned(v, k), k) == interned(v, k),
        interned(v, k).ids.contains_key(k),
        v.ids.contains_key(k) ==> interned(v, k).ids[k] == v.ids[k],
{
}

/// Distinct keys receive distinct identities.
pub proof fn law_distinct_keys_get_distinct_ids<V>(v: ReflectorRegistryView<V>, k1: V, k2: V)
    requires
        view_wf(v),
        k1 != k2,
        v.last_id + 2 <= u64::MAX,
    ensures
        ({
            let w = interned(interned(v, k1), k2);
            w.ids[k1] != w.ids[k2]
        }),
{
}

/// Interning keeps identities distinct, positive and no larger than the
/// last identity handed out.
pub proof fn law_intern_keeps_view_wf<V>(v: ReflectorRegistryView<V>, k: V)
    requires
        view_wf(v),
        v.ids.contains_key(k) || v.last_id < u64::MAX,
    ensures
        view_wf(interned(v, k)),
{
}

/// The key recorded for an interned key's identity is that key.
pub proof fn law_key_for_id_finds_interned_key<V>(v: ReflectorRegistryView<V>, k: V)
    requires
        view_wf(v),
        v.ids.contains_key(k) || v.last_id < u64::MAX,
    ensures
        key_with_id(interned(v, k).ids, interned(v, k).ids[k]) == Some(k),
{
    let w = interned(v, k);
    law_intern_keeps_view_wf(v, k);
    assert(w.ids.contains_key(k) && w.ids[k] == w.ids[k]);
    let c = choose|c: V| w.ids.contains_key(c) && w.ids[c] == w.ids[k];
    assert(c == k);
}

/// A successful rekey moves the old key's identity to the new key: the new
/// key carries it, the old key is gone (unless it was renamed to itself),
/// and the identity still names exactly one key.
pub proof fn law_rekey_keeps_identity<V>(v: ReflectorRegistryView<V>, old_key: V, new_key: V)
    requires
        view_wf(v),
        rekeyed(v, old_key, new_key).1 is Some,
    ensures
        ({
            let (w, id) = rekeyed(v, old_key, new_key);
            &&& id == Some(v.ids[old_key])
            &&& w.ids.contains_key(new_key) && w.ids[new_key] == v.ids[old_key]
            &&& old_key != new_key ==> !w.ids.contains_key(old_key)
            &&& w.ids.len() == v.ids.len()
            &&& w.last_id == v.last_id
            &&& view_wf(w)
            &&& key_with_id(w.ids, v.ids[old_key]) == Some(new_key)
        }),
{
    let (w, id) = rekeyed(v, old_key, new_key);
    if old_key != new_key {
        assert(v.ids.remove(old_key).len() == v.ids.len() - 1);
        assert forall|k1: V, k2: V|
            w.ids.contains_key(k1) && w.ids.contains_key(k2) && k1 != k2 implies #[trigger] w.ids[k1]
            != #[trigger] w.ids[k2] by {
            if k1 != new_key && k2 != new_key {
                assert(v.ids.contains_key(k1) && v.ids.contains_key(k2));
            } else if k1 == new_key {
                assert(v.ids.contains_key(k2) && k2 != old_key);
            } else {
                assert(v.ids.contains_key(k1) && k1 != old_key);
            }
        }
    }
    assert(w.ids.contains_key(new_key) && w.ids[new_key] == v.ids[old_key]);
    let c = choose|c: V| w.ids.contains_key(c) && w.ids[c] == v.ids[old_key];
    assert(c == new_key);
}

/// A refused rekey changes nothing.
pub proof fn law_refused_rekey_changes_nothing<V>(v: ReflectorRegistryView<V>, old_key: V, new_key: V)
    requires
        rekeyed(v, old_key, new_key).1 is None,
    ensures
        rekeyed(v, old_key, new_key).0 == v,
{
}

/// Applying an admissible set of replacements keeps the set of identities:
/// every identity still names exactly one key, and no identity appears.
pub proof fn law_rekey_matching_keeps_identities<V>(
    ids: Map<V, u64>,
    chosen: Map<V, Option<V>>,
    new_ids: Map<V, u64>,
)
    requires
        rekeyed_by(ids, chosen, new_ids),
    ensures
        forall|k: V| ids.contains_key(k) ==> exists|k2: V| #[trigger] new_ids.contains_key(k2)
            && new_ids[k2] == ids[k],
        forall|k2: V| new_ids.contains_key(k2) ==> exists|k: V| #[trigger] ids.contains_key(k)
            && ids[k] == new_ids[k2],
{
    assert forall|k: V| ids.contains_key(k) implies exists|k2: V| #[trigger] new_ids.contains_key(k2)
        && new_ids[k2] == ids[k] by {
        assert(new_ids.contains_key(rekey_target(chosen, k)));
    }
    assert forall|k2: V| new_ids.contains_key(k2) implies exists|k: V| #[trigger] ids.contains_key(k)
        && ids[k] == new_ids[k2] by {
        let k = choose|k: V| ids.contains_key(k) && #[trigger] rekey_target(chosen, k) == k2;
        assert(ids.contains_key(k));
    }
}

} // verus!

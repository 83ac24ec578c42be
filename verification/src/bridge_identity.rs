//! Identity of the script wrappers of DOM objects.
//!
//! Every DOM object exposed to script is named by a bridge handle: the node
//! with the runtime generation it was wrapped in, or one of its satellite
//! objects (token lists, dataset, style).  The handle is interned in a
//! reflector registry, so that the same object always gets the same wrapper
//! identity, and a runtime reset can move all handles of one generation to
//! the next without changing their identities.

use vstd::prelude::*;
use crate::reflector::{
    opt_key_view, key_with_id, rekey_set_is_admissible, rekeyed_by, replaced_keys,
    replacement_returned, ReflectorId, ReflectorKey, ReflectorRegistry,
};

verus! {

/// A DOM node of the document runtime.
#[derive(Clone, Copy, Debug, PartialEq, Eq, Hash, Structural)]
pub struct DomHandle(pub u64);

/// Which token list of an element a handle names.
#[derive(Clone, Copy, Debug, PartialEq, Eq, Hash, Structural)]
pub enum DomTokenListKind {
    Class,
    Part,
    Rel,
}

/// An interned computed-style request (element pseudo selection and the
/// like), by its interned number.
#[derive(Clone, Copy, Debug, PartialEq, Eq, Hash, Structural)]
pub struct ComputedStyleDescriptor(pub u64);

/// The name of one script-visible DOM object.
#[derive(Clone, Copy, Debug, PartialEq, Eq, Hash, Structural)]
pub enum BridgeHandle {
    Window,
    Node(DomHandle, u64),
    ClassList(DomHandle, u64, DomTokenListKind),
    Dataset(DomHandle, u64),
    Style(DomHandle, u64),
    ComputedStyle(DomHandle, u64, ComputedStyleDescriptor),
}

impl View for BridgeHandle {
    type V = BridgeHandle;

    open spec fn view(&self) -> BridgeHandle {
        *self
    }
}

impl ReflectorKey for BridgeHandle {
    fn key_eq(&self, other: &Self) -> (same: bool) {
        *self == *other
    }

    fn key_clone(&self) -> (copy: Self) {
        *self
    }
}

/// The runtime generation a handle was wrapped in (the window has none).
pub open spec fn generation_of(handle: BridgeHandle) -> Option<u64> {
    match handle {
        BridgeHandle::Window => None,
        BridgeHandle::Node(_, g) => Some(g),
        BridgeHandle::ClassList(_, g, _) => Some(g),
        BridgeHandle::Dataset(_, g) => Some(g),
        BridgeHandle::Style(_, g) => Some(g),
        BridgeHandle::ComputedStyle(_, g, _) => Some(g),
    }
}

/// `handle` with its generation replaced by `generation`.
pub open spec fn with_generation(handle: BridgeHandle, generation: u64) -> BridgeHandle {
    match handle {
        BridgeHandle::Window => BridgeHandle::Window,
        BridgeHandle::Node(h, _) => BridgeHandle::Node(h, generation),
        BridgeHandle::ClassList(h, _, k) => BridgeHandle::ClassList(h, generation, k),
        BridgeHandle::Dataset(h, _) => BridgeHandle::Dataset(h, generation),
        BridgeHandle::Style(h, _) => BridgeHandle::Style(h, generation),
        BridgeHandle::ComputedStyle(h, _, d) => BridgeHandle::ComputedStyle(h, generation, d),
    }
}

/// Where rebinding from `old_generation` to `new_generation` moves a handle:
/// handles of the old generation move, all others stay.
pub open spec fn rebind_target(handle: BridgeHandle, old_generation: u64, new_generation: u64) -> Option<BridgeHandle> {
    if generation_of(handle) == Some(old_generation) {
        Some(with_generation(handle, new_generation))
    } else {
        None
    }
}

/// The rebinding of every registered handle.
pub open spec fn rebind_choice(ids: Map<BridgeHandle, u64>, old_generation: u64, new_generation: u64) -> Map<BridgeHandle, Option<BridgeHandle>> {
    Map::new(|k: BridgeHandle| ids.contains_key(k), |k: BridgeHandle| rebind_target(k, old_generation, new_generation))
}

/// Where rebinding moves `handle`.
fn rebound_handle(handle: BridgeHandle, old_generation: u64, new_generation: u64) -> (target: Option<BridgeHandle>)
    ensures
        target == rebind_target(handle, old_generation, new_generation),
{
    match handle {
        BridgeHandle::Window => None,
        BridgeHandle::Node(h, g) => if g == old_generation { Some(BridgeHandle::Node(h, new_generation)) } else { None },
        BridgeHandle::ClassList(h, g, k) => if g == old_generation {
            Some(BridgeHandle::ClassList(h, new_generation, k))
        } else {
            None
        },
        BridgeHandle::Dataset(h, g) => if g == old_generation { Some(BridgeHandle::Dataset(h, new_generation)) } else { None },
        BridgeHandle::Style(h, g) => if g == old_generation { Some(BridgeHandle::Style(h, new_generation)) } else { None },
        BridgeHandle::ComputedStyle(h, g, d) => if g == old_generation {
            Some(BridgeHandle::ComputedStyle(h, new_generation, d))
        } else {
            None
        },
    }
}

/// A replacement closure that computes `rebind_target` chooses exactly the
/// rebinding of every registered handle.
proof fn lemma_rebind_choice<F: Fn(&BridgeHandle) -> Option<BridgeHandle>>(
    rebind: F,
    ids: Map<BridgeHandle, u64>,
    old_generation: u64,
    new_generation: u64,
    chosen: Map<BridgeHandle, Option<BridgeHandle>>,
)
    requires
        forall|h: &BridgeHandle, r: Option<BridgeHandle>|
            #[trigger] call_ensures(rebind, (h,), r) ==> r == rebind_target(*h, old_generation, new_generation),
        chosen.dom() == ids.dom(),
        forall|k: BridgeHandle| #[trigger] chosen.contains_key(k) ==> replacement_returned(rebind, k, chosen[k]),
    ensures
        chosen == rebind_choice(ids, old_generation, new_generation),
{
    let choice = rebind_choice(ids, old_generation, new_generation);
    assert forall|k: BridgeHandle| chosen.contains_key(k) implies chosen[k] == choice[k] by {
        assert(replacement_returned(rebind, k, chosen[k]));
        let (kk, r) = choose|kk: BridgeHandle, r: Option<BridgeHandle>|
            kk@ == k && #[trigger] call_ensures(rebind, (&kk,), r) && opt_key_view(r) == chosen[k];
        assert(r == rebind_target(kk, old_generation, new_generation));
        assert(opt_key_view(r) == r);
    }
    assert(chosen =~= choice);
}

/// The wrapper identities of one script context's DOM objects.
pub struct NativeDomBridgeIdentity {
    registry: ReflectorRegistry<BridgeHandle>,
}

impl NativeDomBridgeIdentity {
    /// The registered handles with their identities.
    pub closed spec fn ids(&self) -> Map<BridgeHandle, u64> {
        self.registry@.ids
    }

    /// The last identity handed out.
    pub closed spec fn last_id(&self) -> nat {
        self.registry@.last_id
    }

    /// The identity's invariant.
    pub closed spec fn wf(&self) -> bool {
        self.registry.wf()
    }

    /// An identity table with nothing registered.
    pub fn new() -> (identity: Self)
        ensures
            identity.wf(),
            identity.ids() == Map::<BridgeHandle, u64>::empty(),
            identity.last_id() == 0,
    {
        NativeDomBridgeIdentity { registry: ReflectorRegistry::new() }
    }

    /// The wrapper identity of `handle`, allocated on first use.
    pub fn reflector_id(&mut self, handle: BridgeHandle) -> (id: ReflectorId)
        requires
            old(self).wf(),
            old(self).ids().contains_key(handle) || old(self).last_id() < u64::MAX,
        ensures
            final(self).wf(),
            final(self).ids().contains_key(handle),
            id.value() == final(self).ids()[handle],
            old(self).ids().contains_key(handle) ==> final(self).ids() == old(self).ids()
                && final(self).last_id() == old(self).last_id(),
            !old(self).ids().contains_key(handle) ==> final(self).ids() == old(self).ids().insert(
                handle,
                (old(self).last_id() + 1) as u64,
            ) && final(self).last_id() == old(self).last_id() + 1,
    {
        let reflector = self.registry.intern(handle);
        reflector.id()
    }

    /// The wrapper identity of `handle`, if it has one.
    pub fn existing_reflector_id(&self, handle: BridgeHandle) -> (id: Option<ReflectorId>)
        requires
            self.wf(),
        ensures
            match id {
                Some(i) => self.ids().contains_key(handle) && i.value() == self.ids()[handle],
                None => !self.ids().contains_key(handle),
            },
    {
        match self.registry.existing(handle) {
            Some(reflector) => Some(reflector.id()),
            None => None,
        }
    }

    /// The handle that carries `reflector_id`, if any.
    pub fn bridge_handle(&self, reflector_id: ReflectorId) -> (handle: Option<BridgeHandle>)
        requires
            self.wf(),
        ensures
            handle == key_with_id(self.ids(), reflector_id.value()),
    {
        self.registry.key_for_id(reflector_id)
    }

    /// The DOM node whose node wrapper carries `reflector_id`, if it is one.
    pub fn resolve_node_handle(&self, reflector_id: ReflectorId) -> (node: Option<DomHandle>)
        requires
            self.wf(),
        ensures
            node == (match key_with_id(self.ids(), reflector_id.value()) {
                Some(BridgeHandle::Node(h, _)) => Some(h),
                _ => None,
            }),
    {
        match self.bridge_handle(reflector_id) {
            Some(BridgeHandle::Node(handle, _)) => Some(handle),
            Some(BridgeHandle::Window) | Some(BridgeHandle::ClassList(_, _, _)) | Some(
                BridgeHandle::Dataset(_, _),
            ) | Some(BridgeHandle::Style(_, _)) | Some(BridgeHandle::ComputedStyle(_, _, _)) | None => None,
        }
    }

    /// Moves every handle of `old_generation` to `new_generation`, keeping
    /// its identity; returns how many handles moved.  Nothing moves, and the
    /// result is `None`, when a moved handle would land on a registered one.
    #[verifier::spinoff_prover]
    pub fn rebind_generation(&mut self, old_generation: u64, new_generation: u64) -> (moved: Option<usize>)
        requires
            old(self).wf(),
        ensures
            final(self).wf(),
            ({
                let choice = rebind_choice(old(self).ids(), old_generation, new_generation);
                &&& rekey_set_is_admissible(old(self).ids(), choice) ==> (moved matches Some(n)
                    && n == replaced_keys(old(self).ids(), choice).len())
                    && final(self).last_id() == old(self).last_id()
                    && rekeyed_by(old(self).ids(), choice, final(self).ids())
                &&& !rekey_set_is_admissible(old(self).ids(), choice) ==> moved is None
                    && final(self).ids() == old(self).ids() && final(self).last_id() == old(self).last_id()
            }),
    {
        let rebind = |handle: &BridgeHandle| -> (target: Option<BridgeHandle>)
            ensures
                target == rebind_target(*handle, old_generation, new_generation),
            { rebound_handle(*handle, old_generation, new_generation) };
        let ghost ids = self.registry@.ids;
        let ghost old_last = self.registry@.last_id;
        let moved = self.registry.rekey_matching(rebind);
        proof {
            let choice = rebind_choice(ids, old_generation, new_generation);
            let chosen = choose|chosen: Map<BridgeHandle, Option<BridgeHandle>>|
                {
                    &&& chosen.dom() == ids.dom()
                    &&& forall|k: BridgeHandle| #[trigger]
                        chosen.contains_key(k) ==> replacement_returned(rebind, k, chosen[k])
                    &&& rekey_set_is_admissible(ids, chosen) ==> (moved matches Some(n)
                        && n == replaced_keys(ids, chosen).len())
                        && self.registry@.last_id == old_last && rekeyed_by(
                        ids,
                        chosen,
                        self.registry@.ids,
                    )
                    &&& !rekey_set_is_admissible(ids, chosen) ==> moved is None
                        && self.registry@ == old(self).registry@
                };
            lemma_rebind_choice(rebind, ids, old_generation, new_generation, chosen);
            assert(chosen =~= choice);
        }
        moved
    }
}

/// Rebinding from `old_generation` to `new_generation` moves every handle of
/// the old generation, of every kind, to the same handle in the new
/// generation, and moves no other handle.
pub proof fn law_rebind_moves_every_kind_of_handle(
    h: DomHandle,
    generation: u64,
    old_generation: u64,
    new_generation: u64,
    list_kind: DomTokenListKind,
    descriptor: ComputedStyleDescriptor,
)
    ensures
        rebind_target(BridgeHandle::Node(h, old_generation), old_generation, new_generation) == Some(
            BridgeHandle::Node(h, new_generation),
        ),
        rebind_target(BridgeHandle::ClassList(h, old_generation, list_kind), old_generation, new_generation) == Some(
            BridgeHandle::ClassList(h, new_generation, list_kind),
        ),
        rebind_target(BridgeHandle::Dataset(h, old_generation), old_generation, new_generation) == Some(
            BridgeHandle::Dataset(h, new_generation),
        ),
        rebind_target(BridgeHandle::Style(h, old_generation), old_generation, new_generation) == Some(
            BridgeHandle::Style(h, new_generation),
        ),
        rebind_target(BridgeHandle::ComputedStyle(h, old_generation, descriptor), old_generation, new_generation)
            == Some(BridgeHandle::ComputedStyle(h, new_generation, descriptor)),
        rebind_target(BridgeHandle::Window, old_generation, new_generation) is None,
        generation != old_generation ==> {
            &&& rebind_target(BridgeHandle::Node(h, generation), old_generation, new_generation) is None
            &&& rebind_target(BridgeHandle::ClassList(h, generation, list_kind), old_generation, new_generation) is None
            &&& rebind_target(BridgeHandle::Dataset(h, generation), old_generation, new_generation) is None
            &&& rebind_target(BridgeHandle::Style(h, generation), old_generation, new_generation) is None
            &&& rebind_target(BridgeHandle::ComputedStyle(h, generation, descriptor), old_generation, new_generation) is None
        },
{
}

/// A rebound handle is the same handle, of the same kind, in the new
/// generation: only its generation changes.
pub proof fn law_rebound_handle_differs_only_in_generation(handle: BridgeHandle, old_generation: u64, new_generation: u64)
    ensures
        generation_of(handle) == Some(old_generation) <==> rebind_target(handle, old_generation, new_generation) is Some,
        rebind_target(handle, old_generation, new_generation) matches Some(target) ==> {
            &&& generation_of(target) == Some(new_generation)
            &&& (handle is Node <==> target is Node)
            &&& (handle is ClassList <==> target is ClassList)
            &&& (handle is Dataset <==> target is Dataset)
            &&& (handle is Style <==> target is Style)
            &&& (handle is ComputedStyle <==> target is ComputedStyle)
            &&& (old_generation == new_generation ==> target == handle)
        },
{
}

} // verus!

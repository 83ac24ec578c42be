//! Laws of the reflector registry over whole sequences of operations.

use vstd::prelude::*;
use crate::reflector::{
    interned, key_with_id, law_intern_keeps_view_wf, law_rekey_keeps_identity, rekeyed, view_wf,
    ReflectorRegistryView,
};

verus! {

/// One registry operation, by key view: interning a key, or renaming one.
pub enum ReflectorRegistryOp<V> {
    Intern(V),
    Rekey(V, V),
}

/// The registry after `op`.
pub open spec fn apply_registry_op<V>(v: ReflectorRegistryView<V>, op: ReflectorRegistryOp<V>) -> ReflectorRegistryView<V> {
    match op {
        ReflectorRegistryOp::Intern(k) => interned(v, k),
        ReflectorRegistryOp::Rekey(old_key, new_key) => rekeyed(v, old_key, new_key).0,
    }
}

/// The empty registry.
pub open spec fn empty_registry_view<V>() -> ReflectorRegistryView<V> {
    ReflectorRegistryView { last_id: 0, ids: Map::empty() }
}

/// The registry after `ops`, in order, starting from `v`.
pub open spec fn run_registry_ops<V>(v: ReflectorRegistryView<V>, ops: Seq<ReflectorRegistryOp<V>>) -> ReflectorRegistryView<V>
    decreases ops.len(),
{
    if ops.len() == 0 {
        v
    } else {
        apply_registry_op(run_registry_ops(v, ops.drop_last()), ops.last())
    }
}

/// How many of `ops`, run from `v`, intern a key that was not registered
/// at that point.
pub open spec fn fresh_interns<V>(v: ReflectorRegistryView<V>, ops: Seq<ReflectorRegistryOp<V>>) -> nat
    decreases ops.len(),
{
    if ops.len() == 0 {
        0
    } else {
        let before = run_registry_ops(v, ops.drop_last());
        fresh_interns(v, ops.drop_last()) + match ops.last() {
            ReflectorRegistryOp::Intern(k) => if before.ids.contains_key(k) {
                0nat
            } else {
                1nat
            },
            _ => 0nat,
        }
    }
}

/// Over any sequence of interns and renames from the empty registry, the
/// last identity handed out is the number of fresh interns; identities stay
/// distinct, positive and no larger than it; and once an identity was
/// handed out the registry is never empty again.
pub proof fn law_registry_counts_fresh_interns<V>(ops: Seq<ReflectorRegistryOp<V>>)
    requires
        fresh_interns(empty_registry_view::<V>(), ops) <= u64::MAX,
    ensures
        ({
            let w = run_registry_ops(empty_registry_view::<V>(), ops);
            &&& view_wf(w)
            &&& w.last_id == fresh_interns(empty_registry_view::<V>(), ops)
            &&& w.last_id > 0 ==> w.ids.len() > 0
        }),
    decreases ops.len(),
{
    let v0 = empty_registry_view::<V>();
    if ops.len() > 0 {
        let front = ops.drop_last();
        law_registry_counts_fresh_interns(front);
        let before = run_registry_ops(v0, front);
        match ops.last() {
            ReflectorRegistryOp::Intern(k) => {
                if !before.ids.contains_key(k) {
                    law_intern_keeps_view_wf(before, k);
                    assert(interned(before, k).ids.dom() =~= before.ids.dom().insert(k));
                }
            },
            ReflectorRegistryOp::Rekey(old_key, new_key) => {
                if rekeyed(before, old_key, new_key).1 is Some {
                    law_rekey_keeps_identity(before, old_key, new_key);
                }
            },
        }
    } else {
        assert(view_wf(v0));
    }
}

/// Fresh identities are 1, 2, 3, ... in call order and never reused: after
/// any sequence of interns and renames from the empty registry, the next
/// fresh intern receives one past the number of fresh interns so far, which
/// no registered key carries.
pub proof fn law_fresh_identity_is_next_and_unused<V>(ops: Seq<ReflectorRegistryOp<V>>, k: V)
    requires
        fresh_interns(empty_registry_view::<V>(), ops) < u64::MAX,
        !run_registry_ops(empty_registry_view::<V>(), ops).ids.contains_key(k),
    ensures
        ({
            let w = run_registry_ops(empty_registry_view::<V>(), ops);
            &&& interned(w, k).ids[k] == fresh_interns(empty_registry_view::<V>(), ops) + 1
            &&& forall|k2: V| #[trigger] w.ids.contains_key(k2) ==> w.ids[k2] != interned(w, k).ids[k]
        }),
{
    law_registry_counts_fresh_interns(ops);
}

/// In a well-formed registry, looking a key up by identity and looking an
/// identity up by key agree both ways, and there are as many identities as
/// registered keys.
pub proof fn law_lookups_agree<V>(v: ReflectorRegistryView<V>, k: V, id: u64)
    requires
        view_wf(v),
    ensures
        key_with_id(v.ids, id) == Some(k) <==> (v.ids.contains_key(k) && v.ids[k] == id),
        v.ids.values().len() == v.ids.len(),
{
    if v.ids.contains_key(k) && v.ids[k] == id {
        let c = choose|c: V| v.ids.contains_key(c) && v.ids[c] == id;
        assert(c == k);
    }
    assert(v.ids.is_injective());
    v.ids.lemma_injective_values_len();
}

} // verus!

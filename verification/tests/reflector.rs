use moli_renderer::reflector::{DomPtr, ReflectorId, ReflectorRegistry};

#[test]
fn reflector_registry_reuses_identity_for_same_key() {
    let mut registry = ReflectorRegistry::default();

    let first = registry.intern(7_u32);
    let second = registry.intern(7_u32);

    assert_eq!(first.id(), second.id());
    assert_eq!(first.key(), second.key());
    assert_eq!(first.id().raw(), 1);
    assert_eq!(registry.len(), 1);
    assert_eq!(registry.key_for_id(first.id()), Some(7_u32));
}

#[test]
fn reflector_registry_supports_non_copy_keys() {
    let mut registry = ReflectorRegistry::default();

    let first = registry.intern("highlight(name)".to_owned());
    let second = registry.intern("highlight(name)".to_owned());
    let other = registry.intern("highlight(other)".to_owned());

    assert_eq!(first.id(), second.id());
    assert_ne!(first.id(), other.id());
    assert_eq!(
        registry.key_for_id(first.id()),
        Some("highlight(name)".to_owned())
    );
}

#[test]
fn reflector_registry_allocates_distinct_identity_for_distinct_keys() {
    let mut registry = ReflectorRegistry::default();

    let first = registry.intern(1_u32);
    let second = registry.intern(2_u32);

    assert_ne!(first.id(), second.id());
    assert_eq!(registry.existing(1_u32), Some(first));
    assert_eq!(registry.existing(2_u32), Some(second));
    assert!(registry.existing(99_u32).is_none());
    assert_eq!(registry.key_for_id(first.id()), Some(1_u32));
    assert_eq!(registry.key_for_id(second.id()), Some(2_u32));
    assert_eq!(registry.len(), 2);
    assert!(!registry.is_empty());
}

#[test]
fn reflector_registry_rekeys_an_existing_identity_without_changing_its_id() {
    let mut registry = ReflectorRegistry::default();
    let reflector = registry.intern(7_u32);

    assert_eq!(registry.rekey(7, 9), Some(reflector.id()));
    assert_eq!(registry.existing(7), None);
    assert_eq!(
        registry.existing(9).map(|entry| entry.id()),
        Some(reflector.id())
    );
    assert_eq!(registry.key_for_id(reflector.id()), Some(9));
    assert_eq!(registry.len(), 1);
}

#[test]
fn reflector_registry_does_not_rekey_over_an_existing_identity() {
    let mut registry = ReflectorRegistry::default();
    let first = registry.intern(7_u32);
    let second = registry.intern(9_u32);

    assert_eq!(registry.rekey(7, 9), None);
    assert_eq!(registry.existing(7), Some(first));
    assert_eq!(registry.existing(9), Some(second));
}

#[test]
fn reflector_registry_rekeys_a_matching_key_set_atomically() {
    let mut registry = ReflectorRegistry::default();
    let first = registry.intern((7_u32, 1_u32));
    let second = registry.intern((9_u32, 1_u32));
    let unchanged = registry.intern((11_u32, 2_u32));

    assert_eq!(
        registry.rekey_matching(|(value, generation)| {
            (*generation == 1).then_some((*value, 3))
        }),
        Some(2)
    );
    assert_eq!(
        registry.existing((7, 3)).map(|entry| entry.id()),
        Some(first.id())
    );
    assert_eq!(
        registry.existing((9, 3)).map(|entry| entry.id()),
        Some(second.id())
    );
    assert_eq!(registry.existing((11, 2)), Some(unchanged));
}

#[test]
fn rekey_matching_refuses_a_collision_and_changes_nothing() {
    let mut registry = ReflectorRegistry::default();
    let first = registry.intern((7_u32, 1_u32));
    let second = registry.intern((7_u32, 3_u32));

    assert_eq!(
        registry.rekey_matching(|(value, generation)| {
            (*generation == 1).then_some((*value, 3))
        }),
        None
    );
    assert_eq!(registry.existing((7, 1)), Some(first));
    assert_eq!(registry.existing((7, 3)), Some(second));
    assert_eq!(registry.len(), 2);
}

#[test]
fn rekey_matching_refuses_two_keys_moving_to_one_destination() {
    let mut registry = ReflectorRegistry::default();
    let first = registry.intern((1_u32, 1_u32));
    let second = registry.intern((2_u32, 1_u32));

    assert_eq!(registry.rekey_matching(|_| Some((5_u32, 5_u32))), None);
    assert_eq!(registry.existing((1, 1)), Some(first));
    assert_eq!(registry.existing((2, 1)), Some(second));
}

#[test]
fn rekey_to_itself_returns_the_existing_identity() {
    let mut registry = ReflectorRegistry::default();
    let reflector = registry.intern(4_u64);
    assert_eq!(registry.rekey(4, 4), Some(reflector.id()));
    assert_eq!(registry.rekey(5, 5), None);
    assert_eq!(registry.rekey(5, 6), None);
    assert_eq!(registry.len(), 1);
}

#[test]
fn rooting_a_pointer_interns_its_key() {
    let mut registry = ReflectorRegistry::default();
    let root = registry.root(DomPtr::new(3_u32));
    let again = registry.root(DomPtr::new(3_u32));
    assert_eq!(root.reflector_id(), again.reflector_id());
    assert_eq!(root.reflector_id(), ReflectorId::from_raw(1));
    assert_eq!(DomPtr::new(8_u32).key(), 8);
    assert_eq!(registry.key_for_id(ReflectorId::from_raw(2)), None);
    let empty: ReflectorRegistry<u32> = ReflectorRegistry::new();
    assert!(empty.is_empty());
}

#[test]
fn fresh_identities_count_up_and_are_never_reused_after_a_rekey() {
    let mut registry = ReflectorRegistry::default();
    assert_eq!(registry.intern(10_u32).id().raw(), 1);
    assert_eq!(registry.intern(20_u32).id().raw(), 2);
    assert_eq!(registry.rekey(10, 11).map(|id| id.raw()), Some(1));
    assert_eq!(registry.intern(10_u32).id().raw(), 3);
    assert_eq!(registry.intern(11_u32).id().raw(), 1);
    assert_eq!(registry.len(), 3);
    assert!(!registry.is_empty());
    for raw in 1..=3u64 {
        let key = registry.key_for_id(ReflectorId::from_raw(raw)).expect("every handed-out id names a key");
        assert_eq!(registry.existing(key).map(|r| r.id().raw()), Some(raw));
    }
}

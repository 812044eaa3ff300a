use perceptia::registry::Registry;

#[test]
fn registry_keeps_order_of_first_insertion() {
    let mut registry: Registry<u32> = Registry::new();
    assert_eq!(registry.len(), 0);
    assert_eq!(registry.insert(7, 70), None);
    assert_eq!(registry.insert(3, 30), None);
    assert_eq!(registry.insert(9, 90), None);
    assert_eq!(registry.to_values(), vec![70, 30, 90]);
    assert_eq!(registry.key_at(0), 7);
    assert_eq!(registry.key_at(1), 3);
    assert_eq!(registry.key_at(2), 9);
}

#[test]
fn registry_insert_of_present_key_keeps_its_place() {
    let mut registry: Registry<u32> = Registry::new();
    registry.insert(7, 70);
    registry.insert(3, 30);
    assert_eq!(registry.insert(7, 71), Some(70));
    assert_eq!(registry.to_values(), vec![71, 30]);
    assert_eq!(registry.len(), 2);
}

#[test]
fn registry_remove_keeps_order_of_the_rest() {
    let mut registry: Registry<u32> = Registry::new();
    registry.insert(1, 10);
    registry.insert(2, 20);
    registry.insert(3, 30);
    assert_eq!(registry.remove(2), Some(20));
    assert_eq!(registry.remove(2), None);
    assert_eq!(registry.to_values(), vec![10, 30]);
    assert!(!registry.contains_key(2));
    assert!(registry.contains_key(3));
    assert_eq!(registry.position(3), Some(1));
    assert_eq!(registry.position(2), None);
}

#[test]
fn registry_get_and_change_in_place() {
    let mut registry: Registry<u32> = Registry::new();
    registry.insert(5, 50);
    registry.insert(6, 60);
    assert_eq!(registry.get(6), Some(&60));
    assert_eq!(registry.get(8), None);
    *registry.value_at_mut(1) = 61;
    assert_eq!(registry.get(6), Some(&61));
    assert_eq!(*registry.value_at(0), 50);
}

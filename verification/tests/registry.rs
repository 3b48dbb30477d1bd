use heatwave::registry::ResourceRegistry;

#[test]
fn registry_scenario_two_buffers() {
    let mut registry: ResourceRegistry<String> = ResourceRegistry::new();
    assert_eq!(registry.len(), 0);
    let a = registry.add(String::from("bufferA"));
    assert_eq!(a, 0);
    let b = registry.add(String::from("bufferB"));
    assert_eq!(b, 1);
    assert_eq!(registry.get(0), Some(&String::from("bufferA")));
    assert_eq!(registry.get(1), Some(&String::from("bufferB")));
    assert_eq!(registry.get(2), None);
}

#[test]
fn handles_are_strictly_increasing() {
    let mut registry: ResourceRegistry<u32> = ResourceRegistry::new();
    let mut previous: Option<usize> = None;
    for value in 0..16u32 {
        let handle = registry.add(value * 10);
        if let Some(p) = previous {
            assert!(handle > p);
        }
        previous = Some(handle);
    }
    assert_eq!(registry.len(), 16);
}

#[test]
fn issued_handles_keep_resolving_after_later_adds() {
    let mut registry: ResourceRegistry<String> = ResourceRegistry::new();
    let first = registry.add(String::from("original"));
    for i in 0..8 {
        registry.add(format!("later-{i}"));
    }
    assert_eq!(registry.get(first), Some(&String::from("original")));
}

#[test]
fn unissued_handle_does_not_resolve() {
    let mut registry: ResourceRegistry<u8> = ResourceRegistry::new();
    assert_eq!(registry.get(0), None);
    registry.add(7);
    assert_eq!(registry.get(0), Some(&7));
    assert_eq!(registry.get(1), None);
    assert_eq!(registry.get(usize::MAX), None);
}

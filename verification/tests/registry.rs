use xcm_adapter::location::{Junction, MultiLocation};
use xcm_adapter::registry::NativeTokenRegistry;

fn sibling(id: u32) -> MultiLocation {
    MultiLocation { junctions: vec![Junction::Parent, Junction::Parachain { id }] }
}

#[test]
fn an_empty_registry_holds_no_key() {
    let registry = NativeTokenRegistry::new();
    assert!(!registry.contains_key(&b"XYZ".to_vec()));
    assert!(!registry.contains_key(&Vec::new()));
    assert_eq!(registry.get(&b"XYZ".to_vec()), None);
}

#[test]
fn a_key_is_found_by_exact_match() {
    let mut registry = NativeTokenRegistry::new();
    assert_eq!(registry.insert(b"XYZ".to_vec(), sibling(2000)), None);
    assert!(registry.contains_key(&b"XYZ".to_vec()));
    assert_eq!(registry.get(&b"XYZ".to_vec()), Some(&sibling(2000)));
    for near in [&b"XY"[..], &b"XYZZ"[..], &b"xyz"[..], &b""[..], &b"XYA"[..]] {
        assert!(!registry.contains_key(&near.to_vec()));
        assert_eq!(registry.get(&near.to_vec()), None);
    }
}

#[test]
fn a_key_registered_anew_replaces_its_reserve() {
    let mut registry = NativeTokenRegistry::new();
    assert_eq!(registry.insert(b"A".to_vec(), sibling(1)), None);
    assert_eq!(registry.insert(b"B".to_vec(), sibling(2)), None);
    assert_eq!(registry.insert(b"C".to_vec(), sibling(3)), None);
    assert_eq!(registry.insert(b"B".to_vec(), sibling(20)), Some(sibling(2)));
    assert_eq!(registry.insert(b"A".to_vec(), sibling(10)), Some(sibling(1)));
    assert_eq!(registry.get(&b"A".to_vec()), Some(&sibling(10)));
    assert_eq!(registry.get(&b"B".to_vec()), Some(&sibling(20)));
    assert_eq!(registry.get(&b"C".to_vec()), Some(&sibling(3)));
    assert_eq!(registry.insert(b"B".to_vec(), sibling(200)), Some(sibling(20)));
    assert_eq!(registry.get(&b"B".to_vec()), Some(&sibling(200)));
}

#[test]
fn the_empty_key_is_a_key() {
    let mut registry = NativeTokenRegistry::new();
    assert_eq!(registry.insert(Vec::new(), sibling(9)), None);
    assert!(registry.contains_key(&Vec::new()));
    assert!(!registry.contains_key(&vec![0]));
    assert_eq!(registry.get(&Vec::new()), Some(&sibling(9)));
}

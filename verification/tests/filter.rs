use xcm_adapter::filter::{is_from_registered_reserve, FilterAssetLocation, NativePalletAssetOr};
use xcm_adapter::location::{Junction, MultiAsset, MultiLocation};
use xcm_adapter::registry::NativeTokenRegistry;

/// Trusts an asset that comes from the very location that identifies it.
struct OwnAssets;

impl FilterAssetLocation for OwnAssets {
    fn filter_asset_location(&self, asset: &MultiAsset, origin: &MultiLocation) -> bool {
        matches!(asset, MultiAsset::ConcreteFungible { id, .. } if id == origin)
    }
}

/// Trusts nothing.
struct Nothing;

impl FilterAssetLocation for Nothing {
    fn filter_asset_location(&self, _asset: &MultiAsset, _origin: &MultiLocation) -> bool {
        false
    }
}

/// Trusts everything.
struct Everything;

impl FilterAssetLocation for Everything {
    fn filter_asset_location(&self, _asset: &MultiAsset, _origin: &MultiLocation) -> bool {
        true
    }
}

fn location(junctions: Vec<Junction>) -> MultiLocation {
    MultiLocation { junctions }
}

fn sibling(id: u32) -> MultiLocation {
    location(vec![Junction::Parent, Junction::Parachain { id }])
}

fn ending_in(key: &[u8]) -> MultiAsset {
    MultiAsset::ConcreteFungible {
        id: location(vec![Junction::Parent, Junction::Parachain { id: 5 }, Junction::GeneralKey(key.to_vec())]),
        amount: 1,
    }
}

fn registry() -> NativeTokenRegistry {
    let mut native_tokens = NativeTokenRegistry::new();
    native_tokens.insert(b"XYZ".to_vec(), sibling(2000));
    native_tokens
}

#[test]
fn what_the_native_rule_trusts_is_trusted() {
    let filter = NativePalletAssetOr::new(OwnAssets, NativeTokenRegistry::new());
    let asset = MultiAsset::ConcreteFungible { id: sibling(7), amount: 1 };
    assert!(filter.filter_asset_location(&asset, &sibling(7)));
    assert!(!filter.filter_asset_location(&asset, &sibling(8)));
    let all = NativePalletAssetOr::new(Everything, NativeTokenRegistry::new());
    assert!(all.filter_asset_location(&MultiAsset::Other, &sibling(8)));
    assert!(all.filter_asset_location(&ending_in(b"XYZ"), &sibling(8)));
}

#[test]
fn a_registered_asset_is_trusted_from_its_reserve_only() {
    let filter = NativePalletAssetOr::new(Nothing, registry());
    assert!(filter.filter_asset_location(&ending_in(b"XYZ"), &sibling(2000)));
    assert!(!filter.filter_asset_location(&ending_in(b"XYZ"), &sibling(2001)));
    assert!(!filter.filter_asset_location(&ending_in(b"XYZ"), &location(vec![Junction::Parent])));
    assert!(!filter.filter_asset_location(
        &ending_in(b"XYZ"),
        &location(vec![Junction::Parent, Junction::Parachain { id: 2000 }, Junction::Parent])
    ));
}

#[test]
fn an_unregistered_or_keyless_asset_is_not_trusted() {
    let filter = NativePalletAssetOr::new(Nothing, registry());
    assert!(!filter.filter_asset_location(&ending_in(b"ABC"), &sibling(2000)));
    assert!(!filter.filter_asset_location(&MultiAsset::Other, &sibling(2000)));
    let keyless = MultiAsset::ConcreteFungible { id: sibling(2000), amount: 1 };
    let here = MultiAsset::ConcreteFungible { id: location(Vec::new()), amount: 1 };
    assert!(!filter.filter_asset_location(&keyless, &sibling(2000)));
    assert!(!filter.filter_asset_location(&here, &sibling(2000)));
}

#[test]
fn registering_a_new_key_takes_no_trust_away() {
    let asset = ending_in(b"XYZ");
    let other = ending_in(b"ABC");
    let before = NativePalletAssetOr::new(OwnAssets, registry());
    let mut grown = registry();
    assert_eq!(grown.insert(b"ABC".to_vec(), sibling(3000)), None);
    let after = NativePalletAssetOr::new(OwnAssets, grown);
    for origin in [sibling(2000), sibling(3000), sibling(1), location(Vec::new())] {
        let was = before.filter_asset_location(&asset, &origin);
        let is = after.filter_asset_location(&asset, &origin);
        assert_eq!(was, is);
        let was_other = before.filter_asset_location(&other, &origin);
        let is_other = after.filter_asset_location(&other, &origin);
        assert!(!was_other);
        assert_eq!(is_other, origin == sibling(3000));
    }
}

#[test]
fn registering_a_key_anew_moves_the_trust_to_the_new_reserve() {
    let mut moved = registry();
    assert_eq!(moved.insert(b"XYZ".to_vec(), sibling(3000)), Some(sibling(2000)));
    let filter = NativePalletAssetOr::new(Nothing, moved);
    assert!(!filter.filter_asset_location(&ending_in(b"XYZ"), &sibling(2000)));
    assert!(filter.filter_asset_location(&ending_in(b"XYZ"), &sibling(3000)));
}

#[test]
fn the_registry_rule_alone() {
    let native_tokens = registry();
    assert!(is_from_registered_reserve(&native_tokens, &ending_in(b"XYZ"), &sibling(2000)));
    assert!(!is_from_registered_reserve(&native_tokens, &ending_in(b"XYZ"), &sibling(2)));
    assert!(!is_from_registered_reserve(&native_tokens, &MultiAsset::Other, &sibling(2000)));
}

use xcm_adapter::converter::{XCurrencyIdConversion, XCurrencyIdConverter};
use xcm_adapter::currency::{ChainId, PHAXCurrencyId};
use xcm_adapter::location::{Junction, MultiAsset, MultiLocation};
use xcm_adapter::registry::NativeTokenRegistry;

fn location(junctions: Vec<Junction>) -> MultiLocation {
    MultiLocation { junctions }
}

fn sibling(id: u32) -> MultiLocation {
    location(vec![Junction::Parent, Junction::Parachain { id }])
}

fn ending_in(key: &[u8]) -> MultiAsset {
    MultiAsset::ConcreteFungible {
        id: location(vec![Junction::Parent, Junction::Parachain { id: 5 }, Junction::GeneralKey(key.to_vec())]),
        amount: 1,
    }
}

fn converter() -> XCurrencyIdConverter {
    let mut native_tokens = NativeTokenRegistry::new();
    native_tokens.insert(b"XYZ".to_vec(), sibling(2000));
    native_tokens.insert(b"PHA".to_vec(), sibling(30));
    native_tokens.insert(b"HERE".to_vec(), location(Vec::new()));
    native_tokens.insert(b"UP".to_vec(), location(vec![Junction::Parent]));
    native_tokens.insert(b"DEEP".to_vec(), location(vec![Junction::Parent, Junction::Parachain { id: 8 }, Junction::Other(vec![1])]));
    native_tokens.insert(b"DOWN".to_vec(), location(vec![Junction::Parachain { id: 8 }, Junction::Parent]));
    native_tokens.insert(Vec::new(), sibling(77));
    XCurrencyIdConverter::new(native_tokens)
}

#[test]
fn the_parent_asset_is_dot_whatever_the_origin() {
    let asset = MultiAsset::ConcreteFungible { id: location(vec![Junction::Parent]), amount: 3 };
    let dot = Some(PHAXCurrencyId::new(ChainId::RelayChain, b"DOT".to_vec()));
    let c = converter();
    assert_eq!(c.from_asset_and_location(&asset, &location(vec![Junction::Parent])), dot);
    assert_eq!(c.from_asset_and_location(&asset, &sibling(2000)), dot);
    assert_eq!(c.from_asset_and_location(&asset, &location(Vec::new())), dot);
    assert_eq!(c.from_asset_and_location(&asset, &location(vec![Junction::Other(vec![0xff])])), dot);
    let empty = XCurrencyIdConverter::new(NativeTokenRegistry::new());
    assert_eq!(empty.from_asset_and_location(&asset, &sibling(1)), dot);
}

#[test]
fn a_registered_key_is_the_currency_of_its_reserve() {
    let c = converter();
    assert_eq!(
        c.from_asset_and_location(&ending_in(b"XYZ"), &sibling(2000)),
        Some(PHAXCurrencyId::new(ChainId::ParaChain(2000), b"XYZ".to_vec()))
    );
    assert_eq!(
        c.from_asset_and_location(&ending_in(b"PHA"), &sibling(2000)),
        Some(PHAXCurrencyId::new(ChainId::ParaChain(30), b"PHA".to_vec()))
    );
    assert_eq!(
        c.from_asset_and_location(&ending_in(b""), &sibling(2000)),
        Some(PHAXCurrencyId::new(ChainId::ParaChain(77), Vec::new()))
    );
}

#[test]
fn the_origin_is_not_checked_against_the_reserve() {
    let c = converter();
    assert_eq!(
        c.from_asset_and_location(&ending_in(b"XYZ"), &sibling(666)),
        Some(PHAXCurrencyId::new(ChainId::ParaChain(2000), b"XYZ".to_vec()))
    );
}

#[test]
fn a_key_that_is_not_registered_is_no_currency() {
    let c = converter();
    assert_eq!(c.from_asset_and_location(&ending_in(b"UNKNOWN"), &sibling(2000)), None);
    assert_eq!(c.from_asset_and_location(&ending_in(b"XY"), &sibling(2000)), None);
    assert_eq!(c.from_asset_and_location(&ending_in(b"xyz"), &sibling(2000)), None);
    let empty = XCurrencyIdConverter::new(NativeTokenRegistry::new());
    assert_eq!(empty.from_asset_and_location(&ending_in(b"XYZ"), &sibling(2000)), None);
}

#[test]
fn a_reserve_of_another_shape_is_no_currency() {
    let c = converter();
    assert_eq!(c.from_asset_and_location(&ending_in(b"HERE"), &sibling(2000)), None);
    assert_eq!(c.from_asset_and_location(&ending_in(b"UP"), &sibling(2000)), None);
    assert_eq!(c.from_asset_and_location(&ending_in(b"DEEP"), &sibling(2000)), None);
    assert_eq!(c.from_asset_and_location(&ending_in(b"DOWN"), &sibling(2000)), None);
}

#[test]
fn an_asset_without_trailing_key_is_no_currency() {
    let c = converter();
    let no_key = MultiAsset::ConcreteFungible { id: sibling(2000), amount: 1 };
    let here = MultiAsset::ConcreteFungible { id: location(Vec::new()), amount: 1 };
    let key_first = MultiAsset::ConcreteFungible {
        id: location(vec![Junction::GeneralKey(b"XYZ".to_vec()), Junction::Parent]),
        amount: 1,
    };
    assert_eq!(c.from_asset_and_location(&no_key, &sibling(2000)), None);
    assert_eq!(c.from_asset_and_location(&here, &sibling(2000)), None);
    assert_eq!(c.from_asset_and_location(&key_first, &sibling(2000)), None);
    assert_eq!(c.from_asset_and_location(&MultiAsset::Other, &sibling(2000)), None);
}

#[test]
fn a_key_alone_is_a_location_that_ends_in_it() {
    let c = converter();
    let asset = MultiAsset::ConcreteFungible { id: location(vec![Junction::GeneralKey(b"XYZ".to_vec())]), amount: 1 };
    assert_eq!(
        c.from_asset_and_location(&asset, &sibling(2000)),
        Some(PHAXCurrencyId::new(ChainId::ParaChain(2000), b"XYZ".to_vec()))
    );
}

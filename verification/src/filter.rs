//! Deciding whether an asset may be trusted when it comes from an origin.
//!
//! An asset is trusted where the chain's own rule for native assets already
//! trusts it. Failing that, an asset that is named by a registered key is
//! trusted exactly when it comes from the reserve registered for that key.

use vstd::prelude::*;
use crate::location::{trailing_key, JunctionView, MultiAsset, MultiAssetView, MultiLocation};
use crate::registry::NativeTokenRegistry;

verus! {

/// A rule that tells whether an asset is trusted when it comes from an origin.
pub trait FilterAssetLocation {
    fn filter_asset_location(&self, asset: &MultiAsset, origin: &MultiLocation) -> bool;
}

/// Whether the asset is named by a registered key and `origin` is the reserve
/// registered for that key.
pub open spec fn from_registered_reserve(
    native_tokens: Map<Seq<u8>, Seq<JunctionView>>,
    asset: MultiAssetView,
    origin: Seq<JunctionView>,
) -> bool {
    match asset {
        MultiAssetView::ConcreteFungible { id, amount } => {
            &&& trailing_key(id) is Some
            &&& native_tokens.contains_key(trailing_key(id)->Some_0)
            &&& origin == native_tokens[trailing_key(id)->Some_0]
        },
        MultiAssetView::Other => false,
    }
}

/// Whether the asset is trusted, `native` being the answer of the chain's own
/// rule for native assets.
pub open spec fn trusted(
    native: bool,
    native_tokens: Map<Seq<u8>, Seq<JunctionView>>,
    asset: MultiAssetView,
    origin: Seq<JunctionView>,
) -> bool {
    native || from_registered_reserve(native_tokens, asset, origin)
}

/// Whether the asset is named by a registered key and comes from the reserve
/// registered for that key.
pub fn is_from_registered_reserve(
    native_tokens: &NativeTokenRegistry,
    asset: &MultiAsset,
    origin: &MultiLocation,
) -> (registered: bool)
    ensures
        registered == from_registered_reserve(native_tokens@, asset@, origin@),
{
    match asset {
        MultiAsset::ConcreteFungible { id, amount } => {
            match id.trailing_general_key() {
                Some(key) => {
                    match native_tokens.get(key) {
                        Some(reserve) => origin.same(reserve),
                        None => false,
                    }
                },
                None => false,
            }
        },
        MultiAsset::Other => false,
    }
}

/// `answer` is what the rule `filter` says of the asset and the origin.
pub open spec fn answers<Filter: FilterAssetLocation>(
    filter: Filter,
    asset: MultiAsset,
    origin: MultiLocation,
    answer: bool,
) -> bool {
    call_ensures(Filter::filter_asset_location, (&filter, &asset, &origin), answer)
}

/// Trusts what the rule `Native` trusts, and besides it the registered native
/// tokens when they come from their reserve.
pub struct NativePalletAssetOr<Native> {
    /// The chain's own rule for native assets.
    pub native: Native,
    pub native_tokens: NativeTokenRegistry,
}

impl<Native> NativePalletAssetOr<Native> {
    pub fn new(native: Native, native_tokens: NativeTokenRegistry) -> (filter: Self)
        ensures
            filter.native == native,
            filter.native_tokens == native_tokens,
    {
        NativePalletAssetOr { native, native_tokens }
    }
}

impl<Native: FilterAssetLocation> FilterAssetLocation for NativePalletAssetOr<Native> {
    fn filter_asset_location(&self, asset: &MultiAsset, origin: &MultiLocation) -> (trust: bool)
        ensures
            answers(self.native, *asset, *origin, true) && trust == trusted(
                true,
                self.native_tokens@,
                asset@,
                origin@,
            ) || answers(self.native, *asset, *origin, false) && trust == trusted(
                false,
                self.native_tokens@,
                asset@,
                origin@,
            ),
    {
        if self.native.filter_asset_location(asset, origin) {
            return true;
        }
        // native asset identified by a general key
        is_from_registered_reserve(&self.native_tokens, asset, origin)
    }
}

/// Registering a key that was not registered takes no trust away.
pub proof fn trust_survives_new_entry(
    native: bool,
    native_tokens: Map<Seq<u8>, Seq<JunctionView>>,
    key: Seq<u8>,
    reserve: Seq<JunctionView>,
    asset: MultiAssetView,
    origin: Seq<JunctionView>,
)
    requires
        !native_tokens.contains_key(key),
        trusted(native, native_tokens, asset, origin),
    ensures
        trusted(native, native_tokens.insert(key, reserve), asset, origin),
{
}

/// Registering a reserve under a key gives trust only to assets that are named
/// by that key and come from that reserve.
pub proof fn new_trust_matches_entry(
    native: bool,
    native_tokens: Map<Seq<u8>, Seq<JunctionView>>,
    key: Seq<u8>,
    reserve: Seq<JunctionView>,
    asset: MultiAssetView,
    origin: Seq<JunctionView>,
)
    requires
        !trusted(native, native_tokens, asset, origin),
        trusted(native, native_tokens.insert(key, reserve), asset, origin),
    ensures
        asset is ConcreteFungible,
        trailing_key(asset->id) == Some(key),
        origin == reserve,
{
}

} // verus!

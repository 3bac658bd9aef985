//! Resolving the currency that an asset is.
//!
//! The parent's own asset is the relay chain's currency, whoever sent it. Any
//! other asset is named by the general key at the end of its location, and is
//! known only if that key is registered with a reserve that is a parachain
//! reached by way of the parent. Whether the sender may be trusted with the
//! asset is not asked here: that is the filter's question, to be asked first.

use vstd::prelude::*;
use crate::currency::{relay_currency, ChainId, PHAXCurrencyId, PHAXCurrencyIdView};
use crate::location::{
    copy_bytes, parent_path, sibling_of, sibling_path, trailing_key, JunctionView, MultiAsset,
    MultiAssetView, MultiLocation,
};
use crate::registry::NativeTokenRegistry;

verus! {

/// A rule that tells which currency an asset is when it comes from a location.
pub trait XCurrencyIdConversion {
    fn from_asset_and_location(&self, asset: &MultiAsset, location: &MultiLocation) -> Option<
        PHAXCurrencyId,
    >;
}

/// The currency that an asset is, by the registry of native tokens.
pub open spec fn resolved(
    native_tokens: Map<Seq<u8>, Seq<JunctionView>>,
    asset: MultiAssetView,
) -> Option<PHAXCurrencyIdView> {
    match asset {
        MultiAssetView::ConcreteFungible { id, amount } => {
            if id == parent_path() {
                Some(relay_currency())
            } else if trailing_key(id) is Some && native_tokens.contains_key(trailing_key(id)->Some_0)
                && sibling_of(native_tokens[trailing_key(id)->Some_0]) is Some {
                let key = trailing_key(id)->Some_0;
                Some(
                    PHAXCurrencyIdView {
                        chain_id: ChainId::ParaChain(sibling_of(native_tokens[key])->Some_0),
                        currency_id: key,
                    },
                )
            } else {
                None
            }
        },
        MultiAssetView::Other => None,
    }
}

/// Resolves currencies by a registry of native tokens.
pub struct XCurrencyIdConverter {
    pub native_tokens: NativeTokenRegistry,
}

impl XCurrencyIdConverter {
    pub fn new(native_tokens: NativeTokenRegistry) -> (converter: Self)
        ensures
            converter.native_tokens == native_tokens,
    {
        XCurrencyIdConverter { native_tokens }
    }
}

impl XCurrencyIdConversion for XCurrencyIdConverter {
    fn from_asset_and_location(&self, multi_asset: &MultiAsset, multi_location: &MultiLocation) -> (currency:
        Option<PHAXCurrencyId>)
        ensures
            match currency {
                Some(currency) => resolved(self.native_tokens@, multi_asset@) == Some(currency@),
                None => resolved(self.native_tokens@, multi_asset@) is None,
            },
    {
        match multi_asset {
            MultiAsset::ConcreteFungible { id, amount } => {
                if id.is_parent() {
                    return Some(PHAXCurrencyId::relay_chain());
                }
                match id.trailing_general_key() {
                    Some(key) => {
                        match self.native_tokens.get(key) {
                            Some(reserve) => {
                                match reserve.sibling_id() {
                                    Some(paraid) => Some(
                                        PHAXCurrencyId {
                                            chain_id: ChainId::ParaChain(paraid),
                                            currency_id: copy_bytes(key),
                                        },
                                    ),
                                    None => None,
                                }
                            },
                            None => None,
                        }
                    },
                    None => None,
                }
            },
            MultiAsset::Other => None,
        }
    }
}

/// The parent's own asset is the relay chain's currency, whatever the
/// registry holds and whatever the amount; the sender is not asked about.
pub proof fn parent_asset_is_relay_currency(
    native_tokens: Map<Seq<u8>, Seq<JunctionView>>,
    amount: u128,
)
    ensures
        resolved(native_tokens, MultiAssetView::ConcreteFungible { id: parent_path(), amount })
            == Some(relay_currency()),
{
}

/// An asset whose location ends in a registered key, the key's reserve being
/// the parachain `para_id` by way of the parent, is that parachain's currency
/// of that key.
pub proof fn registered_key_is_parachain_currency(
    native_tokens: Map<Seq<u8>, Seq<JunctionView>>,
    id: Seq<JunctionView>,
    amount: u128,
    key: Seq<u8>,
    para_id: u32,
)
    requires
        trailing_key(id) == Some(key),
        native_tokens.contains_key(key),
        native_tokens[key] == sibling_path(para_id),
    ensures
        resolved(native_tokens, MultiAssetView::ConcreteFungible { id, amount }) == Some(
            PHAXCurrencyIdView { chain_id: ChainId::ParaChain(para_id), currency_id: key },
        ),
{
    assert(id != parent_path()) by {
        if id == parent_path() {
            assert(id.last() == JunctionView::Parent);
        }
    }
}

/// An asset whose location ends in a key that is not registered is no known
/// currency.
pub proof fn unregistered_key_is_no_currency(
    native_tokens: Map<Seq<u8>, Seq<JunctionView>>,
    id: Seq<JunctionView>,
    amount: u128,
    key: Seq<u8>,
)
    requires
        trailing_key(id) == Some(key),
        !native_tokens.contains_key(key),
    ensures
        resolved(native_tokens, MultiAssetView::ConcreteFungible { id, amount }) is None,
{
    assert(id != parent_path()) by {
        if id == parent_path() {
            assert(id.last() == JunctionView::Parent);
        }
    }
}

} // verus!

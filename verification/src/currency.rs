//! Identities of chains and of the currencies they issue, and their bytes.
//!
//! A currency identity is written as the bytes of its chain followed by the
//! raw currency key. The chain takes one byte for the relay chain (`0`) and
//! five for a parachain (`1`, then the id as a little-endian `u32`), so the
//! key can be read back without a length in front of it.

use vstd::prelude::*;
use vstd::slice::slice_subrange;
use crate::location::{copy_bytes, Junction, JunctionView, MultiLocation};
use crate::scale::{decode_u32, encode_u32, le_bytes, le_bytes_of_le_value, le_value, le_value_of_le_bytes};

verus! {

/// Identity of chain.
#[derive(Clone, Copy, Debug, PartialEq, Eq, Structural)]
pub enum ChainId {
    /// The relay chain.
    RelayChain,
    /// A parachain.
    ParaChain(u32),
}

/// The bytes of a chain identity.
pub open spec fn chain_id_bytes(chain_id: ChainId) -> Seq<u8> {
    match chain_id {
        ChainId::RelayChain => seq![0u8],
        ChainId::ParaChain(id) => seq![1u8] + le_bytes(id),
    }
}

impl ChainId {
    /// The bytes of this chain identity.
    pub fn encode(&self) -> (bytes: Vec<u8>)
        ensures
            bytes@ == chain_id_bytes(*self),
    {
        match self {
            ChainId::RelayChain => {
                let bytes: Vec<u8> = vec![0u8];
                assert(bytes@ =~= chain_id_bytes(*self));
                bytes
            },
            ChainId::ParaChain(id) => {
                let mut bytes: Vec<u8> = vec![1u8];
                let id_bytes = encode_u32(*id);
                bytes.extend_from_slice(id_bytes.as_slice());
                assert(bytes@ =~= chain_id_bytes(*self));
                bytes
            },
        }
    }
}

/// Identity of cross chain currency.
#[derive(Debug, PartialEq, Eq)]
pub struct PHAXCurrencyId {
    /// The reserve chain of the currency. For instance, the reserve chain of
    /// DOT is Polkadot.
    pub chain_id: ChainId,
    /// The identity of the currency.
    pub currency_id: Vec<u8>,
}

/// The mathematical value of a [`PHAXCurrencyId`].
pub struct PHAXCurrencyIdView {
    pub chain_id: ChainId,
    pub currency_id: Seq<u8>,
}

impl View for PHAXCurrencyId {
    type V = PHAXCurrencyIdView;

    open spec fn view(&self) -> PHAXCurrencyIdView {
        PHAXCurrencyIdView { chain_id: self.chain_id, currency_id: self.currency_id@ }
    }
}

impl Clone for PHAXCurrencyId {
    fn clone(&self) -> (copy: Self)
        ensures
            copy@ == self@,
    {
        PHAXCurrencyId { chain_id: self.chain_id, currency_id: copy_bytes(&self.currency_id) }
    }
}

/// The key of the relay chain's own currency: the three letters `DOT`.
pub open spec fn relay_currency_key() -> Seq<u8> {
    seq![68u8, 79u8, 84u8]
}

/// The identity of the relay chain's own currency.
pub open spec fn relay_currency() -> PHAXCurrencyIdView {
    PHAXCurrencyIdView { chain_id: ChainId::RelayChain, currency_id: relay_currency_key() }
}

/// The bytes of a currency identity: those of its chain, then the key as it is.
pub open spec fn encoded(currency: PHAXCurrencyIdView) -> Seq<u8> {
    chain_id_bytes(currency.chain_id) + currency.currency_id
}

/// The currency identity that bytes spell, if they spell one.
pub open spec fn decoded(bytes: Seq<u8>) -> Option<PHAXCurrencyIdView> {
    if bytes.len() >= 1 && bytes[0] == 0 {
        Some(PHAXCurrencyIdView { chain_id: ChainId::RelayChain, currency_id: bytes.skip(1) })
    } else if bytes.len() >= 5 && bytes[0] == 1 {
        Some(
            PHAXCurrencyIdView {
                chain_id: ChainId::ParaChain(le_value(bytes.subrange(1, 5))),
                currency_id: bytes.skip(5),
            },
        )
    } else {
        None
    }
}

/// The location that names a currency by its key alone.
pub open spec fn key_path(currency: PHAXCurrencyIdView) -> Seq<JunctionView> {
    seq![JunctionView::GeneralKey(currency.currency_id)]
}

impl PHAXCurrencyId {
    pub fn new(chain_id: ChainId, currency_id: Vec<u8>) -> (currency: Self)
        ensures
            currency.chain_id == chain_id,
            currency.currency_id == currency_id,
    {
        PHAXCurrencyId { chain_id, currency_id }
    }

    /// The identity of the relay chain's own currency.
    pub fn relay_chain() -> (currency: Self)
        ensures
            currency@ == relay_currency(),
    {
        let key: Vec<u8> = vec![68u8, 79u8, 84u8];
        assert(key@ =~= relay_currency_key());
        PHAXCurrencyId { chain_id: ChainId::RelayChain, currency_id: key }
    }

    /// The bytes of this identity, as an event carries them.
    pub fn encode(&self) -> (bytes: Vec<u8>)
        ensures
            bytes@ == encoded(self@),
    {
        let mut bytes = self.chain_id.encode();
        bytes.extend_from_slice(self.currency_id.as_slice());
        assert(bytes@ =~= encoded(self@));
        bytes
    }

    /// Reads an identity back from its bytes.
    pub fn decode(bytes: &[u8]) -> (currency: Option<PHAXCurrencyId>)
        ensures
            match currency {
                Some(currency) => decoded(bytes@) == Some(currency@),
                None => decoded(bytes@) is None,
            },
    {
        let n = bytes.len();
        if n == 0 {
            return None;
        }
        let tag = bytes[0];
        let rest = slice_subrange(bytes, 1, n);
        if tag == 0 {
            let key = copy_slice(rest);
            assert(key@ =~= bytes@.skip(1));
            Some(PHAXCurrencyId { chain_id: ChainId::RelayChain, currency_id: key })
        } else if tag == 1 {
            match decode_u32(rest) {
                Ok(id) => {
                    let key = copy_slice(slice_subrange(bytes, 5, n));
                    assert(key@ =~= bytes@.skip(5));
                    assert(rest@.subrange(0, 4) =~= bytes@.subrange(1, 5));
                    Some(PHAXCurrencyId { chain_id: ChainId::ParaChain(id), currency_id: key })
                },
                Err(_) => None,
            }
        } else {
            None
        }
    }
}

impl From<PHAXCurrencyId> for Vec<u8> {
    /// The bytes of the identity, as an event carries them.
    fn from(currency: PHAXCurrencyId) -> (bytes: Vec<u8>)
        ensures
            bytes@ == encoded(currency@),
    {
        currency.encode()
    }
}

impl vstd::std_specs::convert::FromSpecImpl<PHAXCurrencyId> for Vec<u8> {
    open spec fn obeys_from_spec() -> bool {
        false
    }

    open spec fn from_spec(currency: PHAXCurrencyId) -> Vec<u8> {
        arbitrary()
    }
}

impl From<PHAXCurrencyId> for MultiLocation {
    /// The location that names the currency by its key alone. The chain is
    /// not part of it, so the identity cannot be read back from the location.
    fn from(currency: PHAXCurrencyId) -> (location: MultiLocation)
        ensures
            location@ == key_path(currency@),
    {
        let mut junctions: Vec<Junction> = Vec::with_capacity(1);
        junctions.push(Junction::GeneralKey(currency.currency_id));
        let location = MultiLocation { junctions };
        assert(location@ =~= key_path(currency@));
        location
    }
}

impl vstd::std_specs::convert::FromSpecImpl<PHAXCurrencyId> for MultiLocation {
    open spec fn obeys_from_spec() -> bool {
        false
    }

    open spec fn from_spec(currency: PHAXCurrencyId) -> MultiLocation {
        arbitrary()
    }
}

/// A copy of a slice of bytes.
fn copy_slice(bytes: &[u8]) -> (copy: Vec<u8>)
    ensures
        copy@ == bytes@,
{
    let mut copy: Vec<u8> = Vec::with_capacity(bytes.len());
    copy.extend_from_slice(bytes);
    assert(copy@ =~= bytes@);
    copy
}

/// Every currency identity is read back from its bytes as it was written,
/// whatever its chain and its key, the empty key included.
pub proof fn decode_of_encode(currency: PHAXCurrencyIdView)
    ensures
        decoded(encoded(currency)) == Some(currency),
{
    let bytes = encoded(currency);
    match currency.chain_id {
        ChainId::RelayChain => {
            assert(bytes.skip(1) =~= currency.currency_id);
        },
        ChainId::ParaChain(id) => {
            le_value_of_le_bytes(id);
            assert(bytes.subrange(1, 5) =~= le_bytes(id));
            assert(bytes.skip(5) =~= currency.currency_id);
        },
    }
}

/// Bytes that spell a currency identity are the bytes of that identity, so no
/// two byte strings spell the same one.
pub proof fn encode_of_decode(bytes: Seq<u8>)
    requires
        decoded(bytes) is Some,
    ensures
        encoded(decoded(bytes)->Some_0) == bytes,
{
    if bytes[0] == 0 {
        assert(encoded(decoded(bytes)->Some_0) =~= bytes);
    } else {
        le_bytes_of_le_value(bytes.subrange(1, 5));
        assert(encoded(decoded(bytes)->Some_0) =~= bytes);
    }
}

} // verus!

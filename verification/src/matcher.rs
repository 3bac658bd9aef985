//! Recognising a fungible asset and extracting its amount.
//!
//! An asset of the parent chain is counted in the parent's decimals: its
//! amount is rebased before it is converted into a balance. Any other asset is
//! recognised by the general key that its location ends in, and its amount is
//! converted as it is.
//!
//! The rebasing, the type of the keys and the type of the balance are the
//! caller's. The contract of the matcher says what it answers for whatever
//! they do: `rebases`, `recognises` and `converts` hold of a result exactly
//! where the caller's own conversion can give it.

use std::marker::PhantomData;
use vstd::prelude::*;
use crate::location::{copy_bytes, parent_path, trailing_key, MultiAsset, MultiAssetView};

verus! {

/// A conversion of values, such as a change of denomination.
pub trait Convert<A, B> {
    fn convert(&self, a: A) -> B;
}

/// A conversion that hands its argument back.
pub struct Identity;

impl<A> Convert<A, A> for Identity {
    fn convert(&self, a: A) -> (b: A)
        ensures
            b == a,
    {
        a
    }
}

/// A rule that tells whether an asset is of a wanted fungible kind, and if so,
/// how much of it there is.
pub trait MatchesFungible<Balance> {
    fn matches_fungible(&self, a: &MultiAsset) -> Option<Balance>;
}

/// `local` is what `rebase` makes of `amount`.
pub open spec fn rebases<R: Convert<u128, u128>>(rebase: R, amount: u128, local: u128) -> bool {
    call_ensures(R::convert, (&rebase, amount), local)
}

/// `known` tells whether `key` reads as a currency key of type `CurrencyId`.
pub open spec fn recognises<CurrencyId: TryFrom<Vec<u8>>>(key: Seq<u8>, known: bool) -> bool {
    exists|bytes: Vec<u8>, parsed: Result<CurrencyId, CurrencyId::Error>|
        bytes@ == key && call_ensures(CurrencyId::try_from, (bytes,), parsed) && known
            == parsed is Ok
}

/// `balance` is `amount` converted into a `Balance` without loss, or nothing
/// where the conversion refuses.
pub open spec fn converts<Balance: TryFrom<u128>>(amount: u128, balance: Option<Balance>) -> bool {
    exists|checked: Result<Balance, Balance::Error>|
        call_ensures(Balance::try_from, (amount,), checked) && match checked {
            Ok(value) => balance == Some(value),
            Err(_) => balance is None,
        }
}

/// Matches a concrete fungible asset that is the parent's own or ends in a
/// general key that reads as a `CurrencyId`.
pub struct IsConcreteWithGeneralKey<CurrencyId, FromRelayChainBalance> {
    /// The change from the relay chain's denomination to the local one.
    pub from_relay_chain_balance: FromRelayChainBalance,
    pub currency_id: PhantomData<CurrencyId>,
}

impl<CurrencyId, FromRelayChainBalance> IsConcreteWithGeneralKey<CurrencyId, FromRelayChainBalance> {
    pub fn new(from_relay_chain_balance: FromRelayChainBalance) -> (matcher: Self)
        ensures
            matcher.from_relay_chain_balance == from_relay_chain_balance,
    {
        IsConcreteWithGeneralKey { from_relay_chain_balance, currency_id: PhantomData }
    }
}

/// What [`IsConcreteWithGeneralKey`] answers for an asset.
pub open spec fn matched<CurrencyId, Balance, R>(
    rebase: R,
    asset: MultiAssetView,
    balance: Option<Balance>,
) -> bool where CurrencyId: TryFrom<Vec<u8>>, Balance: TryFrom<u128>, R: Convert<u128, u128> {
    match asset {
        MultiAssetView::ConcreteFungible { id, amount } => {
            if id == parent_path() {
                exists|local: u128|
                    rebases(rebase, amount, local) && converts::<Balance>(local, balance)
            } else if trailing_key(id) is Some {
                let key = trailing_key(id)->Some_0;
                ||| recognises::<CurrencyId>(key, true) && converts::<Balance>(amount, balance)
                ||| recognises::<CurrencyId>(key, false) && balance is None
            } else {
                balance is None
            }
        },
        MultiAssetView::Other => balance is None,
    }
}

impl<CurrencyId, Balance, FromRelayChainBalance> MatchesFungible<
    Balance,
> for IsConcreteWithGeneralKey<CurrencyId, FromRelayChainBalance> where
    CurrencyId: TryFrom<Vec<u8>>,
    Balance: TryFrom<u128>,
    FromRelayChainBalance: Convert<u128, u128>,
 {
    fn matches_fungible(&self, a: &MultiAsset) -> (balance: Option<Balance>)
        ensures
            matched::<CurrencyId, Balance, FromRelayChainBalance>(
                self.from_relay_chain_balance,
                a@,
                balance,
            ),
    {
        match a {
            MultiAsset::ConcreteFungible { id, amount } => {
                if id.is_parent() {
                    // Convert relay chain decimals to local chain
                    let local_amount = self.from_relay_chain_balance.convert(*amount);
                    return checked_from::<Balance>(local_amount);
                }
                match id.trailing_general_key() {
                    Some(key) => {
                        let bytes = copy_bytes(key);
                        let parsed = CurrencyId::try_from(bytes);
                        assert(trailing_key(id@) == Some(key@));
                        assert(recognises::<CurrencyId>(key@, parsed is Ok));
                        if parsed.is_ok() {
                            return checked_from::<Balance>(*amount);
                        }
                        None
                    },
                    None => None,
                }
            },
            MultiAsset::Other => None,
        }
    }
}

/// An asset that is not a concrete fungible one matches nothing, whatever the
/// key type, the balance and the rebasing are.
pub proof fn other_asset_matches_nothing<CurrencyId, Balance, R>(rebase: R, balance: Option<Balance>) where
    CurrencyId: TryFrom<Vec<u8>>,
    Balance: TryFrom<u128>,
    R: Convert<u128, u128>,

    requires
        matched::<CurrencyId, Balance, R>(rebase, MultiAssetView::Other, balance),
    ensures
        balance is None,
{
}

/// The amount of the parent's asset is rebased before it is fitted to the
/// balance: where the rebasing makes `local` of `amount` and nothing else, the
/// answer is `local` converted, not `amount`.
pub proof fn parent_amount_is_rebased_first<CurrencyId, Balance, R>(
    rebase: R,
    amount: u128,
    local: u128,
    balance: Option<Balance>,
) where CurrencyId: TryFrom<Vec<u8>>, Balance: TryFrom<u128>, R: Convert<u128, u128>
    requires
        matched::<CurrencyId, Balance, R>(
            rebase,
            MultiAssetView::ConcreteFungible { id: parent_path(), amount },
            balance,
        ),
        forall|other: u128| #[trigger] rebases(rebase, amount, other) ==> other == local,
    ensures
        converts::<Balance>(local, balance),
{
}

/// `From::from` of a type to itself, which std documents to return the
/// argument unchanged.
pub assume_specification<T>[ <T as From<T>>::from ](value: T) -> (same: T)
    ensures
        same == value,
;

/// A `u128` balance takes every amount as it is.
pub proof fn u128_balance_takes_every_amount(amount: u128, balance: Option<u128>)
    requires
        converts::<u128>(amount, balance),
    ensures
        balance == Some(amount),
{
}

/// A `u64` balance takes the amounts up to its maximum as they are, and no
/// others.
pub proof fn u64_balance_takes_what_fits(amount: u128, balance: Option<u64>)
    requires
        converts::<u64>(amount, balance),
    ensures
        amount <= u64::MAX ==> balance == Some(amount as u64),
        amount > u64::MAX ==> balance is None,
{
}

/// The amount as a `Balance`, where it fits without loss.
pub fn checked_from<Balance: TryFrom<u128>>(amount: u128) -> (balance: Option<Balance>)
    ensures
        converts::<Balance>(amount, balance),
{
    match Balance::try_from(amount) {
        Ok(value) => Some(value),
        Err(_) => None,
    }
}

} // verus!


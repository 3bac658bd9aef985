//! Depositing and withdrawing assets.
//!
//! A transfer asks three components in turn: who the origin is on this chain,
//! which currency the asset is, and how much of it there is. Only when all
//! three have answered, and the amount fits the chain's balance, is the
//! transfer recorded as an event. A transfer that fails records nothing.
//!
//! The three components are the caller's. The contracts here say what a
//! transfer comes to for whatever the components answer: `locates`, `resolves`
//! and `extracts` hold of an answer exactly where the component's own contract
//! allows it. For the components of this library the laws at the end of the
//! file spell the outcome out.

use vstd::prelude::*;
use crate::converter::{
    registered_key_is_parachain_currency, resolved, XCurrencyIdConversion,
    XCurrencyIdConverter as RegistryConverter,
};
use crate::currency::{encoded, relay_currency, ChainId, PHAXCurrencyId, PHAXCurrencyIdView};
use crate::location::{
    parent_path, sibling_path, trailing_key, JunctionView, MultiAsset, MultiAssetView, MultiLocation,
};
use crate::matcher::{
    checked_from, converts, recognises, Convert, Identity, IsConcreteWithGeneralKey, MatchesFungible,
};

verus! {

/// Why a transfer was refused.
#[derive(Clone, Copy, Debug, PartialEq, Eq, Structural)]
pub enum Fail {
    /// The origin is no account of this chain.
    UnknownAccount,
    /// The asset is no currency that this chain knows.
    UnrecognizedAsset,
    /// The asset is not of the fungible kind that the matcher takes.
    AmountMismatch,
    /// The amount does not fit the chain's balance.
    AmountOverflow,
}

/// What the chain records of a transfer.
#[derive(Debug, PartialEq, Eq)]
pub enum Event<AccountId, Balance> {
    /// Deposit asset into current chain. [currency_id, account_id, amount, to_tee]
    DepositAsset(Vec<u8>, AccountId, Balance, bool),
    /// Withdraw asset from current chain. [currency_id, account_id, amount, to_tee]
    WithdrawAsset(Vec<u8>, AccountId, Balance, bool),
}

/// The mathematical value of an [`Event`].
pub enum EventView<AccountId, Balance> {
    DepositAsset(Seq<u8>, AccountId, Balance, bool),
    WithdrawAsset(Seq<u8>, AccountId, Balance, bool),
}

impl<AccountId, Balance> View for Event<AccountId, Balance> {
    type V = EventView<AccountId, Balance>;

    open spec fn view(&self) -> EventView<AccountId, Balance> {
        match *self {
            Event::DepositAsset(currency_id, who, amount, to_tee) => EventView::DepositAsset(
                currency_id@,
                who,
                amount,
                to_tee,
            ),
            Event::WithdrawAsset(currency_id, who, amount, to_tee) => EventView::WithdrawAsset(
                currency_id@,
                who,
                amount,
                to_tee,
            ),
        }
    }
}

impl<AccountId, Balance> EventView<AccountId, Balance> {
    /// What the event records: [currency_id, account_id, amount, to_tee].
    pub open spec fn record(self) -> (Seq<u8>, AccountId, Balance, bool) {
        match self {
            EventView::DepositAsset(currency_id, who, amount, to_tee) => (
                currency_id,
                who,
                amount,
                to_tee,
            ),
            EventView::WithdrawAsset(currency_id, who, amount, to_tee) => (
                currency_id,
                who,
                amount,
                to_tee,
            ),
        }
    }
}

/// The events after are the events before and one more.
pub open spec fn one_more<AccountId, Balance>(
    before: Seq<Event<AccountId, Balance>>,
    after: Seq<Event<AccountId, Balance>>,
) -> bool {
    after.len() == before.len() + 1 && after.drop_last() == before
}

/// A conversion of locations into the accounts of this chain.
pub trait LocationConversion<AccountId> {
    fn from_location(&self, location: &MultiLocation) -> Option<AccountId>;
}

/// `who` is the account that the converter finds for the location, if any.
pub open spec fn locates<AccountId, Converter: LocationConversion<AccountId>>(
    converter: Converter,
    location: MultiLocation,
    who: Option<AccountId>,
) -> bool {
    call_ensures(Converter::from_location, (&converter, &location), who)
}

/// `currency` is what the converter resolves the asset to.
pub open spec fn resolves<Converter: XCurrencyIdConversion>(
    converter: Converter,
    asset: MultiAsset,
    location: MultiLocation,
    currency: Option<PHAXCurrencyId>,
) -> bool {
    call_ensures(Converter::from_asset_and_location, (&converter, &asset, &location), currency)
}

/// `amount` is what the matcher extracts from the asset.
pub open spec fn extracts<Matcher: MatchesFungible<u128>>(
    matcher: Matcher,
    asset: MultiAsset,
    amount: Option<u128>,
) -> bool {
    call_ensures(Matcher::matches_fungible, (&matcher, &asset), amount)
}

/// What is recorded of a transfer of `amount` of `currency` for `who`, or why
/// nothing is: the amount has to fit the balance.
pub open spec fn recorded<AccountId, Balance: TryFrom<u128>>(
    who: AccountId,
    currency: PHAXCurrencyId,
    amount: u128,
    outcome: Result<(Seq<u8>, AccountId, Balance, bool), Fail>,
) -> bool {
    ||| converts::<Balance>(amount, None) && outcome == Err::<(Seq<u8>, AccountId, Balance, bool), Fail>(
        Fail::AmountOverflow,
    )
    ||| exists|balance: Balance| #[trigger]
        converts::<Balance>(amount, Some(balance)) && outcome == Ok::<
            (Seq<u8>, AccountId, Balance, bool),
            Fail,
        >((encoded(currency@), who, balance, true))
}

/// An outcome as a mathematical value: the record with its bytes as a sequence.
pub open spec fn told<AccountId, Balance>(
    outcome: Result<(Vec<u8>, AccountId, Balance, bool), Fail>,
) -> Result<(Seq<u8>, AccountId, Balance, bool), Fail> {
    match outcome {
        Ok((currency_id, who, amount, to_tee)) => Ok((currency_id@, who, amount, to_tee)),
        Err(fail) => Err(fail),
    }
}

/// The components that a chain handles transfers with.
pub struct Module<Matcher, AccountIdConverter, XCurrencyIdConverter> {
    pub matcher: Matcher,
    pub account_id_converter: AccountIdConverter,
    pub xcurrency_id_converter: XCurrencyIdConverter,
}

impl<Matcher, AccountIdConverter, XCurrencyIdConverter> Module<
    Matcher,
    AccountIdConverter,
    XCurrencyIdConverter,
> where Matcher: MatchesFungible<u128>, XCurrencyIdConverter: XCurrencyIdConversion {
    pub fn new(
        matcher: Matcher,
        account_id_converter: AccountIdConverter,
        xcurrency_id_converter: XCurrencyIdConverter,
    ) -> (module: Self)
        ensures
            module.matcher == matcher,
            module.account_id_converter == account_id_converter,
            module.xcurrency_id_converter == xcurrency_id_converter,
    {
        Module { matcher, account_id_converter, xcurrency_id_converter }
    }

    /// What a transfer of the asset from the location comes to: the record of
    /// it, or the first of the four steps that refuses. The first step asks
    /// who the location is.
    pub open spec fn transacts<AccountId, Balance>(
        self,
        asset: MultiAsset,
        location: MultiLocation,
        outcome: Result<(Seq<u8>, AccountId, Balance, bool), Fail>,
    ) -> bool where AccountIdConverter: LocationConversion<AccountId>, Balance: TryFrom<u128> {
        ||| locates::<AccountId, AccountIdConverter>(self.account_id_converter, location, None)
            && outcome == Err::<(Seq<u8>, AccountId, Balance, bool), Fail>(Fail::UnknownAccount)
        ||| exists|who: AccountId| #[trigger]
            locates(self.account_id_converter, location, Some(who)) && self.transacts_for(
                who,
                asset,
                location,
                outcome,
            )
    }

    /// The second step, for the account `who`: which currency the asset is.
    pub open spec fn transacts_for<AccountId, Balance: TryFrom<u128>>(
        self,
        who: AccountId,
        asset: MultiAsset,
        location: MultiLocation,
        outcome: Result<(Seq<u8>, AccountId, Balance, bool), Fail>,
    ) -> bool {
        ||| resolves(self.xcurrency_id_converter, asset, location, None) && outcome == Err::<
            (Seq<u8>, AccountId, Balance, bool),
            Fail,
        >(Fail::UnrecognizedAsset)
        ||| exists|currency: PHAXCurrencyId| #[trigger]
            resolves(self.xcurrency_id_converter, asset, location, Some(currency))
                && self.transacts_in(who, currency, asset, outcome)
    }

    /// The third step, for the account `who` and the currency: how much of the
    /// asset there is. The fourth fits the amount to the balance.
    pub open spec fn transacts_in<AccountId, Balance: TryFrom<u128>>(
        self,
        who: AccountId,
        currency: PHAXCurrencyId,
        asset: MultiAsset,
        outcome: Result<(Seq<u8>, AccountId, Balance, bool), Fail>,
    ) -> bool {
        ||| extracts(self.matcher, asset, None) && outcome == Err::<
            (Seq<u8>, AccountId, Balance, bool),
            Fail,
        >(Fail::AmountMismatch)
        ||| exists|amount: u128| #[trigger]
            extracts(self.matcher, asset, Some(amount)) && recorded(who, currency, amount, outcome)
    }

    /// Runs the four steps of a transfer and returns what is to be recorded.
    pub fn transact<AccountId, Balance>(&self, asset: &MultiAsset, location: &MultiLocation) -> (outcome:
        Result<(Vec<u8>, AccountId, Balance, bool), Fail>) where
        AccountIdConverter: LocationConversion<AccountId>,
        Balance: TryFrom<u128>,

        ensures
            self.transacts(*asset, *location, told(outcome)),
    {
        let who = match self.account_id_converter.from_location(location) {
            Some(who) => who,
            None => {
                return Err(Fail::UnknownAccount);
            },
        };
        assert(locates(self.account_id_converter, *location, Some(who)));
        let currency_id = match self.xcurrency_id_converter.from_asset_and_location(
            asset,
            location,
        ) {
            Some(currency_id) => currency_id,
            None => {
                assert(self.transacts_for(
                    who,
                    *asset,
                    *location,
                    Err::<(Seq<u8>, AccountId, Balance, bool), Fail>(Fail::UnrecognizedAsset),
                ));
                return Err(Fail::UnrecognizedAsset);
            },
        };
        assert(resolves(self.xcurrency_id_converter, *asset, *location, Some(currency_id)));
        let amount = match self.matcher.matches_fungible(asset) {
            Some(amount) => amount,
            None => {
                assert(self.transacts_in(
                    who,
                    currency_id,
                    *asset,
                    Err::<(Seq<u8>, AccountId, Balance, bool), Fail>(Fail::AmountMismatch),
                ));
                assert(self.transacts_for(
                    who,
                    *asset,
                    *location,
                    Err::<(Seq<u8>, AccountId, Balance, bool), Fail>(Fail::AmountMismatch),
                ));
                return Err(Fail::AmountMismatch);
            },
        };
        assert(extracts(self.matcher, *asset, Some(amount)));
        let checked = checked_from::<Balance>(amount);
        let outcome = match checked {
            Some(balance_amount) => Ok((currency_id.encode(), who, balance_amount, true)),
            None => Err(Fail::AmountOverflow),
        };
        proof {
            assert(recorded(who, currency_id, amount, told(outcome)));
            assert(self.transacts_in(who, currency_id, *asset, told(outcome)));
            assert(self.transacts_for(who, *asset, *location, told(outcome)));
        }
        outcome
    }

    /// Deposits the asset for the account that the location is, and records
    /// the deposit as an event. A deposit that is refused records nothing.
    pub fn deposit_asset<AccountId, Balance>(
        &self,
        asset: &MultiAsset,
        location: &MultiLocation,
        events: &mut Vec<Event<AccountId, Balance>>,
    ) -> (result: Result<(), Fail>) where
        AccountIdConverter: LocationConversion<AccountId>,
        Balance: TryFrom<u128>,

        ensures
            match result {
                Ok(()) => {
                    &&& one_more(old(events)@, final(events)@)
                    &&& final(events)@.last()@ is DepositAsset
                    &&& self.transacts(
                        *asset,
                        *location,
                        Ok::<(Seq<u8>, AccountId, Balance, bool), Fail>(
                            final(events)@.last()@.record(),
                        ),
                    )
                },
                Err(fail) => {
                    &&& final(events)@ == old(events)@
                    &&& self.transacts(
                        *asset,
                        *location,
                        Err::<(Seq<u8>, AccountId, Balance, bool), Fail>(fail),
                    )
                },
            },
    {
        match self.transact::<AccountId, Balance>(asset, location) {
            Ok((currency_id, who, balance_amount, to_tee)) => {
                events.push(Event::DepositAsset(currency_id, who, balance_amount, to_tee));
                assert(events@.drop_last() =~= old(events)@);
                Ok(())
            },
            Err(fail) => Err(fail),
        }
    }

    /// Withdraws the asset from the account that the location is, records the
    /// withdrawal as an event, and hands the asset back as it was given. A
    /// withdrawal that is refused records nothing.
    pub fn withdraw_asset<AccountId, Balance>(
        &self,
        asset: &MultiAsset,
        location: &MultiLocation,
        events: &mut Vec<Event<AccountId, Balance>>,
    ) -> (result: Result<MultiAsset, Fail>) where
        AccountIdConverter: LocationConversion<AccountId>,
        Balance: TryFrom<u128>,

        ensures
            match result {
                Ok(withdrawn) => {
                    &&& withdrawn@ == asset@
                    &&& one_more(old(events)@, final(events)@)
                    &&& final(events)@.last()@ is WithdrawAsset
                    &&& self.transacts(
                        *asset,
                        *location,
                        Ok::<(Seq<u8>, AccountId, Balance, bool), Fail>(
                            final(events)@.last()@.record(),
                        ),
                    )
                },
                Err(fail) => {
                    &&& final(events)@ == old(events)@
                    &&& self.transacts(
                        *asset,
                        *location,
                        Err::<(Seq<u8>, AccountId, Balance, bool), Fail>(fail),
                    )
                },
            },
    {
        match self.transact::<AccountId, Balance>(asset, location) {
            Ok((currency_id, who, balance_amount, to_tee)) => {
                events.push(Event::WithdrawAsset(currency_id, who, balance_amount, to_tee));
                assert(events@.drop_last() =~= old(events)@);
                Ok(asset.clone())
            },
            Err(fail) => Err(fail),
        }
    }
}

/// A transfer from a location that is no account is refused for that reason,
/// whatever the asset is.
pub proof fn no_account_refuses_any_asset<Matcher, AccountIdConverter, XCurrencyIdConverter, AccountId, Balance>(
    module: Module<Matcher, AccountIdConverter, XCurrencyIdConverter>,
    asset: MultiAsset,
    location: MultiLocation,
    outcome: Result<(Seq<u8>, AccountId, Balance, bool), Fail>,
) where
    Matcher: MatchesFungible<u128>,
    AccountIdConverter: LocationConversion<AccountId>,
    XCurrencyIdConverter: XCurrencyIdConversion,
    Balance: TryFrom<u128>,

    requires
        module.transacts(asset, location, outcome),
        forall|who: AccountId| !#[trigger] locates(module.account_id_converter, location, Some(who)),
    ensures
        outcome == Err::<(Seq<u8>, AccountId, Balance, bool), Fail>(Fail::UnknownAccount),
{
}

/// With the registry's converter, an asset that the registry does not resolve
/// is not transferred: the transfer is refused for want of an account or of a
/// known currency.
pub proof fn unresolved_asset_is_refused<Matcher, AccountIdConverter, AccountId, Balance>(
    module: Module<Matcher, AccountIdConverter, RegistryConverter>,
    asset: MultiAsset,
    location: MultiLocation,
    outcome: Result<(Seq<u8>, AccountId, Balance, bool), Fail>,
) where
    Matcher: MatchesFungible<u128>,
    AccountIdConverter: LocationConversion<AccountId>,
    Balance: TryFrom<u128>,

    requires
        module.transacts(asset, location, outcome),
        resolved(module.xcurrency_id_converter.native_tokens@, asset@) is None,
    ensures
        outcome == Err::<(Seq<u8>, AccountId, Balance, bool), Fail>(Fail::UnknownAccount) || outcome
            == Err::<(Seq<u8>, AccountId, Balance, bool), Fail>(Fail::UnrecognizedAsset),
{
}

/// With the registry's converter and a matcher that keeps the relay chain's
/// denomination, a transfer of the parent's asset into a `u128` balance is
/// refused only for want of an account. Otherwise it is recorded as the relay
/// chain's currency, with the amount as it is.
pub proof fn parent_asset_is_recorded_as_relay_currency<CurrencyId, AccountIdConverter, AccountId>(
    module: Module<IsConcreteWithGeneralKey<CurrencyId, Identity>, AccountIdConverter, RegistryConverter>,
    asset: MultiAsset,
    amount: u128,
    location: MultiLocation,
    outcome: Result<(Seq<u8>, AccountId, u128, bool), Fail>,
) where CurrencyId: TryFrom<Vec<u8>>, AccountIdConverter: LocationConversion<AccountId>
    requires
        asset@ == (MultiAssetView::ConcreteFungible { id: parent_path(), amount }),
        module.transacts(asset, location, outcome),
    ensures
        match outcome {
            Ok((currency_id, who, recorded_amount, to_tee)) => {
                &&& locates(module.account_id_converter, location, Some(who))
                &&& currency_id == encoded(relay_currency())
                &&& recorded_amount == amount
                &&& to_tee
            },
            Err(fail) => fail == Fail::UnknownAccount,
        },
{
}

/// With the registry's converter, a transfer into a `u128` balance of an asset
/// that ends in a registered key, the key's reserve being the parachain
/// `para_id` by way of the parent, is recorded as that parachain's currency of
/// that key, with the amount as it is. It is refused only for want of an
/// account, or where the matcher does not read the key.
pub proof fn registered_asset_is_recorded_as_parachain_currency<
    CurrencyId,
    FromRelayChainBalance,
    AccountIdConverter,
    AccountId,
>(
    module: Module<
        IsConcreteWithGeneralKey<CurrencyId, FromRelayChainBalance>,
        AccountIdConverter,
        RegistryConverter,
    >,
    asset: MultiAsset,
    id: Seq<JunctionView>,
    amount: u128,
    key: Seq<u8>,
    para_id: u32,
    location: MultiLocation,
    outcome: Result<(Seq<u8>, AccountId, u128, bool), Fail>,
) where
    CurrencyId: TryFrom<Vec<u8>>,
    FromRelayChainBalance: Convert<u128, u128>,
    AccountIdConverter: LocationConversion<AccountId>,

    requires
        asset@ == (MultiAssetView::ConcreteFungible { id, amount }),
        trailing_key(id) == Some(key),
        module.xcurrency_id_converter.native_tokens@.contains_key(key),
        module.xcurrency_id_converter.native_tokens@[key] == sibling_path(para_id),
        module.transacts(asset, location, outcome),
    ensures
        match outcome {
            Ok((currency_id, who, recorded_amount, to_tee)) => {
                &&& locates(module.account_id_converter, location, Some(who))
                &&& recognises::<CurrencyId>(key, true)
                &&& currency_id == encoded(
                    PHAXCurrencyIdView { chain_id: ChainId::ParaChain(para_id), currency_id: key },
                )
                &&& recorded_amount == amount
                &&& to_tee
            },
            Err(fail) => fail == Fail::UnknownAccount || (fail == Fail::AmountMismatch
                && recognises::<CurrencyId>(key, false)),
        },
{
    registered_key_is_parachain_currency(
        module.xcurrency_id_converter.native_tokens@,
        id,
        amount,
        key,
        para_id,
    );
}

} // verus!

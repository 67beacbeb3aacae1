//! The dispatcher: the four remote procedures over an engine and a head source.

use crate::engine::{HeadInfo, QueryEngine};
use crate::error::{answers, wrap_outcome, Operation, RpcError};
use crate::types::BalanceInfo;
use std::sync::Arc;
use vstd::prelude::*;

verus! {

/// The remote procedures of the AMM, `amm_getSpotPrice`, `amm_getSellPrice`,
/// `amm_getBuyPrice` and `amm_getPoolBalances`, in that order. Each takes an
/// optional snapshot `at`; without one it is answered from the best snapshot
/// known when the call is made.
pub trait AMMApi<BlockHash, AccountId, AssetId, Balance, ResponseType> {
    fn get_spot_price(
        &self,
        asset_a: AssetId,
        asset_b: AssetId,
        amount: Balance,
        at: Option<BlockHash>,
    ) -> Result<ResponseType, RpcError>;

    fn get_sell_price(
        &self,
        asset_a: AssetId,
        asset_b: AssetId,
        amount: Balance,
        at: Option<BlockHash>,
    ) -> Result<ResponseType, RpcError>;

    fn get_buy_price(
        &self,
        asset_a: AssetId,
        asset_b: AssetId,
        amount: Balance,
        at: Option<BlockHash>,
    ) -> Result<ResponseType, RpcError>;

    fn get_pool_balances(&self, pool_address: AccountId, at: Option<BlockHash>) -> Result<
        Vec<ResponseType>,
        RpcError,
    >;
}

/// A struct that implements the [`AMMApi`].
pub struct AMM<C, B> {
    client: Arc<C>,
    _marker: std::marker::PhantomData<B>,
}

impl<C, B> AMM<C, B> {
    /// The client every call is answered from.
    pub closed spec fn client(&self) -> C {
        *self.client
    }

    /// Create new `AMM` with the given reference to the client.
    pub fn new(client: Arc<C>) -> (amm: Self)
        ensures
            amm.client() == *client,
    {
        AMM { client, _marker: std::marker::PhantomData }
    }

    /// The snapshot a call is answered from: the one the caller names, else
    /// the best one the client reports at this moment. A named snapshot is
    /// not checked here; a wrong one shows as a failure of the query.
    pub fn resolve(&self, at: Option<B>) -> (snapshot: B) where C: HeadInfo<B>
        ensures
            self.resolves(at, snapshot),
    {
        match at {
            Some(named) => named,
            None => self.client.best_snapshot(),
        }
    }

    /// `snapshot` is what `at` resolves to: `at` itself where it names one,
    /// else something the client may report as its best snapshot.
    pub open spec fn resolves(&self, at: Option<B>, snapshot: B) -> bool where C: HeadInfo<B> {
        match at {
            Some(named) => snapshot == named,
            None => call_ensures(C::best_snapshot, (&self.client(),), snapshot),
        }
    }
}

impl<C, B, AccountId, AssetId, Balance> AMMApi<
    B,
    AccountId,
    AssetId,
    Balance,
    BalanceInfo<AssetId, Balance>,
> for AMM<C, B> where C: QueryEngine<B, AccountId, AssetId, Balance> + HeadInfo<B> {
    /// The spot price of `asset_a` in `asset_b` for `amount`, at the snapshot
    /// that `at` resolves to: the engine's answer as it stands, or a runtime
    /// failure under the spot-price message.
    fn get_spot_price(
        &self,
        asset_a: AssetId,
        asset_b: AssetId,
        amount: Balance,
        at: Option<B>,
    ) -> (reply: Result<BalanceInfo<AssetId, Balance>, RpcError>)
        ensures
            exists|snapshot: B, outcome: Result<BalanceInfo<AssetId, Balance>, C::Failure>|
                {
                    &&& self.resolves(at, snapshot)
                    &&& #[trigger] call_ensures(
                        C::get_spot_price,
                        (&self.client(), &snapshot, asset_a, asset_b, amount),
                        outcome,
                    )
                    &&& answers(outcome, Operation::SpotPrice, reply)
                },
    {
        let snapshot = self.resolve(at);
        let outcome = self.client.get_spot_price(&snapshot, asset_a, asset_b, amount);
        wrap_outcome(outcome, Operation::SpotPrice)
    }

    /// The price of selling `amount` of `asset_a` for `asset_b`, at the
    /// snapshot that `at` resolves to: the engine's answer as it stands, or a
    /// runtime failure under the sell-price message.
    fn get_sell_price(
        &self,
        asset_a: AssetId,
        asset_b: AssetId,
        amount: Balance,
        at: Option<B>,
    ) -> (reply: Result<BalanceInfo<AssetId, Balance>, RpcError>)
        ensures
            exists|snapshot: B, outcome: Result<BalanceInfo<AssetId, Balance>, C::Failure>|
                {
                    &&& self.resolves(at, snapshot)
                    &&& #[trigger] call_ensures(
                        C::get_sell_price,
                        (&self.client(), &snapshot, asset_a, asset_b, amount),
                        outcome,
                    )
                    &&& answers(outcome, Operation::SellPrice, reply)
                },
    {
        let snapshot = self.resolve(at);
        let outcome = self.client.get_sell_price(&snapshot, asset_a, asset_b, amount);
        wrap_outcome(outcome, Operation::SellPrice)
    }

    /// The price of buying `amount` of `asset_a` with `asset_b`, at the
    /// snapshot that `at` resolves to: the engine's answer as it stands, or a
    /// runtime failure under the buy-price message.
    fn get_buy_price(
        &self,
        asset_a: AssetId,
        asset_b: AssetId,
        amount: Balance,
        at: Option<B>,
    ) -> (reply: Result<BalanceInfo<AssetId, Balance>, RpcError>)
        ensures
            exists|snapshot: B, outcome: Result<BalanceInfo<AssetId, Balance>, C::Failure>|
                {
                    &&& self.resolves(at, snapshot)
                    &&& #[trigger] call_ensures(
                        C::get_buy_price,
                        (&self.client(), &snapshot, asset_a, asset_b, amount),
                        outcome,
                    )
                    &&& answers(outcome, Operation::BuyPrice, reply)
                },
    {
        let snapshot = self.resolve(at);
        let outcome = self.client.get_buy_price(&snapshot, asset_a, asset_b, amount);
        wrap_outcome(outcome, Operation::BuyPrice)
    }

    /// The balances of the pool at `pool_address`, at the snapshot that `at`
    /// resolves to: the engine's list in the engine's order, empty where the
    /// pool holds nothing, or a runtime failure under the pool-balances
    /// message. There is no partial list.
    fn get_pool_balances(&self, pool_address: AccountId, at: Option<B>) -> (reply: Result<
        Vec<BalanceInfo<AssetId, Balance>>,
        RpcError,
    >)
        ensures
            exists|snapshot: B, outcome: Result<Vec<BalanceInfo<AssetId, Balance>>, C::Failure>|
                {
                    &&& self.resolves(at, snapshot)
                    &&& #[trigger] call_ensures(
                        C::get_pool_balances,
                        (&self.client(), &snapshot, pool_address),
                        outcome,
                    )
                    &&& answers(outcome, Operation::PoolBalances, reply)
                },
    {
        let snapshot = self.resolve(at);
        let outcome = self.client.get_pool_balances(&snapshot, pool_address);
        wrap_outcome(outcome, Operation::PoolBalances)
    }
}

/// A pool that holds nothing is answered with success and an empty list,
/// never with a failure.
pub proof fn lemma_empty_pool_is_answered<T, E>(pool: Vec<T>, reply: Result<Vec<T>, RpcError>)
    requires
        pool@.len() == 0,
        answers(Ok::<Vec<T>, E>(pool), Operation::PoolBalances, reply),
    ensures
        reply is Ok,
        reply->Ok_0@.len() == 0,
{
}

} // verus!

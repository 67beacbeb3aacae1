//! The two capabilities the dispatcher is given: a query engine that answers
//! for one snapshot, and a source of the current best snapshot.
//!
//! Neither trait promises anything of what its methods return. What the
//! dispatcher states of a reply, it states over whatever the method's own
//! contract allows it to return.

use crate::types::BalanceInfo;
use vstd::prelude::*;

verus! {

/// Read-only queries against one snapshot of the state.
pub trait QueryEngine<Snapshot, AccountId, AssetId, Balance> {
    /// What the engine reports when a query cannot be answered.
    type Failure: core::fmt::Debug;

    fn get_spot_price(
        &self,
        at: &Snapshot,
        asset_a: AssetId,
        asset_b: AssetId,
        amount: Balance,
    ) -> Result<BalanceInfo<AssetId, Balance>, Self::Failure>;

    fn get_sell_price(
        &self,
        at: &Snapshot,
        asset_a: AssetId,
        asset_b: AssetId,
        amount: Balance,
    ) -> Result<BalanceInfo<AssetId, Balance>, Self::Failure>;

    fn get_buy_price(
        &self,
        at: &Snapshot,
        asset_a: AssetId,
        asset_b: AssetId,
        amount: Balance,
    ) -> Result<BalanceInfo<AssetId, Balance>, Self::Failure>;

    fn get_pool_balances(&self, at: &Snapshot, pool_address: AccountId) -> Result<
        Vec<BalanceInfo<AssetId, Balance>>,
        Self::Failure,
    >;
}

/// The current best-known snapshot. It moves as the chain advances, so two
/// calls may report different snapshots.
pub trait HeadInfo<Snapshot> {
    fn best_snapshot(&self) -> Snapshot;
}

} // verus!

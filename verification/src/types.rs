//! The values that travel between callers, this layer and the query engine.

use vstd::prelude::*;

verus! {

/// An amount of one asset, as a query returns it.
#[derive(Clone, Copy, Debug, PartialEq, Eq)]
pub struct BalanceInfo<AssetId, Balance> {
    pub asset: AssetId,
    pub amount: Balance,
}

/// The payload of a request that carries nothing but an amount.
#[derive(Clone, Copy, Debug, PartialEq, Eq)]
pub struct BalanceRequest<Balance> {
    pub amount: Balance,
}

} // verus!

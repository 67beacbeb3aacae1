use amm_rpc::engine::{HeadInfo, QueryEngine};
use amm_rpc::error::{translate, wrap_outcome, Error, Operation, RpcError};
use amm_rpc::rpc::{AMMApi, AMM};
use amm_rpc::types::BalanceInfo;
use amm_rpc::wire::{encode_balance_info, encode_pool_balances};
use std::cell::{Cell, RefCell};
use std::sync::Arc;

/// What the substitute engine reports when it cannot answer.
#[derive(Debug, Clone, PartialEq, Eq)]
enum Failure {
    UnknownPair,
    UnknownPool(u64),
}

/// An engine whose answers are fixed by the snapshot and the arguments, and
/// which notes every snapshot it is asked about.
struct Engine {
    head: Cell<u64>,
    head_calls: Cell<u32>,
    seen: RefCell<Vec<u64>>,
}

const FAILING_ASSET: u32 = 0;
const FAILING_POOL: u64 = 404;
const EMPTY_POOL: u64 = 7;

impl Engine {
    fn new(head: u64) -> Self {
        Engine { head: Cell::new(head), head_calls: Cell::new(0), seen: RefCell::new(Vec::new()) }
    }

    fn price(&self, at: u64, asset_a: u32, asset_b: u32, amount: u128, factor: u128) -> Result<BalanceInfo<u32, u128>, Failure> {
        self.seen.borrow_mut().push(at);
        if asset_a == FAILING_ASSET {
            Err(Failure::UnknownPair)
        } else {
            Ok(BalanceInfo { asset: asset_b, amount: amount * factor + at as u128 })
        }
    }
}

impl QueryEngine<u64, u64, u32, u128> for Engine {
    type Failure = Failure;

    fn get_spot_price(&self, at: &u64, asset_a: u32, asset_b: u32, amount: u128) -> Result<BalanceInfo<u32, u128>, Failure> {
        self.price(*at, asset_a, asset_b, amount, 2)
    }

    fn get_sell_price(&self, at: &u64, asset_a: u32, asset_b: u32, amount: u128) -> Result<BalanceInfo<u32, u128>, Failure> {
        self.price(*at, asset_a, asset_b, amount, 3)
    }

    fn get_buy_price(&self, at: &u64, asset_a: u32, asset_b: u32, amount: u128) -> Result<BalanceInfo<u32, u128>, Failure> {
        self.price(*at, asset_a, asset_b, amount, 5)
    }

    fn get_pool_balances(&self, at: &u64, pool_address: u64) -> Result<Vec<BalanceInfo<u32, u128>>, Failure> {
        self.seen.borrow_mut().push(*at);
        if pool_address == FAILING_POOL {
            Err(Failure::UnknownPool(pool_address))
        } else if pool_address == EMPTY_POOL {
            Ok(Vec::new())
        } else {
            Ok(vec![
                BalanceInfo { asset: 9, amount: 30 },
                BalanceInfo { asset: 1, amount: 10 },
                BalanceInfo { asset: 5, amount: 20 + *at as u128 },
            ])
        }
    }
}

impl HeadInfo<u64> for Engine {
    fn best_snapshot(&self) -> u64 {
        self.head_calls.set(self.head_calls.get() + 1);
        self.head.get()
    }
}

fn dispatcher(head: u64) -> (Arc<Engine>, AMM<Engine, u64>) {
    let engine = Arc::new(Engine::new(head));
    (engine.clone(), AMM::new(engine))
}

fn runtime_failure(message: &str, failure: &Failure) -> RpcError {
    RpcError { code: 1, message: message.to_string(), data: Some(format!("{:?}", failure)) }
}

#[test]
fn runtime_error_has_code_one() {
    assert_eq!(i64::from(Error::RuntimeError), 1);
    let code: i64 = Error::RuntimeError.into();
    assert_eq!(code, 1);
}

#[test]
fn each_operation_has_its_failure_message() {
    assert_eq!(Operation::SpotPrice.failure_message(), "Unable to get spot price.");
    assert_eq!(Operation::SellPrice.failure_message(), "Unable to calculate sell price.");
    assert_eq!(Operation::BuyPrice.failure_message(), "Unable to calculate buy price.");
    assert_eq!(Operation::PoolBalances.failure_message(), "Unable to retrieve pool balances.");
}

#[test]
fn translate_builds_the_runtime_failure() {
    let error = translate(&Failure::UnknownPool(3), "Unable to retrieve pool balances.");
    assert_eq!(error.code, 1);
    assert_eq!(error.message, "Unable to retrieve pool balances.");
    assert_eq!(error.data, Some("UnknownPool(3)".to_string()));
}

#[test]
fn translate_renders_the_failure_not_the_message() {
    let error = translate(&"disk full", "Unable to get spot price.");
    assert_eq!(error.data, Some("\"disk full\"".to_string()));
    assert_ne!(error.data, Some(error.message.clone()));
}

#[test]
fn wrap_outcome_hands_success_through() {
    let outcome: Result<u32, Failure> = Ok(17);
    assert_eq!(wrap_outcome(outcome, Operation::BuyPrice), Ok(17));
}

#[test]
fn wrap_outcome_translates_failure() {
    let outcome: Result<u32, Failure> = Err(Failure::UnknownPair);
    assert_eq!(
        wrap_outcome(outcome, Operation::BuyPrice),
        Err(runtime_failure("Unable to calculate buy price.", &Failure::UnknownPair))
    );
}

#[test]
fn spot_price_returns_the_engine_value() {
    let (_, amm) = dispatcher(0);
    assert_eq!(amm.get_spot_price(1, 2, 100, Some(4)), Ok(BalanceInfo { asset: 2, amount: 204 }));
}

#[test]
fn sell_price_returns_the_engine_value() {
    let (_, amm) = dispatcher(0);
    assert_eq!(amm.get_sell_price(1, 2, 100, Some(4)), Ok(BalanceInfo { asset: 2, amount: 304 }));
}

#[test]
fn buy_price_returns_the_engine_value() {
    let (_, amm) = dispatcher(0);
    assert_eq!(amm.get_buy_price(1, 2, 100, Some(4)), Ok(BalanceInfo { asset: 2, amount: 504 }));
}

#[test]
fn pool_balances_returns_the_engine_list_in_order() {
    let (_, amm) = dispatcher(0);
    assert_eq!(
        amm.get_pool_balances(1, Some(4)),
        Ok(vec![
            BalanceInfo { asset: 9, amount: 30 },
            BalanceInfo { asset: 1, amount: 10 },
            BalanceInfo { asset: 5, amount: 24 },
        ])
    );
}

#[test]
fn spot_price_failure_is_a_runtime_failure() {
    let (_, amm) = dispatcher(0);
    assert_eq!(
        amm.get_spot_price(FAILING_ASSET, 2, 100, Some(4)),
        Err(runtime_failure("Unable to get spot price.", &Failure::UnknownPair))
    );
}

#[test]
fn sell_price_failure_is_a_runtime_failure() {
    let (_, amm) = dispatcher(0);
    assert_eq!(
        amm.get_sell_price(FAILING_ASSET, 2, 100, Some(4)),
        Err(runtime_failure("Unable to calculate sell price.", &Failure::UnknownPair))
    );
}

#[test]
fn buy_price_failure_is_a_runtime_failure() {
    let (_, amm) = dispatcher(0);
    assert_eq!(
        amm.get_buy_price(FAILING_ASSET, 2, 100, Some(4)),
        Err(runtime_failure("Unable to calculate buy price.", &Failure::UnknownPair))
    );
}

#[test]
fn pool_balances_failure_is_a_runtime_failure() {
    let (_, amm) = dispatcher(0);
    assert_eq!(
        amm.get_pool_balances(FAILING_POOL, Some(4)),
        Err(runtime_failure("Unable to retrieve pool balances.", &Failure::UnknownPool(FAILING_POOL)))
    );
}

#[test]
fn omitted_snapshot_follows_the_head() {
    let (engine, amm) = dispatcher(10);
    assert_eq!(amm.get_spot_price(1, 2, 100, None), Ok(BalanceInfo { asset: 2, amount: 210 }));
    engine.head.set(11);
    assert_eq!(amm.get_spot_price(1, 2, 100, None), Ok(BalanceInfo { asset: 2, amount: 211 }));
    assert_eq!(*engine.seen.borrow(), vec![10, 11]);
    assert_eq!(engine.head_calls.get(), 2);
}

#[test]
fn omitted_snapshot_is_resolved_for_every_operation() {
    let (engine, amm) = dispatcher(21);
    assert_eq!(amm.get_sell_price(1, 2, 1, None), Ok(BalanceInfo { asset: 2, amount: 24 }));
    engine.head.set(22);
    assert_eq!(amm.get_buy_price(1, 2, 1, None), Ok(BalanceInfo { asset: 2, amount: 27 }));
    engine.head.set(23);
    let balances = amm.get_pool_balances(1, None).unwrap();
    assert_eq!(balances[2], BalanceInfo { asset: 5, amount: 43 });
    assert_eq!(*engine.seen.borrow(), vec![21, 22, 23]);
}

#[test]
fn explicit_snapshot_bypasses_the_head() {
    let (engine, amm) = dispatcher(10);
    assert_eq!(amm.get_spot_price(1, 2, 100, Some(3)), Ok(BalanceInfo { asset: 2, amount: 203 }));
    assert!(amm.get_sell_price(1, 2, 100, Some(4)).is_ok());
    assert!(amm.get_buy_price(1, 2, 100, Some(5)).is_ok());
    assert!(amm.get_pool_balances(1, Some(6)).is_ok());
    assert_eq!(*engine.seen.borrow(), vec![3, 4, 5, 6]);
    assert_eq!(engine.head_calls.get(), 0);
}

#[test]
fn resolve_keeps_a_named_snapshot() {
    let (engine, amm) = dispatcher(10);
    assert_eq!(amm.resolve(Some(99)), 99);
    assert_eq!(engine.head_calls.get(), 0);
}

#[test]
fn resolve_asks_the_head_each_time() {
    let (engine, amm) = dispatcher(10);
    assert_eq!(amm.resolve(None), 10);
    engine.head.set(12);
    assert_eq!(amm.resolve(None), 12);
    assert_eq!(engine.head_calls.get(), 2);
}

#[test]
fn empty_pool_is_an_empty_list() {
    let (_, amm) = dispatcher(0);
    assert_eq!(amm.get_pool_balances(EMPTY_POOL, Some(1)), Ok(Vec::new()));
    assert_eq!(amm.get_pool_balances(EMPTY_POOL, None), Ok(Vec::new()));
}

#[test]
fn same_assets_and_zero_amount_reach_the_engine() {
    let (engine, amm) = dispatcher(8);
    assert_eq!(amm.get_spot_price(3, 3, 0, None), Ok(BalanceInfo { asset: 3, amount: 8 }));
    assert_eq!(*engine.seen.borrow(), vec![8]);
}

/// An engine with one answer for every price query and no pool.
struct OneAnswer;

impl QueryEngine<u64, u64, u32, u128> for OneAnswer {
    type Failure = Failure;

    fn get_spot_price(&self, _: &u64, _: u32, _: u32, _: u128) -> Result<BalanceInfo<u32, u128>, Failure> {
        Ok(BalanceInfo { asset: 2, amount: 197 })
    }

    fn get_sell_price(&self, _: &u64, _: u32, _: u32, _: u128) -> Result<BalanceInfo<u32, u128>, Failure> {
        Ok(BalanceInfo { asset: 2, amount: 197 })
    }

    fn get_buy_price(&self, _: &u64, _: u32, _: u32, _: u128) -> Result<BalanceInfo<u32, u128>, Failure> {
        Ok(BalanceInfo { asset: 2, amount: 197 })
    }

    fn get_pool_balances(&self, _: &u64, _: u64) -> Result<Vec<BalanceInfo<u32, u128>>, Failure> {
        Ok(Vec::new())
    }
}

impl HeadInfo<u64> for OneAnswer {
    fn best_snapshot(&self) -> u64 {
        0
    }
}

#[test]
fn spot_price_response_on_the_wire() {
    let amm: AMM<OneAnswer, u64> = AMM::new(Arc::new(OneAnswer));
    let reply = amm.get_spot_price(1, 2, 100, None).unwrap();
    assert_eq!(encode_balance_info(&reply), "{\"asset\":2,\"amount\":\"197\"}");
}

#[test]
fn empty_pool_response_on_the_wire() {
    let amm: AMM<OneAnswer, u64> = AMM::new(Arc::new(OneAnswer));
    let reply = amm.get_pool_balances(1, None).unwrap();
    assert_eq!(encode_pool_balances(&reply), "[]");
}

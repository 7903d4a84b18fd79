//! The records this indexer stores, reads and answers with.
//!
//! Addresses (pool contracts, accounts) are held as their strkey strings.

use vstd::prelude::*;

verus! {

/// A row of the table of known pools: the strkey of a deployed pool contract.
#[derive(Clone, Debug)]
pub struct PoolsTable {
    pub address: String,
}

/// The answer to a simulation request: a transaction envelope in base64 XDR.
#[derive(Clone, Debug)]
pub struct Response {
    pub tx: String,
}

/// What the indexer reports of one pool: its configuration, read from the
/// contract instance, and its totals for the current period.
#[derive(Clone, Debug)]
pub struct PoolData {
    pub address: String,
    pub token_id: String,
    pub genesis_period: i32,
    pub periods: i32,
    pub oracle: String,
    pub symbol: String,
    pub external: bool,
    pub oracle_asset: String,
    pub volatility: i128,
    pub admin: String,
    pub multiplier: i32,
    pub tot_liquidity: i128,
    pub tot_supply: i128,
    pub refund_global: i128,
}

/// Keys of the pool contract's instance storage.
#[derive(Clone, Copy, Debug, PartialEq, Eq, Structural)]
pub enum InstanceDataKey {
    TokenId,
    GenesisPeriod,
    Periods,
    Oracle,
    Symbol,
    External,
    OracleAsset,
    Volatility,
    Admin,
    Multiplier,
}

/// A holder's entry for one period; `address` is the holder's strkey.
#[derive(Clone, Debug)]
pub struct BalanceObject {
    pub address: String,
    pub period: i32,
}

/// Keys of the pool contract's persistent storage.
#[derive(Clone, Debug)]
pub enum PersistentDataKey {
    Balance(BalanceObject),
    Principal(BalanceObject),
    TotLiquidity(i32),
    TotSupply(i32),
    FeePerShareUniversal(i32),
    FeePerShareParticular(BalanceObject),
    MaturedFeesParticular(BalanceObject),
    RefundParticular(BalanceObject),
    RefundGlobal(i32),
}

/// Simulate a deposit of `amount` into pool `contract` by account `from`.
#[derive(Clone, Debug)]
pub struct SimulateDeposit {
    pub contract: String,
    pub from: String,
    pub amount: i64,
}

/// Simulate the update of `from`'s fee rewards for `period`.
#[derive(Clone, Debug)]
pub struct SimulateUpdateFeeRewards {
    pub contract: String,
    pub from: String,
    pub period: i32,
}

/// Simulate the withdrawal of `from`'s matured fees for `period`.
#[derive(Clone, Debug)]
pub struct SimulateWithdrawMatured {
    pub contract: String,
    pub from: String,
    pub period: i32,
}

/// Simulate the withdrawal of `from`'s position in `period`.
#[derive(Clone, Debug)]
pub struct SimulateWithdraw {
    pub contract: String,
    pub from: String,
    pub period: i32,
}

/// Simulate a subscription of `amount` by `from`.
#[derive(Clone, Debug)]
pub struct SimulateSubscribe {
    pub contract: String,
    pub from: String,
    pub amount: i128,
}

/// Simulate a reward claim by `from`.
#[derive(Clone, Debug)]
pub struct SimulateClaimReward {
    pub contract: String,
    pub from: String,
}

/// A request to simulate one pool contract call.
#[derive(Clone, Debug)]
pub enum SimulationRequest {
    Deposit(SimulateDeposit),
    UpdateFeeRewards(SimulateUpdateFeeRewards),
    WithdrawMatured(SimulateWithdrawMatured),
    Withdraw(SimulateWithdraw),
    Subscribe(SimulateSubscribe),
    ClaimReward(SimulateClaimReward),
}

} // verus!

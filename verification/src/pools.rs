//! Reading a pool: its configuration from the contract instance storage and
//! its totals for the current period from the persistent storage.

use vstd::prelude::*;

use crate::maths::{actual_period, period_at};
use crate::strkey::{contract_strkey_payload, decode_contract_strkey};
use crate::types::{InstanceDataKey, PersistentDataKey, PoolData};

verus! {

/// A value of the instance storage, in the shapes the pool configuration uses.
#[derive(Clone, Debug)]
pub enum InstanceValue {
    Str(String),
    I32(i32),
    Bool(bool),
    I128(i128),
    Other,
}

/// One entry of a contract's instance storage: its key, where it is one of
/// the pool's instance keys, and its value.
#[derive(Clone, Debug)]
pub struct InstanceEntry {
    pub key: Option<InstanceDataKey>,
    pub value: InstanceValue,
}

/// One entry of a contract's persistent storage: its key, where it is one of
/// the pool's persistent keys, and its value where that is an `i128`.
#[derive(Clone, Debug)]
pub struct PersistentEntry {
    pub key: Option<PersistentDataKey>,
    pub amount: Option<i128>,
}

/// The configuration a pool keeps in its instance storage.
#[derive(Clone, Debug)]
pub struct PoolConfig {
    pub token_id: String,
    pub genesis_period: i32,
    pub periods: i32,
    pub oracle: String,
    pub symbol: String,
    pub external: bool,
    pub oracle_asset: String,
    pub volatility: i128,
    pub admin: String,
    pub multiplier: i32,
}

/// A pool's totals for one period.
#[derive(Clone, Copy, Debug, PartialEq, Eq)]
pub struct PeriodTotals {
    pub tot_liquidity: i128,
    pub tot_supply: i128,
    pub refund_global: i128,
}

/// Which of the period totals a persistent entry sets.
#[derive(Clone, Copy, Debug, PartialEq, Eq, Structural)]
pub enum TotalKind {
    Liquidity,
    Supply,
    Refund,
}

/// Why a pool could not be read.
#[derive(Clone, Copy, Debug, PartialEq, Eq, Structural)]
pub enum PoolError {
    /// The pool's address is not a contract strkey.
    InvalidPoolAddress,
    /// The instance storage has no entry for this key.
    MissingInstanceKey(InstanceDataKey),
    /// The instance storage holds a value of the wrong type for this key.
    UnexpectedInstanceValue(InstanceDataKey),
    /// The pool's periods have length zero.
    ZeroPeriodLength,
    /// A total of the current period does not hold an `i128`.
    UnreadableTotal,
}

/// The kinds of value the instance storage can hold.
#[derive(Clone, Copy, Debug, PartialEq, Eq, Structural)]
pub enum ValueKind {
    Str,
    I32,
    Bool,
    I128,
    Other,
}

/// The kind of an instance value.
pub open spec fn kind_of(v: InstanceValue) -> ValueKind {
    match v {
        InstanceValue::Str(_) => ValueKind::Str,
        InstanceValue::I32(_) => ValueKind::I32,
        InstanceValue::Bool(_) => ValueKind::Bool,
        InstanceValue::I128(_) => ValueKind::I128,
        InstanceValue::Other => ValueKind::Other,
    }
}

/// The kind of value a pool keeps under each instance key.
pub open spec fn expected_kind(key: InstanceDataKey) -> ValueKind {
    match key {
        InstanceDataKey::TokenId => ValueKind::Str,
        InstanceDataKey::GenesisPeriod => ValueKind::I32,
        InstanceDataKey::Periods => ValueKind::I32,
        InstanceDataKey::Oracle => ValueKind::Str,
        InstanceDataKey::Symbol => ValueKind::Str,
        InstanceDataKey::External => ValueKind::Bool,
        InstanceDataKey::OracleAsset => ValueKind::Str,
        InstanceDataKey::Volatility => ValueKind::I128,
        InstanceDataKey::Admin => ValueKind::Str,
        InstanceDataKey::Multiplier => ValueKind::I32,
    }
}

/// The value of the first entry of `storage` under `key`.
pub open spec fn instance_lookup(storage: Seq<InstanceEntry>, key: InstanceDataKey) -> Option<InstanceValue>
    decreases storage.len(),
{
    if storage.len() == 0 {
        None
    } else if storage[0].key == Some(key) {
        Some(storage[0].value)
    } else {
        instance_lookup(storage.drop_first(), key)
    }
}

/// The first of the pool's keys, in the order the pool reads them, that
/// `storage` lacks.
pub open spec fn first_missing_key(s: Seq<InstanceEntry>) -> Option<InstanceDataKey> {
    if instance_lookup(s, InstanceDataKey::TokenId) is None {
        Some(InstanceDataKey::TokenId)
    } else if instance_lookup(s, InstanceDataKey::GenesisPeriod) is None {
        Some(InstanceDataKey::GenesisPeriod)
    } else if instance_lookup(s, InstanceDataKey::Periods) is None {
        Some(InstanceDataKey::Periods)
    } else if instance_lookup(s, InstanceDataKey::Oracle) is None {
        Some(InstanceDataKey::Oracle)
    } else if instance_lookup(s, InstanceDataKey::Symbol) is None {
        Some(InstanceDataKey::Symbol)
    } else if instance_lookup(s, InstanceDataKey::External) is None {
        Some(InstanceDataKey::External)
    } else if instance_lookup(s, InstanceDataKey::OracleAsset) is None {
        Some(InstanceDataKey::OracleAsset)
    } else if instance_lookup(s, InstanceDataKey::Volatility) is None {
        Some(InstanceDataKey::Volatility)
    } else if instance_lookup(s, InstanceDataKey::Admin) is None {
        Some(InstanceDataKey::Admin)
    } else if instance_lookup(s, InstanceDataKey::Multiplier) is None {
        Some(InstanceDataKey::Multiplier)
    } else {
        None
    }
}

/// Whether the value under `key` has the kind the pool keeps there.
pub open spec fn well_typed(s: Seq<InstanceEntry>, key: InstanceDataKey) -> bool {
    kind_of(instance_lookup(s, key).unwrap()) == expected_kind(key)
}

/// The first of the pool's keys, in the order the pool converts them, whose
/// value has the wrong kind.
pub open spec fn first_mistyped_key(s: Seq<InstanceEntry>) -> Option<InstanceDataKey> {
    if !well_typed(s, InstanceDataKey::TokenId) {
        Some(InstanceDataKey::TokenId)
    } else if !well_typed(s, InstanceDataKey::GenesisPeriod) {
        Some(InstanceDataKey::GenesisPeriod)
    } else if !well_typed(s, InstanceDataKey::Periods) {
        Some(InstanceDataKey::Periods)
    } else if !well_typed(s, InstanceDataKey::Oracle) {
        Some(InstanceDataKey::Oracle)
    } else if !well_typed(s, InstanceDataKey::Symbol) {
        Some(InstanceDataKey::Symbol)
    } else if !well_typed(s, InstanceDataKey::External) {
        Some(InstanceDataKey::External)
    } else if !well_typed(s, InstanceDataKey::OracleAsset) {
        Some(InstanceDataKey::OracleAsset)
    } else if !well_typed(s, InstanceDataKey::Volatility) {
        Some(InstanceDataKey::Volatility)
    } else if !well_typed(s, InstanceDataKey::Admin) {
        Some(InstanceDataKey::Admin)
    } else if !well_typed(s, InstanceDataKey::Multiplier) {
        Some(InstanceDataKey::Multiplier)
    } else {
        None
    }
}

/// The string held under `key`.
pub open spec fn str_under(s: Seq<InstanceEntry>, key: InstanceDataKey) -> String {
    instance_lookup(s, key).unwrap()->Str_0
}

/// The `i32` held under `key`.
pub open spec fn i32_under(s: Seq<InstanceEntry>, key: InstanceDataKey) -> i32 {
    instance_lookup(s, key).unwrap()->I32_0
}

/// The configuration a pool's instance storage describes: an error for the
/// first missing key, else for the first wrongly typed value, else the values.
pub open spec fn pool_config_of(s: Seq<InstanceEntry>) -> Result<PoolConfig, PoolError> {
    if first_missing_key(s) is Some {
        Err(PoolError::MissingInstanceKey(first_missing_key(s).unwrap()))
    } else if first_mistyped_key(s) is Some {
        Err(PoolError::UnexpectedInstanceValue(first_mistyped_key(s).unwrap()))
    } else {
        Ok(PoolConfig {
            token_id: str_under(s, InstanceDataKey::TokenId),
            genesis_period: i32_under(s, InstanceDataKey::GenesisPeriod),
            periods: i32_under(s, InstanceDataKey::Periods),
            oracle: str_under(s, InstanceDataKey::Oracle),
            symbol: str_under(s, InstanceDataKey::Symbol),
            external: instance_lookup(s, InstanceDataKey::External).unwrap()->Bool_0,
            oracle_asset: str_under(s, InstanceDataKey::OracleAsset),
            volatility: instance_lookup(s, InstanceDataKey::Volatility).unwrap()->I128_0,
            admin: str_under(s, InstanceDataKey::Admin),
            multiplier: i32_under(s, InstanceDataKey::Multiplier),
        })
    }
}

/// Finds the first entry of `storage` under `key`.
pub fn find_instance_entry(storage: &Vec<InstanceEntry>, key: InstanceDataKey) -> (r: Option<usize>)
    ensures
        r is None <==> instance_lookup(storage@, key) is None,
        r matches Some(i) ==> i < storage@.len() && storage@[i as int].key == Some(key)
            && instance_lookup(storage@, key) == Some(storage@[i as int].value),
{
    let mut i: usize = 0;
    assert(storage@.skip(0) =~= storage@);
    while i < storage.len()
        invariant
            i <= storage@.len(),
            instance_lookup(storage@.skip(i as int), key) == instance_lookup(storage@, key),
        decreases storage@.len() - i,
    {
        assert(storage@.skip(i as int).drop_first() =~= storage@.skip(i + 1));
        assert(storage@.skip(i as int)[0] == storage@[i as int]);
        let matches: bool = match storage[i].key {
            Some(k) => k == key,
            None => false,
        };
        if matches {
            return Some(i);
        }
        i = i + 1;
    }
    assert(storage@.skip(i as int).len() == 0);
    None
}

/// Reads the entry at index `i` as a value of kind `Str` stored under `key`.
fn string_at(storage: &Vec<InstanceEntry>, i: usize, key: InstanceDataKey) -> (r: Result<String, PoolError>)
    requires
        i < storage@.len(),
    ensures
        match r {
            Ok(v) => storage@[i as int].value == InstanceValue::Str(v),
            Err(e) => kind_of(storage@[i as int].value) != ValueKind::Str
                && e == PoolError::UnexpectedInstanceValue(key),
        },
{
    match &storage[i].value {
        InstanceValue::Str(v) => Ok(v.clone()),
        _ => Err(PoolError::UnexpectedInstanceValue(key)),
    }
}

/// Reads the entry at index `i` as a value of kind `I32` stored under `key`.
fn i32_at(storage: &Vec<InstanceEntry>, i: usize, key: InstanceDataKey) -> (r: Result<i32, PoolError>)
    requires
        i < storage@.len(),
    ensures
        match r {
            Ok(v) => storage@[i as int].value == InstanceValue::I32(v),
            Err(e) => kind_of(storage@[i as int].value) != ValueKind::I32
                && e == PoolError::UnexpectedInstanceValue(key),
        },
{
    match &storage[i].value {
        InstanceValue::I32(v) => Ok(*v),
        _ => Err(PoolError::UnexpectedInstanceValue(key)),
    }
}

/// Reads the entry at index `i` as a value of kind `Bool` stored under `key`.
fn bool_at(storage: &Vec<InstanceEntry>, i: usize, key: InstanceDataKey) -> (r: Result<bool, PoolError>)
    requires
        i < storage@.len(),
    ensures
        match r {
            Ok(v) => storage@[i as int].value == InstanceValue::Bool(v),
            Err(e) => kind_of(storage@[i as int].value) != ValueKind::Bool
                && e == PoolError::UnexpectedInstanceValue(key),
        },
{
    match &storage[i].value {
        InstanceValue::Bool(v) => Ok(*v),
        _ => Err(PoolError::UnexpectedInstanceValue(key)),
    }
}

/// Reads the entry at index `i` as a value of kind `I128` stored under `key`.
fn i128_at(storage: &Vec<InstanceEntry>, i: usize, key: InstanceDataKey) -> (r: Result<i128, PoolError>)
    requires
        i < storage@.len(),
    ensures
        match r {
            Ok(v) => storage@[i as int].value == InstanceValue::I128(v),
            Err(e) => kind_of(storage@[i as int].value) != ValueKind::I128
                && e == PoolError::UnexpectedInstanceValue(key),
        },
{
    match &storage[i].value {
        InstanceValue::I128(v) => Ok(*v),
        _ => Err(PoolError::UnexpectedInstanceValue(key)),
    }
}

/// Reads a pool's configuration from its instance storage, taking for each
/// key the first entry under it: fails on the first key that is missing, then
/// on the first value of the wrong type, in the order the pool lists them.
pub fn pool_config(storage: &Vec<InstanceEntry>) -> (r: Result<PoolConfig, PoolError>)
    ensures
        r == pool_config_of(storage@),
{
    let i_token: usize = match find_instance_entry(storage, InstanceDataKey::TokenId) {
        Some(i) => i,
        None => return Err(PoolError::MissingInstanceKey(InstanceDataKey::TokenId)),
    };
    let i_genesis: usize = match find_instance_entry(storage, InstanceDataKey::GenesisPeriod) {
        Some(i) => i,
        None => return Err(PoolError::MissingInstanceKey(InstanceDataKey::GenesisPeriod)),
    };
    let i_periods: usize = match find_instance_entry(storage, InstanceDataKey::Periods) {
        Some(i) => i,
        None => return Err(PoolError::MissingInstanceKey(InstanceDataKey::Periods)),
    };
    let i_oracle: usize = match find_instance_entry(storage, InstanceDataKey::Oracle) {
        Some(i) => i,
        None => return Err(PoolError::MissingInstanceKey(InstanceDataKey::Oracle)),
    };
    let i_symbol: usize = match find_instance_entry(storage, InstanceDataKey::Symbol) {
        Some(i) => i,
        None => return Err(PoolError::MissingInstanceKey(InstanceDataKey::Symbol)),
    };
    let i_external: usize = match find_instance_entry(storage, InstanceDataKey::External) {
        Some(i) => i,
        None => return Err(PoolError::MissingInstanceKey(InstanceDataKey::External)),
    };
    let i_oracle_asset: usize = match find_instance_entry(storage, InstanceDataKey::OracleAsset) {
        Some(i) => i,
        None => return Err(PoolError::MissingInstanceKey(InstanceDataKey::OracleAsset)),
    };
    let i_volatility: usize = match find_instance_entry(storage, InstanceDataKey::Volatility) {
        Some(i) => i,
        None => return Err(PoolError::MissingInstanceKey(InstanceDataKey::Volatility)),
    };
    let i_admin: usize = match find_instance_entry(storage, InstanceDataKey::Admin) {
        Some(i) => i,
        None => return Err(PoolError::MissingInstanceKey(InstanceDataKey::Admin)),
    };
    let i_multiplier: usize = match find_instance_entry(storage, InstanceDataKey::Multiplier) {
        Some(i) => i,
        None => return Err(PoolError::MissingInstanceKey(InstanceDataKey::Multiplier)),
    };
    let token_id = string_at(storage, i_token, InstanceDataKey::TokenId)?;
    let genesis_period = i32_at(storage, i_genesis, InstanceDataKey::GenesisPeriod)?;
    let periods = i32_at(storage, i_periods, InstanceDataKey::Periods)?;
    let oracle = string_at(storage, i_oracle, InstanceDataKey::Oracle)?;
    let symbol = string_at(storage, i_symbol, InstanceDataKey::Symbol)?;
    let external = bool_at(storage, i_external, InstanceDataKey::External)?;
    let oracle_asset = string_at(storage, i_oracle_asset, InstanceDataKey::OracleAsset)?;
    let volatility = i128_at(storage, i_volatility, InstanceDataKey::Volatility)?;
    let admin = string_at(storage, i_admin, InstanceDataKey::Admin)?;
    let multiplier = i32_at(storage, i_multiplier, InstanceDataKey::Multiplier)?;
    Ok(PoolConfig {
        token_id,
        genesis_period,
        periods,
        oracle,
        symbol,
        external,
        oracle_asset,
        volatility,
        admin,
        multiplier,
    })
}

/// Which total of `period` an entry under `key` sets, if any.
pub open spec fn total_slot(key: Option<PersistentDataKey>, period: i32) -> Option<TotalKind> {
    match key {
        Some(PersistentDataKey::TotLiquidity(p)) => if p == period { Some(TotalKind::Liquidity) } else { None },
        Some(PersistentDataKey::TotSupply(p)) => if p == period { Some(TotalKind::Supply) } else { None },
        Some(PersistentDataKey::RefundGlobal(p)) => if p == period { Some(TotalKind::Refund) } else { None },
        _ => None,
    }
}

/// `totals` with the total of kind `kind` set to `amount`.
pub open spec fn set_total(totals: PeriodTotals, kind: TotalKind, amount: i128) -> PeriodTotals {
    match kind {
        TotalKind::Liquidity => PeriodTotals { tot_liquidity: amount, ..totals },
        TotalKind::Supply => PeriodTotals { tot_supply: amount, ..totals },
        TotalKind::Refund => PeriodTotals { refund_global: amount, ..totals },
    }
}

/// Totals that no entry has set yet.
pub open spec fn zero_totals() -> PeriodTotals {
    PeriodTotals { tot_liquidity: 0, tot_supply: 0, refund_global: 0 }
}

/// The totals of `period` after reading `entries` in order: each entry that
/// holds a total of `period` overwrites that total, the others leave them be;
/// an unreadable total of `period` is an error.
pub open spec fn period_totals_of(entries: Seq<PersistentEntry>, period: i32) -> Result<PeriodTotals, PoolError>
    decreases entries.len(),
{
    if entries.len() == 0 {
        Ok(zero_totals())
    } else {
        match period_totals_of(entries.drop_last(), period) {
            Err(e) => Err(e),
            Ok(t) => match total_slot(entries.last().key, period) {
                None => Ok(t),
                Some(kind) => match entries.last().amount {
                    Some(amount) => Ok(set_total(t, kind, amount)),
                    None => Err(PoolError::UnreadableTotal),
                },
            },
        }
    }
}

/// Which total of `period` an entry under `key` sets, if any.
pub fn total_slot_of(key: &Option<PersistentDataKey>, period: i32) -> (r: Option<TotalKind>)
    ensures
        r == total_slot(*key, period),
{
    match key {
        Some(PersistentDataKey::TotLiquidity(p)) => if *p == period { Some(TotalKind::Liquidity) } else { None },
        Some(PersistentDataKey::TotSupply(p)) => if *p == period { Some(TotalKind::Supply) } else { None },
        Some(PersistentDataKey::RefundGlobal(p)) => if *p == period { Some(TotalKind::Refund) } else { None },
        _ => None,
    }
}

/// An error reading a prefix of the entries is the error of reading them all.
proof fn lemma_prefix_error_persists(s: Seq<PersistentEntry>, k: int, period: i32)
    requires
        0 <= k <= s.len(),
        period_totals_of(s.take(k), period) is Err,
    ensures
        period_totals_of(s, period) == period_totals_of(s.take(k), period),
    decreases s.len(),
{
    if k == s.len() {
        assert(s.take(k) =~= s);
    } else {
        assert(s.drop_last().take(k) =~= s.take(k));
        lemma_prefix_error_persists(s.drop_last(), k, period);
    }
}

/// Reads a pool's totals for `period` from its persistent storage entries,
/// in order: the last entry for each total of `period` wins, totals that no
/// entry sets are zero, entries of other periods or keys are skipped.
pub fn period_totals(entries: &Vec<PersistentEntry>, period: i32) -> (r: Result<PeriodTotals, PoolError>)
    ensures
        r == period_totals_of(entries@, period),
{
    let mut totals = PeriodTotals { tot_liquidity: 0, tot_supply: 0, refund_global: 0 };
    let mut i: usize = 0;
    assert(entries@.take(0) =~= Seq::<PersistentEntry>::empty());
    while i < entries.len()
        invariant
            i <= entries@.len(),
            period_totals_of(entries@.take(i as int), period) == Ok::<PeriodTotals, PoolError>(totals),
        decreases entries@.len() - i,
    {
        assert(entries@.take(i + 1).drop_last() =~= entries@.take(i as int));
        assert(entries@.take(i + 1).last() == entries@[i as int]);
        match total_slot_of(&entries[i].key, period) {
            None => {},
            Some(kind) => match entries[i].amount {
                None => {
                    proof {
                        lemma_prefix_error_persists(entries@, i + 1, period);
                    }
                    return Err(PoolError::UnreadableTotal);
                },
                Some(amount) => {
                    totals = match kind {
                        TotalKind::Liquidity => PeriodTotals { tot_liquidity: amount, ..totals },
                        TotalKind::Supply => PeriodTotals { tot_supply: amount, ..totals },
                        TotalKind::Refund => PeriodTotals { refund_global: amount, ..totals },
                    };
                },
            },
        }
        i = i + 1;
    }
    assert(entries@.take(entries@.len() as int) =~= entries@);
    Ok(totals)
}

/// The record of pool `address` with configuration `config` and totals `totals`.
pub open spec fn pool_data_spec(address: String, config: PoolConfig, totals: PeriodTotals) -> PoolData {
    PoolData {
        address: address,
        token_id: config.token_id,
        genesis_period: config.genesis_period,
        periods: config.periods,
        oracle: config.oracle,
        symbol: config.symbol,
        external: config.external,
        oracle_asset: config.oracle_asset,
        volatility: config.volatility,
        admin: config.admin,
        multiplier: config.multiplier,
        tot_liquidity: totals.tot_liquidity,
        tot_supply: totals.tot_supply,
        refund_global: totals.refund_global,
    }
}

/// The period a pool with configuration `config` is in at ledger `current_ledger`.
pub open spec fn pool_period_of(current_ledger: u32, config: PoolConfig) -> Result<i32, PoolError> {
    if config.periods == 0 {
        Err(PoolError::ZeroPeriodLength)
    } else {
        Ok(period_at(current_ledger as int, config.genesis_period as int, config.periods as int))
    }
}

/// What the indexer reports of pool `address` at ledger `current_ledger`, given
/// its instance storage and its persistent storage entries.
pub open spec fn pool_data_of(
    address: String,
    storage: Seq<InstanceEntry>,
    entries: Seq<PersistentEntry>,
    current_ledger: u32,
) -> Result<PoolData, PoolError> {
    match pool_config_of(storage) {
        Err(e) => Err(e),
        Ok(config) => match pool_period_of(current_ledger, config) {
            Err(e) => Err(e),
            Ok(period) => match period_totals_of(entries, period) {
                Err(e) => Err(e),
                Ok(totals) => Ok(pool_data_spec(address, config, totals)),
            },
        },
    }
}

/// Decodes the contract id of the pool at `address`, a contract strkey.
pub fn pool_contract_id(address: &str) -> (id: [u8; 32])
    requires
        contract_strkey_payload(address@) is Some,
    ensures
        id@ == contract_strkey_payload(address@).unwrap(),
{
    decode_contract_strkey(address).unwrap()
}

/// Decodes the contract id of the pool at strkey `address`, or says that
/// `address` is not a contract strkey.
pub fn try_pool_contract_id(address: &str) -> (r: Result<[u8; 32], PoolError>)
    ensures
        r is Ok <==> contract_strkey_payload(address@) is Some,
        r matches Ok(id) ==> id@ == contract_strkey_payload(address@).unwrap(),
        r matches Err(e) ==> e == PoolError::InvalidPoolAddress,
{
    if decode_contract_strkey(address).is_none() {
        return Err(PoolError::InvalidPoolAddress);
    }
    Ok(pool_contract_id(address))
}

/// The period a pool with configuration `config` is in at ledger `current_ledger`.
pub fn pool_period(current_ledger: u32, config: &PoolConfig) -> (r: Result<i32, PoolError>)
    ensures
        r == pool_period_of(current_ledger, *config),
{
    if config.periods == 0 {
        Err(PoolError::ZeroPeriodLength)
    } else {
        Ok(actual_period(current_ledger, config.genesis_period, config.periods))
    }
}

/// The record of pool `address` with configuration `config` and totals `totals`.
pub fn pool_data(address: String, config: PoolConfig, totals: PeriodTotals) -> (r: PoolData)
    ensures
        r == pool_data_spec(address, config, totals),
{
    PoolData {
        address,
        token_id: config.token_id,
        genesis_period: config.genesis_period,
        periods: config.periods,
        oracle: config.oracle,
        symbol: config.symbol,
        external: config.external,
        oracle_asset: config.oracle_asset,
        volatility: config.volatility,
        admin: config.admin,
        multiplier: config.multiplier,
        tot_liquidity: totals.tot_liquidity,
        tot_supply: totals.tot_supply,
        refund_global: totals.refund_global,
    }
}

/// Reads what the indexer reports of pool `address` at ledger
/// `current_ledger`: its configuration from `storage`, its current period,
/// and its totals for that period from `entries`; or says why it cannot.
pub fn try_read_pool(
    address: String,
    storage: &Vec<InstanceEntry>,
    entries: &Vec<PersistentEntry>,
    current_ledger: u32,
) -> (r: Result<PoolData, PoolError>)
    ensures
        r == pool_data_of(address, storage@, entries@, current_ledger),
{
    let config = pool_config(storage)?;
    let period = pool_period(current_ledger, &config)?;
    let totals = period_totals(entries, period)?;
    Ok(pool_data(address, config, totals))
}

/// Reads what the indexer reports of pool `address` at ledger
/// `current_ledger`, for storage that holds every configuration value with
/// its type, a non-zero period length, and readable totals for the period.
pub fn read_pool(
    address: String,
    storage: &Vec<InstanceEntry>,
    entries: &Vec<PersistentEntry>,
    current_ledger: u32,
) -> (r: PoolData)
    requires
        pool_data_of(address, storage@, entries@, current_ledger) is Ok,
    ensures
        pool_data_of(address, storage@, entries@, current_ledger) == Ok::<PoolData, PoolError>(r),
{
    match try_read_pool(address, storage, entries, current_ledger) {
        Ok(data) => data,
        Err(_) => vstd::pervasive::unreached(),
    }
}

/// Entries that hold no total of `period` (other keys, or totals of other
/// periods) leave the totals of `period` as they were.
pub proof fn law_other_entries_leave_totals(entries: Seq<PersistentEntry>, e: PersistentEntry, period: i32)
    requires
        total_slot(e.key, period) is None,
    ensures
        period_totals_of(entries.push(e), period) == period_totals_of(entries, period),
{
    assert(entries.push(e).drop_last() =~= entries);
}

/// An entry that holds a total of `period` sets that total to its amount and
/// leaves the other two: the last entry for a total wins.
pub proof fn law_last_entry_wins(entries: Seq<PersistentEntry>, e: PersistentEntry, period: i32)
    requires
        total_slot(e.key, period) is Some,
        e.amount is Some,
        period_totals_of(entries, period) is Ok,
    ensures
        period_totals_of(entries.push(e), period) == Ok::<PeriodTotals, PoolError>(set_total(
            period_totals_of(entries, period).unwrap(),
            total_slot(e.key, period).unwrap(),
            e.amount.unwrap(),
        )),
{
    assert(entries.push(e).drop_last() =~= entries);
}

/// A later entry under a key never shadows the first one.
pub proof fn law_first_instance_entry_wins(storage: Seq<InstanceEntry>, e: InstanceEntry, key: InstanceDataKey)
    requires
        instance_lookup(storage, key) is Some,
    ensures
        instance_lookup(storage.push(e), key) == instance_lookup(storage, key),
    decreases storage.len(),
{
    assert(storage.len() > 0);
    assert(storage.push(e)[0] == storage[0]);
    if storage[0].key != Some(key) {
        assert(storage.push(e).drop_first() =~= storage.drop_first().push(e));
        law_first_instance_entry_wins(storage.drop_first(), e, key);
    }
}

/// Whether an entry holds a total of `period`.
pub open spec fn holds_period_total(period: i32) -> spec_fn(PersistentEntry) -> bool {
    |e: PersistentEntry| total_slot(e.key, period) is Some
}

/// Only the entries that hold a total of `period` count, wherever the others
/// stand: dropping all other entries leaves the totals of `period` as they are.
pub proof fn law_only_period_totals_count(entries: Seq<PersistentEntry>, period: i32)
    ensures
        period_totals_of(entries, period) == period_totals_of(entries.filter(holds_period_total(period)), period),
    decreases entries.len(),
{
    reveal_with_fuel(Seq::<PersistentEntry>::filter, 1);
    if entries.len() > 0 {
        let rest = entries.drop_last();
        law_only_period_totals_count(rest, period);
        let kept = rest.filter(holds_period_total(period));
        if holds_period_total(period)(entries.last()) {
            assert(kept.push(entries.last()).drop_last() =~= kept);
        }
    }
}

/// The value under a key is the value of the first entry of the storage under
/// that key, and there is a value exactly when some entry has that key.
pub proof fn law_lookup_is_first_entry(storage: Seq<InstanceEntry>, key: InstanceDataKey)
    ensures
        instance_lookup(storage, key) is Some <==> exists|i: int| 0 <= i < storage.len() && #[trigger] storage[i].key == Some(key),
        instance_lookup(storage, key) matches Some(v) ==> exists|i: int| {
            &&& 0 <= i < storage.len()
            &&& #[trigger] storage[i].key == Some(key)
            &&& storage[i].value == v
            &&& forall|j: int| 0 <= j < i ==> storage[j].key != Some(key)
        },
    decreases storage.len(),
{
    if storage.len() > 0 {
        let rest = storage.drop_first();
        law_lookup_is_first_entry(rest, key);
        assert forall|i: int| 0 <= i < rest.len() implies rest[i] == storage[i + 1] by {}
        if storage[0].key != Some(key) {
            if instance_lookup(rest, key) is Some {
                let i = choose|i: int| {
                    &&& 0 <= i < rest.len()
                    &&& #[trigger] rest[i].key == Some(key)
                    &&& rest[i].value == instance_lookup(rest, key).unwrap()
                    &&& forall|j: int| 0 <= j < i ==> rest[j].key != Some(key)
                };
                assert(storage[i + 1].key == Some(key));
                assert forall|j: int| 0 <= j < i + 1 implies storage[j].key != Some(key) by {
                    if j > 0 {
                        assert(storage[j] == rest[j - 1]);
                    }
                }
            } else {
                assert forall|i: int| 0 <= i < storage.len() implies #[trigger] storage[i].key != Some(key) by {
                    if i > 0 {
                        assert(storage[i] == rest[i - 1]);
                    }
                }
            }
        } else {
            assert(storage[0].key == Some(key));
        }
    }
}

/// A configuration read from storage holds, in each field, the value stored
/// under that field's own key.
pub proof fn law_config_holds_stored_values(s: Seq<InstanceEntry>)
    requires
        pool_config_of(s) is Ok,
    ensures
        ({
            let c = pool_config_of(s)->Ok_0;
            &&& instance_lookup(s, InstanceDataKey::TokenId) == Some(InstanceValue::Str(c.token_id))
            &&& instance_lookup(s, InstanceDataKey::GenesisPeriod) == Some(InstanceValue::I32(c.genesis_period))
            &&& instance_lookup(s, InstanceDataKey::Periods) == Some(InstanceValue::I32(c.periods))
            &&& instance_lookup(s, InstanceDataKey::Oracle) == Some(InstanceValue::Str(c.oracle))
            &&& instance_lookup(s, InstanceDataKey::Symbol) == Some(InstanceValue::Str(c.symbol))
            &&& instance_lookup(s, InstanceDataKey::External) == Some(InstanceValue::Bool(c.external))
            &&& instance_lookup(s, InstanceDataKey::OracleAsset) == Some(InstanceValue::Str(c.oracle_asset))
            &&& instance_lookup(s, InstanceDataKey::Volatility) == Some(InstanceValue::I128(c.volatility))
            &&& instance_lookup(s, InstanceDataKey::Admin) == Some(InstanceValue::Str(c.admin))
            &&& instance_lookup(s, InstanceDataKey::Multiplier) == Some(InstanceValue::I32(c.multiplier))
        }),
{
}

/// Storage that holds a value of the right type under each of the pool's keys
/// always yields a configuration.
pub proof fn law_well_formed_storage_is_read(s: Seq<InstanceEntry>)
    requires
        instance_lookup(s, InstanceDataKey::TokenId) matches Some(InstanceValue::Str(_)),
        instance_lookup(s, InstanceDataKey::GenesisPeriod) matches Some(InstanceValue::I32(_)),
        instance_lookup(s, InstanceDataKey::Periods) matches Some(InstanceValue::I32(_)),
        instance_lookup(s, InstanceDataKey::Oracle) matches Some(InstanceValue::Str(_)),
        instance_lookup(s, InstanceDataKey::Symbol) matches Some(InstanceValue::Str(_)),
        instance_lookup(s, InstanceDataKey::External) matches Some(InstanceValue::Bool(_)),
        instance_lookup(s, InstanceDataKey::OracleAsset) matches Some(InstanceValue::Str(_)),
        instance_lookup(s, InstanceDataKey::Volatility) matches Some(InstanceValue::I128(_)),
        instance_lookup(s, InstanceDataKey::Admin) matches Some(InstanceValue::Str(_)),
        instance_lookup(s, InstanceDataKey::Multiplier) matches Some(InstanceValue::I32(_)),
    ensures
        pool_config_of(s) is Ok,
{
}

/// The amount stored as a total of the period is reported as it is: after
/// readable totals, an entry setting the liquidity, the supply or the refund
/// total of `period` to `a` makes that total `a` and leaves the other two.
pub proof fn law_stored_totals_reported_unchanged(entries: Seq<PersistentEntry>, period: i32, a: i128)
    requires
        period_totals_of(entries, period) is Ok,
    ensures
        ({
            let t = period_totals_of(entries, period)->Ok_0;
            &&& period_totals_of(
                entries.push(PersistentEntry { key: Some(PersistentDataKey::TotLiquidity(period)), amount: Some(a) }),
                period,
            ) == Ok::<PeriodTotals, PoolError>(PeriodTotals { tot_liquidity: a, tot_supply: t.tot_supply, refund_global: t.refund_global })
            &&& period_totals_of(
                entries.push(PersistentEntry { key: Some(PersistentDataKey::TotSupply(period)), amount: Some(a) }),
                period,
            ) == Ok::<PeriodTotals, PoolError>(PeriodTotals { tot_liquidity: t.tot_liquidity, tot_supply: a, refund_global: t.refund_global })
            &&& period_totals_of(
                entries.push(PersistentEntry { key: Some(PersistentDataKey::RefundGlobal(period)), amount: Some(a) }),
                period,
            ) == Ok::<PeriodTotals, PoolError>(PeriodTotals { tot_liquidity: t.tot_liquidity, tot_supply: t.tot_supply, refund_global: a })
        }),
{
    let e1 = PersistentEntry { key: Some(PersistentDataKey::TotLiquidity(period)), amount: Some(a) };
    let e2 = PersistentEntry { key: Some(PersistentDataKey::TotSupply(period)), amount: Some(a) };
    let e3 = PersistentEntry { key: Some(PersistentDataKey::RefundGlobal(period)), amount: Some(a) };
    assert(entries.push(e1).drop_last() =~= entries);
    assert(entries.push(e2).drop_last() =~= entries);
    assert(entries.push(e3).drop_last() =~= entries);
}

/// A storage whose only entries of `period` are single liquidity, supply and
/// refund totals reports exactly those amounts.
pub proof fn law_single_totals_reported(period: i32, liquidity: i128, supply: i128, refund: i128)
    ensures
        period_totals_of(
            seq![
                PersistentEntry { key: Some(PersistentDataKey::TotLiquidity(period)), amount: Some(liquidity) },
                PersistentEntry { key: Some(PersistentDataKey::TotSupply(period)), amount: Some(supply) },
                PersistentEntry { key: Some(PersistentDataKey::RefundGlobal(period)), amount: Some(refund) },
            ],
            period,
        ) == Ok::<PeriodTotals, PoolError>(PeriodTotals { tot_liquidity: liquidity, tot_supply: supply, refund_global: refund }),
{
    let e1 = PersistentEntry { key: Some(PersistentDataKey::TotLiquidity(period)), amount: Some(liquidity) };
    let e2 = PersistentEntry { key: Some(PersistentDataKey::TotSupply(period)), amount: Some(supply) };
    let e3 = PersistentEntry { key: Some(PersistentDataKey::RefundGlobal(period)), amount: Some(refund) };
    let s0 = Seq::<PersistentEntry>::empty();
    assert(seq![e1, e2, e3].drop_last() =~= s0.push(e1).push(e2));
    assert(s0.push(e1).push(e2).drop_last() =~= s0.push(e1));
    assert(s0.push(e1).drop_last() =~= s0);
    law_stored_totals_reported_unchanged(s0, period, liquidity);
    law_stored_totals_reported_unchanged(s0.push(e1), period, supply);
    law_stored_totals_reported_unchanged(s0.push(e1).push(e2), period, refund);
    assert(seq![e1, e2, e3] =~= s0.push(e1).push(e2).push(e3));
}

/// A pool with periods of positive length is, at ledger `c`, in the period
/// `k` with `genesis + (k - 1) * periods < c <= genesis + k * periods`.
pub proof fn law_pool_period_of_ledger(c: u32, config: PoolConfig, k: int)
    requires
        config.periods > 0,
        1 <= k <= i32::MAX,
        config.genesis_period + (k - 1) * config.periods < c <= config.genesis_period + k * config.periods,
    ensures
        pool_period_of(c, config) == Ok::<i32, PoolError>(k as i32),
{
    crate::maths::law_ledger_in_kth_period(c as int, config.genesis_period as int, config.periods as int, k);
}

/// The record of a pool read from storage: its address, each configuration
/// field as stored under its own key, and the totals of the period the ledger
/// falls in, as read from the entries.
pub proof fn law_pool_record_fields(
    address: String,
    s: Seq<InstanceEntry>,
    entries: Seq<PersistentEntry>,
    ledger: u32,
)
    requires
        pool_data_of(address, s, entries, ledger) is Ok,
    ensures
        ({
            let r = pool_data_of(address, s, entries, ledger)->Ok_0;
            &&& r.address == address
            &&& instance_lookup(s, InstanceDataKey::TokenId) == Some(InstanceValue::Str(r.token_id))
            &&& instance_lookup(s, InstanceDataKey::GenesisPeriod) == Some(InstanceValue::I32(r.genesis_period))
            &&& instance_lookup(s, InstanceDataKey::Periods) == Some(InstanceValue::I32(r.periods))
            &&& instance_lookup(s, InstanceDataKey::Oracle) == Some(InstanceValue::Str(r.oracle))
            &&& instance_lookup(s, InstanceDataKey::Symbol) == Some(InstanceValue::Str(r.symbol))
            &&& instance_lookup(s, InstanceDataKey::External) == Some(InstanceValue::Bool(r.external))
            &&& instance_lookup(s, InstanceDataKey::OracleAsset) == Some(InstanceValue::Str(r.oracle_asset))
            &&& instance_lookup(s, InstanceDataKey::Volatility) == Some(InstanceValue::I128(r.volatility))
            &&& instance_lookup(s, InstanceDataKey::Admin) == Some(InstanceValue::Str(r.admin))
            &&& instance_lookup(s, InstanceDataKey::Multiplier) == Some(InstanceValue::I32(r.multiplier))
            &&& r.periods != 0
            &&& period_totals_of(entries, period_at(ledger as int, r.genesis_period as int, r.periods as int))
                == Ok::<PeriodTotals, PoolError>(PeriodTotals {
                    tot_liquidity: r.tot_liquidity,
                    tot_supply: r.tot_supply,
                    refund_global: r.refund_global,
                })
        }),
{
    law_config_holds_stored_values(s);
}

} // verus!

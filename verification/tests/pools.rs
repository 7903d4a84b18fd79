use pool_indexer::pools::{
    period_totals, pool_config, pool_contract_id, pool_period, read_pool, try_pool_contract_id,
    try_read_pool, InstanceEntry,
    InstanceValue, PeriodTotals, PersistentEntry, PoolError,
};
use pool_indexer::types::{BalanceObject, InstanceDataKey, PersistentDataKey};

const CONTRACT_ADDRESS: [u8; 32] = [
    49, 27, 135, 97, 127, 42, 250, 76, 254, 105, 64, 142, 243, 103, 117, 92, 63, 2, 173, 226, 148,
    9, 73, 17, 217, 128, 179, 107, 100, 175, 71, 9,
];

fn entry(key: InstanceDataKey, value: InstanceValue) -> InstanceEntry {
    InstanceEntry { key: Some(key), value }
}

fn s(v: &str) -> InstanceValue {
    InstanceValue::Str(v.to_string())
}

fn storage() -> Vec<InstanceEntry> {
    vec![
        entry(InstanceDataKey::Admin, s("GADMIN")),
        entry(InstanceDataKey::External, InstanceValue::Bool(true)),
        entry(InstanceDataKey::GenesisPeriod, InstanceValue::I32(1000)),
        entry(InstanceDataKey::Multiplier, InstanceValue::I32(3)),
        entry(InstanceDataKey::Oracle, s("CORACLE")),
        entry(InstanceDataKey::OracleAsset, s("XLM")),
        entry(InstanceDataKey::Periods, InstanceValue::I32(100)),
        entry(InstanceDataKey::Symbol, s("POOL")),
        entry(InstanceDataKey::TokenId, s("CTOKEN")),
        entry(InstanceDataKey::Volatility, InstanceValue::I128(42)),
        InstanceEntry { key: None, value: InstanceValue::Other },
    ]
}

fn total(key: PersistentDataKey, amount: i128) -> PersistentEntry {
    PersistentEntry { key: Some(key), amount: Some(amount) }
}

#[test]
fn test() {
    let id = pool_contract_id("CAYRXB3BP4VPUTH6NFAI543HOVOD6AVN4KKASSIR3GALG23EV5DQT5G5");
    println!("{:?}", id);
    assert_eq!(id, CONTRACT_ADDRESS);
}

#[test]
fn invalid_pool_address_is_refused() {
    assert_eq!(try_pool_contract_id("not a strkey"), Err(PoolError::InvalidPoolAddress));
    // an account strkey is not a contract strkey
    assert_eq!(
        try_pool_contract_id("GAAACAQDAQCQMBYIBEFAWDANBYHRAEISCMKBKFQXDAMRUGY4DUPB7JZX"),
        Err(PoolError::InvalidPoolAddress)
    );
    assert_eq!(
        try_pool_contract_id("CAYRXB3BP4VPUTH6NFAI543HOVOD6AVN4KKASSIR3GALG23EV5DQT5G5"),
        Ok(CONTRACT_ADDRESS)
    );
}

#[test]
fn config_is_read_from_instance_storage() {
    let config = pool_config(&storage()).unwrap();
    assert_eq!(config.token_id, "CTOKEN");
    assert_eq!(config.genesis_period, 1000);
    assert_eq!(config.periods, 100);
    assert_eq!(config.oracle, "CORACLE");
    assert_eq!(config.symbol, "POOL");
    assert!(config.external);
    assert_eq!(config.oracle_asset, "XLM");
    assert_eq!(config.volatility, 42);
    assert_eq!(config.admin, "GADMIN");
    assert_eq!(config.multiplier, 3);
}

#[test]
fn first_entry_under_a_key_wins() {
    let mut st = storage();
    st.push(entry(InstanceDataKey::TokenId, s("CLATER")));
    st.push(entry(InstanceDataKey::Periods, s("not a number")));
    let config = pool_config(&st).unwrap();
    assert_eq!(config.token_id, "CTOKEN");
    assert_eq!(config.periods, 100);
}

#[test]
fn first_missing_key_is_reported() {
    let st: Vec<InstanceEntry> = storage()
        .into_iter()
        .filter(|e| e.key != Some(InstanceDataKey::Symbol) && e.key != Some(InstanceDataKey::Admin))
        .collect();
    assert_eq!(pool_config(&st).unwrap_err(), PoolError::MissingInstanceKey(InstanceDataKey::Symbol));
    assert_eq!(
        pool_config(&Vec::new()).unwrap_err(),
        PoolError::MissingInstanceKey(InstanceDataKey::TokenId)
    );
}

#[test]
fn missing_key_comes_before_wrong_type() {
    let mut st: Vec<InstanceEntry> = storage()
        .into_iter()
        .filter(|e| e.key != Some(InstanceDataKey::Multiplier) && e.key != Some(InstanceDataKey::TokenId))
        .collect();
    st.insert(0, entry(InstanceDataKey::TokenId, InstanceValue::I32(1)));
    assert_eq!(pool_config(&st).unwrap_err(), PoolError::MissingInstanceKey(InstanceDataKey::Multiplier));
}

#[test]
fn first_wrongly_typed_value_is_reported() {
    let mut st = storage();
    st.insert(0, entry(InstanceDataKey::Volatility, InstanceValue::I32(42)));
    st.insert(0, entry(InstanceDataKey::External, s("yes")));
    assert_eq!(
        pool_config(&st).unwrap_err(),
        PoolError::UnexpectedInstanceValue(InstanceDataKey::External)
    );
}

#[test]
fn totals_take_the_last_entry_of_the_period() {
    let entries = vec![
        total(PersistentDataKey::TotSupply(3), 10),
        total(PersistentDataKey::TotLiquidity(3), 20),
        total(PersistentDataKey::TotSupply(2), 99),
        total(PersistentDataKey::RefundGlobal(3), 5),
        total(PersistentDataKey::TotSupply(3), 11),
        total(PersistentDataKey::FeePerShareUniversal(3), 77),
        PersistentEntry { key: None, amount: None },
        PersistentEntry {
            key: Some(PersistentDataKey::Balance(BalanceObject { address: "GA".to_string(), period: 3 })),
            amount: Some(1),
        },
    ];
    assert_eq!(
        period_totals(&entries, 3),
        Ok(PeriodTotals { tot_liquidity: 20, tot_supply: 11, refund_global: 5 })
    );
    assert_eq!(
        period_totals(&entries, 2),
        Ok(PeriodTotals { tot_liquidity: 0, tot_supply: 99, refund_global: 0 })
    );
    assert_eq!(
        period_totals(&entries, 4),
        Ok(PeriodTotals { tot_liquidity: 0, tot_supply: 0, refund_global: 0 })
    );
}

#[test]
fn unreadable_total_of_the_period_is_an_error() {
    let entries = vec![
        total(PersistentDataKey::TotSupply(3), 10),
        PersistentEntry { key: Some(PersistentDataKey::RefundGlobal(3)), amount: None },
    ];
    assert_eq!(period_totals(&entries, 3), Err(PoolError::UnreadableTotal));
    // another period's unreadable total is skipped
    assert_eq!(
        period_totals(&entries, 2),
        Ok(PeriodTotals { tot_liquidity: 0, tot_supply: 0, refund_global: 0 })
    );
}

#[test]
fn zero_period_length_is_an_error() {
    let mut config = pool_config(&storage()).unwrap();
    assert_eq!(pool_period(1250, &config), Ok(3));
    config.periods = 0;
    assert_eq!(pool_period(1250, &config), Err(PoolError::ZeroPeriodLength));
}

#[test]
fn pool_is_read_for_the_current_period() {
    let entries = vec![
        total(PersistentDataKey::TotSupply(3), 500),
        total(PersistentDataKey::TotLiquidity(3), 700),
        total(PersistentDataKey::RefundGlobal(2), 9),
        total(PersistentDataKey::RefundGlobal(3), 1),
    ];
    let data = read_pool("CPOOL".to_string(), &storage(), &entries, 1250);
    assert_eq!(try_read_pool("CPOOL".to_string(), &storage(), &entries, 1250).unwrap().tot_supply, 500);
    assert_eq!(data.address, "CPOOL");
    assert_eq!(data.token_id, "CTOKEN");
    assert_eq!(data.genesis_period, 1000);
    assert_eq!(data.periods, 100);
    assert_eq!(data.multiplier, 3);
    assert_eq!(data.tot_supply, 500);
    assert_eq!(data.tot_liquidity, 700);
    assert_eq!(data.refund_global, 1);
}

#[test]
fn pool_read_fails_on_bad_storage() {
    let entries: Vec<PersistentEntry> = Vec::new();
    assert_eq!(
        try_read_pool("CPOOL".to_string(), &Vec::new(), &entries, 1250).unwrap_err(),
        PoolError::MissingInstanceKey(InstanceDataKey::TokenId)
    );
    let mut st = storage();
    st.insert(0, entry(InstanceDataKey::Periods, InstanceValue::I32(0)));
    assert_eq!(
        try_read_pool("CPOOL".to_string(), &st, &entries, 1250).unwrap_err(),
        PoolError::ZeroPeriodLength
    );
    let unreadable = vec![PersistentEntry { key: Some(PersistentDataKey::TotSupply(3)), amount: None }];
    assert_eq!(
        try_read_pool("CPOOL".to_string(), &storage(), &unreadable, 1250).unwrap_err(),
        PoolError::UnreadableTotal
    );
}

#[test]
fn only_entries_of_the_period_count() {
    let entries = vec![
        total(PersistentDataKey::TotSupply(2), 1),
        total(PersistentDataKey::TotSupply(3), 10),
        total(PersistentDataKey::FeePerShareUniversal(3), 4),
        total(PersistentDataKey::RefundGlobal(1), 8),
        total(PersistentDataKey::TotLiquidity(3), 6),
        PersistentEntry { key: Some(PersistentDataKey::TotSupply(2)), amount: None },
    ];
    let kept: Vec<PersistentEntry> = entries
        .iter()
        .filter(|e| matches!(
            e.key,
            Some(PersistentDataKey::TotSupply(3)) | Some(PersistentDataKey::TotLiquidity(3)) | Some(PersistentDataKey::RefundGlobal(3))
        ))
        .cloned()
        .collect();
    assert_eq!(kept.len(), 2);
    assert_eq!(period_totals(&entries, 3), period_totals(&kept, 3));
    assert_eq!(
        period_totals(&kept, 3),
        Ok(PeriodTotals { tot_liquidity: 6, tot_supply: 10, refund_global: 0 })
    );
}

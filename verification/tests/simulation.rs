use pool_indexer::simulation::{
    adjust_simulated_envelope, bump_simulated_fees, contract_call, next_sequence,
    try_adjust_simulated_envelope, try_contract_call, CallArg, ContractFunction, SimulationError,
    TxFees,
};
use pool_indexer::types::{
    SimulateClaimReward, SimulateDeposit, SimulateSubscribe, SimulateUpdateFeeRewards,
    SimulateWithdraw, SimulateWithdrawMatured, SimulationRequest,
};
use soroban_sdk::xdr::{
    DecoratedSignature, ExtensionPoint, LedgerFootprint, Limits, Memo, MuxedAccount, Preconditions,
    ReadXdr, SequenceNumber, Signature, SignatureHint, SorobanResources, SorobanTransactionData,
    Transaction, TransactionEnvelope, TransactionExt, TransactionV0, TransactionV0Envelope,
    TransactionV0Ext, TransactionV1Envelope, Uint256, VecM, WriteXdr,
};

const ACCOUNT: &str = "GAAACAQDAQCQMBYIBEFAWDANBYHRAEISCMKBKFQXDAMRUGY4DUPB7JZX";
const CONTRACT: &str = "CAYRXB3BP4VPUTH6NFAI543HOVOD6AVN4KKASSIR3GALG23EV5DQT5G5";

fn account_key() -> [u8; 32] {
    let mut key = [0u8; 32];
    for (i, b) in key.iter_mut().enumerate() {
        *b = i as u8;
    }
    key
}

fn address_arg(args: &[CallArg]) -> String {
    match &args[0] {
        CallArg::Address(a) => a.clone(),
        other => panic!("first argument is not an address: {:?}", other),
    }
}

#[test]
fn deposit_calls_deposit_with_amount_as_i128() {
    let req = SimulationRequest::Deposit(SimulateDeposit {
        contract: CONTRACT.to_string(),
        from: ACCOUNT.to_string(),
        amount: -5,
    });
    let call = contract_call(&req);
    assert_eq!(call.function, ContractFunction::Deposit);
    assert_eq!(call.function.name(), "deposit");
    assert_eq!(call.source_account, account_key());
    assert_eq!(call.contract_id[0], 49);
    assert_eq!(call.from, ACCOUNT);
    assert_eq!(call.args.len(), 2);
    assert_eq!(address_arg(&call.args), ACCOUNT);
    assert!(matches!(call.args[1], CallArg::I128(-5)));
}

#[test]
fn period_requests_pass_the_period() {
    let reqs = vec![
        (
            SimulationRequest::UpdateFeeRewards(SimulateUpdateFeeRewards {
                contract: CONTRACT.to_string(),
                from: ACCOUNT.to_string(),
                period: 7,
            }),
            ContractFunction::UpdateFeeRewards,
            "update_fee_rewards",
        ),
        (
            SimulationRequest::WithdrawMatured(SimulateWithdrawMatured {
                contract: CONTRACT.to_string(),
                from: ACCOUNT.to_string(),
                period: 7,
            }),
            ContractFunction::WithdrawMatured,
            "withdraw_matured",
        ),
        (
            SimulationRequest::Withdraw(SimulateWithdraw {
                contract: CONTRACT.to_string(),
                from: ACCOUNT.to_string(),
                period: 7,
            }),
            ContractFunction::Withdraw,
            "withdraw",
        ),
    ];
    for (req, function, name) in reqs {
        let call = contract_call(&req);
        assert_eq!(call.function, function);
        assert_eq!(call.function.name(), name);
        assert_eq!(call.args.len(), 2);
        assert_eq!(address_arg(&call.args), ACCOUNT);
        assert!(matches!(call.args[1], CallArg::I32(7)));
    }
}

#[test]
fn subscribe_and_claim_reward_calls() {
    let sub = SimulationRequest::Subscribe(SimulateSubscribe {
        contract: CONTRACT.to_string(),
        from: ACCOUNT.to_string(),
        amount: 1_000_000_000_000_000_000_000,
    });
    let call = contract_call(&sub);
    assert_eq!(call.function.name(), "subscribe");
    assert!(matches!(call.args[1], CallArg::I128(1_000_000_000_000_000_000_000)));

    let claim = SimulationRequest::ClaimReward(SimulateClaimReward {
        contract: CONTRACT.to_string(),
        from: ACCOUNT.to_string(),
    });
    let call = contract_call(&claim);
    assert_eq!(call.function, ContractFunction::ClaimReward);
    assert_eq!(call.function.name(), "claim_reward");
    assert_eq!(call.args.len(), 1);
    assert_eq!(address_arg(&call.args), ACCOUNT);
    let checked = try_contract_call(&claim).unwrap();
    assert_eq!(checked.function, ContractFunction::ClaimReward);
    assert_eq!(checked.source_account, account_key());
}

#[test]
fn invalid_strkeys_are_refused() {
    let bad_account = SimulationRequest::ClaimReward(SimulateClaimReward {
        contract: "nonsense".to_string(),
        from: CONTRACT.to_string(),
    });
    assert_eq!(try_contract_call(&bad_account).unwrap_err(), SimulationError::InvalidSourceAccount);
    let bad_contract = SimulationRequest::ClaimReward(SimulateClaimReward {
        contract: ACCOUNT.to_string(),
        from: ACCOUNT.to_string(),
    });
    assert_eq!(try_contract_call(&bad_contract).unwrap_err(), SimulationError::InvalidContract);
}

#[test]
fn sequence_advances_by_one() {
    assert_eq!(next_sequence(41), 42);
    assert_eq!(next_sequence(-1), 0);
    assert_eq!(next_sequence(i64::MAX - 1), i64::MAX);
}

#[test]
fn fees_are_raised_by_the_margins() {
    let fees = TxFees { fee: 1000, resource_fee: 5000, read_bytes: 300, write_bytes: 40 };
    assert_eq!(
        bump_simulated_fees(fees),
        Some(TxFees { fee: 1100, resource_fee: 5100, read_bytes: 500, write_bytes: 140 })
    );
    let full = TxFees { fee: u32::MAX - 100, resource_fee: i64::MAX - 100, read_bytes: u32::MAX - 200, write_bytes: u32::MAX - 100 };
    assert!(bump_simulated_fees(full).is_some());
    assert_eq!(bump_simulated_fees(TxFees { fee: u32::MAX - 99, ..full }), None);
    assert_eq!(bump_simulated_fees(TxFees { resource_fee: i64::MAX - 99, ..full }), None);
    assert_eq!(bump_simulated_fees(TxFees { read_bytes: u32::MAX - 199, ..full }), None);
    assert_eq!(bump_simulated_fees(TxFees { write_bytes: u32::MAX - 99, ..full }), None);
}

fn soroban_tx(fee: u32, resource_fee: i64, read_bytes: u32, write_bytes: u32) -> Transaction {
    Transaction {
        source_account: MuxedAccount::Ed25519(Uint256(account_key())),
        fee,
        seq_num: SequenceNumber(42),
        cond: Preconditions::None,
        memo: Memo::None,
        operations: VecM::default(),
        ext: TransactionExt::V1(SorobanTransactionData {
            ext: ExtensionPoint::V0,
            resources: SorobanResources {
                footprint: LedgerFootprint { read_only: VecM::default(), read_write: VecM::default() },
                instructions: 12345,
                read_bytes,
                write_bytes,
            },
            resource_fee,
        }),
    }
}

fn signed(tx: Transaction) -> String {
    let signature = DecoratedSignature {
        hint: SignatureHint([1, 2, 3, 4]),
        signature: Signature(vec![9u8; 64].try_into().unwrap()),
    };
    TransactionEnvelope::Tx(TransactionV1Envelope { tx, signatures: vec![signature].try_into().unwrap() })
        .to_xdr_base64(Limits::none())
        .unwrap()
}

#[test]
fn simulated_envelope_is_adjusted() {
    let input = signed(soroban_tx(100, 2000, 3000, 400));
    let output = adjust_simulated_envelope(&input);
    assert_eq!(try_adjust_simulated_envelope(&input), Ok(output.clone()));
    let TransactionEnvelope::Tx(v1) = TransactionEnvelope::from_xdr_base64(output, Limits::none()).unwrap() else {
        panic!("not a v1 envelope")
    };
    assert_eq!(v1.signatures.len(), 0);
    assert_eq!(v1.tx.fee, 200);
    assert_eq!(v1.tx.seq_num, SequenceNumber(42));
    let TransactionExt::V1(data) = v1.tx.ext else { panic!("no soroban data") };
    assert_eq!(data.resource_fee, 2100);
    assert_eq!(data.resources.read_bytes, 3200);
    assert_eq!(data.resources.write_bytes, 500);
    assert_eq!(data.resources.instructions, 12345);
}

#[test]
fn envelope_errors_are_reported() {
    assert_eq!(try_adjust_simulated_envelope("not base64 xdr"), Err(SimulationError::InvalidEnvelope));

    let mut classic = soroban_tx(100, 0, 0, 0);
    classic.ext = TransactionExt::V0;
    assert_eq!(try_adjust_simulated_envelope(&signed(classic)), Err(SimulationError::NoSorobanData));

    let v0 = TransactionEnvelope::TxV0(TransactionV0Envelope {
        tx: TransactionV0 {
            source_account_ed25519: Uint256(account_key()),
            fee: 100,
            seq_num: SequenceNumber(1),
            time_bounds: None,
            memo: Memo::None,
            operations: VecM::default(),
            ext: TransactionV0Ext::V0,
        },
        signatures: VecM::default(),
    })
    .to_xdr_base64(Limits::none())
    .unwrap();
    assert_eq!(try_adjust_simulated_envelope(&v0), Err(SimulationError::NotV1Envelope));

    let overflowing = signed(soroban_tx(u32::MAX, 0, 0, 0));
    assert_eq!(try_adjust_simulated_envelope(&overflowing), Err(SimulationError::FeeOverflow));
}

//! Simulation of pool contract calls: what to call for a request, and the
//! resource margins added to the transaction the simulation returns.

use soroban_sdk::xdr::{
    DecoratedSignature, Limits, ReadXdr, Signature, SignatureHint, TransactionEnvelope,
    TransactionExt, TransactionV1Envelope, WriteXdr,
};
use vstd::prelude::*;

use crate::strkey::{
    account_strkey_payload, contract_strkey_payload, decode_account_strkey, decode_contract_strkey,
};
use crate::types::SimulationRequest;

verus! {

/// The pool contract functions a simulation can call.
#[derive(Clone, Copy, Debug, PartialEq, Eq, Structural)]
pub enum ContractFunction {
    Deposit,
    UpdateFeeRewards,
    WithdrawMatured,
    Withdraw,
    Subscribe,
    ClaimReward,
}

/// The on-chain name of each pool contract function.
pub open spec fn function_name(f: ContractFunction) -> Seq<char> {
    match f {
        ContractFunction::Deposit => "deposit"@,
        ContractFunction::UpdateFeeRewards => "update_fee_rewards"@,
        ContractFunction::WithdrawMatured => "withdraw_matured"@,
        ContractFunction::Withdraw => "withdraw"@,
        ContractFunction::Subscribe => "subscribe"@,
        ContractFunction::ClaimReward => "claim_reward"@,
    }
}

impl ContractFunction {
    /// The function's on-chain name.
    pub fn name(&self) -> (r: &'static str)
        ensures
            r@ == function_name(*self),
    {
        match self {
            ContractFunction::Deposit => "deposit",
            ContractFunction::UpdateFeeRewards => "update_fee_rewards",
            ContractFunction::WithdrawMatured => "withdraw_matured",
            ContractFunction::Withdraw => "withdraw",
            ContractFunction::Subscribe => "subscribe",
            ContractFunction::ClaimReward => "claim_reward",
        }
    }
}

/// An argument of a pool contract call.
#[derive(Clone, Debug)]
pub enum CallArg {
    /// An account, by its strkey.
    Address(String),
    I128(i128),
    I32(i32),
}

/// A pool contract call to simulate: the pool's contract id, the decoded key
/// of the calling account, that account's strkey, the function and its
/// arguments.
#[derive(Clone, Debug)]
pub struct ContractCall {
    pub contract_id: [u8; 32],
    pub source_account: [u8; 32],
    pub from: String,
    pub function: ContractFunction,
    pub args: Vec<CallArg>,
}

/// Why a simulation could not be prepared or its result not adjusted.
#[derive(Clone, Copy, Debug, PartialEq, Eq, Structural)]
pub enum SimulationError {
    /// `from` is not an account strkey.
    InvalidSourceAccount,
    /// `contract` is not a contract strkey.
    InvalidContract,
    /// The simulated transaction is not base64 XDR of an envelope.
    InvalidEnvelope,
    /// The simulated envelope is not a version 1 transaction envelope.
    NotV1Envelope,
    /// The simulated transaction carries no Soroban resource data.
    NoSorobanData,
    /// Adding the margins overflows a fee or resource field.
    FeeOverflow,
}

/// The pool strkey a request is addressed to.
pub open spec fn request_contract(req: SimulationRequest) -> String {
    match req {
        SimulationRequest::Deposit(r) => r.contract,
        SimulationRequest::UpdateFeeRewards(r) => r.contract,
        SimulationRequest::WithdrawMatured(r) => r.contract,
        SimulationRequest::Withdraw(r) => r.contract,
        SimulationRequest::Subscribe(r) => r.contract,
        SimulationRequest::ClaimReward(r) => r.contract,
    }
}

/// The account strkey a request comes from.
pub open spec fn request_from(req: SimulationRequest) -> String {
    match req {
        SimulationRequest::Deposit(r) => r.from,
        SimulationRequest::UpdateFeeRewards(r) => r.from,
        SimulationRequest::WithdrawMatured(r) => r.from,
        SimulationRequest::Withdraw(r) => r.from,
        SimulationRequest::Subscribe(r) => r.from,
        SimulationRequest::ClaimReward(r) => r.from,
    }
}

/// The pool function a request calls.
pub open spec fn request_function(req: SimulationRequest) -> ContractFunction {
    match req {
        SimulationRequest::Deposit(_) => ContractFunction::Deposit,
        SimulationRequest::UpdateFeeRewards(_) => ContractFunction::UpdateFeeRewards,
        SimulationRequest::WithdrawMatured(_) => ContractFunction::WithdrawMatured,
        SimulationRequest::Withdraw(_) => ContractFunction::Withdraw,
        SimulationRequest::Subscribe(_) => ContractFunction::Subscribe,
        SimulationRequest::ClaimReward(_) => ContractFunction::ClaimReward,
    }
}

/// The arguments of the call: the calling account, then the amount (as an
/// `i128`) or the period, where the function takes one.
pub open spec fn request_args(req: SimulationRequest) -> Seq<CallArg> {
    let from = CallArg::Address(request_from(req));
    match req {
        SimulationRequest::Deposit(r) => seq![from, CallArg::I128(r.amount as i128)],
        SimulationRequest::UpdateFeeRewards(r) => seq![from, CallArg::I32(r.period)],
        SimulationRequest::WithdrawMatured(r) => seq![from, CallArg::I32(r.period)],
        SimulationRequest::Withdraw(r) => seq![from, CallArg::I32(r.period)],
        SimulationRequest::Subscribe(r) => seq![from, CallArg::I128(r.amount)],
        SimulationRequest::ClaimReward(_) => seq![from],
    }
}

/// Whether both strkeys of a request decode: `from` as an account, `contract`
/// as a contract.
pub open spec fn request_strkeys_valid(req: SimulationRequest) -> bool {
    &&& account_strkey_payload(request_from(req)@) is Some
    &&& contract_strkey_payload(request_contract(req)@) is Some
}

/// The contract call a simulation request asks for, for a request whose
/// `from` is an account strkey and whose `contract` is a contract strkey.
pub fn contract_call(req: &SimulationRequest) -> (call: ContractCall)
    requires
        request_strkeys_valid(*req),
    ensures
        call.source_account@ == account_strkey_payload(request_from(*req)@).unwrap(),
        call.contract_id@ == contract_strkey_payload(request_contract(*req)@).unwrap(),
        call.from == request_from(*req),
        call.function == request_function(*req),
        call.args@ == request_args(*req),
{
    let (contract, from, function, extra): (&String, &String, ContractFunction, Option<CallArg>) =
        match req {
        SimulationRequest::Deposit(r) => (
            &r.contract,
            &r.from,
            ContractFunction::Deposit,
            Some(CallArg::I128(r.amount as i128)),
        ),
        SimulationRequest::UpdateFeeRewards(r) => (
            &r.contract,
            &r.from,
            ContractFunction::UpdateFeeRewards,
            Some(CallArg::I32(r.period)),
        ),
        SimulationRequest::WithdrawMatured(r) => (
            &r.contract,
            &r.from,
            ContractFunction::WithdrawMatured,
            Some(CallArg::I32(r.period)),
        ),
        SimulationRequest::Withdraw(r) => (
            &r.contract,
            &r.from,
            ContractFunction::Withdraw,
            Some(CallArg::I32(r.period)),
        ),
        SimulationRequest::Subscribe(r) => (
            &r.contract,
            &r.from,
            ContractFunction::Subscribe,
            Some(CallArg::I128(r.amount)),
        ),
        SimulationRequest::ClaimReward(r) => (&r.contract, &r.from, ContractFunction::ClaimReward, None),
    };
    let source_account = decode_account_strkey(from.as_str()).unwrap();
    let contract_id = decode_contract_strkey(contract.as_str()).unwrap();
    let mut args: Vec<CallArg> = Vec::new();
    args.push(CallArg::Address(from.clone()));
    match extra {
        Some(arg) => args.push(arg),
        None => {},
    }
    ContractCall { contract_id, source_account, from: from.clone(), function, args }
}

/// The contract call a simulation request asks for, or why there is none:
/// `from` is not an account strkey, else `contract` is not a contract strkey.
pub fn try_contract_call(req: &SimulationRequest) -> (r: Result<ContractCall, SimulationError>)
    ensures
        account_strkey_payload(request_from(*req)@) is None
            ==> r == Err::<ContractCall, SimulationError>(SimulationError::InvalidSourceAccount),
        account_strkey_payload(request_from(*req)@) is Some
            && contract_strkey_payload(request_contract(*req)@) is None
            ==> r == Err::<ContractCall, SimulationError>(SimulationError::InvalidContract),
        r is Ok <==> request_strkeys_valid(*req),
        r matches Ok(call) ==> {
            &&& call.source_account@ == account_strkey_payload(request_from(*req)@).unwrap()
            &&& call.contract_id@ == contract_strkey_payload(request_contract(*req)@).unwrap()
            &&& call.from == request_from(*req)
            &&& call.function == request_function(*req)
            &&& call.args@ == request_args(*req)
        },
{
    let (contract, from): (&String, &String) = match req {
        SimulationRequest::Deposit(r) => (&r.contract, &r.from),
        SimulationRequest::UpdateFeeRewards(r) => (&r.contract, &r.from),
        SimulationRequest::WithdrawMatured(r) => (&r.contract, &r.from),
        SimulationRequest::Withdraw(r) => (&r.contract, &r.from),
        SimulationRequest::Subscribe(r) => (&r.contract, &r.from),
        SimulationRequest::ClaimReward(r) => (&r.contract, &r.from),
    };
    if decode_account_strkey(from.as_str()).is_none() {
        return Err(SimulationError::InvalidSourceAccount);
    }
    if decode_contract_strkey(contract.as_str()).is_none() {
        return Err(SimulationError::InvalidContract);
    }
    Ok(contract_call(req))
}

/// The sequence number of the simulated transaction: one past the account's.
pub fn next_sequence(account_sequence: i64) -> (r: i64)
    requires
        account_sequence < i64::MAX,
    ensures
        r == account_sequence + 1,
{
    account_sequence + 1
}

/// The fee and resource fields of a Soroban transaction that a simulation adjusts.
#[derive(Clone, Copy, Debug, PartialEq, Eq, Structural)]
pub struct TxFees {
    /// The transaction's inclusion fee bid, `Transaction::fee`.
    pub fee: u32,
    /// `SorobanTransactionData::resource_fee`.
    pub resource_fee: i64,
    /// `SorobanResources::read_bytes`.
    pub read_bytes: u32,
    /// `SorobanResources::write_bytes`.
    pub write_bytes: u32,
}

/// One signature of an envelope: the signer's key hint and the signature bytes.
#[derive(Clone, Debug)]
pub struct TxSignature {
    pub hint: [u8; 4],
    pub signature: Vec<u8>,
}

/// A signature as plain bytes: its hint and its signature.
pub open spec fn signature_bytes(s: TxSignature) -> (Seq<u8>, Seq<u8>) {
    (s.hint@, s.signature@)
}

/// Signatures as plain bytes.
pub open spec fn signatures_bytes(sigs: Seq<TxSignature>) -> Seq<(Seq<u8>, Seq<u8>)> {
    sigs.map_values(|s: TxSignature| signature_bytes(s))
}

/// Why an envelope could not be read.
#[derive(Clone, Copy, Debug, PartialEq, Eq, Structural)]
pub enum EnvelopeError {
    InvalidXdr,
    NotV1Envelope,
    NoSorobanData,
}

/// What `TransactionEnvelope::from_xdr_base64` (without limits) decodes from
/// `b64`, read as the transaction's fee fields and the envelope's signatures
/// (hint and signature bytes): an error where decoding fails, where the
/// envelope is not `Tx`, or where its transaction extension is not `V1`.
pub uninterp spec fn decoded_envelope(b64: Seq<char>) -> Result<(TxFees, Seq<(Seq<u8>, Seq<u8>)>), EnvelopeError>;

/// The base64 XDR that `to_xdr_base64` (without limits) gives for the envelope
/// decoded from `b64` with its fee fields set to `fees` and its signatures
/// replaced by `signatures`; `None` where `b64` does not decode to a `Tx`
/// envelope with a `V1` extension, or `signatures` do not fit the envelope.
pub uninterp spec fn encoded_envelope(
    b64: Seq<char>,
    fees: TxFees,
    signatures: Seq<(Seq<u8>, Seq<u8>)>,
) -> Option<Seq<char>>;

/// Decodes the base64 XDR envelope `b64` with
/// `TransactionEnvelope::from_xdr_base64` and reads its fee fields and
/// signatures. Claimed: the result is `decoded_envelope(b64)`, a function of
/// the text alone.
#[verifier::external_body]
fn read_envelope(b64: &str) -> (r: Result<(TxFees, Vec<TxSignature>), EnvelopeError>)
    ensures
        r is Ok <==> decoded_envelope(b64@) is Ok,
        r matches Err(e) ==> decoded_envelope(b64@) matches Err(d) && d == e,
        r matches Ok(v) ==> decoded_envelope(b64@) matches Ok(d) && d.0 == v.0 && d.1 == signatures_bytes(v.1@),
{
    let envelope = TransactionEnvelope::from_xdr_base64(b64, Limits::none()).map_err(|_| EnvelopeError::InvalidXdr)?;
    let TransactionEnvelope::Tx(v1) = envelope else { return Err(EnvelopeError::NotV1Envelope) };
    let TransactionExt::V1(data) = &v1.tx.ext else { return Err(EnvelopeError::NoSorobanData) };
    let r = &data.resources;
    let fees = TxFees { fee: v1.tx.fee, resource_fee: data.resource_fee, read_bytes: r.read_bytes, write_bytes: r.write_bytes };
    Ok((fees, v1.signatures.iter().map(|s| TxSignature { hint: s.hint.0, signature: s.signature.0.to_vec() }).collect()))
}

/// Decodes `b64` with `TransactionEnvelope::from_xdr_base64`, writes `fees`
/// into its fee fields and `signatures` in place of its signatures, and
/// encodes it with `to_xdr_base64`. Claimed: the result is
/// `encoded_envelope(b64, fees, signatures)`, a function of its arguments
/// alone; as encoding with no limits only fails on lengths beyond the
/// envelope's bounds (20 signatures of at most 64 bytes), it is `Some` for
/// every `b64` that decodes and signatures within those bounds; and XDR
/// encoding round-trips, so the text it returns decodes to `fees` and
/// `signatures`. What it keeps of the rest of the transaction is not stated.
#[verifier::external_body]
fn write_envelope(b64: &str, fees: TxFees, signatures: &Vec<TxSignature>) -> (r: Option<String>)
    ensures
        r is Some <==> encoded_envelope(b64@, fees, signatures_bytes(signatures@)) is Some,
        r matches Some(out) ==> out@ == encoded_envelope(b64@, fees, signatures_bytes(signatures@)).unwrap(),
        decoded_envelope(b64@) is Ok && signatures@.len() <= 20
            && (forall|i: int| 0 <= i < signatures@.len() ==> #[trigger] signatures@[i].signature@.len() <= 64)
            ==> r is Some,
        r matches Some(out) ==> decoded_envelope(out@) matches Ok(d) && d.0 == fees
            && d.1 == signatures_bytes(signatures@),
{
    let Ok(TransactionEnvelope::Tx(mut v1)) = TransactionEnvelope::from_xdr_base64(b64, Limits::none()) else { return None };
    let TransactionExt::V1(data) = &mut v1.tx.ext else { return None };
    (v1.tx.fee, data.resource_fee) = (fees.fee, fees.resource_fee);
    (data.resources.read_bytes, data.resources.write_bytes) = (fees.read_bytes, fees.write_bytes);
    let sigs: Option<Vec<DecoratedSignature>> = signatures.iter().map(|s| Some(DecoratedSignature { hint: SignatureHint(s.hint), signature: Signature(s.signature.clone().try_into().ok()?) })).collect();
    v1.signatures = sigs?.try_into().ok()?;
    TransactionEnvelope::Tx(v1).to_xdr_base64(Limits::none()).ok()
}

/// The fees of a simulated transaction raised by the margins the indexer adds:
/// 200 read bytes, 100 write bytes, 100 to the resource fee and 100 to the
/// fee; `None` where a field would overflow.
pub open spec fn bumped_fees(f: TxFees) -> Option<TxFees> {
    if f.fee + 100 > u32::MAX || f.resource_fee + 100 > i64::MAX || f.read_bytes + 200 > u32::MAX
        || f.write_bytes + 100 > u32::MAX {
        None
    } else {
        Some(TxFees {
            fee: (f.fee + 100) as u32,
            resource_fee: (f.resource_fee + 100) as i64,
            read_bytes: (f.read_bytes + 200) as u32,
            write_bytes: (f.write_bytes + 100) as u32,
        })
    }
}

/// Raises the fees of a simulated transaction by the indexer's margins.
pub fn bump_simulated_fees(f: TxFees) -> (r: Option<TxFees>)
    ensures
        r == bumped_fees(f),
{
    if f.fee > u32::MAX - 100 || f.resource_fee > i64::MAX - 100 || f.read_bytes > u32::MAX - 200
        || f.write_bytes > u32::MAX - 100 {
        None
    } else {
        Some(TxFees {
            fee: f.fee + 100,
            resource_fee: f.resource_fee + 100,
            read_bytes: f.read_bytes + 200,
            write_bytes: f.write_bytes + 100,
        })
    }
}

/// The error a failure to read an envelope is reported as.
pub open spec fn envelope_error(e: EnvelopeError) -> SimulationError {
    match e {
        EnvelopeError::InvalidXdr => SimulationError::InvalidEnvelope,
        EnvelopeError::NotV1Envelope => SimulationError::NotV1Envelope,
        EnvelopeError::NoSorobanData => SimulationError::NoSorobanData,
    }
}

/// Whether a simulated envelope can be adjusted: it decodes to a `Tx`
/// envelope of a Soroban transaction whose fees the margins do not overflow.
pub open spec fn adjustable(b64: Seq<char>) -> bool {
    &&& decoded_envelope(b64) is Ok
    &&& bumped_fees(decoded_envelope(b64)->Ok_0.0) is Some
}

/// The answer for an adjustable simulated envelope: the envelope with its fees
/// raised by the margins and no signatures.
pub open spec fn adjusted_envelope(b64: Seq<char>) -> Seq<char> {
    encoded_envelope(b64, bumped_fees(decoded_envelope(b64)->Ok_0.0).unwrap(), Seq::empty()).unwrap()
}

/// The answer `out` to the simulated envelope `b64` decodes to the fees of
/// `b64` raised by the margins, and carries no signatures.
pub open spec fn answers_raised_unsigned(b64: Seq<char>, out: Seq<char>) -> bool {
    decoded_envelope(out) matches Ok(d) && d.0 == bumped_fees(decoded_envelope(b64)->Ok_0.0).unwrap()
        && d.1 == Seq::<(Seq<u8>, Seq<u8>)>::empty()
}

/// Adjusts the envelope of a simulated pool call before it is handed back:
/// raises its read and write bytes, resource fee and fee by the indexer's
/// margins, and answers it unsigned.
pub fn adjust_simulated_envelope(b64: &str) -> (r: String)
    requires
        adjustable(b64@),
    ensures
        encoded_envelope(b64@, bumped_fees(decoded_envelope(b64@)->Ok_0.0).unwrap(), Seq::empty()) is Some,
        r@ == adjusted_envelope(b64@),
        answers_raised_unsigned(b64@, r@),
{
    let fees = match read_envelope(b64) {
        Ok((fees, _signatures)) => fees,
        Err(_) => vstd::pervasive::unreached(),
    };
    let bumped = bump_simulated_fees(fees).unwrap();
    let unsigned: Vec<TxSignature> = Vec::new();
    assert(signatures_bytes(unsigned@) =~= Seq::<(Seq<u8>, Seq<u8>)>::empty());
    write_envelope(b64, bumped, &unsigned).unwrap()
}

/// What the indexer answers for a simulated envelope: the adjusted envelope,
/// or why it cannot be adjusted.
pub open spec fn adjustment_of(b64: Seq<char>) -> Result<Seq<char>, SimulationError> {
    match decoded_envelope(b64) {
        Err(e) => Err(envelope_error(e)),
        Ok(v) => if bumped_fees(v.0) is None {
            Err(SimulationError::FeeOverflow)
        } else {
            Ok(adjusted_envelope(b64))
        },
    }
}

/// Adjusts a simulated envelope where it can be adjusted, and otherwise says
/// why not: it is not base64 XDR of an envelope, not a `Tx` envelope, carries
/// no Soroban data, or the margins overflow its fees.
pub fn try_adjust_simulated_envelope(b64: &str) -> (r: Result<String, SimulationError>)
    ensures
        r is Ok <==> adjustable(b64@),
        r matches Ok(out) ==> out@ == adjusted_envelope(b64@) && answers_raised_unsigned(b64@, out@),
        r matches Err(e) ==> adjustment_of(b64@) == Err::<Seq<char>, SimulationError>(e),
{
    let fees = match read_envelope(b64) {
        Ok((fees, _signatures)) => fees,
        Err(EnvelopeError::InvalidXdr) => return Err(SimulationError::InvalidEnvelope),
        Err(EnvelopeError::NotV1Envelope) => return Err(SimulationError::NotV1Envelope),
        Err(EnvelopeError::NoSorobanData) => return Err(SimulationError::NoSorobanData),
    };
    if bump_simulated_fees(fees).is_none() {
        return Err(SimulationError::FeeOverflow);
    }
    Ok(adjust_simulated_envelope(b64))
}

/// A simulated call is the one the request names, from the request's
/// account, with the request's own amount or period passed unchanged: a
/// deposit's `i64` amount widened losslessly to `i128`, a subscription's
/// `i128` amount, a period as an `i32`, and nothing more for a reward claim.
pub proof fn law_call_follows_request(req: SimulationRequest)
    ensures
        match req {
            SimulationRequest::Deposit(d) => {
                &&& function_name(request_function(req)) == "deposit"@
                &&& request_args(req).len() == 2
                &&& request_args(req)[0] == CallArg::Address(d.from)
                &&& request_args(req)[1] matches CallArg::I128(x) && x as int == d.amount as int
            },
            SimulationRequest::UpdateFeeRewards(d) => {
                &&& function_name(request_function(req)) == "update_fee_rewards"@
                &&& request_args(req).len() == 2
                &&& request_args(req)[0] == CallArg::Address(d.from)
                &&& request_args(req)[1] matches CallArg::I32(p) && p == d.period
            },
            SimulationRequest::WithdrawMatured(d) => {
                &&& function_name(request_function(req)) == "withdraw_matured"@
                &&& request_args(req).len() == 2
                &&& request_args(req)[0] == CallArg::Address(d.from)
                &&& request_args(req)[1] matches CallArg::I32(p) && p == d.period
            },
            SimulationRequest::Withdraw(d) => {
                &&& function_name(request_function(req)) == "withdraw"@
                &&& request_args(req).len() == 2
                &&& request_args(req)[0] == CallArg::Address(d.from)
                &&& request_args(req)[1] matches CallArg::I32(p) && p == d.period
            },
            SimulationRequest::Subscribe(d) => {
                &&& function_name(request_function(req)) == "subscribe"@
                &&& request_args(req).len() == 2
                &&& request_args(req)[0] == CallArg::Address(d.from)
                &&& request_args(req)[1] matches CallArg::I128(x) && x == d.amount
            },
            SimulationRequest::ClaimReward(d) => {
                &&& function_name(request_function(req)) == "claim_reward"@
                &&& request_args(req).len() == 1
                &&& request_args(req)[0] == CallArg::Address(d.from)
            },
        },
{
}

/// The call is addressed to the request's contract and made from its account.
pub proof fn law_call_addressing(req: SimulationRequest)
    ensures
        match req {
            SimulationRequest::Deposit(d) => request_contract(req) == d.contract && request_from(req) == d.from,
            SimulationRequest::UpdateFeeRewards(d) => request_contract(req) == d.contract && request_from(req) == d.from,
            SimulationRequest::WithdrawMatured(d) => request_contract(req) == d.contract && request_from(req) == d.from,
            SimulationRequest::Withdraw(d) => request_contract(req) == d.contract && request_from(req) == d.from,
            SimulationRequest::Subscribe(d) => request_contract(req) == d.contract && request_from(req) == d.from,
            SimulationRequest::ClaimReward(d) => request_contract(req) == d.contract && request_from(req) == d.from,
        },
{
}

/// The margins: where nothing overflows, the answered transaction bids 100
/// more in fee and resource fee and declares 200 more read bytes and 100 more
/// write bytes; where a field would overflow, there is no answer.
pub proof fn law_fee_margins(f: TxFees)
    ensures
        (f.fee as int + 100 <= u32::MAX && f.resource_fee as int + 100 <= i64::MAX
            && f.read_bytes as int + 200 <= u32::MAX && f.write_bytes as int + 100 <= u32::MAX)
            <==> bumped_fees(f) is Some,
        bumped_fees(f) matches Some(g) ==> {
            &&& g.fee as int == f.fee as int + 100
            &&& g.resource_fee as int == f.resource_fee as int + 100
            &&& g.read_bytes as int == f.read_bytes as int + 200
            &&& g.write_bytes as int == f.write_bytes as int + 100
        },
{
}

} // verus!

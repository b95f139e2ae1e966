//! The drain request and the acceptance of a transaction that was built for it.
//!
//! A drain spends every input to one payment at a fixed return script, with
//! an optional data carrier beside it. A built transaction is accepted only
//! where it is exactly that and pays exactly the fee of the configured rate
//! for the weight that the fee was computed over.

use crate::descriptor::ThresholdDescriptor;
use crate::fee::{drain_amounts, drained, fee_for, vsize_of, DrainAmounts, DrainError, FeeRate};
use bdk::bitcoin::Address;
use std::str::FromStr;
use vstd::prelude::*;

verus! {

/// The longest payload that a data carrier output may hold.
pub const MAX_CARRIER_PAYLOAD: usize = 80;

/// The largest input sequence number that still signals replaceability.
pub const MAX_REPLACEABLE_SEQUENCE: u32 = 0xffff_fffd;

/// What a drain transaction is asked to be.
#[derive(Debug)]
pub struct DrainTransactionRequest {
    /// The descriptor of the wallet that is drained.
    pub descriptor: ThresholdDescriptor,
    /// The script of the single payment output.
    pub return_script: Vec<u8>,
    /// The fee rate that the transaction must pay.
    pub fee_rate: FeeRate,
    /// Whether every input must signal that the transaction can be replaced.
    pub replace_by_fee: bool,
    /// The payload of the data carrier output, if there is to be one.
    pub metadata: Option<Vec<u8>>,
}

/// An input of a built transaction.
#[derive(Clone, Copy, Debug, PartialEq, Eq, Structural)]
pub struct InputSummary {
    /// The value of the output that it spends.
    pub value: u64,
    /// Its sequence number.
    pub sequence: u32,
}

/// An output of a built transaction.
#[derive(Debug)]
pub struct OutputSummary {
    pub value: u64,
    pub script: Vec<u8>,
}

/// A built transaction, as far as its acceptance looks at it.
#[derive(Debug)]
pub struct TransactionSkeleton {
    pub inputs: Vec<InputSummary>,
    pub outputs: Vec<OutputSummary>,
    /// The weight that the fee was computed over: the size of the
    /// transaction as it is estimated before it is signed, not the size of
    /// what is broadcast in the end.
    pub weight: u64,
}

/// Why a built transaction is not accepted as the drain that was asked for.
#[derive(Clone, Copy, Debug, PartialEq, Eq, Structural)]
pub enum BuildError {
    /// The payload is longer than a data carrier may hold.
    MetadataTooLong,
    /// The transaction spends nothing.
    NoInputs,
    /// The inputs are worth more than can be held.
    ValueOverflow,
    /// The outputs are not the one payment and, where asked for, the carrier.
    UnexpectedOutputs,
    /// Replaceability was asked for and some input does not signal it.
    NotReplaceable,
    /// The payment is worth more than the inputs.
    Overspent,
    /// The fee at the asked rate is too large to be held.
    FeeOverflow,
    /// The fee is lower than the asked rate requires.
    FeeTooLow { fee: u64, required: u64 },
    /// The fee is higher than the asked rate requires.
    FeeTooHigh { fee: u64, required: u64 },
    /// The fee takes everything: nothing is left to pay out.
    NothingLeft,
}

/// Why no request could be made.
#[derive(Clone, Copy, Debug, PartialEq, Eq, Structural)]
pub enum RequestError {
    /// The return address is no address.
    BadAddress,
}

/// The script that an address stands for, where the text is an address.
pub uninterp spec fn address_script(address: Seq<char>) -> Option<Seq<u8>>;

/// The script of a data carrier output: the opcode that makes it unspendable
/// and one push of the payload.
pub open spec fn carrier_script(payload: Seq<u8>) -> Seq<u8>
    recommends
        payload.len() <= MAX_CARRIER_PAYLOAD,
{
    if payload.len() < 76 {
        seq![0x6au8, payload.len() as u8] + payload
    } else {
        seq![0x6au8, 0x4cu8, payload.len() as u8] + payload
    }
}

/// The sum of the values that the inputs spend.
pub open spec fn input_total(inputs: Seq<InputSummary>) -> nat
    decreases inputs.len(),
{
    if inputs.len() == 0 {
        0
    } else {
        input_total(inputs.drop_last()) + inputs.last().value as nat
    }
}

/// Every input signals that the transaction can be replaced.
pub open spec fn all_replaceable(inputs: Seq<InputSummary>) -> bool {
    forall|i: int| 0 <= i < inputs.len() ==> (#[trigger] inputs[i]).sequence <= MAX_REPLACEABLE_SEQUENCE
}

/// The place of the payment among the outputs, where the outputs are what the
/// request asks for: the payment alone, or the payment and the carrier of the
/// payload with no value, in either order. No outputs are right for a payload
/// that a carrier cannot hold.
pub open spec fn payment_index(
    return_script: Seq<u8>,
    metadata: Option<Seq<u8>>,
    outputs: Seq<OutputSummary>,
) -> Option<int> {
    match metadata {
        None => if outputs.len() == 1 && outputs[0].script@ == return_script {
            Some(0)
        } else {
            None
        },
        Some(payload) => if payload.len() > MAX_CARRIER_PAYLOAD || outputs.len() != 2 {
            None
        } else if outputs[0].script@ == return_script && outputs[1].script@ == carrier_script(payload)
            && outputs[1].value == 0 {
            Some(0)
        } else if outputs[1].script@ == return_script && outputs[0].script@ == carrier_script(payload)
            && outputs[0].value == 0 {
            Some(1)
        } else {
            None
        },
    }
}

/// The payload of a request, as a sequence.
pub open spec fn payload_of(metadata: Option<Vec<u8>>) -> Option<Seq<u8>> {
    match metadata {
        Some(p) => Some(p@),
        None => None,
    }
}

/// What the fee of a transaction says of it, against what a full drain of
/// the value spent pays at the asked rate: the amounts of that drain where the
/// payment is exactly its amount, and else what is wrong with the payment or
/// the fee.
pub open spec fn fee_verdict(spent: u64, amount: u64, expected: Result<DrainAmounts, DrainError>) -> Result<
    DrainAmounts,
    BuildError,
>
{
    if amount > spent {
        Err(BuildError::Overspent)
    } else {
        fee_verdict_within(spent, amount, expected)
    }
}

/// What the fee of a transaction says of it, where the payment is no more
/// than the value spent.
pub open spec fn fee_verdict_within(spent: u64, amount: u64, expected: Result<DrainAmounts, DrainError>) -> Result<
    DrainAmounts,
    BuildError,
>
    recommends
        amount <= spent,
{
    match expected {
        Ok(due) => if amount == due.amount {
            Ok(due)
        } else if amount > due.amount {
            Err(BuildError::FeeTooLow { fee: (spent - amount) as u64, required: due.fee })
        } else {
            Err(BuildError::FeeTooHigh { fee: (spent - amount) as u64, required: due.fee })
        },
        Err(DrainError::FeeOverflow) => Err(BuildError::FeeOverflow),
        Err(DrainError::FeeExceedsValue { fee, value }) => if spent - amount < fee {
            Err(BuildError::FeeTooLow { fee: (spent - amount) as u64, required: fee })
        } else {
            Err(BuildError::NothingLeft)
        },
    }
}

/// Whether a built transaction is the drain that the request asks for, and
/// if so what it pays.
pub open spec fn drain_verdict(request: DrainTransactionRequest, skeleton: TransactionSkeleton) -> Result<
    DrainAmounts,
    BuildError,
> {
    let payment = payment_index(
        request.return_script@,
        payload_of(request.metadata),
        skeleton.outputs@,
    );
    let spent = input_total(skeleton.inputs@);
    if request.metadata is Some && request.metadata->0@.len() > MAX_CARRIER_PAYLOAD {
        Err(BuildError::MetadataTooLong)
    } else if skeleton.inputs@.len() == 0 {
        Err(BuildError::NoInputs)
    } else if spent > u64::MAX {
        Err(BuildError::ValueOverflow)
    } else if payment is None {
        Err(BuildError::UnexpectedOutputs)
    } else if request.replace_by_fee && !all_replaceable(skeleton.inputs@) {
        Err(BuildError::NotReplaceable)
    } else {
        fee_verdict(
            spent as u64,
            skeleton.outputs@[payment->0].value,
            drained(spent as u64, request.fee_rate.milli_per_vbyte, skeleton.weight),
        )
    }
}

/// The total of a part of the inputs is at most the total of all of them.
pub proof fn lemma_input_total_take(inputs: Seq<InputSummary>, n: int)
    requires
        0 <= n <= inputs.len(),
    ensures
        input_total(inputs.take(n)) <= input_total(inputs),
    decreases inputs.len(),
{
    if n < inputs.len() {
        lemma_input_total_take(inputs.drop_last(), n);
        assert(inputs.drop_last().take(n) =~= inputs.take(n));
    } else {
        assert(inputs.take(n) =~= inputs);
    }
}

/// Tells whether two byte strings are the same.
pub fn bytes_equal(a: &Vec<u8>, b: &Vec<u8>) -> (same: bool)
    ensures
        same == (a@ == b@),
{
    if a.len() != b.len() {
        return false;
    }
    let mut i: usize = 0;
    while i < a.len()
        invariant
            i <= a.len(),
            a.len() == b.len(),
            forall|j: int| 0 <= j < i ==> a@[j] == b@[j],
        decreases a.len() - i,
    {
        if a[i] != b[i] {
            return false;
        }
        i = i + 1;
    }
    assert(a@ =~= b@);
    true
}

/// The script of the data carrier output for a payload, or `None` where the
/// payload is longer than a carrier may hold.
pub fn data_carrier_script(payload: &Vec<u8>) -> (r: Option<Vec<u8>>)
    ensures
        match r {
            Some(script) => payload@.len() <= MAX_CARRIER_PAYLOAD && script@ == carrier_script(payload@),
            None => payload@.len() > MAX_CARRIER_PAYLOAD,
        },
{
    let n = payload.len();
    if n > MAX_CARRIER_PAYLOAD {
        return None;
    }
    let mut script: Vec<u8> = Vec::new();
    script.push(0x6a);
    if n >= 76 {
        script.push(0x4c);
    }
    script.push(n as u8);
    let ghost head = script@;
    let mut i: usize = 0;
    while i < n
        invariant
            i <= n,
            n == payload@.len(),
            script@ == head + payload@.take(i as int),
        decreases n - i,
    {
        script.push(payload[i]);
        assert(payload@.take(i + 1) =~= payload@.take(i as int).push(payload@[i as int]));
        i = i + 1;
    }
    assert(payload@.take(n as int) =~= payload@);
    Some(script)
}

/// The sum of the values that the inputs spend, or `None` where it is too
/// large to be held.
pub fn sum_inputs(inputs: &Vec<InputSummary>) -> (r: Option<u64>)
    ensures
        match r {
            Some(total) => total == input_total(inputs@),
            None => input_total(inputs@) > u64::MAX,
        },
{
    let mut total: u64 = 0;
    let mut i: usize = 0;
    assert(inputs@.take(0) =~= Seq::<InputSummary>::empty());
    while i < inputs.len()
        invariant
            i <= inputs.len(),
            total == input_total(inputs@.take(i as int)),
        decreases inputs.len() - i,
    {
        proof {
            assert(inputs@.take(i + 1).drop_last() =~= inputs@.take(i as int));
            lemma_input_total_take(inputs@, i + 1);
        }
        match total.checked_add(inputs[i].value) {
            Some(t) => {
                total = t;
            },
            None => {
                return None;
            },
        }
        i = i + 1;
    }
    assert(inputs@.take(i as int) =~= inputs@);
    Some(total)
}

/// Tells whether every input signals that the transaction can be replaced.
pub fn signals_replaceability(inputs: &Vec<InputSummary>) -> (ok: bool)
    ensures
        ok == all_replaceable(inputs@),
{
    let mut i: usize = 0;
    while i < inputs.len()
        invariant
            i <= inputs.len(),
            forall|j: int| 0 <= j < i ==> (#[trigger] inputs@[j]).sequence <= MAX_REPLACEABLE_SEQUENCE,
        decreases inputs.len() - i,
    {
        if inputs[i].sequence > MAX_REPLACEABLE_SEQUENCE {
            return false;
        }
        i = i + 1;
    }
    true
}

/// Finds the payment among the outputs of a built transaction.
pub fn find_payment(return_script: &Vec<u8>, metadata: &Option<Vec<u8>>, outputs: &Vec<OutputSummary>) -> (r:
    Option<usize>)
    ensures
        match r {
            Some(i) => payment_index(return_script@, payload_of(*metadata), outputs@) == Some(i as int),
            None => payment_index(return_script@, payload_of(*metadata), outputs@) is None,
        },
{
    match metadata {
        None => {
            if outputs.len() == 1 && bytes_equal(&outputs[0].script, return_script) {
                Some(0)
            } else {
                None
            }
        },
        Some(payload) => {
            if outputs.len() != 2 {
                return None;
            }
            let carrier = match data_carrier_script(payload) {
                Some(c) => c,
                None => {
                    return None;
                },
            };
            if bytes_equal(&outputs[0].script, return_script) && bytes_equal(
                &outputs[1].script,
                &carrier,
            ) && outputs[1].value == 0 {
                Some(0)
            } else if bytes_equal(&outputs[1].script, return_script) && bytes_equal(
                &outputs[0].script,
                &carrier,
            ) && outputs[0].value == 0 {
                Some(1)
            } else {
                None
            }
        },
    }
}

/// Decides whether a built transaction is the drain that the request asks
/// for: every input spent to the one payment, the carrier beside it where a
/// payload was given, replaceability signalled where asked for, and exactly
/// the fee of the asked rate for the weight that the fee was computed over.
/// That weight is the estimate that the skeleton holds; the fee is held to
/// the size of the signed transaction by `FeeRate::is_paid_within_one_unit`.
pub fn check_drain(request: &DrainTransactionRequest, skeleton: &TransactionSkeleton) -> (r: Result<
    DrainAmounts,
    BuildError,
>)
    ensures
        r == drain_verdict(*request, *skeleton),
{
    match &request.metadata {
        Some(p) => {
            if p.len() > MAX_CARRIER_PAYLOAD {
                return Err(BuildError::MetadataTooLong);
            }
        },
        None => {},
    }
    if skeleton.inputs.len() == 0 {
        return Err(BuildError::NoInputs);
    }
    let spent = match sum_inputs(&skeleton.inputs) {
        Some(s) => s,
        None => {
            return Err(BuildError::ValueOverflow);
        },
    };
    let at = match find_payment(&request.return_script, &request.metadata, &skeleton.outputs) {
        Some(i) => i,
        None => {
            return Err(BuildError::UnexpectedOutputs);
        },
    };
    if request.replace_by_fee && !signals_replaceability(&skeleton.inputs) {
        return Err(BuildError::NotReplaceable);
    }
    let amount = skeleton.outputs[at].value;
    hold_fee(spent, amount, drain_amounts(spent, request.fee_rate, skeleton.weight))
}

/// Holds the fee of a transaction that pays `amount` out of `spent` to what
/// a full drain of `spent` pays: the payment must be exactly the amount of
/// that drain, so that the fee is exactly its fee.
pub fn hold_fee(spent: u64, amount: u64, expected: Result<DrainAmounts, DrainError>) -> (r: Result<
    DrainAmounts,
    BuildError,
>)
    ensures
        r == fee_verdict(spent, amount, expected),
{
    if amount > spent {
        return Err(BuildError::Overspent);
    }
    match expected {
        Ok(due) => if amount == due.amount {
            Ok(due)
        } else if amount > due.amount {
            Err(BuildError::FeeTooLow { fee: spent - amount, required: due.fee })
        } else {
            Err(BuildError::FeeTooHigh { fee: spent - amount, required: due.fee })
        },
        Err(DrainError::FeeOverflow) => Err(BuildError::FeeOverflow),
        Err(DrainError::FeeExceedsValue { fee, value }) => if spent - amount < fee {
            Err(BuildError::FeeTooLow { fee: spent - amount, required: fee })
        } else {
            Err(BuildError::NothingLeft)
        },
    }
}

/// Reads an address and gives the script that it stands for.
///
/// Calls `Address::from_str` and `Address::script_pubkey` of the bitcoin
/// crate. The contract claims only that the script, or the refusal, is the
/// same on every call with the same text.
#[verifier::external_body]
fn script_of_address(address: &str) -> (r: Option<Vec<u8>>)
    ensures
        match r {
            Some(script) => address_script(address@) == Some(script@),
            None => address_script(address@) is None,
        },
{
    Address::from_str(address).ok().map(|a| a.script_pubkey().to_bytes())
}

impl DrainTransactionRequest {
    /// A request that pays to a script: the script of the return address, or
    /// nothing where the address cannot be read.
    pub fn paying_to(
        descriptor: ThresholdDescriptor,
        script: Option<Vec<u8>>,
        fee_rate: FeeRate,
        replace_by_fee: bool,
        metadata: Option<Vec<u8>>,
    ) -> (r: Result<DrainTransactionRequest, RequestError>)
        ensures
            match r {
                Ok(q) => {
                    &&& script matches Some(s) && q.return_script@ == s@
                    &&& q.descriptor == descriptor
                    &&& q.fee_rate == fee_rate
                    &&& q.replace_by_fee == replace_by_fee
                    &&& payload_of(q.metadata) == payload_of(metadata)
                },
                Err(e) => script is None && e == RequestError::BadAddress,
            },
    {
        match script {
            Some(return_script) => Ok(
                DrainTransactionRequest { descriptor, return_script, fee_rate, replace_by_fee, metadata },
            ),
            None => Err(RequestError::BadAddress),
        }
    }

    /// A request that drains a wallet to a return address.
    pub fn to_address(
        descriptor: ThresholdDescriptor,
        address: &str,
        fee_rate: FeeRate,
        replace_by_fee: bool,
        metadata: Option<Vec<u8>>,
    ) -> (r: Result<DrainTransactionRequest, RequestError>)
        ensures
            match r {
                Ok(q) => {
                    &&& address_script(address@) == Some(q.return_script@)
                    &&& q.descriptor == descriptor
                    &&& q.fee_rate == fee_rate
                    &&& q.replace_by_fee == replace_by_fee
                    &&& payload_of(q.metadata) == payload_of(metadata)
                },
                Err(e) => address_script(address@) is None && e == RequestError::BadAddress,
            },
    {
        let script = script_of_address(address);
        DrainTransactionRequest::paying_to(descriptor, script, fee_rate, replace_by_fee, metadata)
    }
}

/// An accepted drain is a full drain at the asked rate: it pays what
/// `drain_amounts` says for the value spent, so the payment and the fee add up
/// to the value spent and the fee is the rate times the virtual size, rounded
/// up by less than one unit.
pub proof fn lemma_accepted_drain_is_full(request: DrainTransactionRequest, skeleton: TransactionSkeleton)
    requires
        drain_verdict(request, skeleton) is Ok,
    ensures
        ({
            let a = drain_verdict(request, skeleton)->Ok_0;
            let spent = input_total(skeleton.inputs@);
            let rate = request.fee_rate.milli_per_vbyte;
            let vsize = vsize_of(skeleton.weight as nat);
            &&& spent <= u64::MAX
            &&& drained(spent as u64, rate, skeleton.weight) == Ok::<DrainAmounts, DrainError>(a)
            &&& a.amount + a.fee == spent
            &&& a.amount > 0
            &&& a.fee == fee_for(rate as nat, vsize)
            &&& rate * vsize <= 1000 * a.fee < rate * vsize + 1000
            &&& request.replace_by_fee ==> all_replaceable(skeleton.inputs@)
        }),
{
}

} // verus!

//! The stages of one drain: built, signed, finalized, extracted.
//!
//! The transaction travels as the bytes of a partially signed transaction.
//! Signing turns the unsigned artifact into a signed one in place, and the raw
//! transaction can be had from a signed artifact only where finalization
//! reported success.

use crate::drain::{check_drain, drain_verdict, BuildError, DrainTransactionRequest, TransactionSkeleton};
use crate::fee::DrainAmounts;
use bdk::bitcoin::consensus::encode::{deserialize, serialize};
use bdk::bitcoin::psbt::PartiallySignedTransaction;
use bdk::bitcoin::Transaction;
use vstd::prelude::*;
use vstd::string::*;

verus! {

/// The address under which a block explorer shows a testnet transaction,
/// without the transaction's identifier.
pub const TESTNET_EXPLORER: &'static str = "https://mempool.space/testnet/tx/";

/// How far a transaction artifact has come.
#[derive(Clone, Copy, Debug, PartialEq, Eq, Structural)]
pub enum Stage {
    /// Built and accepted, without signatures.
    Unsigned,
    /// A signing pass has run; `finalized` is what finalization reported.
    Signed { finalized: bool },
}

/// The transaction of one drain operation.
#[derive(Debug)]
pub struct TransactionArtifact {
    /// The partially signed transaction, in its binary encoding.
    pub psbt: Vec<u8>,
    /// What the transaction pays out and what it pays as fee.
    pub amounts: DrainAmounts,
    /// How many inputs the transaction has.
    pub inputs: usize,
    /// How many signatures each input needs.
    pub threshold: usize,
    pub stage: Stage,
}

/// What a signing pass did.
#[derive(Debug)]
pub struct SigningReport {
    /// How many signatures each input carries now, input by input.
    pub signatures: Vec<usize>,
    /// Whether finalization reported success.
    pub finalized: bool,
}

/// A transaction that can be broadcast.
#[derive(Debug)]
pub struct RawTransaction {
    /// The transaction in the network's encoding.
    pub bytes: Vec<u8>,
    /// The transaction's identifier, in its usual hexadecimal form.
    pub txid: String,
}

/// Why a stage of the pipeline refused to go on.
#[derive(Clone, Copy, Debug, PartialEq, Eq, Structural)]
pub enum PipelineError {
    /// A signing pass was recorded on an artifact that had one already.
    AlreadySigned,
    /// Extraction was asked of an artifact that no signing pass has run on.
    NotSigned,
    /// Extraction was asked of an artifact that finalization did not complete.
    NotFinalized,
    /// The bytes of the artifact are no transaction.
    Unreadable,
}

/// The raw transaction that a partially signed transaction holds, where the
/// bytes are one.
pub uninterp spec fn extracted_transaction(psbt: Seq<u8>) -> Option<Seq<u8>>;

/// The identifier of a raw transaction, where the bytes are one.
pub uninterp spec fn transaction_id_of(raw: Seq<u8>) -> Option<Seq<char>>;

/// Every input carries at least as many signatures as it needs.
pub open spec fn fully_signed(threshold: nat, inputs: nat, signatures: Seq<usize>) -> bool {
    &&& signatures.len() == inputs
    &&& forall|i: int| 0 <= i < signatures.len() ==> #[trigger] signatures[i] >= threshold
}

/// Whether a signing pass completed the transaction: finalization reported
/// success, and no input is short of a signature.
pub open spec fn completes(threshold: nat, inputs: nat, report: SigningReport) -> bool {
    report.finalized && fully_signed(threshold, inputs, report.signatures@)
}

/// Whether a stage lets the raw transaction out.
pub open spec fn release(stage: Stage) -> Result<(), PipelineError> {
    match stage {
        Stage::Unsigned => Err(PipelineError::NotSigned),
        Stage::Signed { finalized: false } => Err(PipelineError::NotFinalized),
        Stage::Signed { finalized: true } => Ok(()),
    }
}

/// `r` is the raw transaction made of what was extracted and identified, or
/// the error for what is missing.
pub open spec fn assembled(
    raw: Option<Seq<u8>>,
    txid: Option<Seq<char>>,
    r: Result<RawTransaction, PipelineError>,
) -> bool {
    match r {
        Ok(t) => raw == Some(t.bytes@) && txid == Some(t.txid@),
        Err(e) => e == PipelineError::Unreadable && (raw is None || txid is None),
    }
}

/// `r` is the outcome of extracting the raw transaction from an artifact.
pub open spec fn extracted(artifact: TransactionArtifact, r: Result<RawTransaction, PipelineError>) -> bool {
    match release(artifact.stage) {
        Err(e) => r matches Err(f) && f == e,
        Ok(_) => {
            let raw = extracted_transaction(artifact.psbt@);
            let txid = match raw {
                Some(bytes) => transaction_id_of(bytes),
                None => None,
            };
            assembled(raw, txid, r)
        },
    }
}

/// Takes the finished transaction out of a partially signed one.
///
/// Calls `deserialize`, `PartiallySignedTransaction::extract_tx` and
/// `serialize` of the bitcoin crate. The contract claims only that the bytes
/// that come out, or the refusal of bytes that are no partially signed
/// transaction, are the same on every call with the same bytes.
#[verifier::external_body]
fn extract_raw(psbt: &Vec<u8>) -> (r: Option<Vec<u8>>)
    ensures
        match r {
            Some(raw) => extracted_transaction(psbt@) == Some(raw@),
            None => extracted_transaction(psbt@) is None,
        },
{
    deserialize::<PartiallySignedTransaction>(psbt).ok().map(|p| serialize(&p.extract_tx()))
}

/// Computes the identifier of a raw transaction.
///
/// Calls `deserialize` and `Transaction::txid` of the bitcoin crate and
/// writes the identifier as text. The contract claims only that the
/// identifier, or the refusal of bytes that are no transaction, is the same
/// on every call with the same bytes.
#[verifier::external_body]
fn identify(raw: &Vec<u8>) -> (r: Option<String>)
    ensures
        match r {
            Some(txid) => transaction_id_of(raw@) == Some(txid@),
            None => transaction_id_of(raw@) is None,
        },
{
    deserialize::<Transaction>(raw).ok().map(|t| t.txid().to_string())
}

/// Tells whether every input carries at least as many signatures as it needs.
pub fn check_fully_signed(threshold: usize, inputs: usize, signatures: &Vec<usize>) -> (ok: bool)
    ensures
        ok == fully_signed(threshold as nat, inputs as nat, signatures@),
{
    if signatures.len() != inputs {
        return false;
    }
    let mut i: usize = 0;
    while i < signatures.len()
        invariant
            i <= signatures.len(),
            forall|j: int| 0 <= j < i ==> #[trigger] signatures@[j] >= threshold,
        decreases signatures.len() - i,
    {
        if signatures[i] < threshold {
            return false;
        }
        i = i + 1;
    }
    true
}

/// Tells whether a stage lets the raw transaction out: only a signing pass
/// that finalization completed does.
pub fn check_release(stage: Stage) -> (r: Result<(), PipelineError>)
    ensures
        r == release(stage),
{
    match stage {
        Stage::Unsigned => Err(PipelineError::NotSigned),
        Stage::Signed { finalized } => if finalized {
            Ok(())
        } else {
            Err(PipelineError::NotFinalized)
        },
    }
}

impl RawTransaction {
    /// The raw transaction made of its bytes and its identifier, where both
    /// could be had.
    pub fn from_parts(raw: Option<Vec<u8>>, txid: Option<String>) -> (r: Result<
        RawTransaction,
        PipelineError,
    >)
        ensures
            assembled(
                match raw {
                    Some(b) => Some(b@),
                    None => None,
                },
                match txid {
                    Some(t) => Some(t@),
                    None => None,
                },
                r,
            ),
    {
        match raw {
            Some(bytes) => match txid {
                Some(txid) => Ok(RawTransaction { bytes, txid }),
                None => Err(PipelineError::Unreadable),
            },
            None => Err(PipelineError::Unreadable),
        }
    }

    /// Where a block explorer shows this transaction: the explorer's address
    /// followed by the transaction's identifier.
    pub fn explorer_url(&self, explorer: &str) -> (url: String)
        ensures
            url@ == explorer@ + self.txid@,
    {
        let mut url = String::new();
        url.append(explorer);
        url.append(self.txid.as_str());
        url
    }
}

impl TransactionArtifact {
    /// Accepts a built transaction as the unsigned artifact of a request, where
    /// it is the drain that the request asks for.
    pub fn accept(request: &DrainTransactionRequest, skeleton: &TransactionSkeleton, psbt: Vec<u8>) -> (r:
        Result<TransactionArtifact, BuildError>)
        ensures
            match r {
                Ok(a) => {
                    &&& drain_verdict(*request, *skeleton) == Ok::<DrainAmounts, BuildError>(a.amounts)
                    &&& a.psbt@ == psbt@
                    &&& a.inputs == skeleton.inputs@.len()
                    &&& a.threshold == request.descriptor.threshold
                    &&& a.stage == Stage::Unsigned
                },
                Err(e) => drain_verdict(*request, *skeleton) == Err::<DrainAmounts, BuildError>(e),
            },
    {
        match check_drain(request, skeleton) {
            Ok(amounts) => Ok(
                TransactionArtifact {
                    psbt,
                    amounts,
                    inputs: skeleton.inputs.len(),
                    threshold: request.descriptor.threshold,
                    stage: Stage::Unsigned,
                },
            ),
            Err(e) => Err(e),
        }
    }

    /// Whether finalization has reported success on this artifact.
    pub open spec fn finalized(&self) -> bool {
        self.stage == (Stage::Signed { finalized: true })
    }

    /// Whether finalization has reported success on this artifact.
    pub fn is_finalized(&self) -> (b: bool)
        ensures
            b == self.finalized(),
    {
        match self.stage {
            Stage::Unsigned => false,
            Stage::Signed { finalized } => finalized,
        }
    }

    /// Records a signing pass: the artifact takes the signed bytes and is
    /// finalized where finalization reported success and every input carries
    /// the signatures it needs; the result says which. Signing is all or
    /// nothing: one input short of a signature leaves the whole transaction
    /// unfinalized. An artifact is signed once; on a second pass nothing
    /// changes.
    pub fn record_signing(&mut self, signed_psbt: Vec<u8>, report: &SigningReport) -> (r: Result<
        bool,
        PipelineError,
    >)
        ensures
            final(self).amounts == old(self).amounts,
            final(self).inputs == old(self).inputs,
            final(self).threshold == old(self).threshold,
            match old(self).stage {
                Stage::Unsigned => {
                    let finalized = completes(old(self).threshold as nat, old(self).inputs as nat, *report);
                    &&& r == Ok::<bool, PipelineError>(finalized)
                    &&& final(self).psbt@ == signed_psbt@
                    &&& final(self).stage == Stage::Signed { finalized }
                },
                Stage::Signed { .. } => {
                    &&& r == Err::<bool, PipelineError>(PipelineError::AlreadySigned)
                    &&& final(self).psbt@ == old(self).psbt@
                    &&& final(self).stage == old(self).stage
                },
            },
    {
        match self.stage {
            Stage::Unsigned => {
                let finalized = report.finalized && check_fully_signed(
                    self.threshold,
                    self.inputs,
                    &report.signatures,
                );
                self.psbt = signed_psbt;
                self.stage = Stage::Signed { finalized };
                Ok(finalized)
            },
            Stage::Signed { .. } => Err(PipelineError::AlreadySigned),
        }
    }

    /// Extracts the raw transaction. An artifact that finalization did not
    /// complete gives an error and never a transaction.
    pub fn extract(&self) -> (r: Result<RawTransaction, PipelineError>)
        ensures
            extracted(*self, r),
            !self.finalized() ==> r is Err,
    {
        match check_release(self.stage) {
            Err(e) => Err(e),
            Ok(_) => {
                let raw = extract_raw(&self.psbt);
                let txid = match &raw {
                    Some(bytes) => identify(bytes),
                    None => None,
                };
                RawTransaction::from_parts(raw, txid)
            },
        }
    }
}

/// No transaction leaves an artifact that is not finalized: whatever the
/// bytes hold, extraction from an unsigned artifact or from one whose
/// finalization failed is an error.
pub proof fn lemma_no_extraction_without_finalization(
    artifact: TransactionArtifact,
    r: Result<RawTransaction, PipelineError>,
)
    requires
        extracted(artifact, r),
        !artifact.finalized(),
    ensures
        r is Err,
        r == Err::<RawTransaction, PipelineError>(PipelineError::NotSigned) || r == Err::<
            RawTransaction,
            PipelineError,
        >(PipelineError::NotFinalized),
{
}

/// Signing is all or nothing: a report with an input that is short of a
/// signature completes nothing, whatever finalization said.
pub proof fn lemma_short_input_blocks(threshold: nat, inputs: nat, report: SigningReport, short: int)
    requires
        0 <= short < report.signatures@.len(),
        report.signatures@[short] < threshold,
    ensures
        !completes(threshold, inputs, report),
{
}

/// The raw transaction is released by exactly one stage: a signing pass that
/// finalization completed.
pub proof fn lemma_release_needs_finalization(stage: Stage)
    ensures
        release(stage) is Ok <==> stage == (Stage::Signed { finalized: true }),
{
}

} // verus!

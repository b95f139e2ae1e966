use bdk::bitcoin::consensus::encode::serialize;
use bdk::bitcoin::psbt::PartiallySignedTransaction;
use bdk::bitcoin::{OutPoint, PackedLockTime, Script, Sequence, Transaction, TxIn, TxOut, Witness};
use std::str::FromStr;
use tabwallet::drain::{BuildError, DrainTransactionRequest, InputSummary, OutputSummary, TransactionSkeleton};
use tabwallet::descriptor::ThresholdDescriptor;
use tabwallet::fee::{DrainAmounts, FeeRate};
use tabwallet::network::Network;
use tabwallet::pipeline::{
    check_fully_signed, check_release, PipelineError, RawTransaction, SigningReport, Stage,
    TransactionArtifact, TESTNET_EXPLORER,
};

const RETURN_SCRIPT: [u8; 22] = [
    0, 20, 255, 157, 165, 103, 230, 47, 48, 234, 134, 84, 250, 29, 95, 189, 71, 190, 248, 227, 190, 19,
];

fn unsigned_transaction() -> Transaction {
    Transaction {
        version: 2,
        lock_time: PackedLockTime(0),
        input: vec![TxIn {
            previous_output: OutPoint::from_str(
                "4a5e1e4baab89f3a32518a88c31bc87f618f76673e2cc77ab2127b7afdeda33b:1",
            )
            .unwrap(),
            script_sig: Script::new(),
            sequence: Sequence(0xffff_fffd),
            witness: Witness::new(),
        }],
        output: vec![TxOut { value: 19823, script_pubkey: Script::from(RETURN_SCRIPT.to_vec()) }],
    }
}

fn witness() -> Witness {
    Witness::from_vec(vec![vec![7u8; 64], vec![0x51]])
}

fn unsigned_psbt() -> Vec<u8> {
    serialize(&PartiallySignedTransaction::from_unsigned_tx(unsigned_transaction()).unwrap())
}

fn finalized_psbt() -> Vec<u8> {
    let mut psbt = PartiallySignedTransaction::from_unsigned_tx(unsigned_transaction()).unwrap();
    psbt.inputs[0].final_script_witness = Some(witness());
    serialize(&psbt)
}

fn report(signatures: &[usize], finalized: bool) -> SigningReport {
    SigningReport { signatures: signatures.to_vec(), finalized }
}

fn accepted() -> TransactionArtifact {
    let request = DrainTransactionRequest {
        descriptor: ThresholdDescriptor {
            text: "tr(key)".to_string(),
            threshold: 3,
            key_count: 4,
            network: Network::Testnet,
        },
        return_script: RETURN_SCRIPT.to_vec(),
        fee_rate: FeeRate::from_milli_per_vbyte(1250),
        replace_by_fee: true,
        metadata: None,
    };
    let skeleton = TransactionSkeleton {
        inputs: vec![InputSummary { value: 20000, sequence: 0xffff_fffd }],
        outputs: vec![OutputSummary { value: 19823, script: RETURN_SCRIPT.to_vec() }],
        weight: 561,
    };
    TransactionArtifact::accept(&request, &skeleton, unsigned_psbt()).unwrap()
}

#[test]
fn built_transaction_is_accepted_unsigned() {
    let a = accepted();
    assert_eq!(a.stage, Stage::Unsigned);
    assert_eq!(a.amounts, DrainAmounts { amount: 19823, fee: 177 });
    assert_eq!(a.psbt, unsigned_psbt());
    assert_eq!((a.inputs, a.threshold), (1, 3));
    assert!(!a.is_finalized());
}

#[test]
fn built_transaction_that_is_no_drain_is_refused() {
    let request = DrainTransactionRequest {
        descriptor: ThresholdDescriptor {
            text: "tr(key)".to_string(),
            threshold: 3,
            key_count: 4,
            network: Network::Testnet,
        },
        return_script: RETURN_SCRIPT.to_vec(),
        fee_rate: FeeRate::from_milli_per_vbyte(1250),
        replace_by_fee: true,
        metadata: None,
    };
    let skeleton = TransactionSkeleton {
        inputs: vec![InputSummary { value: 20000, sequence: 0xffff_fffd }],
        outputs: vec![OutputSummary { value: 19900, script: RETURN_SCRIPT.to_vec() }],
        weight: 561,
    };
    let r = TransactionArtifact::accept(&request, &skeleton, unsigned_psbt());
    assert_eq!(r.err(), Some(BuildError::FeeTooLow { fee: 100, required: 177 }));
}

#[test]
fn release_only_after_finalization() {
    assert_eq!(check_release(Stage::Unsigned), Err(PipelineError::NotSigned));
    assert_eq!(check_release(Stage::Signed { finalized: false }), Err(PipelineError::NotFinalized));
    assert_eq!(check_release(Stage::Signed { finalized: true }), Ok(()));
}

#[test]
fn unsigned_artifact_gives_no_transaction() {
    let mut a = accepted();
    assert_eq!(a.extract().err(), Some(PipelineError::NotSigned));
    // not even where its bytes hold a complete transaction
    a.psbt = finalized_psbt();
    assert_eq!(a.extract().err(), Some(PipelineError::NotSigned));
}

#[test]
fn unfinalized_artifact_gives_no_transaction() {
    let mut a = accepted();
    assert_eq!(a.record_signing(finalized_psbt(), &report(&[3], false)), Ok(false));
    assert_eq!(a.stage, Stage::Signed { finalized: false });
    assert!(!a.is_finalized());
    assert_eq!(a.extract().err(), Some(PipelineError::NotFinalized));
    // and a second pass cannot talk it into one
    assert_eq!(a.record_signing(finalized_psbt(), &report(&[3], true)), Err(PipelineError::AlreadySigned));
    assert_eq!(a.stage, Stage::Signed { finalized: false });
    assert_eq!(a.extract().err(), Some(PipelineError::NotFinalized));
}

#[test]
fn signing_is_all_or_nothing() {
    assert!(check_fully_signed(3, 2, &vec![3, 4]));
    assert!(check_fully_signed(0, 0, &vec![]));
    assert!(!check_fully_signed(3, 2, &vec![3, 2]));
    assert!(!check_fully_signed(3, 2, &vec![2, 3]));
    assert!(!check_fully_signed(3, 2, &vec![3]));
    assert!(!check_fully_signed(3, 2, &vec![3, 3, 3]));
    // one signature short, whatever finalization said
    let mut a = accepted();
    assert_eq!(a.record_signing(finalized_psbt(), &report(&[2], true)), Ok(false));
    assert_eq!(a.extract().err(), Some(PipelineError::NotFinalized));
    // a report that is not about this transaction's inputs
    let mut b = accepted();
    assert_eq!(b.record_signing(finalized_psbt(), &report(&[3, 3], true)), Ok(false));
    assert_eq!(b.extract().err(), Some(PipelineError::NotFinalized));
    let mut c = accepted();
    assert_eq!(c.record_signing(finalized_psbt(), &report(&[], true)), Ok(false));
    assert_eq!(c.extract().err(), Some(PipelineError::NotFinalized));
}

#[test]
fn finalized_artifact_gives_the_raw_transaction() {
    let mut a = accepted();
    assert_eq!(a.record_signing(finalized_psbt(), &report(&[3], true)), Ok(true));
    assert!(a.is_finalized());
    assert_eq!(a.psbt, finalized_psbt());
    assert_eq!(a.amounts, DrainAmounts { amount: 19823, fee: 177 });
    let raw = a.extract().unwrap();
    let mut expected = unsigned_transaction();
    expected.input[0].witness = witness();
    assert_eq!(raw.bytes, serialize(&expected));
    assert_ne!(raw.bytes, a.psbt);
    assert_eq!(raw.txid, expected.txid().to_string());
    assert_eq!(raw.txid.len(), 64);
    assert_eq!(a.record_signing(unsigned_psbt(), &report(&[3], false)), Err(PipelineError::AlreadySigned));
    assert!(a.is_finalized());
}

#[test]
fn bytes_that_are_no_transaction_are_refused() {
    let mut a = accepted();
    assert_eq!(a.record_signing(vec![1, 2, 3], &report(&[3], true)), Ok(true));
    assert_eq!(a.extract().err(), Some(PipelineError::Unreadable));
    let mut b = accepted();
    assert_eq!(b.record_signing(serialize(&unsigned_transaction()), &report(&[5], true)), Ok(true));
    assert_eq!(b.extract().err(), Some(PipelineError::Unreadable));
}

#[test]
fn raw_transaction_of_its_parts() {
    let t = RawTransaction::from_parts(Some(vec![1, 2]), Some("ab".to_string())).unwrap();
    assert_eq!((t.bytes.clone(), t.txid.as_str()), (vec![1, 2], "ab"));
    assert_eq!(RawTransaction::from_parts(None, Some("ab".to_string())).err(), Some(PipelineError::Unreadable));
    assert_eq!(RawTransaction::from_parts(Some(vec![1]), None).err(), Some(PipelineError::Unreadable));
    assert_eq!(RawTransaction::from_parts(None, None).err(), Some(PipelineError::Unreadable));
    assert_eq!(t.explorer_url(TESTNET_EXPLORER), "https://mempool.space/testnet/tx/ab");
    assert_eq!(t.explorer_url(""), "ab");
}

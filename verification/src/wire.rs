//! The boundary to rust-bitcoin.
//!
//! Everything here that is not verified is a call into that crate on plain values,
//! together with the conversion of those values. What such a call returns is given a name; the
//! contracts of the library speak of these names.
use vstd::prelude::*;

use ::payjoin::bitcoin::absolute::LockTime;
use ::payjoin::bitcoin::bip32::ChildNumber;
use ::payjoin::bitcoin::bip32::DerivationPath;
use ::payjoin::bitcoin::bip32::Fingerprint;
use ::payjoin::bitcoin::bip32::KeySource;
use ::payjoin::bitcoin::consensus::encode;
use ::payjoin::bitcoin::ecdsa::Signature;
use ::payjoin::bitcoin::psbt::Input as BitcoinInput;
use ::payjoin::bitcoin::psbt::Output as BitcoinOutput;
use ::payjoin::bitcoin::psbt::Psbt as BitcoinPsbt;
use ::payjoin::bitcoin::secp256k1;
use ::payjoin::bitcoin::transaction::Version;
use ::payjoin::bitcoin::Amount;
use ::payjoin::bitcoin::OutPoint as BitcoinOutPoint;
use ::payjoin::bitcoin::PublicKey;
use ::payjoin::bitcoin::ScriptBuf;
use ::payjoin::bitcoin::Sequence;
use ::payjoin::bitcoin::Transaction as BitcoinTransaction;
use ::payjoin::bitcoin::TxIn as BitcoinTxIn;
use ::payjoin::bitcoin::TxOut as BitcoinTxOut;
use ::payjoin::bitcoin::Witness;
use std::str::FromStr;

use crate::psbt::{Input, KeyOrigin, OutPoint, PartialSig, Psbt, Transaction, TxIn, TxOut};
use crate::psbt::{psbt_view, PsbtView, TransactionView};

verus! {

#[verifier::external_type_specification]
#[verifier::external_body]
pub struct ExBitcoinTransaction(BitcoinTransaction);

#[verifier::external_type_specification]
#[verifier::external_body]
pub struct ExBitcoinTxIn(BitcoinTxIn);

#[verifier::external_type_specification]
#[verifier::external_body]
pub struct ExBitcoinTxOut(BitcoinTxOut);

#[verifier::external_type_specification]
#[verifier::external_body]
pub struct ExBitcoinInput(BitcoinInput);

#[verifier::external_type_specification]
#[verifier::external_body]
pub struct ExBitcoinPsbt(BitcoinPsbt);

#[verifier::external_type_specification]
#[verifier::external_body]
pub struct ExBitcoinOutput(BitcoinOutput);

#[verifier::external_type_specification]
#[verifier::external_body]
pub struct ExPublicKey(PublicKey);

#[verifier::external_type_specification]
#[verifier::external_body]
pub struct ExSignature(Signature);

#[verifier::external_type_specification]
#[verifier::external_body]
pub struct ExSecpPublicKey(secp256k1::PublicKey);

#[verifier::external_type_specification]
#[verifier::external_body]
pub struct ExFingerprint(Fingerprint);

#[verifier::external_type_specification]
#[verifier::external_body]
pub struct ExDerivationPath(DerivationPath);

/// The id of a transaction: what `bitcoin::Transaction::compute_txid` returns, as bytes.
pub uninterp spec fn txid_of(tx: TransactionView) -> Seq<u8>;

/// A transaction in its network serialization: what `bitcoin::consensus::encode::serialize`
/// returns.
pub uninterp spec fn transaction_bytes(tx: TransactionView) -> Seq<u8>;

/// The same serialization in hexadecimal: what `bitcoin::consensus::encode::serialize_hex`
/// returns.
pub uninterp spec fn transaction_hex(tx: TransactionView) -> Seq<char>;

/// The PSBT that `bitcoin::Psbt` reads from a base64 text, or `None` where it reports an error.
pub uninterp spec fn psbt_parsed(text: Seq<char>) -> Option<PsbtView>;

/// The base64 text that `bitcoin::Psbt` prints, or `None` where rust-bitcoin does not read the
/// fields of the PSBT.
pub uninterp spec fn psbt_text(psbt: PsbtView) -> Option<Seq<char>>;

/// Converts a transaction input to rust-bitcoin's type, field by field.
#[verifier::external_body]
pub(crate) fn txin_into(txin: &TxIn) -> BitcoinTxIn {
    BitcoinTxIn {
        previous_output: BitcoinOutPoint::new(::payjoin::bitcoin::hashes::Hash::from_byte_array(txin.previous_output.txid), txin.previous_output.vout),
        script_sig: ScriptBuf::from_bytes(txin.script_sig.clone()),
        sequence: Sequence(txin.sequence),
        witness: Witness::from_slice(&txin.witness),
    }
}

/// Converts a transaction output to rust-bitcoin's type, field by field.
#[verifier::external_body]
fn txout_into(out: &TxOut) -> BitcoinTxOut {
    BitcoinTxOut { value: Amount::from_sat(out.value), script_pubkey: ScriptBuf::from_bytes(out.script_pubkey.clone()) }
}

/// Converts a transaction output from rust-bitcoin's type, field by field.
#[verifier::external_body]
fn txout_from(out: &BitcoinTxOut) -> TxOut {
    TxOut { value: out.value.to_sat(), script_pubkey: out.script_pubkey.to_bytes() }
}

/// Converts a transaction to rust-bitcoin's type, field by field.
#[verifier::external_body]
fn transaction_into(tx: &Transaction) -> BitcoinTransaction {
    BitcoinTransaction {
        version: Version(tx.version),
        lock_time: LockTime::from_consensus(tx.lock_time),
        input: tx.input.iter().map(|i| txin_into(i)).collect(),
        output: tx.output.iter().map(|out| txout_into(out)).collect(),
    }
}

/// Converts a transaction from rust-bitcoin's type, field by field.
#[verifier::external_body]
fn transaction_from(tx: &BitcoinTransaction) -> Transaction {
    Transaction {
        version: tx.version.0,
        lock_time: tx.lock_time.to_consensus_u32(),
        input: tx.input.iter().map(|i| TxIn {
            previous_output: OutPoint { txid: ::payjoin::bitcoin::hashes::Hash::to_byte_array(i.previous_output.txid), vout: i.previous_output.vout },
            script_sig: i.script_sig.to_bytes(),
            sequence: i.sequence.0,
            witness: i.witness.to_vec(),
        }).collect(),
        output: tx.output.iter().map(|out| txout_from(out)).collect(),
    }
}

/// Calls `clone` on a `bitcoin::psbt::Input`. The copy is equal.
pub assume_specification[ <BitcoinInput as Clone>::clone ](input: &BitcoinInput) -> (copy: BitcoinInput)
    ensures
        copy == *input,
;

/// Calls `clone` on a `bitcoin::psbt::Output`. The copy is equal.
pub assume_specification[ <BitcoinOutput as Clone>::clone ](output: &BitcoinOutput) -> (copy: BitcoinOutput)
    ensures
        copy == *output,
;

/// Calls `clone` on a `bitcoin::Psbt`. The copy is equal.
pub assume_specification[ <BitcoinPsbt as Clone>::clone ](psbt: &BitcoinPsbt) -> (copy: BitcoinPsbt)
    ensures
        copy == *psbt,
;

/// Converts a signature and its key from rust-bitcoin's types.
#[verifier::external_body]
fn partial_sig_from(sig: (PublicKey, Signature)) -> PartialSig {
    PartialSig { key: sig.0.to_bytes(), signature: sig.1.to_vec() }
}

/// Converts a key and its derivation from rust-bitcoin's types.
#[verifier::external_body]
fn key_origin_from(origin: (secp256k1::PublicKey, KeySource)) -> KeyOrigin {
    let (key, (fingerprint, path)) = origin;
    KeyOrigin { key: key.serialize().to_vec(), fingerprint: fingerprint.to_bytes(), path: path.to_u32_vec() }
}

/// Converts an input map from rust-bitcoin's type, field by field.
#[verifier::external_body]
fn input_from(input: &BitcoinInput) -> Input {
    let mut other = input.clone();
    Input {
        non_witness_utxo: other.non_witness_utxo.take().map(|tx| encode::serialize(&tx)),
        witness_utxo: other.witness_utxo.take().map(|out| txout_from(&out)),
        partial_sigs: std::mem::take(&mut other.partial_sigs).into_iter().map(|sig| partial_sig_from(sig)).collect(),
        witness_script: other.witness_script.take().map(|script| script.to_bytes()),
        bip32_derivation: std::mem::take(&mut other.bip32_derivation).into_iter().map(|origin| key_origin_from(origin)).collect(),
        final_script_sig: other.final_script_sig.take().map(|script| script.to_bytes()),
        final_script_witness: other.final_script_witness.take().map(|witness| witness.to_vec()),
        other: Some(other),
    }
}

/// Converts a signature and its key to rust-bitcoin's types; `None` where rust-bitcoin does not
/// read their bytes.
#[verifier::external_body]
fn partial_sig_into(sig: &PartialSig) -> Option<(PublicKey, Signature)> {
    Some((PublicKey::from_slice(&sig.key).ok()?, Signature::from_slice(&sig.signature).ok()?))
}

/// Converts a key and its derivation to rust-bitcoin's types; `None` where rust-bitcoin does not
/// read the bytes of the key.
#[verifier::external_body]
fn key_origin_into(origin: &KeyOrigin) -> Option<(secp256k1::PublicKey, KeySource)> {
    let path: Vec<ChildNumber> = origin.path.iter().map(|step| ChildNumber::from(*step)).collect();
    let key = secp256k1::PublicKey::from_slice(&origin.key).ok()?;
    Some((key, (Fingerprint::from(origin.fingerprint), DerivationPath::from(path))))
}

/// Converts an input map to rust-bitcoin's type, field by field; `None` where rust-bitcoin does
/// not read the bytes of some field.
#[verifier::external_body]
pub(crate) fn input_into(input: &Input) -> Option<BitcoinInput> {
    let non_witness_utxo = input.non_witness_utxo.as_ref().map(|tx| encode::deserialize(tx));
    Some(BitcoinInput {
        non_witness_utxo: non_witness_utxo.transpose().ok()?,
        witness_utxo: input.witness_utxo.as_ref().map(|out| txout_into(out)),
        partial_sigs: input.partial_sigs.iter().map(|sig| partial_sig_into(sig)).collect::<Option<_>>()?,
        witness_script: input.witness_script.clone().map(ScriptBuf::from_bytes),
        bip32_derivation: input.bip32_derivation.iter().map(|origin| key_origin_into(origin)).collect::<Option<_>>()?,
        final_script_sig: input.final_script_sig.clone().map(ScriptBuf::from_bytes),
        final_script_witness: input.final_script_witness.as_ref().map(|witness| Witness::from_slice(witness)),
        ..input.other.clone().unwrap_or_default()
    })
}

/// Converts a PSBT from rust-bitcoin's type, field by field.
#[verifier::external_body]
pub(crate) fn psbt_from(psbt: &BitcoinPsbt) -> Psbt {
    let tx = BitcoinTransaction { version: Version::ONE, lock_time: LockTime::ZERO, input: Vec::new(), output: Vec::new() };
    Psbt {
        unsigned_tx: transaction_from(&psbt.unsigned_tx),
        inputs: psbt.inputs.iter().map(|input| input_from(input)).collect(),
        outputs: psbt.outputs.iter().cloned().map(Some).collect(),
        other: Some(BitcoinPsbt { unsigned_tx: tx, inputs: Vec::new(), outputs: Vec::new(), ..psbt.clone() }),
    }
}

/// Converts a PSBT to rust-bitcoin's type, field by field; `None` where the unsigned transaction
/// holds a signature or rust-bitcoin does not read the bytes of some field.
#[verifier::external_body]
pub(crate) fn psbt_into(psbt: &Psbt) -> Option<BitcoinPsbt> {
    let blank = BitcoinPsbt::from_unsigned_tx(transaction_into(&psbt.unsigned_tx)).ok()?;
    Some(BitcoinPsbt {
        unsigned_tx: blank.unsigned_tx.clone(),
        inputs: psbt.inputs.iter().map(|input| input_into(input)).collect::<Option<_>>()?,
        outputs: psbt.outputs.iter().map(|output| output.clone().unwrap_or_default()).collect(),
        ..psbt.other.clone().unwrap_or(blank)
    })
}

/// Calls `bitcoin::Transaction::compute_txid`. The id is a function of the transaction.
#[verifier::external_body]
pub(crate) fn compute_txid(tx: &Transaction) -> (txid: [u8; 32])
    ensures
        txid@ == txid_of(tx@),
{
    ::payjoin::bitcoin::hashes::Hash::to_byte_array(transaction_into(tx).compute_txid())
}

/// Calls `bitcoin::consensus::encode::serialize` on a transaction. The bytes are a function of
/// the transaction.
#[verifier::external_body]
pub(crate) fn serialize(tx: &Transaction) -> (bytes: Vec<u8>)
    ensures
        bytes@ == transaction_bytes(tx@),
{
    encode::serialize(&transaction_into(tx))
}

/// Calls `bitcoin::consensus::encode::serialize_hex` on a transaction. The text is a function of
/// the transaction.
#[verifier::external_body]
pub(crate) fn serialize_hex(tx: &Transaction) -> (hex: String)
    ensures
        hex@ == transaction_hex(tx@),
{
    encode::serialize_hex(&transaction_into(tx))
}

/// Calls `bitcoin::Psbt::from_str`. What is read is a function of the text, and each of its
/// transaction inputs and outputs has its map.
#[verifier::external_body]
pub(crate) fn parse_psbt(text: &str) -> (psbt: Option<Psbt>)
    ensures
        psbt_view(psbt) == psbt_parsed(text@),
        psbt matches Some(psbt) ==> psbt@.well_formed(),
{
    BitcoinPsbt::from_str(text).ok().map(|psbt| psbt_from(&psbt))
}

/// Prints a `bitcoin::Psbt` with its `Display`. The text is a function of the PSBT.
#[verifier::external_body]
pub(crate) fn print_psbt(psbt: &Psbt) -> (text: Option<String>)
    requires
        psbt@.well_formed(),
    ensures
        match text {
            Some(text) => psbt_text(psbt@) == Some(text@),
            None => psbt_text(psbt@) is None,
        },
{
    psbt_into(psbt).map(|psbt| psbt.to_string())
}

} // verus!

use std::collections::BTreeMap;
use std::str::FromStr;

use payjoin::bitcoin;

use lianad_payjoin::psbt::{Input, KeyOrigin, OutPoint, PartialSig, Psbt, Transaction, TxIn, TxOut};

fn txid(bytes: [u8; 32]) -> bitcoin::Txid {
    bitcoin::hashes::Hash::from_byte_array(bytes)
}

fn key() -> bitcoin::PublicKey {
    bitcoin::PublicKey::from_str(
        "0279be667ef9dcbbac55a06295ce870b07029bfcdb2dce28d959f2815b16f81798",
    )
    .unwrap()
}

/// A signature that can be read, which is not checked.
fn signature() -> bitcoin::ecdsa::Signature {
    let secret = bitcoin::secp256k1::SecretKey::from_slice(&[1; 32]).unwrap();
    let message = bitcoin::secp256k1::Message::from_digest([2; 32]);
    let secp = bitcoin::secp256k1::Secp256k1::new();
    bitcoin::ecdsa::Signature::sighash_all(secp.sign_ecdsa(&message, &secret))
}

/// Two inputs, of which one is finalized, and one output.
fn bitcoin_psbt() -> bitcoin::Psbt {
    let tx = bitcoin::Transaction {
        version: bitcoin::transaction::Version::TWO,
        lock_time: bitcoin::absolute::LockTime::from_consensus(1_257_139),
        input: vec![
            bitcoin::TxIn {
                previous_output: bitcoin::OutPoint::new(txid([7; 32]), 3),
                sequence: bitcoin::Sequence(0xFFFF_FFFE),
                ..Default::default()
            },
            bitcoin::TxIn {
                previous_output: bitcoin::OutPoint::new(txid([9; 32]), 0),
                ..Default::default()
            },
        ],
        output: vec![bitcoin::TxOut {
            value: bitcoin::Amount::from_sat(99_999_699),
            script_pubkey: bitcoin::ScriptBuf::from_bytes(vec![0x51]),
        }],
    };
    let previous = tx.clone();
    let mut psbt = bitcoin::Psbt::from_unsigned_tx(tx).unwrap();
    let key = key();
    let path = bitcoin::bip32::DerivationPath::from_str("m/48h/1h/0h/2h/0/7").unwrap();
    let mut derivation = BTreeMap::new();
    derivation.insert(key.inner, (bitcoin::bip32::Fingerprint::from([1, 2, 3, 4]), path));
    psbt.inputs[0].non_witness_utxo = Some(previous);
    psbt.inputs[0].witness_utxo = Some(bitcoin::TxOut {
        value: bitcoin::Amount::from_sat(12),
        script_pubkey: bitcoin::ScriptBuf::from_bytes(vec![0x52, 0x53]),
    });
    psbt.inputs[0].witness_script = Some(bitcoin::ScriptBuf::from_bytes(vec![0x54]));
    psbt.inputs[0].redeem_script = Some(bitcoin::ScriptBuf::from_bytes(vec![0x55]));
    psbt.inputs[0].bip32_derivation = derivation.clone();
    psbt.inputs[1].final_script_sig = Some(bitcoin::ScriptBuf::from_bytes(vec![0x56]));
    psbt.inputs[1].final_script_witness = Some(bitcoin::Witness::from_slice(&[vec![1u8], vec![2, 3]]));
    psbt.outputs[0].bip32_derivation = derivation;
    psbt.unknown.insert(
        bitcoin::psbt::raw::Key { type_value: 0xF0, key: vec![1] },
        vec![2, 3],
    );
    psbt
}

#[test]
fn text_is_read_field_by_field() {
    let psbt = Psbt::from_text(&bitcoin_psbt().to_string()).unwrap();
    assert_eq!(psbt.unsigned_tx.version, 2);
    assert_eq!(psbt.unsigned_tx.lock_time, 1_257_139);
    assert_eq!(psbt.unsigned_tx.input.len(), 2);
    assert_eq!(psbt.unsigned_tx.input[0].previous_output, OutPoint { txid: [7; 32], vout: 3 });
    assert_eq!(psbt.unsigned_tx.input[0].sequence, 0xFFFF_FFFE);
    assert_eq!(psbt.unsigned_tx.output, vec![TxOut { value: 99_999_699, script_pubkey: vec![0x51] }]);
    assert_eq!(psbt.inputs.len(), 2);
    let first = &psbt.inputs[0];
    let previous = bitcoin::consensus::encode::serialize(&bitcoin_psbt().unsigned_tx);
    assert_eq!(first.non_witness_utxo, Some(previous));
    assert_eq!(first.witness_utxo, Some(TxOut { value: 12, script_pubkey: vec![0x52, 0x53] }));
    assert_eq!(first.witness_script, Some(vec![0x54]));
    assert!(first.partial_sigs.is_empty());
    let rest = bitcoin::psbt::Input {
        redeem_script: Some(bitcoin::ScriptBuf::from_bytes(vec![0x55])),
        ..Default::default()
    };
    assert_eq!(first.other, Some(rest));
    let hardened = 0x8000_0000;
    let origin = KeyOrigin {
        key: key().to_bytes(),
        fingerprint: [1, 2, 3, 4],
        path: vec![hardened + 48, hardened + 1, hardened, hardened + 2, 0, 7],
    };
    assert_eq!(first.bip32_derivation, vec![origin]);
    assert_eq!(first.final_script_sig, None);
    let second = &psbt.inputs[1];
    assert_eq!(second.final_script_sig, Some(vec![0x56]));
    assert_eq!(second.final_script_witness, Some(vec![vec![1], vec![2, 3]]));
    assert!(second.bip32_derivation.is_empty());
    assert_eq!(second.other, Some(Default::default()));
    assert_eq!(psbt.outputs, vec![Some(bitcoin_psbt().outputs[0].clone())]);
    let other = psbt.other.unwrap();
    assert_eq!(other.unknown, bitcoin_psbt().unknown);
    assert!(other.inputs.is_empty());
    assert!(other.outputs.is_empty());
}

#[test]
fn text_survives_being_read_and_printed() {
    let text = bitcoin_psbt().to_string();
    let psbt = Psbt::from_text(&text).unwrap();
    assert_eq!(psbt.to_text(), Some(text.clone()));
    assert_eq!(Psbt::from_text(&text), Some(psbt));
}

#[test]
fn malformed_text_is_not_read() {
    assert_eq!(Psbt::from_text(""), None);
    assert_eq!(Psbt::from_text("cHNidP8="), None);
    assert_eq!(Psbt::from_text("not a psbt"), None);
}

#[test]
fn partial_signatures_are_kept() {
    let mut sent = bitcoin_psbt();
    sent.inputs[1].partial_sigs.insert(key(), signature());
    let psbt = Psbt::from_text(&sent.to_string()).unwrap();
    let expected = PartialSig { key: key().to_bytes(), signature: signature().to_vec() };
    assert_eq!(psbt.inputs[1].partial_sigs, vec![expected]);
    assert_eq!(psbt.to_text(), Some(sent.to_string()));
}

#[test]
fn maps_that_were_never_given_are_printed_as_empty() {
    let mut psbt = Psbt::from_text(&bitcoin_psbt().to_string()).unwrap();
    psbt.inputs[1] = Input::default();
    psbt.outputs[0] = None;
    psbt.other = None;
    let mut expected = bitcoin_psbt();
    expected.inputs[1] = Default::default();
    expected.outputs[0] = Default::default();
    expected.unknown.clear();
    assert_eq!(psbt.to_text(), Some(expected.to_string()));
}

#[test]
fn malformed_fields_are_not_printed() {
    let psbt = || Psbt::from_text(&bitcoin_psbt().to_string()).unwrap();
    let mut other = psbt();
    other.inputs[0].non_witness_utxo = Some(vec![1, 2, 3]);
    assert_eq!(other.to_text(), None);
    let mut other = psbt();
    other.inputs[0].partial_sigs = vec![PartialSig { key: vec![1], signature: vec![1] }];
    assert_eq!(other.to_text(), None);
    let mut other = psbt();
    other.inputs[0].bip32_derivation[0].key = vec![1];
    assert_eq!(other.to_text(), None);
    let mut other = psbt();
    other.unsigned_tx.input[0].script_sig = vec![1];
    assert_eq!(other.to_text(), None);
}

#[test]
fn copies_are_equal() {
    let psbt = Psbt::from_text(&bitcoin_psbt().to_string()).unwrap();
    assert_eq!(psbt.clone(), psbt);
}

#[test]
fn blank_input_holds_nothing() {
    let input = Input::default();
    assert_eq!(input.non_witness_utxo, None);
    assert_eq!(input.witness_utxo, None);
    assert_eq!(input.witness_script, None);
    assert_eq!(input.final_script_sig, None);
    assert_eq!(input.final_script_witness, None);
    assert!(input.partial_sigs.is_empty());
    assert!(input.bip32_derivation.is_empty());
    assert!(input.other.is_none());
}

#[test]
fn psbt_is_signed_if_some_input_is() {
    let mut psbt = Psbt::from_text(&bitcoin_psbt().to_string()).unwrap();
    assert!(!psbt.is_signed());
    psbt.inputs[1].partial_sigs = vec![PartialSig { key: vec![1], signature: vec![1] }];
    assert!(psbt.is_signed());
    psbt.inputs.clear();
    assert!(!psbt.is_signed());
}

#[test]
fn outpoints_differ_in_either_part() {
    let outpoint = OutPoint { txid: [1; 32], vout: 2 };
    let mut other = outpoint;
    assert!(outpoint.same(&other));
    other.vout = 3;
    assert!(!outpoint.same(&other));
    other = outpoint;
    other.txid[31] = 0;
    assert!(!outpoint.same(&other));
}

#[test]
fn output_at_a_position() {
    let tx = Transaction {
        version: 2,
        lock_time: 0,
        input: vec![TxIn {
            previous_output: OutPoint { txid: [0; 32], vout: 0 },
            script_sig: vec![],
            sequence: 0,
            witness: vec![],
        }],
        output: vec![
            TxOut { value: 1, script_pubkey: vec![1] },
            TxOut { value: 2, script_pubkey: vec![2] },
        ],
    };
    assert_eq!(tx.tx_out(1), Some(TxOut { value: 2, script_pubkey: vec![2] }));
    assert_eq!(tx.tx_out(2), None);
    assert_eq!(tx.tx_out(u32::MAX), None);
}

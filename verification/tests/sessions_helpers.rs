use std::str::FromStr;

use miniscript::psbt::PsbtExt;
use payjoin::bitcoin;
use payjoin::bitcoin::secp256k1::{Message, Secp256k1, SecretKey};
use payjoin::bitcoin::sighash::{EcdsaSighashType, SighashCache};

use lianad_payjoin::psbt::{Input, Psbt};
use lianad_payjoin::sessions::helpers::{
    apply_attempt, finalize_attempted, finalize_psbt, post_error, prepare_finalizing, FinalizeStep,
    OHTTP_RELAY, REQUEST_TIMEOUT_SECS,
};

const VALUE: u64 = 50_000;

fn key(seed: u8) -> (SecretKey, bitcoin::PublicKey) {
    let secret = SecretKey::from_slice(&[seed; 32]).unwrap();
    let public = bitcoin::PublicKey::new(secret.public_key(&Secp256k1::new()));
    (secret, public)
}

fn script_of(seed: u8) -> bitcoin::ScriptBuf {
    bitcoin::ScriptBuf::new_p2wpkh(&key(seed).1.wpubkey_hash().unwrap())
}

/// A PSBT that spends one output for each of the given keys.
fn unsigned(seeds: &[u8]) -> bitcoin::Psbt {
    let tx = bitcoin::Transaction {
        version: bitcoin::transaction::Version::TWO,
        lock_time: bitcoin::absolute::LockTime::ZERO,
        input: seeds
            .iter()
            .map(|seed| bitcoin::TxIn {
                previous_output: bitcoin::OutPoint::new(
                    bitcoin::hashes::Hash::from_byte_array([*seed; 32]),
                    0,
                ),
                ..Default::default()
            })
            .collect(),
        output: vec![bitcoin::TxOut {
            value: bitcoin::Amount::from_sat(VALUE),
            script_pubkey: script_of(99),
        }],
    };
    let mut psbt = bitcoin::Psbt::from_unsigned_tx(tx).unwrap();
    for (index, seed) in seeds.iter().enumerate() {
        psbt.inputs[index].witness_utxo = Some(bitcoin::TxOut {
            value: bitcoin::Amount::from_sat(VALUE),
            script_pubkey: script_of(*seed),
        });
    }
    psbt
}

fn sign(psbt: &mut bitcoin::Psbt, index: usize, seed: u8) {
    let sighash = SighashCache::new(&psbt.unsigned_tx)
        .p2wpkh_signature_hash(
            index,
            &script_of(seed),
            bitcoin::Amount::from_sat(VALUE),
            EcdsaSighashType::All,
        )
        .unwrap();
    let digest = bitcoin::hashes::Hash::to_byte_array(sighash);
    let signature = Secp256k1::new().sign_ecdsa(&Message::from_digest(digest), &key(seed).0);
    psbt.inputs[index]
        .partial_sigs
        .insert(key(seed).1, bitcoin::ecdsa::Signature::sighash_all(signature));
}

fn plain(psbt: &bitcoin::Psbt) -> Psbt {
    Psbt::from_text(&psbt.to_string()).unwrap()
}

/// The map that an attempt to finalize an input gives it.
fn attempt(psbt: &Psbt, index: usize) -> Option<Input> {
    let mut psbt = bitcoin::Psbt::from_str(&psbt.to_text()?).unwrap();
    psbt.finalize_inp_mut(&Secp256k1::verification_only(), index).ok()?;
    Some(plain(&psbt).inputs[index].clone())
}

/// Finalizes a PSBT, and lists the inputs that were attempted.
fn finalize(psbt: &Psbt) -> (Psbt, Vec<usize>) {
    let mut attempted = vec![];
    let mut step = finalize_psbt(psbt.clone());
    loop {
        step = match step {
            FinalizeStep::Attempt(work) => {
                attempted.push(work.index());
                let outcome = attempt(&work.psbt, work.index());
                finalize_attempted(work, outcome)
            }
            FinalizeStep::Finished(psbt) => return (psbt, attempted),
        };
    }
}

#[test]
fn relay_and_timeout() {
    assert_eq!(OHTTP_RELAY, "https://pj.bobspacebkk.com");
    assert_eq!(REQUEST_TIMEOUT_SECS, 10);
    assert_eq!(post_error("timed out"), "Failed to post_reques(): timed out");
}

#[test]
fn signed_input_is_finalized() {
    let mut psbt = unsigned(&[1, 2]);
    sign(&mut psbt, 0, 1);
    let before = plain(&psbt);
    let (after, _) = finalize(&before);
    let expected = vec![
        psbt.inputs[0].partial_sigs[&key(1).1].to_vec(),
        key(1).1.to_bytes(),
    ];
    assert_eq!(after.inputs[0].final_script_witness, Some(expected));
    assert!(after.inputs[0].partial_sigs.is_empty());
    assert_eq!(after.inputs[0].witness_utxo, before.inputs[0].witness_utxo);
    assert_eq!(after.inputs[1], before.inputs[1]);
    assert_eq!(after.unsigned_tx, before.unsigned_tx);
    assert_eq!(after.outputs, before.outputs);
    assert_eq!(after.other, before.other);
}

#[test]
fn all_signed_inputs_are_finalized() {
    let mut psbt = unsigned(&[1, 2, 3]);
    sign(&mut psbt, 0, 1);
    sign(&mut psbt, 2, 3);
    let (after, attempted) = finalize(&plain(&psbt));
    assert_eq!(attempted, vec![0, 2]);
    assert!(after.inputs[0].final_script_witness.is_some());
    assert!(after.inputs[1].final_script_witness.is_none());
    assert!(after.inputs[2].final_script_witness.is_some());
}

#[test]
fn other_inputs_need_no_witness_utxo() {
    let mut psbt = unsigned(&[1, 2]);
    sign(&mut psbt, 0, 1);
    sign(&mut psbt, 1, 2);
    psbt.inputs[1].witness_utxo = None;
    let before = plain(&psbt);
    let (after, _) = finalize(&before);
    assert!(after.inputs[0].final_script_witness.is_some());
    // Without its witness output an input is left alone, signed or not.
    assert_eq!(after.inputs[1], before.inputs[1]);
}

#[test]
fn input_that_cannot_be_finalized_is_kept() {
    let mut psbt = unsigned(&[1, 2]);
    // The signature of another key.
    sign(&mut psbt, 0, 7);
    sign(&mut psbt, 1, 2);
    let before = plain(&psbt);
    let (after, _) = finalize(&before);
    assert_eq!(after.inputs[0], before.inputs[0]);
    assert!(after.inputs[1].final_script_witness.is_some());
}

#[test]
fn finalized_input_is_not_finalized_again() {
    let mut psbt = unsigned(&[1]);
    sign(&mut psbt, 0, 1);
    psbt.inputs[0].final_script_witness = Some(bitcoin::Witness::from_slice(&[vec![1u8]]));
    let before = plain(&psbt);
    let (after, _) = finalize(&before);
    assert_eq!(after, before);
    psbt.inputs[0].final_script_witness = None;
    psbt.inputs[0].final_script_sig = Some(bitcoin::ScriptBuf::from_bytes(vec![1]));
    let before = plain(&psbt);
    let (after, _) = finalize(&before);
    assert_eq!(after, before);
}

#[test]
fn nothing_to_finalize_changes_nothing() {
    let before = plain(&unsigned(&[1, 2]));
    let (after, _) = finalize(&before);
    assert_eq!(after, before);
}

#[test]
fn preparing_lists_inputs_and_fills_gaps() {
    let mut psbt = unsigned(&[1, 2, 3]);
    sign(&mut psbt, 2, 3);
    psbt.inputs[1].witness_utxo = None;
    let mut prepared = plain(&psbt);
    let (to_clean, to_finalize) = prepare_finalizing(&mut prepared);
    assert_eq!(to_clean, vec![1]);
    assert_eq!(to_finalize, vec![2]);
    let placeholder = prepared.inputs[1].witness_utxo.clone().unwrap();
    assert_eq!(placeholder.value, 0);
    assert!(placeholder.script_pubkey.is_empty());
}

#[test]
fn attempts_see_placeholders_that_are_gone_in_the_end() {
    let mut psbt = unsigned(&[1, 2]);
    sign(&mut psbt, 0, 1);
    psbt.inputs[1].witness_utxo = None;
    let before = plain(&psbt);
    let work = match finalize_psbt(before.clone()) {
        FinalizeStep::Attempt(work) => work,
        step => panic!("{:?}", step),
    };
    assert_eq!(work.index(), 0);
    assert_eq!(work.psbt.inputs[0], before.inputs[0]);
    assert!(work.psbt.inputs[1].witness_utxo.is_some());
    match finalize_attempted(work, None) {
        FinalizeStep::Finished(after) => assert_eq!(after, before),
        step => panic!("{:?}", step),
    }
}

#[test]
fn finalizing_a_second_time_changes_nothing() {
    let mut psbt = unsigned(&[1, 2, 3]);
    sign(&mut psbt, 0, 1);
    // The signature of another key.
    sign(&mut psbt, 1, 7);
    psbt.inputs[2].witness_utxo = None;
    let before = plain(&psbt);
    let (once, attempted) = finalize(&before);
    assert_eq!(attempted, vec![0, 1]);
    let (twice, attempted) = finalize(&once);
    assert_eq!(attempted, vec![1]);
    assert_eq!(once, twice);
    for (after, before) in once.inputs.iter().zip(&before.inputs) {
        assert_eq!(after.witness_utxo, before.witness_utxo);
        assert_eq!(after.non_witness_utxo, before.non_witness_utxo);
    }
}

#[test]
fn attempt_is_applied_only_if_it_succeeded() {
    let before = plain(&unsigned(&[1, 2]));
    let mut after = before.clone();
    apply_attempt(&mut after, 1, None);
    assert_eq!(after, before);
    apply_attempt(&mut after, 1, Some(Input::default()));
    assert_eq!(after.inputs[0], before.inputs[0]);
    assert_eq!(after.inputs[1], Input::default());
}

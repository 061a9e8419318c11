//! Partially signed transactions as plain values.
//!
//! The fields that the wallet's payjoin rules read or write are spelled out; whatever else a
//! BIP 174 map may hold travels along unread, as rust-bitcoin keeps it.
use vstd::prelude::*;

use ::payjoin::bitcoin::psbt::Input as BitcoinInput;
use ::payjoin::bitcoin::psbt::Output as BitcoinOutput;
use ::payjoin::bitcoin::psbt::Psbt as BitcoinPsbt;

use crate::wire::{parse_psbt, print_psbt};
use crate::wire::{psbt_parsed, psbt_text};

verus! {

/// The bytes of a transaction id, in the order in which they are hashed.
pub type Txid = [u8; 32];

/// A reference to one output of one transaction.
#[derive(Clone, Copy, Debug, PartialEq, Eq)]
pub struct OutPoint {
    pub txid: [u8; 32],
    pub vout: u32,
}

pub ghost struct OutPointView {
    pub txid: Seq<u8>,
    pub vout: u32,
}

impl View for OutPoint {
    type V = OutPointView;

    open spec fn view(&self) -> OutPointView {
        OutPointView { txid: self.txid@, vout: self.vout }
    }
}

/// A transaction input.
#[derive(Debug, PartialEq, Eq)]
pub struct TxIn {
    pub previous_output: OutPoint,
    pub script_sig: Vec<u8>,
    pub sequence: u32,
    pub witness: Vec<Vec<u8>>,
}

#[verifier::ext_equal]
pub ghost struct TxInView {
    pub previous_output: OutPointView,
    pub script_sig: Seq<u8>,
    pub sequence: u32,
    pub witness: Seq<Seq<u8>>,
}

impl View for TxIn {
    type V = TxInView;

    open spec fn view(&self) -> TxInView {
        TxInView {
            previous_output: self.previous_output@,
            script_sig: self.script_sig@,
            sequence: self.sequence,
            witness: stack_view(self.witness@),
        }
    }
}

/// A transaction output: an amount in satoshis and the script that locks it.
#[derive(Debug, PartialEq, Eq)]
pub struct TxOut {
    pub value: u64,
    pub script_pubkey: Vec<u8>,
}

#[verifier::ext_equal]
pub ghost struct TxOutView {
    pub value: u64,
    pub script_pubkey: Seq<u8>,
}

impl View for TxOut {
    type V = TxOutView;

    open spec fn view(&self) -> TxOutView {
        TxOutView { value: self.value, script_pubkey: self.script_pubkey@ }
    }
}

/// A transaction.
#[derive(Debug, PartialEq, Eq)]
pub struct Transaction {
    pub version: i32,
    pub lock_time: u32,
    pub input: Vec<TxIn>,
    pub output: Vec<TxOut>,
}

#[verifier::ext_equal]
pub ghost struct TransactionView {
    pub version: i32,
    pub lock_time: u32,
    pub input: Seq<TxInView>,
    pub output: Seq<TxOutView>,
}

impl View for Transaction {
    type V = TransactionView;

    open spec fn view(&self) -> TransactionView {
        TransactionView {
            version: self.version,
            lock_time: self.lock_time,
            input: self.input@.map_values(|i: TxIn| i@),
            output: self.output@.map_values(|o: TxOut| o@),
        }
    }
}

/// A signature and the public key that it is to be checked with, both serialized.
#[derive(Debug, PartialEq, Eq)]
pub struct PartialSig {
    pub key: Vec<u8>,
    pub signature: Vec<u8>,
}

#[verifier::ext_equal]
pub ghost struct PartialSigView {
    pub key: Seq<u8>,
    pub signature: Seq<u8>,
}

impl View for PartialSig {
    type V = PartialSigView;

    open spec fn view(&self) -> PartialSigView {
        PartialSigView { key: self.key@, signature: self.signature@ }
    }
}

/// A serialized public key, the fingerprint of the master key that it is derived from, and the
/// steps of the derivation.
#[derive(Debug, PartialEq, Eq)]
pub struct KeyOrigin {
    pub key: Vec<u8>,
    pub fingerprint: [u8; 4],
    pub path: Vec<u32>,
}

#[verifier::ext_equal]
pub ghost struct KeyOriginView {
    pub key: Seq<u8>,
    pub fingerprint: Seq<u8>,
    pub path: Seq<u32>,
}

impl View for KeyOrigin {
    type V = KeyOriginView;

    open spec fn view(&self) -> KeyOriginView {
        KeyOriginView { key: self.key@, fingerprint: self.fingerprint@, path: self.path@ }
    }
}

/// The map of one PSBT input.
///
/// `non_witness_utxo` is a transaction in its network serialization. `other` holds what the map
/// has besides the other fields, if that was ever given.
#[derive(Debug, PartialEq, Eq)]
pub struct Input {
    pub non_witness_utxo: Option<Vec<u8>>,
    pub witness_utxo: Option<TxOut>,
    pub partial_sigs: Vec<PartialSig>,
    pub witness_script: Option<Vec<u8>>,
    pub bip32_derivation: Vec<KeyOrigin>,
    pub final_script_sig: Option<Vec<u8>>,
    pub final_script_witness: Option<Vec<Vec<u8>>>,
    pub other: Option<BitcoinInput>,
}

#[verifier::ext_equal]
pub ghost struct InputView {
    pub non_witness_utxo: Option<Seq<u8>>,
    pub witness_utxo: Option<TxOutView>,
    pub partial_sigs: Seq<PartialSigView>,
    pub witness_script: Option<Seq<u8>>,
    pub bip32_derivation: Seq<KeyOriginView>,
    pub final_script_sig: Option<Seq<u8>>,
    pub final_script_witness: Option<Seq<Seq<u8>>>,
    pub other: Option<BitcoinInput>,
}

impl View for Input {
    type V = InputView;

    open spec fn view(&self) -> InputView {
        InputView {
            non_witness_utxo: bytes_view(self.non_witness_utxo),
            witness_utxo: txout_view(self.witness_utxo),
            partial_sigs: sigs_view(self.partial_sigs@),
            witness_script: bytes_view(self.witness_script),
            bip32_derivation: origins_view(self.bip32_derivation@),
            final_script_sig: bytes_view(self.final_script_sig),
            final_script_witness: match self.final_script_witness {
                Some(stack) => Some(stack_view(stack@)),
                None => None,
            },
            other: self.other,
        }
    }
}

/// A partially signed transaction.
///
/// `outputs` holds what each output map has, and `other` what the global map has besides the
/// unsigned transaction, as far as that was ever given.
#[derive(Debug, PartialEq, Eq)]
pub struct Psbt {
    pub unsigned_tx: Transaction,
    pub inputs: Vec<Input>,
    pub outputs: Vec<Option<BitcoinOutput>>,
    pub other: Option<BitcoinPsbt>,
}

#[verifier::ext_equal]
pub ghost struct PsbtView {
    pub unsigned_tx: TransactionView,
    pub inputs: Seq<InputView>,
    pub outputs: Seq<Option<BitcoinOutput>>,
    pub other: Option<BitcoinPsbt>,
}

impl View for Psbt {
    type V = PsbtView;

    open spec fn view(&self) -> PsbtView {
        PsbtView {
            unsigned_tx: self.unsigned_tx@,
            inputs: self.inputs@.map_values(|i: Input| i@),
            outputs: self.outputs@,
            other: self.other,
        }
    }
}

pub open spec fn bytes_view(bytes: Option<Vec<u8>>) -> Option<Seq<u8>> {
    match bytes {
        Some(bytes) => Some(bytes@),
        None => None,
    }
}

pub open spec fn txout_view(out: Option<TxOut>) -> Option<TxOutView> {
    match out {
        Some(out) => Some(out@),
        None => None,
    }
}

pub open spec fn psbt_view(psbt: Option<Psbt>) -> Option<PsbtView> {
    match psbt {
        Some(psbt) => Some(psbt@),
        None => None,
    }
}

pub open spec fn stack_view(stack: Seq<Vec<u8>>) -> Seq<Seq<u8>> {
    stack.map_values(|item: Vec<u8>| item@)
}

pub open spec fn sigs_view(sigs: Seq<PartialSig>) -> Seq<PartialSigView> {
    sigs.map_values(|sig: PartialSig| sig@)
}

pub open spec fn origins_view(origins: Seq<KeyOrigin>) -> Seq<KeyOriginView> {
    origins.map_values(|origin: KeyOrigin| origin@)
}

impl PsbtView {
    /// Every transaction input and output has its map, and there is no further map.
    pub open spec fn well_formed(self) -> bool {
        &&& self.inputs.len() == self.unsigned_tx.input.len()
        &&& self.outputs.len() == self.unsigned_tx.output.len()
    }

    /// The same PSBT with another map at input `index`.
    pub open spec fn with_input(self, index: int, input: InputView) -> PsbtView {
        PsbtView { inputs: self.inputs.update(index, input), ..self }
    }

    /// Some input carries a partial signature.
    pub open spec fn signed(self) -> bool {
        exists|i: int| 0 <= i < self.inputs.len() && #[trigger] self.inputs[i].partial_sigs.len() > 0
    }
}

impl InputView {
    /// An input map with nothing in it.
    pub open spec fn blank() -> InputView {
        InputView {
            non_witness_utxo: None,
            witness_utxo: None,
            partial_sigs: Seq::empty(),
            witness_script: None,
            bip32_derivation: Seq::empty(),
            final_script_sig: None,
            final_script_witness: None,
            other: None,
        }
    }

    /// The same map without its partial signatures.
    pub open spec fn without_sigs(self) -> InputView {
        InputView { partial_sigs: Seq::empty(), ..self }
    }
}

fn clone_bytes(bytes: &Vec<u8>) -> (copy: Vec<u8>)
    ensures
        copy@ == bytes@,
{
    let copy = bytes.clone();
    assert(copy@ =~= bytes@);
    copy
}

pub(crate) fn clone_optional_bytes(bytes: &Option<Vec<u8>>) -> (copy: Option<Vec<u8>>)
    ensures
        bytes_view(copy) == bytes_view(*bytes),
{
    match bytes {
        Some(bytes) => Some(clone_bytes(bytes)),
        None => None,
    }
}

fn clone_stack(stack: &Vec<Vec<u8>>) -> (copy: Vec<Vec<u8>>)
    ensures
        stack_view(copy@) == stack_view(stack@),
{
    let mut copy: Vec<Vec<u8>> = Vec::new();
    let mut i: usize = 0;
    while i < stack.len()
        invariant
            i <= stack.len(),
            copy.len() == i,
            forall|k: int| 0 <= k < i ==> #[trigger] copy@[k]@ == stack@[k]@,
        decreases stack.len() - i,
    {
        copy.push(clone_bytes(&stack[i]));
        i += 1;
    }
    assert(stack_view(copy@) =~= stack_view(stack@));
    copy
}

impl Clone for PartialSig {
    fn clone(&self) -> (copy: Self)
        ensures
            copy@ == self@,
    {
        PartialSig { key: clone_bytes(&self.key), signature: clone_bytes(&self.signature) }
    }
}

impl Clone for KeyOrigin {
    fn clone(&self) -> (copy: Self)
        ensures
            copy@ == self@,
    {
        let path = self.path.clone();
        assert(path@ =~= self.path@);
        KeyOrigin { key: clone_bytes(&self.key), fingerprint: self.fingerprint, path }
    }
}

fn clone_sigs(sigs: &Vec<PartialSig>) -> (copy: Vec<PartialSig>)
    ensures
        sigs_view(copy@) == sigs_view(sigs@),
{
    let mut copy: Vec<PartialSig> = Vec::new();
    let mut i: usize = 0;
    while i < sigs.len()
        invariant
            i <= sigs.len(),
            copy.len() == i,
            forall|k: int| 0 <= k < i ==> #[trigger] copy@[k]@ == sigs@[k]@,
        decreases sigs.len() - i,
    {
        copy.push(sigs[i].clone());
        i += 1;
    }
    assert(sigs_view(copy@) =~= sigs_view(sigs@));
    copy
}

pub(crate) fn clone_origins(origins: &Vec<KeyOrigin>) -> (copy: Vec<KeyOrigin>)
    ensures
        origins_view(copy@) == origins_view(origins@),
{
    let mut copy: Vec<KeyOrigin> = Vec::new();
    let mut i: usize = 0;
    while i < origins.len()
        invariant
            i <= origins.len(),
            copy.len() == i,
            forall|k: int| 0 <= k < i ==> #[trigger] copy@[k]@ == origins@[k]@,
        decreases origins.len() - i,
    {
        copy.push(origins[i].clone());
        i += 1;
    }
    assert(origins_view(copy@) =~= origins_view(origins@));
    copy
}

fn clone_outputs(outputs: &Vec<Option<BitcoinOutput>>) -> (copy: Vec<Option<BitcoinOutput>>)
    ensures
        copy@ == outputs@,
{
    let mut copy: Vec<Option<BitcoinOutput>> = Vec::new();
    let mut i: usize = 0;
    while i < outputs.len()
        invariant
            i <= outputs.len(),
            copy.len() == i,
            forall|k: int| 0 <= k < i ==> #[trigger] copy@[k] == outputs@[k],
        decreases outputs.len() - i,
    {
        copy.push(
            match &outputs[i] {
                Some(output) => Some(output.clone()),
                None => None,
            },
        );
        i += 1;
    }
    assert(copy@ =~= outputs@);
    copy
}

impl Clone for TxIn {
    fn clone(&self) -> (copy: Self)
        ensures
            copy@ == self@,
    {
        TxIn {
            previous_output: self.previous_output,
            script_sig: clone_bytes(&self.script_sig),
            sequence: self.sequence,
            witness: clone_stack(&self.witness),
        }
    }
}

impl Clone for TxOut {
    fn clone(&self) -> (copy: Self)
        ensures
            copy@ == self@,
    {
        TxOut { value: self.value, script_pubkey: clone_bytes(&self.script_pubkey) }
    }
}

impl Clone for Transaction {
    fn clone(&self) -> (copy: Self)
        ensures
            copy@ == self@,
    {
        let mut input: Vec<TxIn> = Vec::new();
        let mut i: usize = 0;
        while i < self.input.len()
            invariant
                i <= self.input.len(),
                input.len() == i,
                forall|k: int| 0 <= k < i ==> #[trigger] input@[k]@ == self.input@[k]@,
            decreases self.input.len() - i,
        {
            input.push(self.input[i].clone());
            i += 1;
        }
        let mut output: Vec<TxOut> = Vec::new();
        let mut j: usize = 0;
        while j < self.output.len()
            invariant
                j <= self.output.len(),
                output.len() == j,
                forall|k: int| 0 <= k < j ==> #[trigger] output@[k]@ == self.output@[k]@,
            decreases self.output.len() - j,
        {
            output.push(self.output[j].clone());
            j += 1;
        }
        let copy = Transaction { version: self.version, lock_time: self.lock_time, input, output };
        assert(copy@.input =~= self@.input);
        assert(copy@.output =~= self@.output);
        copy
    }
}

impl Clone for Input {
    fn clone(&self) -> (copy: Self)
        ensures
            copy@ == self@,
    {
        Input {
            non_witness_utxo: clone_optional_bytes(&self.non_witness_utxo),
            witness_utxo: match &self.witness_utxo {
                Some(out) => Some(out.clone()),
                None => None,
            },
            partial_sigs: clone_sigs(&self.partial_sigs),
            witness_script: clone_optional_bytes(&self.witness_script),
            bip32_derivation: clone_origins(&self.bip32_derivation),
            final_script_sig: clone_optional_bytes(&self.final_script_sig),
            final_script_witness: match &self.final_script_witness {
                Some(stack) => Some(clone_stack(stack)),
                None => None,
            },
            other: match &self.other {
                Some(other) => Some(other.clone()),
                None => None,
            },
        }
    }
}

impl Clone for Psbt {
    fn clone(&self) -> (copy: Self)
        ensures
            copy@ == self@,
    {
        let mut inputs: Vec<Input> = Vec::new();
        let mut i: usize = 0;
        while i < self.inputs.len()
            invariant
                i <= self.inputs.len(),
                inputs.len() == i,
                forall|k: int| 0 <= k < i ==> #[trigger] inputs@[k]@ == self.inputs@[k]@,
            decreases self.inputs.len() - i,
        {
            inputs.push(self.inputs[i].clone());
            i += 1;
        }
        let copy = Psbt {
            unsigned_tx: self.unsigned_tx.clone(),
            inputs,
            outputs: clone_outputs(&self.outputs),
            other: match &self.other {
                Some(other) => Some(other.clone()),
                None => None,
            },
        };
        assert(copy@.inputs =~= self@.inputs);
        copy
    }
}

impl Default for Input {
    fn default() -> (input: Self)
        ensures
            input@ == InputView::blank(),
            input.non_witness_utxo is None,
            input.witness_utxo is None,
            input.partial_sigs.len() == 0,
            input.witness_script is None,
            input.bip32_derivation.len() == 0,
            input.final_script_sig is None,
            input.final_script_witness is None,
            input.other is None,
    {
        Input {
            non_witness_utxo: None,
            witness_utxo: None,
            partial_sigs: Vec::new(),
            witness_script: None,
            bip32_derivation: Vec::new(),
            final_script_sig: None,
            final_script_witness: None,
            other: None,
        }
    }
}

impl OutPoint {
    /// Whether both name the same output.
    pub fn same(&self, other: &OutPoint) -> (same: bool)
        ensures
            same == (self@ == other@),
            same <==> self.txid@ == other.txid@ && self.vout == other.vout,
    {
        if self.vout != other.vout {
            return false;
        }
        let mut i: usize = 0;
        while i < 32
            invariant
                i <= 32,
                self.vout == other.vout,
                forall|k: int| 0 <= k < i ==> self.txid@[k] == other.txid@[k],
            decreases 32 - i,
        {
            if self.txid[i] != other.txid[i] {
                assert(self@.txid[i as int] != other@.txid[i as int]);
                return false;
            }
            i += 1;
        }
        assert(self@.txid =~= other@.txid);
        true
    }
}

impl Transaction {
    /// The output at position `vout`, if the transaction has that many.
    pub fn tx_out(&self, vout: u32) -> (out: Option<TxOut>)
        ensures
            txout_view(out) == (if vout < self@.output.len() {
                Some(self@.output[vout as int])
            } else {
                None
            }),
    {
        if (vout as usize) < self.output.len() {
            Some(self.output[vout as usize].clone())
        } else {
            None
        }
    }
}

impl Psbt {
    /// Reads a PSBT from its base64 text.
    pub fn from_text(text: &str) -> (psbt: Option<Psbt>)
        ensures
            psbt_view(psbt) == psbt_parsed(text@),
            psbt matches Some(psbt) ==> psbt@.well_formed(),
    {
        parse_psbt(text)
    }

    /// The base64 text of the PSBT; `None` where its fields cannot be read as a PSBT.
    pub fn to_text(&self) -> (text: Option<String>)
        requires
            self@.well_formed(),
        ensures
            match text {
                Some(text) => psbt_text(self@) == Some(text@),
                None => psbt_text(self@) is None,
            },
    {
        print_psbt(self)
    }

    /// Whether some input carries a partial signature.
    pub fn is_signed(&self) -> (signed: bool)
        ensures
            signed == self@.signed(),
            signed <==> exists|i: int|
                0 <= i < self.inputs.len() && (#[trigger] self.inputs@[i]).partial_sigs.len() > 0,
    {
        proof {
            law_psbt_view(*self);
        }
        let mut i: usize = 0;
        while i < self.inputs.len()
            invariant
                i <= self.inputs.len(),
                forall|k: int| 0 <= k < i ==> #[trigger] self@.inputs[k].partial_sigs.len() == 0,
                forall|k: int| 0 <= k < i ==> (#[trigger] self.inputs@[k]).partial_sigs.len() == 0,
            decreases self.inputs.len() - i,
        {
            assert(self@.inputs[i as int] == self.inputs@[i as int]@);
            if self.inputs[i].partial_sigs.len() > 0 {
                assert(self@.inputs[i as int].partial_sigs.len() > 0);
                return true;
            }
            i += 1;
        }
        false
    }
}

/// The view of a transaction holds all of it: the version, the lock time, and of each input and
/// each output every field.
pub proof fn law_transaction_view(tx: Transaction)
    ensures
        tx@.version == tx.version,
        tx@.lock_time == tx.lock_time,
        tx@.input.len() == tx.input.len(),
        tx@.output.len() == tx.output.len(),
        forall|i: int|
            0 <= i < tx.input.len() ==> {
                &&& (#[trigger] tx@.input[i]).previous_output.txid
                    == tx.input@[i].previous_output.txid@
                &&& tx@.input[i].previous_output.vout == tx.input@[i].previous_output.vout
                &&& tx@.input[i].script_sig == tx.input@[i].script_sig@
                &&& tx@.input[i].sequence == tx.input@[i].sequence
                &&& tx@.input[i].witness.len() == tx.input@[i].witness.len()
            },
        forall|i: int, k: int|
            0 <= i < tx.input.len() && 0 <= k < tx.input@[i].witness.len()
                ==> #[trigger] tx@.input[i].witness[k] == tx.input@[i].witness@[k]@,
        forall|i: int|
            0 <= i < tx.output.len() ==> {
                &&& (#[trigger] tx@.output[i]).value == tx.output@[i].value
                &&& tx@.output[i].script_pubkey == tx.output@[i].script_pubkey@
            },
{
}

/// The view of an input map holds all of it.
pub proof fn law_input_view(input: Input)
    ensures
        input@.non_witness_utxo is Some <==> input.non_witness_utxo is Some,
        input.non_witness_utxo matches Some(tx) ==> input@.non_witness_utxo == Some(tx@),
        input@.witness_utxo is Some <==> input.witness_utxo is Some,
        input.witness_utxo matches Some(out) ==> {
            &&& input@.witness_utxo->0.value == out.value
            &&& input@.witness_utxo->0.script_pubkey == out.script_pubkey@
        },
        input@.partial_sigs.len() == input.partial_sigs.len(),
        forall|i: int|
            0 <= i < input.partial_sigs.len() ==> {
                &&& (#[trigger] input@.partial_sigs[i]).key == input.partial_sigs@[i].key@
                &&& input@.partial_sigs[i].signature == input.partial_sigs@[i].signature@
            },
        input@.witness_script is Some <==> input.witness_script is Some,
        input.witness_script matches Some(script) ==> input@.witness_script == Some(script@),
        input@.bip32_derivation.len() == input.bip32_derivation.len(),
        forall|i: int|
            0 <= i < input.bip32_derivation.len() ==> {
                &&& (#[trigger] input@.bip32_derivation[i]).key == input.bip32_derivation@[i].key@
                &&& input@.bip32_derivation[i].fingerprint
                    == input.bip32_derivation@[i].fingerprint@
                &&& input@.bip32_derivation[i].path == input.bip32_derivation@[i].path@
            },
        input@.final_script_sig is Some <==> input.final_script_sig is Some,
        input.final_script_sig matches Some(script) ==> input@.final_script_sig == Some(script@),
        input@.final_script_witness is Some <==> input.final_script_witness is Some,
        input.final_script_witness matches Some(stack) ==> {
            &&& input@.final_script_witness->0.len() == stack.len()
            &&& forall|k: int|
                0 <= k < stack.len() ==> #[trigger] input@.final_script_witness->0[k]
                    == stack@[k]@
        },
        input@.other == input.other,
{
}

/// The view of a PSBT holds all of it.
pub proof fn law_psbt_view(psbt: Psbt)
    ensures
        psbt@.unsigned_tx == psbt.unsigned_tx@,
        psbt@.inputs.len() == psbt.inputs.len(),
        forall|i: int|
            0 <= i < psbt.inputs.len() ==> #[trigger] psbt@.inputs[i] == psbt.inputs@[i]@,
        psbt@.outputs == psbt.outputs@,
        psbt@.other == psbt.other,
{
}

/// A PSBT is signed if and only if some input of it has a partial signature, however many it has
/// and whatever else the map holds.
pub proof fn law_signed_if_some_input_is(psbt: PsbtView)
    ensures
        psbt.signed() <==> exists|i: int|
            0 <= i < psbt.inputs.len() && (#[trigger] psbt.inputs[i]).partial_sigs.len() > 0,
{
    if exists|i: int|
        0 <= i < psbt.inputs.len() && (#[trigger] psbt.inputs[i]).partial_sigs.len() > 0 {
        let i = choose|i: int|
            0 <= i < psbt.inputs.len() && (#[trigger] psbt.inputs[i]).partial_sigs.len() > 0;
        assert(psbt.inputs[i].partial_sigs.len() > 0);
    }
}

/// A PSBT is complete if and only if there is one map for each input and each output.
pub proof fn law_complete_if_each_has_its_map(psbt: PsbtView)
    ensures
        psbt.well_formed() <==> psbt.inputs.len() == psbt.unsigned_tx.input.len()
            && psbt.outputs.len() == psbt.unsigned_tx.output.len(),
{
}

} // verus!

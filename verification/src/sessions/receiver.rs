//! The receiving side of a payjoin.
use vstd::prelude::*;
use vstd::string::*;

use ::bitcoin_ohttp::ClientResponse;
use ::payjoin::persist::MaybeFatalTransition;
use ::payjoin::persist::MaybeSuccessTransition;
use ::payjoin::persist::NextStateTransition;
use ::payjoin::receive::v2::MaybeInputsOwned;
use ::payjoin::receive::v2::MaybeInputsSeen;
use ::payjoin::receive::v2::OutputsUnknown;
use ::payjoin::receive::v2::PayjoinProposal;
use ::payjoin::receive::v2::Receiver;
use ::payjoin::receive::v2::SessionEvent as ReceiverSessionEvent;
use ::payjoin::receive::v2::SessionHistory;
use ::payjoin::receive::v2::WantsInputs;
use ::payjoin::receive::v2::WantsOutputs;
use ::payjoin::receive::Error;
use ::payjoin::receive::InputPair;
use ::payjoin::receive::ReplyableError;

use crate::protocol;
use crate::protocol::{
    input_pair_of, inputs_not_owned, no_inputs_seen_before, outputs_committed,
    payjoin_proposal_psbt, proposal_posted, psbt_with_contributed_inputs, receiver_outputs,
};
use crate::psbt::{Input, OutPoint, Psbt, Transaction, TxIn, Txid};
use crate::psbt::{law_psbt_view, law_signed_if_some_input_is};
use crate::psbt::{psbt_view, InputView, OutPointView, PsbtView, TransactionView, TxInView};
use crate::sessions::db::{
    error_text, metadata_write, spend_writes, SessionId, SessionMetadata, SessionWrite,
};
use crate::sessions::db::{spends_after, writes_view, SessionMetadataView, SessionWriteView};
use crate::sessions::helpers::{finalize_attempted, finalize_psbt, FinalizeStep, Finalizing};
use crate::sessions::helpers::{continued, outcome_view};
use crate::sessions::helpers::{
    law_attempt_is_on_a_signed_input, law_finalizing_touches_only_signed_inputs,
    law_signed_input_is_finalized_or_kept, law_wanted_inputs_are_listed_once,
};
use crate::sessions::types::PayjoinStatus;
use crate::wire::{compute_txid, serialize, serialize_hex};
use crate::wire::{transaction_bytes, transaction_hex, txid_of};

verus! {

/// Whether the wallet takes an input of the sender to be its own: it never does.
pub const SENDER_INPUT_IS_OWNED: bool = false;

/// Whether the wallet takes an input of the sender to have been seen before: it never does.
pub const SENDER_INPUT_IS_KNOWN: bool = false;

/// Whether the wallet takes an output of the sender to be its own: it always does.
pub const OUTPUT_IS_RECEIVED: bool = true;

/// The sequence number of an input that can be replaced and has no lock time.
pub const ENABLE_RBF_NO_LOCKTIME: u32 = 0xFFFF_FFFD;

/// Checks that the sender does not spend coins of this wallet.
pub fn check_inputs_not_owned(proposal: Receiver<MaybeInputsOwned>) -> (transition:
    MaybeFatalTransition<ReceiverSessionEvent, Receiver<MaybeInputsSeen>, ReplyableError>)
    ensures
        transition == inputs_not_owned(proposal, false),
{
    protocol::check_inputs_not_owned(proposal, SENDER_INPUT_IS_OWNED)
}

/// Checks that the sender does not spend coins that were proposed before.
pub fn check_no_inputs_seen_before(proposal: Receiver<MaybeInputsSeen>) -> (transition:
    MaybeFatalTransition<ReceiverSessionEvent, Receiver<OutputsUnknown>, ReplyableError>)
    ensures
        transition == no_inputs_seen_before(proposal, false),
{
    protocol::check_no_inputs_seen_before(proposal, SENDER_INPUT_IS_KNOWN)
}

/// Identifies the outputs that pay to this wallet.
pub fn identify_receiver_outputs(proposal: Receiver<OutputsUnknown>) -> (transition:
    MaybeFatalTransition<ReceiverSessionEvent, Receiver<WantsOutputs>, ReplyableError>)
    ensures
        transition == receiver_outputs(proposal, true),
{
    protocol::identify_receiver_outputs(proposal, OUTPUT_IS_RECEIVED)
}

/// Accepts the outputs as they were proposed.
pub fn commit_outputs(proposal: Receiver<WantsOutputs>) -> (transition: NextStateTransition<
    ReceiverSessionEvent,
    Receiver<WantsInputs>,
>)
    ensures
        transition == outputs_committed(proposal),
{
    protocol::commit_outputs(proposal)
}

/// The PSBT to which this wallet has contributed, if the session has come that far.
pub fn contributed_psbt(history: &SessionHistory) -> (psbt: Option<Psbt>)
    ensures
        psbt_view(psbt) == psbt_with_contributed_inputs(*history),
{
    protocol::contributed_psbt(history)
}

/// The PSBT that the sender is to be answered with.
pub fn proposed_psbt(proposal: &Receiver<PayjoinProposal>) -> (psbt: Psbt)
    ensures
        psbt@ == payjoin_proposal_psbt(*proposal),
{
    protocol::proposed_psbt(proposal)
}

/// What the directory's response to the proposal takes the session to.
pub fn posted_proposal(
    proposal: &Receiver<PayjoinProposal>,
    response: &Vec<u8>,
    context: ClientResponse,
) -> (transition: MaybeSuccessTransition<(), Error>)
    ensures
        transition == proposal_posted(*proposal, response@, context),
{
    protocol::process_proposal_response(proposal, response, context)
}

/// What the node is asked, to learn whether it would accept the sender's transaction.
pub fn mempool_request(tx: &Transaction) -> (request: Vec<String>)
    ensures
        request@.len() == 1,
        request@[0]@ == transaction_hex(tx@),
{
    let mut request: Vec<String> = Vec::new();
    request.push(serialize_hex(tx));
    request
}

/// Whether the sender's transaction can be broadcast, as the node answered: the first answer
/// counts, and no answer is a refusal.
pub fn can_broadcast(answers: &Vec<bool>) -> (accepted: bool)
    ensures
        accepted == (answers@.len() > 0 && answers@[0]),
{
    answers.len() > 0 && answers[0]
}

/// How the reading of the sender's proposal from the directory went.
#[derive(Debug)]
pub enum ReadOutcome {
    /// There was no response to the request.
    RequestFailed(String),
    /// The sender's proposal came.
    Progress,
    /// There is no proposal yet.
    Stasis,
    /// The response was an error, or the event could not be stored.
    Rejected(String),
}

/// What the reading of the directory comes to: without a proposal the session cannot go on.
pub open spec fn directory_read(outcome: ReadOutcome) -> Result<(), Seq<char>> {
    match outcome {
        ReadOutcome::RequestFailed(error) => Err(error@),
        ReadOutcome::Progress => Ok(()),
        ReadOutcome::Stasis => Err("NoResults"@),
        ReadOutcome::Rejected(error) => Err(error@),
    }
}

/// What the reading of the directory comes to.
pub fn read_from_directory(outcome: ReadOutcome) -> (result: Result<(), String>)
    ensures
        match result {
            Ok(()) => directory_read(outcome) is Ok,
            Err(error) => directory_read(outcome) == Err::<(), Seq<char>>(error@),
        },
        result is Ok <==> outcome is Progress,
        outcome is Stasis ==> result->Err_0@ == "NoResults"@,
        outcome matches ReadOutcome::RequestFailed(error) ==> result->Err_0@ == error@,
        outcome matches ReadOutcome::Rejected(error) ==> result->Err_0@ == error@,
{
    match outcome {
        ReadOutcome::RequestFailed(error) => Err(error),
        ReadOutcome::Progress => Ok(()),
        ReadOutcome::Stasis => Err("NoResults".to_string()),
        ReadOutcome::Rejected(error) => Err(error),
    }
}

/// The two descriptors of the wallet.
#[derive(Debug, Clone, Copy, PartialEq, Eq, Structural)]
pub enum Keychain {
    Receive,
    Change,
}

/// A confirmed coin of the wallet, with the transaction that created it.
#[derive(Debug)]
pub struct Coin {
    pub outpoint: OutPoint,
    pub is_change: bool,
    pub derivation_index: u32,
    pub tx: Transaction,
}

/// An input that the wallet could contribute, with the key that it is derived from.
///
/// `weight` is what satisfying the wallet's descriptor weighs at worst.
#[derive(Debug)]
pub struct Candidate {
    pub txin: TxIn,
    pub psbtin: Input,
    pub keychain: Keychain,
    pub derivation_index: u32,
    pub weight: u64,
}

#[verifier::ext_equal]
pub ghost struct CandidateView {
    pub txin: TxInView,
    pub psbtin: InputView,
    pub keychain: Keychain,
    pub derivation_index: u32,
    pub weight: u64,
}

impl View for Candidate {
    type V = CandidateView;

    open spec fn view(&self) -> CandidateView {
        CandidateView {
            txin: self.txin@,
            psbtin: self.psbtin@,
            keychain: self.keychain,
            derivation_index: self.derivation_index,
            weight: self.weight,
        }
    }
}

impl Clone for Candidate {
    fn clone(&self) -> (copy: Self)
        ensures
            copy@ == self@,
    {
        Candidate {
            txin: self.txin.clone(),
            psbtin: self.psbtin.clone(),
            keychain: self.keychain,
            derivation_index: self.derivation_index,
            weight: self.weight,
        }
    }
}

/// The view of a candidate holds all of it.
pub proof fn law_candidate_view(candidate: Candidate)
    ensures
        candidate@.txin == candidate.txin@,
        candidate@.psbtin == candidate.psbtin@,
        candidate@.keychain == candidate.keychain,
        candidate@.derivation_index == candidate.derivation_index,
        candidate@.weight == candidate.weight,
{
}

pub open spec fn candidates_view(candidates: Seq<Candidate>) -> Seq<CandidateView> {
    candidates.map_values(|candidate: Candidate| candidate@)
}

pub open spec fn inputs_view(inputs: Seq<Input>) -> Seq<InputView> {
    inputs.map_values(|input: Input| input@)
}

impl CandidateView {
    /// The same candidate with the map to which the descriptor has added what it knows. What the
    /// input spends stays.
    pub open spec fn described(self, psbtin: InputView) -> CandidateView {
        CandidateView {
            psbtin: InputView {
                non_witness_utxo: self.psbtin.non_witness_utxo,
                witness_utxo: self.psbtin.witness_utxo,
                ..psbtin
            },
            ..self
        }
    }
}

impl TxInView {
    /// An input that spends `outpoint`, is not signed and can be replaced.
    pub open spec fn spending(outpoint: OutPointView) -> TxInView {
        TxInView {
            previous_output: outpoint,
            script_sig: Seq::empty(),
            sequence: ENABLE_RBF_NO_LOCKTIME,
            witness: Seq::empty(),
        }
    }
}

impl InputView {
    /// The map of an input that spends the output of `tx` at position `vout`.
    pub open spec fn of_output(tx: TransactionView, vout: int) -> InputView {
        InputView {
            non_witness_utxo: Some(transaction_bytes(tx)),
            witness_utxo: Some(tx.output[vout]),
            ..InputView::blank()
        }
    }
}

/// The map holds nothing but what its input spends.
pub open spec fn holds_nothing_else(psbtin: InputView) -> bool {
    &&& psbtin.partial_sigs.len() == 0
    &&& psbtin.witness_script is None
    &&& psbtin.bip32_derivation.len() == 0
    &&& psbtin.final_script_sig is None
    &&& psbtin.final_script_witness is None
    &&& psbtin.other is None
}

/// The map `psbtin` holds all that the map `described` holds besides what its input spends.
pub open spec fn keeps_description(described: InputView, psbtin: InputView) -> bool {
    &&& psbtin.partial_sigs == described.partial_sigs
    &&& psbtin.witness_script == described.witness_script
    &&& psbtin.bip32_derivation == described.bip32_derivation
    &&& psbtin.final_script_sig == described.final_script_sig
    &&& psbtin.final_script_witness == described.final_script_witness
    &&& psbtin.other == described.other
}

/// The input spends `coin`: it is unsigned and can be replaced, its map says what it spends, and
/// the key is that of the descriptor which the coin was received with.
pub open spec fn spends_coin(
    coin: Coin,
    weight: u64,
    txin: TxInView,
    psbtin: InputView,
    candidate: CandidateView,
) -> bool {
    &&& txin.previous_output.txid == coin.outpoint.txid@
    &&& txin.previous_output.vout == coin.outpoint.vout
    &&& txin.script_sig.len() == 0
    &&& txin.sequence == 0xFFFF_FFFD
    &&& txin.witness.len() == 0
    &&& psbtin.non_witness_utxo == Some(transaction_bytes(coin.tx@))
    &&& psbtin.witness_utxo == Some(coin.tx@.output[coin.outpoint.vout as int])
    &&& coin.is_change ==> candidate.keychain == Keychain::Change
    &&& !coin.is_change ==> candidate.keychain == Keychain::Receive
    &&& candidate.derivation_index == coin.derivation_index
    &&& candidate.weight == weight
}

/// The unsigned input that spends `outpoint`.
pub fn spending_input(outpoint: OutPoint) -> (txin: TxIn)
    ensures
        txin@ == TxInView::spending(outpoint@),
        txin.previous_output == outpoint,
        txin.script_sig.len() == 0,
        txin.sequence == 0xFFFF_FFFD,
        txin.witness.len() == 0,
{
    let txin = TxIn {
        previous_output: outpoint,
        script_sig: Vec::new(),
        sequence: ENABLE_RBF_NO_LOCKTIME,
        witness: Vec::new(),
    };
    assert(txin@ =~= TxInView::spending(outpoint@));
    txin
}

/// The map of an input that spends an output of `tx`, if there is such an output.
pub fn output_input(tx: &Transaction, vout: u32) -> (psbtin: Option<Input>)
    ensures
        match psbtin {
            Some(psbtin) => vout < tx@.output.len() && psbtin@ == InputView::of_output(
                tx@,
                vout as int,
            ),
            None => vout >= tx@.output.len(),
        },
        psbtin is Some <==> vout < tx.output.len(),
        psbtin matches Some(psbtin) ==> {
            &&& psbtin@.non_witness_utxo == Some(transaction_bytes(tx@))
            &&& psbtin@.witness_utxo == Some(tx@.output[vout as int])
            &&& psbtin.partial_sigs.len() == 0
            &&& psbtin.witness_script is None
            &&& psbtin.bip32_derivation.len() == 0
            &&& psbtin.final_script_sig is None
            &&& psbtin.final_script_witness is None
            &&& psbtin.other is None
        },
{
    match tx.tx_out(vout) {
        Some(txout) => {
            let mut psbtin = Input::default();
            psbtin.non_witness_utxo = Some(serialize(tx));
            psbtin.witness_utxo = Some(txout);
            assert(psbtin@ =~= InputView::of_output(tx@, vout as int));
            Some(psbtin)
        },
        None => None,
    }
}

impl Coin {
    /// The descriptor that the coin was received with.
    pub open spec fn keychain(self) -> Keychain {
        if self.is_change {
            Keychain::Change
        } else {
            Keychain::Receive
        }
    }

    /// The transaction has the output that the coin is.
    pub open spec fn is_output(self) -> bool {
        self.outpoint.vout < self.tx@.output.len()
    }

    /// The candidate that spends this coin, whose satisfaction weighs `weight` at worst.
    pub open spec fn candidate(self, weight: u64) -> CandidateView {
        CandidateView {
            txin: TxInView::spending(self.outpoint@),
            psbtin: InputView::of_output(self.tx@, self.outpoint.vout as int),
            keychain: self.keychain(),
            derivation_index: self.derivation_index,
            weight,
        }
    }
}

/// One candidate for each coin, in their order.
pub open spec fn candidates_of(coins: Seq<Coin>, weight: u64) -> Seq<CandidateView> {
    coins.map_values(|coin: Coin| coin.candidate(weight))
}

/// Each coin is an output of its transaction.
pub open spec fn all_outputs(coins: Seq<Coin>) -> bool {
    forall|i: int| 0 <= i < coins.len() ==> (#[trigger] coins[i]).is_output()
}

/// The inputs that the wallet could contribute: one for each coin, in their order.
pub fn candidate_inputs(coins: &Vec<Coin>, weight: u64) -> (candidates: Result<
    Vec<Candidate>,
    String,
>)
    ensures
        match candidates {
            Ok(candidates) => all_outputs(coins@) && candidates_view(candidates@)
                == candidates_of(coins@, weight),
            Err(error) => !all_outputs(coins@) && error@ == "invalid output index"@,
        },
        candidates is Ok <==> forall|i: int|
            0 <= i < coins.len() ==> (#[trigger] coins@[i]).outpoint.vout
                < coins@[i].tx.output.len(),
        candidates matches Ok(candidates) ==> {
            &&& candidates.len() == coins.len()
            &&& forall|i: int|
                0 <= i < coins.len() ==> spends_coin(
                    #[trigger] coins@[i],
                    weight,
                    candidates@[i].txin@,
                    candidates@[i].psbtin@,
                    candidates@[i]@,
                ) && holds_nothing_else(candidates@[i].psbtin@)
            &&& forall|i: int|
                0 <= i < coins.len() ==> {
                    &&& (#[trigger] candidates@[i]).txin.previous_output@ == coins@[i].outpoint@
                    &&& candidates@[i].keychain == (if coins@[i].is_change {
                        Keychain::Change
                    } else {
                        Keychain::Receive
                    })
                    &&& candidates@[i].derivation_index == coins@[i].derivation_index
                    &&& candidates@[i].weight == weight
                }
        },
{
    let mut candidates: Vec<Candidate> = Vec::new();
    let mut i: usize = 0;
    while i < coins.len()
        invariant
            i <= coins.len(),
            candidates.len() == i,
            forall|k: int|
                0 <= k < i ==> (#[trigger] coins@[k]).is_output() && candidates@[k]@
                    == coins@[k].candidate(weight),
        decreases coins.len() - i,
    {
        let coin = &coins[i];
        match output_input(&coin.tx, coin.outpoint.vout) {
            Some(psbtin) => {
                let keychain = if coin.is_change {
                    Keychain::Change
                } else {
                    Keychain::Receive
                };
                candidates.push(
                    Candidate {
                        txin: spending_input(coin.outpoint),
                        psbtin,
                        keychain,
                        derivation_index: coin.derivation_index,
                        weight,
                    },
                );
            },
            None => {
                assert(!coins@[i as int].is_output());
                return Err("invalid output index".to_string());
            },
        }
        i += 1;
    }
    assert(candidates_view(candidates@) =~= candidates_of(coins@, weight));
    assert forall|i: int| 0 <= i < coins.len() implies spends_coin(
        #[trigger] coins@[i],
        weight,
        candidates@[i].txin@,
        candidates@[i].psbtin@,
        candidates@[i]@,
    ) && holds_nothing_else(candidates@[i].psbtin@) && coins@[i].outpoint.vout
        < coins@[i].tx.output.len() by {
        assert(coins@[i].is_output());
        assert(candidates@[i]@ == coins@[i].candidate(weight));
    }
    assert forall|i: int| 0 <= i < coins.len() implies (#[trigger] candidates@[i])@
        == coins@[i].candidate(weight) by {
        assert(coins@[i].is_output());
    }
    Ok(candidates)
}

/// Copies candidates.
fn clone_candidates(candidates: &Vec<Candidate>) -> (copy: Vec<Candidate>)
    ensures
        candidates_view(copy@) == candidates_view(candidates@),
{
    let mut copy: Vec<Candidate> = Vec::new();
    let mut i: usize = 0;
    while i < candidates.len()
        invariant
            i <= candidates.len(),
            copy.len() == i,
            forall|k: int| 0 <= k < i ==> (#[trigger] copy@[k])@ == candidates@[k]@,
        decreases candidates.len() - i,
    {
        copy.push(candidates[i].clone());
        i += 1;
    }
    assert(candidates_view(copy@) =~= candidates_view(candidates@));
    copy
}

/// The candidates with their described maps.
pub open spec fn described_with(
    candidates: Seq<CandidateView>,
    maps: Seq<InputView>,
) -> Seq<CandidateView> {
    Seq::new(candidates.len(), |i: int| candidates[i].described(maps[i]))
}

/// Gives the candidates the maps to which their descriptors have added what they know.
pub fn describe_candidates(candidates: &Vec<Candidate>, maps: &Vec<Input>) -> (described: Vec<
    Candidate,
>)
    requires
        maps.len() == candidates.len(),
    ensures
        candidates_view(described@) == described_with(
            candidates_view(candidates@),
            inputs_view(maps@),
        ),
        described.len() == candidates.len(),
        forall|i: int|
            0 <= i < candidates.len() ==> {
                &&& (#[trigger] described@[i]).txin@ == candidates@[i].txin@
                &&& described@[i].keychain == candidates@[i].keychain
                &&& described@[i].derivation_index == candidates@[i].derivation_index
                &&& described@[i].weight == candidates@[i].weight
                &&& described@[i].psbtin@.non_witness_utxo
                    == candidates@[i].psbtin@.non_witness_utxo
                &&& described@[i].psbtin@.witness_utxo == candidates@[i].psbtin@.witness_utxo
                &&& described@[i].psbtin@.partial_sigs == maps@[i]@.partial_sigs
                &&& described@[i].psbtin@.witness_script == maps@[i]@.witness_script
                &&& described@[i].psbtin@.bip32_derivation == maps@[i]@.bip32_derivation
                &&& described@[i].psbtin@.final_script_sig == maps@[i]@.final_script_sig
                &&& described@[i].psbtin@.final_script_witness == maps@[i]@.final_script_witness
                &&& described@[i].psbtin@.other == maps@[i]@.other
            },
{
    let mut described: Vec<Candidate> = Vec::new();
    let mut i: usize = 0;
    while i < candidates.len()
        invariant
            i <= candidates.len(),
            maps.len() == candidates.len(),
            described.len() == i,
            forall|k: int|
                0 <= k < i ==> (#[trigger] described@[k])@ == candidates@[k]@.described(maps@[k]@),
        decreases candidates.len() - i,
    {
        let mut candidate = candidates[i].clone();
        let mut psbtin = maps[i].clone();
        psbtin.non_witness_utxo = candidate.psbtin.non_witness_utxo;
        psbtin.witness_utxo = candidate.psbtin.witness_utxo;
        candidate.psbtin = psbtin;
        assert(candidate@ =~= candidates@[i as int]@.described(maps@[i as int]@));
        described.push(candidate);
        i += 1;
    }
    assert(candidates_view(described@) =~= described_with(
        candidates_view(candidates@),
        inputs_view(maps@),
    ));
    described
}

/// The candidates as the payjoin crate takes them, one for each, in their order; `None` for each
/// of which it does not accept the map.
pub open spec fn pairs_of(candidates: Seq<CandidateView>) -> Seq<Option<InputPair>> {
    candidates.map_values(
        |candidate: CandidateView| input_pair_of(candidate.txin, candidate.psbtin),
    )
}

/// The candidates as the payjoin crate takes them. It works out by itself what they weigh.
pub fn input_pairs(candidates: &Vec<Candidate>) -> (pairs: Vec<Option<InputPair>>)
    ensures
        pairs@ == pairs_of(candidates_view(candidates@)),
        pairs.len() == candidates.len(),
        forall|i: int|
            0 <= i < candidates.len() ==> #[trigger] pairs@[i] == input_pair_of(
                candidates@[i].txin@,
                candidates@[i].psbtin@,
            ),
{
    let mut pairs: Vec<Option<InputPair>> = Vec::new();
    let mut i: usize = 0;
    while i < candidates.len()
        invariant
            i <= candidates.len(),
            pairs.len() == i,
            forall|k: int|
                0 <= k < i ==> #[trigger] pairs@[k] == input_pair_of(
                    candidates@[k].txin@,
                    candidates@[k].psbtin@,
                ),
        decreases candidates.len() - i,
    {
        pairs.push(protocol::input_pair(&candidates[i].txin, &candidates[i].psbtin));
        i += 1;
    }
    assert(pairs@ =~= pairs_of(candidates_view(candidates@)));
    pairs
}

/// Each coin is offered exactly once: there is one pair for each coin, it is made of an input that
/// spends that coin and of a map that says what it spends and holds all else that was described of
/// it, the keys that are to sign included, and if all coins differ, so do the inputs.
pub proof fn law_every_coin_is_offered_once(
    coins: Seq<Coin>,
    weight: u64,
    maps: Seq<InputView>,
    i: int,
    j: int,
)
    requires
        maps.len() == coins.len(),
        0 <= i < coins.len(),
        0 <= j < coins.len(),
        coins[i].outpoint@ != coins[j].outpoint@,
    ensures
        ({
            let offered = described_with(candidates_of(coins, weight), maps);
            &&& pairs_of(offered).len() == coins.len()
            &&& pairs_of(offered)[i] == input_pair_of(
                TxInView::spending(coins[i].outpoint@),
                offered[i].psbtin,
            )
            &&& offered[i].psbtin.witness_utxo == Some(
                coins[i].tx@.output[coins[i].outpoint.vout as int],
            )
            &&& offered[i].psbtin.non_witness_utxo == Some(transaction_bytes(coins[i].tx@))
            &&& offered[i].txin.previous_output != offered[j].txin.previous_output
            &&& offered.len() == coins.len()
            &&& spends_coin(coins[i], weight, offered[i].txin, offered[i].psbtin, offered[i])
            &&& offered[i].psbtin.partial_sigs == maps[i].partial_sigs
            &&& offered[i].psbtin.witness_script == maps[i].witness_script
            &&& offered[i].psbtin.bip32_derivation == maps[i].bip32_derivation
            &&& offered[i].psbtin.final_script_sig == maps[i].final_script_sig
            &&& offered[i].psbtin.final_script_witness == maps[i].final_script_witness
            &&& offered[i].psbtin.other == maps[i].other
            &&& pairs_of(offered)[i] == input_pair_of(offered[i].txin, offered[i].psbtin)
        }),
{
}

/// The state in which the log of a receiver's session leaves it. A provisional proposal comes
/// with the PSBT to which the wallet has contributed, if there is one.
#[derive(Debug)]
pub enum ReceiverState {
    Uninitialized,
    Initialized,
    UncheckedProposal,
    MaybeInputsOwned,
    MaybeInputsSeen,
    OutputsUnknown,
    WantsOutputs,
    WantsInputs,
    ProvisionalProposal(Option<Psbt>),
    PayjoinProposal,
    TerminalFailure,
}

/// What takes a session from one state to the next, up to the contribution of the wallet.
#[derive(Debug, Clone, Copy, PartialEq, Eq, Structural)]
pub enum ReceiverStep {
    ReadFromDirectory,
    CheckProposal,
    CheckInputsNotOwned,
    CheckNoInputsSeenBefore,
    IdentifyReceiverOutputs,
    CommitOutputs,
    ContributeInputs,
}

impl ReceiverStep {
    /// The step behind this one.
    pub open spec fn following(self) -> ReceiverStep {
        match self {
            ReceiverStep::ReadFromDirectory => ReceiverStep::CheckProposal,
            ReceiverStep::CheckProposal => ReceiverStep::CheckInputsNotOwned,
            ReceiverStep::CheckInputsNotOwned => ReceiverStep::CheckNoInputsSeenBefore,
            ReceiverStep::CheckNoInputsSeenBefore => ReceiverStep::IdentifyReceiverOutputs,
            ReceiverStep::IdentifyReceiverOutputs => ReceiverStep::CommitOutputs,
            _ => ReceiverStep::ContributeInputs,
        }
    }

    /// How many steps there are from this one on.
    pub open spec fn remaining(self) -> nat {
        match self {
            ReceiverStep::ReadFromDirectory => 7,
            ReceiverStep::CheckProposal => 6,
            ReceiverStep::CheckInputsNotOwned => 5,
            ReceiverStep::CheckNoInputsSeenBefore => 4,
            ReceiverStep::IdentifyReceiverOutputs => 3,
            ReceiverStep::CommitOutputs => 2,
            ReceiverStep::ContributeInputs => 1,
        }
    }

    /// The step behind this one.
    pub fn next(self) -> (step: ReceiverStep)
        ensures
            step == self.following(),
    {
        match self {
            ReceiverStep::ReadFromDirectory => ReceiverStep::CheckProposal,
            ReceiverStep::CheckProposal => ReceiverStep::CheckInputsNotOwned,
            ReceiverStep::CheckInputsNotOwned => ReceiverStep::CheckNoInputsSeenBefore,
            ReceiverStep::CheckNoInputsSeenBefore => ReceiverStep::IdentifyReceiverOutputs,
            ReceiverStep::IdentifyReceiverOutputs => ReceiverStep::CommitOutputs,
            _ => ReceiverStep::ContributeInputs,
        }
    }
}

/// A session as it is listed, with the time at which it was completed, in nanoseconds.
#[derive(Debug, Clone, Copy, PartialEq, Eq, Structural)]
pub struct ListedSession {
    pub session_id: SessionId,
    pub completed_at: Option<i128>,
}

impl ListedSession {
    /// The session was completed before `now`.
    pub open spec fn past(self, now: i128) -> bool {
        self.completed_at matches Some(time) && now > time
    }

    /// Whether the session was completed before `now`.
    pub fn is_past(&self, now: i128) -> (past: bool)
        ensures
            past == self.past(now),
    {
        match self.completed_at {
            Some(time) => now > time,
            None => false,
        }
    }
}

/// What is being waited for in the session at hand.
#[derive(Debug)]
pub enum ReceiverPhase {
    /// The time, to tell whether the next session has to be looked at.
    Choosing,
    /// The state of the session.
    Replaying,
    /// The outcome of a step.
    Stepping(ReceiverStep),
    /// The coins that the wallet could contribute.
    ListingCoins,
    /// What the wallet's descriptor knows of the candidates.
    Describing(Vec<Candidate>),
    /// The place of the candidate that is to be contributed.
    Selecting(Vec<Candidate>),
    /// The outcome of the contribution.
    Contributing,
    /// The wallet's PSBT, which the user may have signed.
    FindingSpend,
    /// The outcome of an attempt to finalize an input of the signed PSBT.
    Attempting(Finalizing),
    /// The proposal with the wallet's signatures.
    Finalizing,
    /// The response to the proposal.
    Sending,
}

/// A pass over all sessions: those before `position` have been dealt with.
#[derive(Debug)]
pub struct ReceiverPass {
    pub sessions: Vec<ListedSession>,
    pub position: usize,
    pub phase: ReceiverPhase,
}

/// How far a pass has come.
#[derive(Debug)]
pub enum ReceiverCheck {
    Running(ReceiverPass),
    Done,
}

/// What the wallet has contributed to a proposal, and the URI of the session.
#[derive(Debug)]
pub struct Contribution {
    pub psbt: Psbt,
    pub bip21: String,
}

/// How the answer to the sender went.
#[derive(Debug)]
pub enum SendOutcome {
    /// There was no response to the request.
    RequestFailed(String),
    /// The directory took the proposal.
    Accepted(Contribution),
    /// The response was an error, or the event could not be stored.
    Rejected(String),
}

/// What the world outside answers to a command.
#[derive(Debug)]
pub enum ReceiverEvent {
    /// The time, in nanoseconds.
    Clock(i128),
    /// The log was replayed, or it could not be.
    Replayed(Result<ReceiverState, String>),
    /// The outcome of a step, or of finalizing the proposal.
    Stepped(Result<(), String>),
    /// The confirmed coins, and what satisfying the wallet's descriptor weighs at worst.
    Coins { coins: Vec<Coin>, weight: u64 },
    /// The maps of the candidates, to which the descriptor has added what it knows.
    Described(Vec<Input>),
    /// The place of the candidate that was selected.
    Selected(usize),
    /// The outcome of the contribution.
    Contributed(Result<Contribution, String>),
    /// The PSBT that the wallet has under a transaction id.
    Spend(Option<Psbt>),
    /// The map that an input was given by an attempt to finalize it, if that succeeded.
    Attempted(Option<Input>),
    Sent(SendOutcome),
}

/// What is to be done in the world outside.
#[derive(Debug)]
pub enum ReceiverCommand {
    /// Tell the time.
    ReadClock,
    /// Replay the log of this session.
    Replay(SessionId),
    /// Take the session one step further and store the event.
    Run(ReceiverStep),
    /// Check that the sender's transaction can be broadcast, and that it pays at least this fee
    /// rate (in satoshis per thousand weight units) if there is one, and store the event.
    CheckBroadcast { min_fee_rate: Option<u64> },
    /// List the confirmed coins.
    ListCoins,
    /// Apply the wallet's descriptor to the maps of these candidates.
    Describe(Vec<Candidate>),
    /// Select one of these, of which all are offered.
    Select(Vec<Option<InputPair>>),
    /// Contribute this input and no other, and store the event.
    Contribute(Option<InputPair>),
    /// Look up the PSBT that the wallet has under this id.
    FindSpend(Txid),
    /// Try to finalize one input of this PSBT.
    Attempt { psbt: Psbt, index: usize },
    /// Finalize the proposal with this PSBT and within these bounds on the fee rate (in satoshis
    /// per thousand weight units), as far as there are any, and store the event.
    Finalize { psbt: Psbt, min_fee_rate: Option<u64>, max_fee_rate: Option<u64> },
    /// Answer the sender.
    Send,
    /// Do these writes, the first one first; then tell the time.
    Write(Vec<SessionWrite>),
    /// The pass is over; there may be something to warn of.
    Finish(Option<String>),
}

impl Finalizing {
    /// The PSBT that is being finalized carries a signature.
    pub open spec fn of_signed(self) -> bool {
        exists|before: PsbtView, outcomes: Seq<Option<InputView>>| #[trigger]
            self.after(before, outcomes) && before.signed()
    }
}

impl ReceiverPass {
    /// There is a session at hand, unless one is still to be chosen, and only a signed PSBT is
    /// being finalized.
    pub open spec fn well_formed(self) -> bool {
        &&& self.position <= self.sessions.len()
        &&& self.phase is Choosing || self.position < self.sessions.len()
        &&& self.phase matches ReceiverPhase::Attempting(work) ==> work.of_signed()
        &&& self.phase matches ReceiverPhase::Stepping(step) ==> step
            != ReceiverStep::ContributeInputs
    }

    /// The event answers the last command.
    pub open spec fn expects(self, event: ReceiverEvent) -> bool {
        match self.phase {
            ReceiverPhase::Choosing => event is Clock,
            ReceiverPhase::Replaying => event is Replayed,
            ReceiverPhase::Stepping(_) => event is Stepped,
            ReceiverPhase::ListingCoins => event is Coins,
            ReceiverPhase::Describing(candidates) => event matches ReceiverEvent::Described(maps)
                && maps.len() == candidates.len(),
            ReceiverPhase::Selecting(candidates) => event matches ReceiverEvent::Selected(place)
                && place < candidates.len(),
            ReceiverPhase::Contributing => event is Contributed,
            ReceiverPhase::FindingSpend => event is Spend,
            ReceiverPhase::Attempting(_) => event is Attempted,
            ReceiverPhase::Finalizing => event is Stepped,
            ReceiverPhase::Sending => event is Sent,
        }
    }

    /// How many more phases the session at hand can have.
    pub open spec fn phases_left(self) -> int {
        match self.phase {
            ReceiverPhase::Choosing => 13,
            ReceiverPhase::Replaying => 12,
            ReceiverPhase::Stepping(step) => 4 + step.remaining() as int,
            ReceiverPhase::ListingCoins => 4,
            ReceiverPhase::Describing(_) => 3,
            ReceiverPhase::Selecting(_) => 2,
            ReceiverPhase::Contributing => 1,
            ReceiverPhase::FindingSpend => 4,
            ReceiverPhase::Attempting(_) => 3,
            ReceiverPhase::Finalizing => 2,
            ReceiverPhase::Sending => 1,
        }
    }

    /// How many more inputs there are to be attempted.
    pub open spec fn attempts_left(self) -> int {
        match self.phase {
            ReceiverPhase::Attempting(work) => work.inputs_to_finalize.len() - work.done,
            _ => 0,
        }
    }

    /// `then` is closer to the end: there are fewer sessions left, or as many and fewer phases, or
    /// as many of both and fewer attempts.
    pub open spec fn closer(self, then: ReceiverPass) -> bool {
        ||| then.position > self.position
        ||| then.position == self.position && then.phases_left() < self.phases_left()
        ||| {
            &&& then.position == self.position
            &&& then.phases_left() == self.phases_left()
            &&& 0 <= then.attempts_left() < self.attempts_left()
        }
    }
}

/// The same session, of which something else is being waited for.
pub open spec fn waits(pass: ReceiverPass, phase: ReceiverPhase, next: ReceiverCheck) -> bool {
    next == ReceiverCheck::Running(ReceiverPass { phase, ..pass })
}

/// The same session, at which nothing else has changed.
pub open spec fn stays(pass: ReceiverPass, next: ReceiverCheck) -> bool {
    &&& next matches ReceiverCheck::Running(then)
    &&& then.sessions == pass.sessions
    &&& then.position == pass.position
}

/// The phase of a pass that is running.
pub open spec fn phase_of(next: ReceiverCheck) -> ReceiverPhase {
    next->Running_0.phase
}

/// The session at hand has been dealt with, the one behind it is to be looked at.
pub open spec fn goes_on(pass: ReceiverPass, next: ReceiverCheck) -> bool {
    &&& next matches ReceiverCheck::Running(then)
    &&& then.sessions == pass.sessions
    &&& then.position == pass.position + 1
    &&& then.phase is Choosing
}

/// The metadata of a session whose PSBT is that of the contribution.
pub open spec fn metadata_of(
    status: PayjoinStatus,
    contribution: Contribution,
) -> SessionMetadataView {
    SessionMetadataView {
        status,
        maybe_txid: Some(txid_of(contribution.psbt@.unsigned_tx)),
        maybe_psbt: Some(contribution.psbt@),
        maybe_bip21: Some(contribution.bip21@),
    }
}

/// The writes after which the user can sign what the wallet has contributed.
pub open spec fn signing_writes(contribution: Contribution) -> Seq<SessionWriteView> {
    seq![
        SessionWriteView::StoreSpend(contribution.psbt@),
        SessionWriteView::UpdateMetadata(metadata_of(PayjoinStatus::Signing, contribution)),
    ]
}

/// The write that completes a session.
pub open spec fn completing_writes(contribution: Contribution) -> Seq<SessionWriteView> {
    seq![SessionWriteView::UpdateMetadata(metadata_of(PayjoinStatus::Completed, contribution))]
}

/// What comes of an event: the next state and a command, or the error that ends the pass.
pub type Outcome = Result<(ReceiverCheck, ReceiverCommand), String>;

/// What a session in a certain state needs next: a step, the wallet's PSBT or the answer to the
/// sender.
pub open spec fn dispatched(pass: ReceiverPass, state: ReceiverState, outcome: Outcome) -> bool {
    match state {
        ReceiverState::Initialized => runs(pass, ReceiverStep::ReadFromDirectory, outcome),
        ReceiverState::UncheckedProposal => runs(pass, ReceiverStep::CheckProposal, outcome),
        ReceiverState::MaybeInputsOwned => runs(pass, ReceiverStep::CheckInputsNotOwned, outcome),
        ReceiverState::MaybeInputsSeen => runs(pass, ReceiverStep::CheckNoInputsSeenBefore, outcome),
        ReceiverState::OutputsUnknown => runs(pass, ReceiverStep::IdentifyReceiverOutputs, outcome),
        ReceiverState::WantsOutputs => runs(pass, ReceiverStep::CommitOutputs, outcome),
        ReceiverState::WantsInputs => runs(pass, ReceiverStep::ContributeInputs, outcome),
        ReceiverState::ProvisionalProposal(None) => skips(pass, outcome),
        ReceiverState::ProvisionalProposal(Some(psbt)) => {
            &&& outcome matches Ok((next, command))
            &&& waits(pass, ReceiverPhase::FindingSpend, next)
            &&& command matches ReceiverCommand::FindSpend(txid)
            &&& txid@ == txid_of(psbt@.unsigned_tx)
        },
        ReceiverState::PayjoinProposal => sends(pass, outcome),
        ReceiverState::Uninitialized => fails(
            outcome,
            "Unexpected receiver state: Uninitialized(Receiver { state: UninitializedReceiver })"@,
        ),
        ReceiverState::TerminalFailure => fails(
            outcome,
            "Unexpected receiver state: TerminalFailure"@,
        ),
    }
}

/// The session is to be taken one step further.
pub open spec fn runs(pass: ReceiverPass, step: ReceiverStep, outcome: Outcome) -> bool {
    &&& outcome matches Ok((next, command))
    &&& match step {
        ReceiverStep::CheckProposal => {
            &&& waits(pass, ReceiverPhase::Stepping(step), next)
            &&& command == (ReceiverCommand::CheckBroadcast { min_fee_rate: None })
        },
        ReceiverStep::ContributeInputs => {
            &&& waits(pass, ReceiverPhase::ListingCoins, next)
            &&& command is ListCoins
        },
        _ => {
            &&& waits(pass, ReceiverPhase::Stepping(step), next)
            &&& command == ReceiverCommand::Run(step)
        },
    }
}

/// There is nothing to be done about the session now.
pub open spec fn skips(pass: ReceiverPass, outcome: Outcome) -> bool {
    &&& outcome matches Ok((next, command))
    &&& goes_on(pass, next)
    &&& command is ReadClock
}

/// The sender is to be answered.
pub open spec fn sends(pass: ReceiverPass, outcome: Outcome) -> bool {
    &&& outcome matches Ok((next, command))
    &&& waits(pass, ReceiverPhase::Sending, next)
    &&& command is Send
}

/// The session has been dealt with by these writes.
pub open spec fn writes(
    pass: ReceiverPass,
    expected: Seq<SessionWriteView>,
    outcome: Outcome,
) -> bool {
    &&& outcome matches Ok((next, command))
    &&& goes_on(pass, next)
    &&& command matches ReceiverCommand::Write(done)
    &&& writes_view(done@) == expected
}

/// The pass ends with an error.
pub open spec fn fails(outcome: Outcome, error: Seq<char>) -> bool {
    outcome matches Err(text) && text@ == error
}

/// The descriptor is to be applied to one candidate for each coin.
pub open spec fn describes(
    pass: ReceiverPass,
    coins: Seq<Coin>,
    weight: u64,
    outcome: Outcome,
) -> bool {
    &&& outcome matches Ok((next, command))
    &&& stays(pass, next)
    &&& phase_of(next) matches ReceiverPhase::Describing(kept)
    &&& candidates_view(kept@) == candidates_of(coins, weight)
    &&& command matches ReceiverCommand::Describe(candidates)
    &&& candidates_view(candidates@) == candidates_of(coins, weight)
}

/// All candidates are offered, with their described maps.
pub open spec fn selects(
    pass: ReceiverPass,
    candidates: Seq<CandidateView>,
    maps: Seq<InputView>,
    outcome: Outcome,
) -> bool {
    &&& outcome matches Ok((next, command))
    &&& stays(pass, next)
    &&& phase_of(next) matches ReceiverPhase::Selecting(offered)
    &&& candidates_view(offered@) == described_with(candidates, maps)
    &&& command matches ReceiverCommand::Select(pairs)
    &&& pairs@ == pairs_of(described_with(candidates, maps))
}

/// The candidate at `place` is contributed.
pub open spec fn contributes(
    pass: ReceiverPass,
    candidates: Seq<CandidateView>,
    place: int,
    outcome: Outcome,
) -> bool {
    &&& outcome matches Ok((next, command))
    &&& waits(pass, ReceiverPhase::Contributing, next)
    &&& command == ReceiverCommand::Contribute(pairs_of(candidates)[place])
}

/// The finalizing of a signed PSBT goes on: to an attempt on its next input, or, once all have
/// been attempted, to the proposal, for which no bounds on the fee rate are set.
pub open spec fn finalizes(
    pass: ReceiverPass,
    before: PsbtView,
    outcomes: Seq<Option<InputView>>,
    outcome: Outcome,
) -> bool {
    &&& outcome matches Ok((next, command))
    &&& stays(pass, next)
    &&& match command {
        ReceiverCommand::Attempt { psbt, index } => {
            &&& phase_of(next) matches ReceiverPhase::Attempting(work)
            &&& work.after(before, outcomes)
            &&& psbt@ == work.psbt@
            &&& index == work.at()
        },
        ReceiverCommand::Finalize { psbt, min_fee_rate, max_fee_rate } => {
            &&& phase_of(next) is Finalizing
            &&& outcomes.len() == before.wanted().len()
            &&& psbt@ == before.finalized_with(outcomes)
            &&& min_fee_rate is None
            &&& max_fee_rate is None
        },
        _ => false,
    }
}

/// One step of a pass over all sessions: from its state and an event to the next state and a
/// command, or to the error that ends it.
pub open spec fn receiver_step(pass: ReceiverPass, event: ReceiverEvent, outcome: Outcome) -> bool {
    match (pass.phase, event) {
        (ReceiverPhase::Choosing, ReceiverEvent::Clock(now)) => if pass.position
            >= pass.sessions.len() {
            outcome == Ok::<_, String>((ReceiverCheck::Done, ReceiverCommand::Finish(None)))
        } else if pass.sessions@[pass.position as int].past(now) {
            skips(pass, outcome)
        } else {
            &&& outcome matches Ok((next, command))
            &&& waits(pass, ReceiverPhase::Replaying, next)
            &&& command == ReceiverCommand::Replay(pass.sessions@[pass.position as int].session_id)
        },
        (ReceiverPhase::Replaying, ReceiverEvent::Replayed(Ok(state))) => dispatched(
            pass,
            state,
            outcome,
        ),
        (ReceiverPhase::Replaying, ReceiverEvent::Replayed(Err(error))) => fails(
            outcome,
            "Failed to replay receiver event log: "@ + error@,
        ),
        (ReceiverPhase::Stepping(step), ReceiverEvent::Stepped(Ok(()))) => runs(
            pass,
            step.following(),
            outcome,
        ),
        (ReceiverPhase::Stepping(_), ReceiverEvent::Stepped(Err(error))) => fails(outcome, error@),
        (ReceiverPhase::ListingCoins, ReceiverEvent::Coins { coins, weight }) => if all_outputs(
            coins@,
        ) {
            describes(pass, coins@, weight, outcome)
        } else {
            fails(outcome, "invalid output index"@)
        },
        (ReceiverPhase::Describing(candidates), ReceiverEvent::Described(maps)) => selects(
            pass,
            candidates_view(candidates@),
            inputs_view(maps@),
            outcome,
        ),
        (ReceiverPhase::Selecting(candidates), ReceiverEvent::Selected(place)) => contributes(
            pass,
            candidates_view(candidates@),
            place as int,
            outcome,
        ),
        (ReceiverPhase::Contributing, ReceiverEvent::Contributed(Ok(contribution))) => writes(
            pass,
            signing_writes(contribution),
            outcome,
        ),
        (ReceiverPhase::Contributing, ReceiverEvent::Contributed(Err(error))) => fails(
            outcome,
            error@,
        ),
        (ReceiverPhase::FindingSpend, ReceiverEvent::Spend(spend)) => match spend {
            Some(psbt) => if psbt@.signed() {
                finalizes(pass, psbt@, Seq::empty(), outcome)
            } else {
                skips(pass, outcome)
            },
            None => skips(pass, outcome),
        },
        (ReceiverPhase::Attempting(work), ReceiverEvent::Attempted(attempt)) => {
            forall|before: PsbtView, outcomes: Seq<Option<InputView>>| #[trigger]
                work.after(before, outcomes) ==> finalizes(
                    pass,
                    before,
                    outcomes.push(outcome_view(attempt)),
                    outcome,
                )
        },
        (ReceiverPhase::Finalizing, ReceiverEvent::Stepped(Ok(()))) => sends(pass, outcome),
        (ReceiverPhase::Finalizing, ReceiverEvent::Stepped(Err(error))) => fails(outcome, error@),
        (ReceiverPhase::Sending, ReceiverEvent::Sent(SendOutcome::Accepted(contribution))) => {
            writes(pass, completing_writes(contribution), outcome)
        },
        (ReceiverPhase::Sending, ReceiverEvent::Sent(SendOutcome::RequestFailed(_))) => skips(
            pass,
            outcome,
        ),
        (ReceiverPhase::Sending, ReceiverEvent::Sent(SendOutcome::Rejected(error))) => fails(
            outcome,
            error@,
        ),
        _ => false,
    }
}

/// Turns to the session behind the one at hand.
fn go_on(pass: ReceiverPass) -> (next: ReceiverCheck)
    requires
        pass.position < pass.sessions.len(),
    ensures
        goes_on(pass, next),
{
    ReceiverCheck::Running(
        ReceiverPass {
            sessions: pass.sessions,
            position: pass.position + 1,
            phase: ReceiverPhase::Choosing,
        },
    )
}

/// Waits for something else of the session at hand.
fn wait(pass: ReceiverPass, phase: ReceiverPhase) -> (next: ReceiverCheck)
    ensures
        waits(pass, phase, next),
{
    ReceiverCheck::Running(
        ReceiverPass { sessions: pass.sessions, position: pass.position, phase },
    )
}

/// Takes the session at hand one step further.
fn run(pass: ReceiverPass, step: ReceiverStep) -> (outcome: Outcome)
    ensures
        runs(pass, step, outcome),
{
    match step {
        ReceiverStep::CheckProposal => Ok(
            (
                wait(pass, ReceiverPhase::Stepping(step)),
                ReceiverCommand::CheckBroadcast { min_fee_rate: None },
            ),
        ),
        ReceiverStep::ContributeInputs => Ok(
            (wait(pass, ReceiverPhase::ListingCoins), ReceiverCommand::ListCoins),
        ),
        _ => Ok((wait(pass, ReceiverPhase::Stepping(step)), ReceiverCommand::Run(step))),
    }
}

/// The metadata of a session, with the id that belongs to its PSBT.
fn session_metadata(status: PayjoinStatus, contribution: Contribution) -> (metadata: SessionMetadata)
    ensures
        metadata@ == metadata_of(status, contribution),
{
    let txid = compute_txid(&contribution.psbt.unsigned_tx);
    SessionMetadata {
        status,
        maybe_txid: Some(txid),
        maybe_psbt: Some(contribution.psbt),
        maybe_bip21: Some(contribution.bip21),
    }
}

/// What becomes of a proposal to which the wallet contributes: from the coins to the candidates,
/// from those to the one that is selected, and on to what is stored.
fn contribute_inputs(pass: ReceiverPass, event: ReceiverEvent) -> (outcome: Outcome)
    requires
        pass.well_formed(),
        pass.expects(event),
        event is Coins || event is Described || event is Selected || event is Contributed,
    ensures
        receiver_step(pass, event, outcome),
{
    let sessions = pass.sessions;
    let position: usize = pass.position;
    match (pass.phase, event) {
        (_, ReceiverEvent::Coins { coins, weight }) => {
            let candidates = match candidate_inputs(&coins, weight) {
                Ok(candidates) => candidates,
                Err(error) => {
                    return Err(error);
                },
            };
            let kept = clone_candidates(&candidates);
            let phase = ReceiverPhase::Describing(kept);
            Ok(
                (
                    ReceiverCheck::Running(ReceiverPass { sessions, position, phase }),
                    ReceiverCommand::Describe(candidates),
                ),
            )
        },
        (ReceiverPhase::Describing(candidates), ReceiverEvent::Described(maps)) => {
            let offered = describe_candidates(&candidates, &maps);
            let pairs = input_pairs(&offered);
            let phase = ReceiverPhase::Selecting(offered);
            Ok(
                (
                    ReceiverCheck::Running(ReceiverPass { sessions, position, phase }),
                    ReceiverCommand::Select(pairs),
                ),
            )
        },
        (ReceiverPhase::Selecting(candidates), ReceiverEvent::Selected(place)) => {
            let pair = protocol::input_pair(&candidates[place].txin, &candidates[place].psbtin);
            let phase = ReceiverPhase::Contributing;
            assert(candidates_view(candidates@)[place as int] == candidates@[place as int]@);
            Ok(
                (
                    ReceiverCheck::Running(ReceiverPass { sessions, position, phase }),
                    ReceiverCommand::Contribute(pair),
                ),
            )
        },
        (_, ReceiverEvent::Contributed(Ok(contribution))) => {
            let stored = contribution.psbt.clone();
            let metadata = session_metadata(PayjoinStatus::Signing, contribution);
            let phase = ReceiverPhase::Choosing;
            Ok(
                (
                    ReceiverCheck::Running(
                        ReceiverPass { sessions, position: position + 1, phase },
                    ),
                    ReceiverCommand::Write(spend_writes(stored, metadata)),
                ),
            )
        },
        (_, ReceiverEvent::Contributed(Err(error))) => Err(error),
        _ => Ok((ReceiverCheck::Done, ReceiverCommand::Finish(None))),
    }
}

/// Goes on with the finalizing of a signed PSBT.
fn go_on_finalizing(
    sessions: Vec<ListedSession>,
    position: usize,
    step: FinalizeStep,
) -> (outcome: Outcome)
    requires
        step matches FinalizeStep::Attempt(work) ==> work.well_formed(),
    ensures
        forall|pass: ReceiverPass, before: PsbtView, outcomes: Seq<Option<InputView>>|
            pass.sessions == sessions && pass.position == position && #[trigger] continued(
                before,
                outcomes,
                step,
            ) ==> #[trigger] finalizes(pass, before, outcomes, outcome),
{
    match step {
        FinalizeStep::Attempt(work) => {
            let index: usize = work.index();
            let psbt = work.psbt.clone();
            let phase = ReceiverPhase::Attempting(work);
            Ok(
                (
                    ReceiverCheck::Running(ReceiverPass { sessions, position, phase }),
                    ReceiverCommand::Attempt { psbt, index },
                ),
            )
        },
        FinalizeStep::Finished(psbt) => {
            let phase = ReceiverPhase::Finalizing;
            Ok(
                (
                    ReceiverCheck::Running(ReceiverPass { sessions, position, phase }),
                    ReceiverCommand::Finalize { psbt, min_fee_rate: None, max_fee_rate: None },
                ),
            )
        },
    }
}

/// What becomes of a provisional proposal, once it is known which PSBT the wallet has for it: the
/// proposal is finalized if the user has signed that PSBT.
fn finalize_proposal(pass: ReceiverPass, event: ReceiverEvent) -> (outcome: Outcome)
    requires
        pass.well_formed(),
        pass.expects(event),
        event is Spend || event is Attempted,
    ensures
        receiver_step(pass, event, outcome),
{
    match event {
        ReceiverEvent::Spend(Some(psbt)) => {
            if psbt.is_signed() {
                let step = finalize_psbt(psbt);
                go_on_finalizing(pass.sessions, pass.position, step)
            } else {
                Ok((go_on(pass), ReceiverCommand::ReadClock))
            }
        },
        ReceiverEvent::Attempted(attempt) => {
            let ghost whole = pass;
            let ghost given = outcome_view(attempt);
            match pass.phase {
                ReceiverPhase::Attempting(work) => {
                    let ghost at_hand = work;
                    let step = finalize_attempted(work, attempt);
                    proof {
                        let (before, outcomes) = choose|
                            before: PsbtView,
                            outcomes: Seq<Option<InputView>>,
                        | #[trigger]
                            at_hand.after(before, outcomes) && before.signed();
                        assert(continued(before, outcomes.push(given), step));
                    }
                    let outcome = go_on_finalizing(pass.sessions, pass.position, step);
                    assert forall|before: PsbtView, outcomes: Seq<Option<InputView>>| #[trigger]
                        at_hand.after(before, outcomes) implies finalizes(
                        whole,
                        before,
                        outcomes.push(given),
                        outcome,
                    ) by {
                        assert(continued(before, outcomes.push(given), step));
                    }
                    outcome
                },
                _ => Ok((ReceiverCheck::Done, ReceiverCommand::Finish(None))),
            }
        },
        _ => Ok((go_on(pass), ReceiverCommand::ReadClock)),
    }
}

/// What becomes of a session, once the sender has been answered: it is completed if the answer
/// has reached the directory, and tried again another time if there was no response.
fn send_payjoin_proposal(pass: ReceiverPass, sent: SendOutcome) -> (outcome: Outcome)
    requires
        pass.well_formed(),
        pass.phase is Sending,
    ensures
        receiver_step(pass, ReceiverEvent::Sent(sent), outcome),
{
    match sent {
        SendOutcome::Accepted(contribution) => {
            let metadata = session_metadata(PayjoinStatus::Completed, contribution);
            Ok((go_on(pass), ReceiverCommand::Write(metadata_write(metadata))))
        },
        SendOutcome::RequestFailed(_) => Ok((go_on(pass), ReceiverCommand::ReadClock)),
        SendOutcome::Rejected(error) => Err(error),
    }
}

/// What a session in a certain state needs next.
fn dispatch(pass: ReceiverPass, state: ReceiverState) -> (outcome: Outcome)
    requires
        pass.position < pass.sessions.len(),
    ensures
        dispatched(pass, state, outcome),
{
    match state {
        ReceiverState::Initialized => run(pass, ReceiverStep::ReadFromDirectory),
        ReceiverState::UncheckedProposal => run(pass, ReceiverStep::CheckProposal),
        ReceiverState::MaybeInputsOwned => run(pass, ReceiverStep::CheckInputsNotOwned),
        ReceiverState::MaybeInputsSeen => run(pass, ReceiverStep::CheckNoInputsSeenBefore),
        ReceiverState::OutputsUnknown => run(pass, ReceiverStep::IdentifyReceiverOutputs),
        ReceiverState::WantsOutputs => run(pass, ReceiverStep::CommitOutputs),
        ReceiverState::WantsInputs => run(pass, ReceiverStep::ContributeInputs),
        ReceiverState::ProvisionalProposal(Some(psbt)) => {
            let txid = compute_txid(&psbt.unsigned_tx);
            Ok((wait(pass, ReceiverPhase::FindingSpend), ReceiverCommand::FindSpend(txid)))
        },
        ReceiverState::ProvisionalProposal(None) => Ok((go_on(pass), ReceiverCommand::ReadClock)),
        ReceiverState::PayjoinProposal => Ok(
            (wait(pass, ReceiverPhase::Sending), ReceiverCommand::Send),
        ),
        ReceiverState::Uninitialized => Err(
            "Unexpected receiver state: Uninitialized(Receiver { state: UninitializedReceiver })".to_string(),
        ),
        ReceiverState::TerminalFailure => Err(
            "Unexpected receiver state: TerminalFailure".to_string(),
        ),
    }
}

/// What the outcome of a step leads to.
fn stepped(pass: ReceiverPass, result: Result<(), String>) -> (outcome: Outcome)
    requires
        pass.well_formed(),
        pass.expects(ReceiverEvent::Stepped(result)),
    ensures
        receiver_step(pass, ReceiverEvent::Stepped(result), outcome),
{
    match result {
        Ok(()) => {
            let next = match &pass.phase {
                ReceiverPhase::Stepping(step) => Some(step.next()),
                _ => None,
            };
            match next {
                Some(step) => run(pass, step),
                None => Ok((wait(pass, ReceiverPhase::Sending), ReceiverCommand::Send)),
            }
        },
        Err(error) => Err(error),
    }
}

/// One step of a pass over all sessions, or the error that ends it.
pub fn process_receiver_session(pass: ReceiverPass, event: ReceiverEvent) -> (outcome: Outcome)
    requires
        pass.well_formed(),
        pass.expects(event),
    ensures
        receiver_step(pass, event, outcome),
{
    match event {
        ReceiverEvent::Clock(now) => {
            if pass.position >= pass.sessions.len() {
                return Ok((ReceiverCheck::Done, ReceiverCommand::Finish(None)));
            }
            // No need to check past completed payjoins
            let session = pass.sessions[pass.position];
            if session.is_past(now) {
                Ok((go_on(pass), ReceiverCommand::ReadClock))
            } else {
                Ok((wait(pass, ReceiverPhase::Replaying), ReceiverCommand::Replay(session.session_id)))
            }
        },
        ReceiverEvent::Replayed(Ok(state)) => dispatch(pass, state),
        ReceiverEvent::Replayed(Err(error)) => Err(
            error_text("Failed to replay receiver event log: ", error.as_str()),
        ),
        ReceiverEvent::Stepped(result) => stepped(pass, result),
        ReceiverEvent::Spend(spend) => finalize_proposal(pass, ReceiverEvent::Spend(spend)),
        ReceiverEvent::Attempted(attempt) => finalize_proposal(
            pass,
            ReceiverEvent::Attempted(attempt),
        ),
        ReceiverEvent::Sent(sent) => send_payjoin_proposal(pass, sent),
        event => contribute_inputs(pass, event),
    }
}

/// One step of a pass, in which an error is something to warn of.
pub open spec fn receiver_check_step(
    pass: ReceiverPass,
    event: ReceiverEvent,
    next: ReceiverCheck,
    command: ReceiverCommand,
) -> bool {
    ||| receiver_step(pass, event, Ok((next, command)))
    ||| exists|error: String| #[trigger]
        receiver_step(pass, event, Err(error)) && next is Done && (command matches ReceiverCommand::Finish(
            Some(text),
        ) && text@ == "process_receiver_session(): "@ + error@)
}

/// One step of a pass over all sessions.
pub fn payjoin_receiver_check(pass: ReceiverPass, event: ReceiverEvent) -> (result: (
    ReceiverCheck,
    ReceiverCommand,
))
    requires
        pass.well_formed(),
        pass.expects(event),
    ensures
        receiver_check_step(pass, event, result.0, result.1),
{
    match process_receiver_session(pass, event) {
        Ok(result) => result,
        Err(error) => {
            let warning = error_text("process_receiver_session(): ", error.as_str());
            (ReceiverCheck::Done, ReceiverCommand::Finish(Some(warning)))
        },
    }
}

/// A pass comes to an end: every step leads on to fewer sessions, or within a session to fewer
/// phases, or within a phase to fewer attempts, of which there are only so many, and it gives the
/// last command exactly when it is over. Each session is dealt with once, in order, and only a
/// signed PSBT is being finalized.
pub proof fn law_receiver_pass_ends(
    pass: ReceiverPass,
    event: ReceiverEvent,
    next: ReceiverCheck,
    command: ReceiverCommand,
)
    requires
        pass.well_formed(),
        pass.expects(event),
        receiver_check_step(pass, event, next, command),
    ensures
        0 < pass.phases_left() <= 13,
        next is Done <==> command is Finish,
        next matches ReceiverCheck::Running(then) ==> {
            &&& then.well_formed()
            &&& pass.closer(then)
            &&& then.sessions == pass.sessions
            &&& then.position == pass.position || then.position == pass.position + 1
        },
{
    match (pass.phase, event) {
        (ReceiverPhase::FindingSpend, ReceiverEvent::Spend(Some(psbt))) => {
            if psbt@.signed() {
                assert(finalizes(pass, psbt@, Seq::empty(), Ok((next, command))));
            }
        },
        (ReceiverPhase::Attempting(work), ReceiverEvent::Attempted(attempt)) => {
            let (before, outcomes) = choose|before: PsbtView, outcomes: Seq<Option<InputView>>|
                #[trigger] work.after(before, outcomes) && before.signed();
            assert(finalizes(
                pass,
                before,
                outcomes.push(outcome_view(attempt)),
                Ok((next, command)),
            ));
        },
        _ => {},
    }
}

/// Nothing is done about a session that was completed in the past.
pub proof fn law_past_sessions_are_skipped(
    pass: ReceiverPass,
    now: i128,
    next: ReceiverCheck,
    command: ReceiverCommand,
)
    requires
        pass.phase is Choosing,
        pass.position < pass.sessions.len(),
        pass.sessions@[pass.position as int].past(now),
        receiver_check_step(pass, ReceiverEvent::Clock(now), next, command),
    ensures
        goes_on(pass, next),
        command is ReadClock,
{
}

/// A session that is not completed, or only to be completed in the future, is looked at.
pub proof fn law_open_sessions_are_looked_at(
    pass: ReceiverPass,
    now: i128,
    next: ReceiverCheck,
    command: ReceiverCommand,
)
    requires
        pass.phase is Choosing,
        pass.position < pass.sessions.len(),
        ({
            let completed_at = pass.sessions@[pass.position as int].completed_at;
            completed_at is None || now <= completed_at->0
        }),
        receiver_check_step(pass, ReceiverEvent::Clock(now), next, command),
    ensures
        command == ReceiverCommand::Replay(pass.sessions@[pass.position as int].session_id),
{
}

/// The step with which a session in a certain state goes on.
pub open spec fn step_of(state: ReceiverState) -> Option<ReceiverStep> {
    match state {
        ReceiverState::Initialized => Some(ReceiverStep::ReadFromDirectory),
        ReceiverState::UncheckedProposal => Some(ReceiverStep::CheckProposal),
        ReceiverState::MaybeInputsOwned => Some(ReceiverStep::CheckInputsNotOwned),
        ReceiverState::MaybeInputsSeen => Some(ReceiverStep::CheckNoInputsSeenBefore),
        ReceiverState::OutputsUnknown => Some(ReceiverStep::IdentifyReceiverOutputs),
        ReceiverState::WantsOutputs => Some(ReceiverStep::CommitOutputs),
        ReceiverState::WantsInputs => Some(ReceiverStep::ContributeInputs),
        _ => None,
    }
}

impl ReceiverCommand {
    /// The step that the command begins.
    pub open spec fn begins(self) -> Option<ReceiverStep> {
        match self {
            ReceiverCommand::Run(step) => Some(step),
            ReceiverCommand::CheckBroadcast { .. } => Some(ReceiverStep::CheckProposal),
            ReceiverCommand::ListCoins => Some(ReceiverStep::ContributeInputs),
            _ => None,
        }
    }
}

/// The step is the one that belongs to the state of the session, or the one behind the step that
/// has just succeeded.
pub open spec fn in_turn(pass: ReceiverPass, event: ReceiverEvent, step: ReceiverStep) -> bool {
    match event {
        ReceiverEvent::Replayed(Ok(state)) => step_of(state) == Some(step),
        ReceiverEvent::Stepped(Ok(_)) => {
            &&& pass.phase matches ReceiverPhase::Stepping(before)
            &&& before.remaining() == step.remaining() + 1
        },
        _ => false,
    }
}

/// No check is left out: a session is taken a step further only from the state that the step
/// belongs to, or right after the step before it has succeeded.
pub proof fn law_checks_come_in_order(
    pass: ReceiverPass,
    event: ReceiverEvent,
    next: ReceiverCheck,
    command: ReceiverCommand,
    step: ReceiverStep,
)
    requires
        pass.well_formed(),
        pass.expects(event),
        receiver_check_step(pass, event, next, command),
        command.begins() == Some(step),
    ensures
        in_turn(pass, event, step),
{
    match (pass.phase, event) {
        (ReceiverPhase::Attempting(work), ReceiverEvent::Attempted(attempt)) => {
            let (before, outcomes) = choose|before: PsbtView, outcomes: Seq<Option<InputView>>|
                #[trigger] work.after(before, outcomes) && before.signed();
            assert(finalizes(
                pass,
                before,
                outcomes.push(outcome_view(attempt)),
                Ok((next, command)),
            ));
        },
        _ => {},
    }
}

/// The first error ends the whole pass, and is what is warned of.
pub proof fn law_an_error_ends_the_pass(
    pass: ReceiverPass,
    event: ReceiverEvent,
    error: String,
    next: ReceiverCheck,
    command: ReceiverCommand,
)
    requires
        pass.expects(event),
        receiver_check_step(pass, event, next, command),
        event == ReceiverEvent::Stepped(Err(error)) || event == ReceiverEvent::Contributed(
            Err(error),
        ) || event == ReceiverEvent::Sent(SendOutcome::Rejected(error)),
    ensures
        next is Done,
        command is Finish,
        command->Finish_0 is Some,
        command->Finish_0->0@ == "process_receiver_session(): "@ + error@,
{
}

/// A session that could not be answered for want of a response is left as it is, and the pass
/// goes on.
pub proof fn law_unanswered_session_is_kept(
    pass: ReceiverPass,
    error: String,
    next: ReceiverCheck,
    command: ReceiverCommand,
)
    requires
        pass.phase is Sending,
        receiver_check_step(
            pass,
            ReceiverEvent::Sent(SendOutcome::RequestFailed(error)),
            next,
            command,
        ),
    ensures
        goes_on(pass, next),
        command is ReadClock,
{
}

/// The only writes are those of a session that is recorded for signing, with what the wallet has
/// contributed, and of one that is completed, with what the directory has accepted. In the first
/// case the PSBT is stored before the metadata that refers to it.
pub proof fn law_receiver_writes(
    pass: ReceiverPass,
    event: ReceiverEvent,
    next: ReceiverCheck,
    done: Vec<SessionWrite>,
)
    requires
        pass.well_formed(),
        pass.expects(event),
        receiver_check_step(pass, event, next, ReceiverCommand::Write(done)),
    ensures
        match event {
            ReceiverEvent::Contributed(Ok(contribution)) => writes_view(done@) == signing_writes(
                contribution,
            ),
            ReceiverEvent::Sent(SendOutcome::Accepted(contribution)) => writes_view(done@)
                == completing_writes(contribution),
            _ => false,
        },
{
    match (pass.phase, event) {
        (ReceiverPhase::Attempting(work), ReceiverEvent::Attempted(attempt)) => {
            let (before, outcomes) = choose|before: PsbtView, outcomes: Seq<Option<InputView>>|
                #[trigger] work.after(before, outcomes) && before.signed();
            assert(finalizes(
                pass,
                before,
                outcomes.push(outcome_view(attempt)),
                Ok((next, ReceiverCommand::Write(done))),
            ));
        },
        _ => {},
    }
}

/// Once a session is recorded for signing, the PSBT that its metadata refers to can be looked up
/// under the id that its metadata gives.
pub proof fn law_recorded_spend_is_found(
    spends: Map<Seq<u8>, PsbtView>,
    contribution: Contribution,
)
    ensures
        ({
            let after = spends_after(spends, signing_writes(contribution));
            let metadata = metadata_of(PayjoinStatus::Signing, contribution);
            &&& after.dom().contains(metadata.maybe_txid->0)
            &&& metadata.maybe_psbt == Some(after[metadata.maybe_txid->0])
        }),
{
    let all = signing_writes(contribution);
    reveal_with_fuel(spends_after, 3);
    assert(all.drop_last().drop_last() =~= Seq::empty());
}

/// What the wallet contributes is one of its coins, and it is given by the map that says which
/// output it spends.
pub proof fn law_contributed_input_is_a_coin(
    coins: Seq<Coin>,
    weight: u64,
    maps: Seq<InputView>,
    pass: ReceiverPass,
    place: usize,
    next: ReceiverCheck,
    command: ReceiverCommand,
)
    requires
        pass.phase matches ReceiverPhase::Selecting(candidates) && candidates_view(candidates@)
            == described_with(candidates_of(coins, weight), maps),
        maps.len() == coins.len(),
        place < coins.len(),
        receiver_check_step(pass, ReceiverEvent::Selected(place), next, command),
    ensures
        command == ReceiverCommand::Contribute(
            input_pair_of(
                TxInView::spending(coins[place as int].outpoint@),
                coins[place as int].candidate(weight).described(maps[place as int]).psbtin,
            ),
        ),
        ({
            let coin = coins[place as int];
            let map = maps[place as int];
            command == ReceiverCommand::Contribute(
                input_pair_of(
                    (TxInView {
                        previous_output: (OutPointView {
                            txid: coin.outpoint.txid@,
                            vout: coin.outpoint.vout,
                        }),
                        script_sig: Seq::empty(),
                        sequence: 0xFFFF_FFFD,
                        witness: Seq::empty(),
                    }),
                    (InputView {
                        non_witness_utxo: Some(transaction_bytes(coin.tx@)),
                        witness_utxo: Some(coin.tx@.output[coin.outpoint.vout as int]),
                        partial_sigs: map.partial_sigs,
                        witness_script: map.witness_script,
                        bip32_derivation: map.bip32_derivation,
                        final_script_sig: map.final_script_sig,
                        final_script_witness: map.final_script_witness,
                        other: map.other,
                    }),
                ),
            )
        }),
{
}

/// A proposal is finalized only with a PSBT that the user has signed, and with exactly that PSBT
/// once each of its inputs that carries a signature has been attempted. No bounds on the fee rate
/// are set.
pub proof fn law_only_signed_proposals_are_finalized(
    pass: ReceiverPass,
    event: ReceiverEvent,
    next: ReceiverCheck,
    psbt: Psbt,
    min_fee_rate: Option<u64>,
    max_fee_rate: Option<u64>,
)
    requires
        pass.well_formed(),
        pass.expects(event),
        receiver_check_step(
            pass,
            event,
            next,
            (ReceiverCommand::Finalize { psbt, min_fee_rate, max_fee_rate }),
        ),
    ensures
        exists|before: PsbtView, outcomes: Seq<Option<InputView>>|
            before.signed() && outcomes.len() == before.wanted().len() && psbt@
                == #[trigger] before.finalized_with(outcomes) && psbt@.unsigned_tx
                == before.unsigned_tx,
        min_fee_rate is None,
        max_fee_rate is None,
{
    let command = ReceiverCommand::Finalize { psbt, min_fee_rate, max_fee_rate };
    match (pass.phase, event) {
        (ReceiverPhase::FindingSpend, ReceiverEvent::Spend(Some(spend))) => {
            assert(finalizes(pass, spend@, Seq::empty(), Ok((next, command))));
            assert(psbt@ == spend@.finalized_with(Seq::empty()));
            assert(spend.inputs.len() == spend@.inputs.len());
            law_finalizing_touches_only_signed_inputs(spend@, Seq::empty());
        },
        (ReceiverPhase::Attempting(work), ReceiverEvent::Attempted(attempt)) => {
            let (before, outcomes) = choose|before: PsbtView, outcomes: Seq<Option<InputView>>|
                #[trigger] work.after(before, outcomes) && before.signed();
            let all = outcomes.push(outcome_view(attempt));
            assert(finalizes(pass, before, all, Ok((next, command))));
            assert(psbt@ == before.finalized_with(all));
            assert(work.psbt.inputs.len() == before.inputs.len());
            law_finalizing_touches_only_signed_inputs(before, all);
        },
        _ => {},
    }
}

/// The next session is to be chosen, and nothing else about the pass has changed.
pub open spec fn turns_to_the_next(pass: ReceiverPass, next: ReceiverCheck) -> bool {
    &&& next is Running
    &&& next->Running_0.sessions == pass.sessions
    &&& next->Running_0.position == pass.position + 1
    &&& next->Running_0.phase is Choosing
}

/// The same session is at hand, and nothing about the pass has changed but what is waited for.
pub open spec fn stays_at_hand(pass: ReceiverPass, next: ReceiverCheck) -> bool {
    &&& next is Running
    &&& next->Running_0.sessions == pass.sessions
    &&& next->Running_0.position == pass.position
}

/// The pass is over with this warning.
pub open spec fn ends_with_warning(
    next: ReceiverCheck,
    command: ReceiverCommand,
    warning: Seq<char>,
) -> bool {
    &&& next is Done
    &&& command matches ReceiverCommand::Finish(Some(text))
    &&& text@ == warning
}

/// Sessions are taken in order: one that was completed before now is passed over, every other is
/// replayed under its own id, and behind the last one the pass is over, with nothing to warn of.
pub proof fn law_sessions_are_taken_in_order(
    pass: ReceiverPass,
    now: i128,
    next: ReceiverCheck,
    command: ReceiverCommand,
)
    requires
        pass.phase is Choosing,
        receiver_check_step(pass, ReceiverEvent::Clock(now), next, command),
    ensures
        pass.position >= pass.sessions.len() ==> next is Done && command
            == ReceiverCommand::Finish(None),
        pass.position < pass.sessions.len() ==> ({
            let session = pass.sessions@[pass.position as int];
            if session.completed_at is Some && session.completed_at->0 < now {
                turns_to_the_next(pass, next) && command is ReadClock
            } else {
                &&& stays_at_hand(pass, next)
                &&& next->Running_0.phase is Replaying
                &&& command == ReceiverCommand::Replay(session.session_id)
            }
        }),
{
}

/// A session goes on from where its log leaves it: with the check or the contribution that its
/// state calls for, with the lookup of the PSBT that the user is to sign, or with the answer.
pub proof fn law_each_state_is_taken_up(
    pass: ReceiverPass,
    state: ReceiverState,
    next: ReceiverCheck,
    command: ReceiverCommand,
)
    requires
        pass.phase is Replaying,
        pass.position < pass.sessions.len(),
        !(state is Uninitialized),
        !(state is TerminalFailure),
        receiver_check_step(pass, ReceiverEvent::Replayed(Ok(state)), next, command),
    ensures
        state == ReceiverState::ProvisionalProposal(None) <==> turns_to_the_next(pass, next),
        state == ReceiverState::ProvisionalProposal(None) ==> command is ReadClock,
        state != ReceiverState::ProvisionalProposal(None) ==> stays_at_hand(pass, next),
        state is Initialized ==> next->Running_0.phase == ReceiverPhase::Stepping(
            ReceiverStep::ReadFromDirectory,
        ) && command == ReceiverCommand::Run(ReceiverStep::ReadFromDirectory),
        state is UncheckedProposal ==> next->Running_0.phase == ReceiverPhase::Stepping(
            ReceiverStep::CheckProposal,
        ) && command == (ReceiverCommand::CheckBroadcast { min_fee_rate: None }),
        state is MaybeInputsOwned ==> next->Running_0.phase == ReceiverPhase::Stepping(
            ReceiverStep::CheckInputsNotOwned,
        ) && command == ReceiverCommand::Run(ReceiverStep::CheckInputsNotOwned),
        state is MaybeInputsSeen ==> next->Running_0.phase == ReceiverPhase::Stepping(
            ReceiverStep::CheckNoInputsSeenBefore,
        ) && command == ReceiverCommand::Run(ReceiverStep::CheckNoInputsSeenBefore),
        state is OutputsUnknown ==> next->Running_0.phase == ReceiverPhase::Stepping(
            ReceiverStep::IdentifyReceiverOutputs,
        ) && command == ReceiverCommand::Run(ReceiverStep::IdentifyReceiverOutputs),
        state is WantsOutputs ==> next->Running_0.phase == ReceiverPhase::Stepping(
            ReceiverStep::CommitOutputs,
        ) && command == ReceiverCommand::Run(ReceiverStep::CommitOutputs),
        state is WantsInputs ==> next->Running_0.phase is ListingCoins && command is ListCoins,
        state matches ReceiverState::ProvisionalProposal(Some(psbt)) ==> {
            &&& next->Running_0.phase is FindingSpend
            &&& command is FindSpend
            &&& command->FindSpend_0@ == txid_of(psbt@.unsigned_tx)
        },
        state is PayjoinProposal ==> next->Running_0.phase is Sending && command is Send,
{
}

/// A log that cannot be replayed, or that leaves its session in no state to go on from, ends the
/// pass with a warning that says so.
pub proof fn law_unusable_log_ends_the_pass(
    pass: ReceiverPass,
    replayed: Result<ReceiverState, String>,
    next: ReceiverCheck,
    command: ReceiverCommand,
)
    requires
        pass.phase is Replaying,
        receiver_check_step(pass, ReceiverEvent::Replayed(replayed), next, command),
    ensures
        replayed matches Err(error) ==> ends_with_warning(
            next,
            command,
            "process_receiver_session(): "@ + ("Failed to replay receiver event log: "@ + error@),
        ),
        replayed matches Ok(ReceiverState::TerminalFailure) ==> ends_with_warning(
            next,
            command,
            "process_receiver_session(): "@ + "Unexpected receiver state: TerminalFailure"@,
        ),
        replayed matches Ok(ReceiverState::Uninitialized) ==> ends_with_warning(
            next,
            command,
            "process_receiver_session(): "@
                + "Unexpected receiver state: Uninitialized(Receiver { state: UninitializedReceiver })"@,
        ),
{
}

/// Each step that succeeds leads to the one check that comes next: after the proposal was read it
/// is checked that it can be broadcast, then that no input is the wallet's own, then that none was
/// seen before, then the outputs are identified and committed, and then a coin is contributed.
pub proof fn law_steps_follow_each_other(
    pass: ReceiverPass,
    step: ReceiverStep,
    next: ReceiverCheck,
    command: ReceiverCommand,
)
    requires
        pass.well_formed(),
        pass.phase == ReceiverPhase::Stepping(step),
        receiver_check_step(pass, ReceiverEvent::Stepped(Ok(())), next, command),
    ensures
        stays_at_hand(pass, next),
        step == ReceiverStep::ReadFromDirectory ==> next->Running_0.phase
            == ReceiverPhase::Stepping(ReceiverStep::CheckProposal) && command == (
        ReceiverCommand::CheckBroadcast { min_fee_rate: None }),
        step == ReceiverStep::CheckProposal ==> next->Running_0.phase == ReceiverPhase::Stepping(
            ReceiverStep::CheckInputsNotOwned,
        ) && command == ReceiverCommand::Run(ReceiverStep::CheckInputsNotOwned),
        step == ReceiverStep::CheckInputsNotOwned ==> next->Running_0.phase
            == ReceiverPhase::Stepping(ReceiverStep::CheckNoInputsSeenBefore) && command
            == ReceiverCommand::Run(ReceiverStep::CheckNoInputsSeenBefore),
        step == ReceiverStep::CheckNoInputsSeenBefore ==> next->Running_0.phase
            == ReceiverPhase::Stepping(ReceiverStep::IdentifyReceiverOutputs) && command
            == ReceiverCommand::Run(ReceiverStep::IdentifyReceiverOutputs),
        step == ReceiverStep::IdentifyReceiverOutputs ==> next->Running_0.phase
            == ReceiverPhase::Stepping(ReceiverStep::CommitOutputs) && command
            == ReceiverCommand::Run(ReceiverStep::CommitOutputs),
        step == ReceiverStep::CommitOutputs ==> next->Running_0.phase is ListingCoins && command
            is ListCoins,
{
}

/// The candidate spends the coin, and its map holds nothing but that.
pub open spec fn is_bare_candidate(coin: Coin, weight: u64, candidate: CandidateView) -> bool {
    &&& spends_coin(coin, weight, candidate.txin, candidate.psbtin, candidate)
    &&& holds_nothing_else(candidate.psbtin)
}

/// Every confirmed coin becomes a candidate, in order: one that spends this coin, unsigned and
/// replaceable, with what it spends and with the descriptor, the index and the weight that belong
/// to it, and with nothing else. If some coin is no output of its transaction, the pass ends.
pub proof fn law_every_coin_becomes_a_candidate(
    pass: ReceiverPass,
    coins: Vec<Coin>,
    weight: u64,
    next: ReceiverCheck,
    command: ReceiverCommand,
)
    requires
        pass.phase is ListingCoins,
        receiver_check_step(
            pass,
            (ReceiverEvent::Coins { coins, weight }),
            next,
            command,
        ),
    ensures
        (exists|i: int|
            0 <= i < coins.len() && (#[trigger] coins@[i]).outpoint.vout
                >= coins@[i].tx.output.len()) ==> ends_with_warning(
            next,
            command,
            "process_receiver_session(): "@ + "invalid output index"@,
        ),
        (forall|i: int|
            0 <= i < coins.len() ==> (#[trigger] coins@[i]).outpoint.vout
                < coins@[i].tx.output.len()) ==> {
            &&& stays_at_hand(pass, next)
            &&& next->Running_0.phase is Describing
            &&& command is Describe
            &&& command->Describe_0.len() == coins.len()
            &&& next->Running_0.phase->Describing_0.len() == coins.len()
            &&& forall|i: int|
                0 <= i < coins.len() ==> is_bare_candidate(
                    #[trigger] coins@[i],
                    weight,
                    command->Describe_0@[i]@,
                ) && is_bare_candidate(
                    coins@[i],
                    weight,
                    next->Running_0.phase->Describing_0@[i]@,
                )
        },
{
    if exists|i: int|
        0 <= i < coins.len() && (#[trigger] coins@[i]).outpoint.vout >= coins@[i].tx.output.len() {
        let i = choose|i: int|
            0 <= i < coins.len() && (#[trigger] coins@[i]).outpoint.vout
                >= coins@[i].tx.output.len();
        assert(!coins@[i].is_output());
        assert(!all_outputs(coins@));
    } else {
        assert forall|i: int| 0 <= i < coins.len() implies (#[trigger] coins@[i]).is_output() by {
            assert(!(coins@[i].outpoint.vout >= coins@[i].tx.output.len()));
        }
        let given = command->Describe_0@;
        let kept = next->Running_0.phase->Describing_0@;
        assert(all_outputs(coins@));
        assert(describes(pass, coins@, weight, Ok((next, command))));
        assert(candidates_view(given) == candidates_of(coins@, weight));
        assert(candidates_view(kept) == candidates_of(coins@, weight));
        assert(given.len() == candidates_of(coins@, weight).len());
        assert(kept.len() == candidates_of(coins@, weight).len());
        assert forall|i: int| 0 <= i < coins.len() implies is_bare_candidate(
            #[trigger] coins@[i],
            weight,
            given[i]@,
        ) && is_bare_candidate(coins@[i], weight, kept[i]@) by {
            assert(candidates_view(given)[i] == given[i]@);
            assert(candidates_view(kept)[i] == kept[i]@);
            assert(candidates_of(coins@, weight)[i] == coins@[i].candidate(weight));
        }
    }
}

/// The candidate `offered` is `candidate` with all that the map `described` says of its keys and
/// scripts, and the pair is made of it.
pub open spec fn is_offered_as(
    candidate: CandidateView,
    described: InputView,
    offered: CandidateView,
    pair: Option<InputPair>,
) -> bool {
    &&& pair == input_pair_of(offered.txin, offered.psbtin)
    &&& offered.txin == candidate.txin
    &&& offered.keychain == candidate.keychain
    &&& offered.derivation_index == candidate.derivation_index
    &&& offered.weight == candidate.weight
    &&& offered.psbtin.non_witness_utxo == candidate.psbtin.non_witness_utxo
    &&& offered.psbtin.witness_utxo == candidate.psbtin.witness_utxo
    &&& keeps_description(described, offered.psbtin)
}

/// Every candidate is offered, in order, and none besides: with all that its descriptor knows of
/// its keys and scripts, and with what it spends as it was.
pub proof fn law_described_candidates_are_offered(
    pass: ReceiverPass,
    candidates: Vec<Candidate>,
    maps: Vec<Input>,
    next: ReceiverCheck,
    command: ReceiverCommand,
)
    requires
        pass.phase == ReceiverPhase::Describing(candidates),
        maps.len() == candidates.len(),
        receiver_check_step(pass, ReceiverEvent::Described(maps), next, command),
    ensures
        stays_at_hand(pass, next),
        next->Running_0.phase is Selecting,
        next->Running_0.phase->Selecting_0.len() == candidates.len(),
        command is Select,
        command->Select_0.len() == candidates.len(),
        forall|i: int|
            0 <= i < candidates.len() ==> is_offered_as(
                candidates@[i]@,
                maps@[i]@,
                next->Running_0.phase->Selecting_0@[i]@,
                #[trigger] command->Select_0@[i],
            ),
{
    let kept = next->Running_0.phase->Selecting_0@;
    let views = described_with(candidates_view(candidates@), inputs_view(maps@));
    assert(candidates_view(kept).len() == kept.len());
    assert forall|i: int| 0 <= i < candidates.len() implies is_offered_as(
        candidates@[i]@,
        maps@[i]@,
        kept[i]@,
        #[trigger] command->Select_0@[i],
    ) by {
        assert(candidates_view(kept)[i] == kept[i]@);
        assert(candidates_view(candidates@)[i] == candidates@[i]@);
        assert(inputs_view(maps@)[i] == maps@[i]@);
    }
}

/// Exactly the candidate that was selected is contributed.
pub proof fn law_selected_candidate_is_contributed(
    pass: ReceiverPass,
    candidates: Vec<Candidate>,
    place: usize,
    next: ReceiverCheck,
    command: ReceiverCommand,
)
    requires
        pass.phase == ReceiverPhase::Selecting(candidates),
        place < candidates.len(),
        receiver_check_step(pass, ReceiverEvent::Selected(place), next, command),
    ensures
        stays_at_hand(pass, next),
        next->Running_0.phase is Contributing,
        command == ReceiverCommand::Contribute(
            input_pair_of(
                candidates@[place as int].txin@,
                candidates@[place as int].psbtin@,
            ),
        ),
{
    assert(candidates_view(candidates@)[place as int] == candidates@[place as int]@);
}

/// The write stores, with this status, the PSBT of the contribution, its id and the URI.
pub open spec fn stores_contribution(
    write: SessionWrite,
    status: PayjoinStatus,
    contribution: Contribution,
) -> bool {
    &&& write matches SessionWrite::UpdateMetadata(stored)
    &&& stored.status == status
    &&& stored@.maybe_txid == Some(txid_of(contribution.psbt@.unsigned_tx))
    &&& stored@.maybe_psbt == Some(contribution.psbt@)
    &&& stored@.maybe_bip21 == Some(contribution.bip21@)
}

/// Once a coin is contributed the PSBT is stored for the user to sign, and then the session is
/// recorded as being signed; once the directory has taken the answer the session is recorded as
/// completed. Either way the next session follows.
pub proof fn law_contribution_is_stored(
    pass: ReceiverPass,
    contribution: Contribution,
    next: ReceiverCheck,
    command: ReceiverCommand,
)
    requires
        ({
            ||| pass.phase is Contributing && receiver_check_step(
                pass,
                ReceiverEvent::Contributed(Ok(contribution)),
                next,
                command,
            )
            ||| pass.phase is Sending && receiver_check_step(
                pass,
                ReceiverEvent::Sent(SendOutcome::Accepted(contribution)),
                next,
                command,
            )
        }),
    ensures
        turns_to_the_next(pass, next),
        command is Write,
        pass.phase is Contributing ==> {
            &&& command->Write_0.len() == 2
            &&& command->Write_0@[0] is StoreSpend
            &&& command->Write_0@[0]->StoreSpend_0@ == contribution.psbt@
            &&& stores_contribution(command->Write_0@[1], PayjoinStatus::Signing, contribution)
        },
        pass.phase is Sending ==> {
            &&& command->Write_0.len() == 1
            &&& stores_contribution(command->Write_0@[0], PayjoinStatus::Completed, contribution)
        },
{
    let done = command->Write_0@;
    assert(writes_view(done).len() == done.len());
    if done.len() > 0 {
        assert(writes_view(done)[0] == done[0]@);
    }
    if done.len() > 1 {
        assert(writes_view(done)[1] == done[1]@);
    }
}

/// A PSBT that the wallet does not have, or in which no input has a signature, is not answered
/// with: the session is left as it is and the next one follows.
pub proof fn law_unsigned_proposal_waits(
    pass: ReceiverPass,
    spend: Option<Psbt>,
    next: ReceiverCheck,
    command: ReceiverCommand,
)
    requires
        pass.phase is FindingSpend,
        spend matches Some(psbt) ==> forall|i: int|
            0 <= i < psbt.inputs.len() ==> (#[trigger] psbt.inputs@[i]).partial_sigs.len() == 0,
        receiver_check_step(pass, ReceiverEvent::Spend(spend), next, command),
    ensures
        turns_to_the_next(pass, next),
        command is ReadClock,
{
    if let Some(psbt) = spend {
        law_psbt_view(psbt);
        assert forall|i: int| 0 <= i < psbt@.inputs.len() implies (
        #[trigger] psbt@.inputs[i]).partial_sigs.len() == 0 by {
            assert(psbt@.inputs[i] == psbt.inputs@[i]@);
            assert(psbt.inputs@[i].partial_sigs.len() == 0);
        }
        law_signed_if_some_input_is(psbt@);
    }
}

/// A PSBT in which some input has a signature is finalized: there is an attempt on its first input
/// with a signature, no final script and a known output, or, if there is none, the proposal is
/// finalized with the PSBT as it is.
pub proof fn law_signed_proposal_is_finalized(
    pass: ReceiverPass,
    psbt: Psbt,
    signed: int,
    next: ReceiverCheck,
    command: ReceiverCommand,
)
    requires
        pass.phase is FindingSpend,
        0 <= signed < psbt.inputs.len(),
        psbt.inputs@[signed].partial_sigs.len() > 0,
        receiver_check_step(pass, ReceiverEvent::Spend(Some(psbt)), next, command),
    ensures
        stays_at_hand(pass, next),
        follows_attempts(psbt@, Seq::empty(), next, command),
{
    law_psbt_view(psbt);
    assert(psbt@.inputs[signed] == psbt.inputs@[signed]@);
    law_signed_if_some_input_is(psbt@);
    assert(finalizes(pass, psbt@, Seq::empty(), Ok((next, command))));
    lemma_follows_attempts(pass, psbt@, Seq::empty(), next, command);
}

/// After an attempt the next of the inputs with a signature, no final script and a known output is
/// attempted, and once all have been, the proposal is finalized with what came of them.
pub proof fn law_attempts_follow_each_other(
    pass: ReceiverPass,
    work: Finalizing,
    before: PsbtView,
    outcomes: Seq<Option<InputView>>,
    attempt: Option<Input>,
    next: ReceiverCheck,
    command: ReceiverCommand,
)
    requires
        pass.phase == ReceiverPhase::Attempting(work),
        work.after(before, outcomes),
        receiver_check_step(pass, ReceiverEvent::Attempted(attempt), next, command),
    ensures
        stays_at_hand(pass, next),
        attempt matches Some(input) ==> follows_attempts(
            before,
            outcomes.push(Some(input@)),
            next,
            command,
        ),
        attempt is None ==> follows_attempts(before, outcomes.push(None), next, command),
{
    assert(work.psbt.inputs.len() == before.inputs.len());
    let all = outcomes.push(outcome_view(attempt));
    if exists|error: String| #[trigger]
        receiver_step(pass, ReceiverEvent::Attempted(attempt), Err(error)) {
        let error = choose|error: String| #[trigger]
            receiver_step(pass, ReceiverEvent::Attempted(attempt), Err(error));
        assert(finalizes(pass, before, all, Err(error)));
    }
    assert(finalizes(pass, before, all, Ok((next, command))));
    lemma_follows_attempts(pass, before, all, next, command);
}

/// What follows on attempts that gave these outcomes. While there is an input with a signature, no
/// final script and a known output that was not attempted, the first of them is attempted, as it
/// was in the beginning. Then the proposal is finalized, without bounds on the fee rate, with the
/// transaction as it was, with each attempted input as its attempt left it and with every other
/// input as it was.
pub open spec fn follows_attempts(
    before: PsbtView,
    outcomes: Seq<Option<InputView>>,
    next: ReceiverCheck,
    command: ReceiverCommand,
) -> bool {
    if outcomes.len() < before.wanted().len() {
        let at = before.wanted()[outcomes.len() as int] as int;
        &&& next->Running_0.phase is Attempting
        &&& next->Running_0.phase->Attempting_0.after(before, outcomes)
        &&& command is Attempt
        &&& command->index == at
        &&& command->Attempt_psbt@.unsigned_tx == before.unsigned_tx
        &&& command->Attempt_psbt@.inputs.len() == before.inputs.len()
        &&& command->Attempt_psbt@.inputs[at] == before.inputs[at]
        &&& before.inputs[at].partial_sigs.len() > 0
        &&& before.inputs[at].final_script_sig is None
        &&& before.inputs[at].final_script_witness is None
        &&& before.inputs[at].witness_utxo is Some
    } else {
        &&& next->Running_0.phase is Finalizing
        &&& command is Finalize
        &&& command->Finalize_min_fee_rate is None
        &&& command->Finalize_max_fee_rate is None
        &&& command->Finalize_psbt@.unsigned_tx == before.unsigned_tx
        &&& command->Finalize_psbt@.outputs == before.outputs
        &&& command->Finalize_psbt@.other == before.other
        &&& command->Finalize_psbt@.inputs.len() == before.inputs.len()
        &&& forall|j: int|
            0 <= j < before.wanted().len() ==> command->Finalize_psbt@.inputs[(
            #[trigger] before.wanted()[j]) as int] == (match outcomes[j] {
                Some(input) => input,
                None => before.inputs[before.wanted()[j] as int],
            })
        &&& forall|i: usize|
            i < before.inputs.len() && !(#[trigger] before.wanted().contains(i))
                ==> command->Finalize_psbt@.inputs[i as int] == before.inputs[i as int]
    }
}

/// A step that goes on with finalizing follows on the attempts so far.
proof fn lemma_follows_attempts(
    pass: ReceiverPass,
    before: PsbtView,
    outcomes: Seq<Option<InputView>>,
    next: ReceiverCheck,
    command: ReceiverCommand,
)
    requires
        before.inputs.len() <= usize::MAX,
        finalizes(pass, before, outcomes, Ok((next, command))),
    ensures
        stays_at_hand(pass, next),
        follows_attempts(before, outcomes, next, command),
{
    law_wanted_inputs_are_listed_once(before);
    if let ReceiverCommand::Attempt { psbt, index } = command {
        law_attempt_is_on_a_signed_input(next->Running_0.phase->Attempting_0, before, outcomes);
    } else {
        law_finalizing_touches_only_signed_inputs(before, outcomes);
        assert forall|j: int| 0 <= j < before.wanted().len() implies command->Finalize_psbt@.inputs[(
        #[trigger] before.wanted()[j]) as int] == (match outcomes[j] {
            Some(input) => input,
            None => before.inputs[before.wanted()[j] as int],
        }) by {
            law_signed_input_is_finalized_or_kept(before, outcomes, j);
        }
        assert forall|i: usize|
            i < before.inputs.len() && !(
            #[trigger] before.wanted().contains(i)) implies command->Finalize_psbt@.inputs[i as int]
            == before.inputs[i as int] by {
            assert(!before.inputs[i as int].wants_finalizing());
            assert(before.finalized_with(outcomes).inputs[i as int] == before.inputs[i as int]);
        }
    }
}

/// A proposal that was finalized is sent to the sender at once.
pub proof fn law_finalized_proposal_is_sent(
    pass: ReceiverPass,
    next: ReceiverCheck,
    command: ReceiverCommand,
)
    requires
        pass.phase is Finalizing,
        receiver_check_step(pass, ReceiverEvent::Stepped(Ok(())), next, command),
    ensures
        stays_at_hand(pass, next),
        next->Running_0.phase is Sending,
        command is Send,
{
}

/// An answer that got no response is left for another time: nothing is stored, and the next session
/// follows.
pub proof fn law_answer_without_a_response_is_repeated(
    pass: ReceiverPass,
    error: String,
    next: ReceiverCheck,
    command: ReceiverCommand,
)
    requires
        pass.phase is Sending,
        receiver_check_step(
            pass,
            ReceiverEvent::Sent(SendOutcome::RequestFailed(error)),
            next,
            command,
        ),
    ensures
        turns_to_the_next(pass, next),
        command is ReadClock,
{
}

/// A pass can begin with any list of sessions, and takes every answer that there can be to what it
/// asks: any time, any state of a log, and every outcome. The only thing that is asked is that there
/// is one described map for each candidate, and that the place selected is that of a candidate.
pub proof fn law_receiver_pass_takes_every_answer(pass: ReceiverPass, event: ReceiverEvent)
    ensures
        pass.phase is Choosing && pass.position <= pass.sessions.len() ==> pass.well_formed(),
        pass.phase is Choosing && event is Clock ==> pass.expects(event),
        pass.phase is Replaying && event is Replayed ==> pass.expects(event),
        pass.phase is Stepping && event is Stepped ==> pass.expects(event),
        pass.phase is ListingCoins && event is Coins ==> pass.expects(event),
        pass.phase is Describing && event is Described && event->Described_0.len()
            == pass.phase->Describing_0.len() ==> pass.expects(event),
        pass.phase is Selecting && event is Selected && event->Selected_0
            < pass.phase->Selecting_0.len() ==> pass.expects(event),
        pass.phase is Contributing && event is Contributed ==> pass.expects(event),
        pass.phase is FindingSpend && event is Spend ==> pass.expects(event),
        pass.phase is Attempting && event is Attempted ==> pass.expects(event),
        pass.phase is Finalizing && event is Stepped ==> pass.expects(event),
        pass.phase is Sending && event is Sent ==> pass.expects(event),
{
}

} // verus!

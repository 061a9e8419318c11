//! The receiving side of a payjoin that is kept as one record.
use vstd::prelude::*;

use ::payjoin::receive::v2::PayjoinProposal;
use ::payjoin::receive::v2::ProvisionalProposal;
use ::payjoin::receive::v2::Receiver;
use ::payjoin::receive::v2::UncheckedProposal;

use crate::protocol::{
    assume_interactive_receiver, commit_inputs, finalize_as_answered, finalize_as_proposed,
    into_maybe_inputs_owned, into_maybe_inputs_seen, into_outputs_unknown, into_payjoin_proposal,
    into_provisional_proposal, into_wants_inputs, into_wants_outputs,
};
use crate::protocol::{
    committed_unchanged, finalized_as_answered, finalized_as_proposed, inputs_committed,
    inputs_not_owned, interactive_assumed, maybe_inputs_owned_of, maybe_inputs_seen_of,
    no_inputs_seen_before, outputs_committed, outputs_unknown_of, payjoin_proposal_of,
    payjoin_proposal_psbt, provisional_proposal_of, receiver_outputs, uncontributed,
    wants_inputs_of, wants_outputs_of,
};
use crate::psbt::{Input, Psbt, Txid};
use crate::psbt::{law_psbt_view, law_signed_if_some_input_is};
use crate::psbt::{psbt_view, InputView, PsbtView, TransactionView, TxInView, TxOutView};
use crate::sessions::helpers::{finalize_attempted, finalize_psbt, FinalizeStep, Finalizing};
use crate::sessions::helpers::{continued, outcome_view};
use crate::sessions::helpers::{
    law_attempt_is_on_a_signed_input, law_finalizing_touches_only_signed_inputs,
    law_signed_input_is_finalized_or_kept, law_wanted_inputs_are_listed_once,
};
use crate::sessions::receiver::holds_nothing_else;
use crate::sessions::receiver::{
    check_inputs_not_owned, check_no_inputs_seen_before, commit_outputs,
    identify_receiver_outputs, output_input, proposed_psbt, spending_input, Coin, Keychain,
};
use crate::sessions::types::PayjoinStatus;
use crate::wire::compute_txid;
use crate::wire::{psbt_parsed, transaction_bytes, txid_of};

verus! {

/// The highest fee rate that the receiver is ready to pay, in satoshis per thousand weight units.
/// It is 150 satoshis per virtual byte.
pub const MAX_FEE_RATE: u64 = 37_500;

impl PsbtView {
    /// This PSBT with one more input, its map, and one more output.
    pub open spec fn with_contribution(
        self,
        txin: TxInView,
        psbtin: InputView,
        txout: TxOutView,
    ) -> PsbtView {
        PsbtView {
            unsigned_tx: TransactionView {
                input: self.unsigned_tx.input.push(txin),
                output: self.unsigned_tx.output.push(txout),
                ..self.unsigned_tx
            },
            inputs: self.inputs.push(psbtin),
            outputs: self.outputs.push(None),
            ..self
        }
    }

    /// This PSBT with `coin` as one more input, whose map has what `psbtin` says of its keys, and
    /// with the output that this coin is as one more output.
    pub open spec fn with_coin(self, coin: Coin, psbtin: InputView) -> PsbtView {
        self.with_contribution(
            TxInView::spending(coin.outpoint@),
            coin.described(psbtin),
            coin.tx@.output[coin.outpoint.vout as int],
        )
    }
}

impl Coin {
    /// The map of the input that spends this coin, to which its descriptor is still to be applied.
    pub open spec fn bare_input(self) -> InputView {
        InputView::of_output(self.tx@, self.outpoint.vout as int)
    }

    /// The map `psbtin`, to which a descriptor has added what it knows. What the input spends is
    /// this coin, whatever the map says of it.
    pub open spec fn described(self, psbtin: InputView) -> InputView {
        InputView {
            non_witness_utxo: self.bare_input().non_witness_utxo,
            witness_utxo: self.bare_input().witness_utxo,
            ..psbtin
        }
    }
}

/// A coin of the wallet and the map of the input that spends it, with the keys that belong to it.
#[derive(Debug)]
pub struct OwnInput {
    pub coin: Coin,
    pub psbtin: Input,
}

/// Why a proposal could not be processed.
#[derive(Debug, Clone, Copy, PartialEq, Eq, Structural)]
pub enum ProposalError {
    /// The wallet has no confirmed coin to contribute.
    NoCoin,
    /// The payjoin crate does not accept the proposal.
    NotAccepted,
}

/// The map of the input that spends a coin, to which its descriptor is still to be applied.
pub fn coin_input(coin: &Coin) -> (psbtin: Input)
    requires
        coin.is_output(),
    ensures
        psbtin@ == coin.bare_input(),
        psbtin@.non_witness_utxo == Some(transaction_bytes(coin.tx@)),
        psbtin@.witness_utxo == Some(coin.tx@.output[coin.outpoint.vout as int]),
        holds_nothing_else(psbtin@),
        psbtin@.partial_sigs.len() == 0,
        psbtin@.witness_script is None,
        psbtin@.bip32_derivation.len() == 0,
        psbtin@.final_script_sig is None,
        psbtin@.final_script_witness is None,
        psbtin@.other is None,
{
    match output_input(&coin.tx, coin.outpoint.vout) {
        Some(psbtin) => psbtin,
        None => Input::default(),
    }
}

/// The key that a coin is taken to be derived from: one of the receiving descriptor.
pub fn describing_key(coin: &Coin) -> (key: (Keychain, u32))
    ensures
        key == (Keychain::Receive, coin.derivation_index),
{
    (Keychain::Receive, coin.derivation_index)
}

/// The PSBT `after` is `before` with one more input, which spends `coin`, is unsigned and can be
/// replaced, and with one more output, which is the one that the coin is. The map of the input says
/// that it spends the coin; all else in it, such as the keys that are to sign, is what the map
/// `described` holds. Everything else is where it was.
pub open spec fn adds_coin(
    before: PsbtView,
    coin: Coin,
    described: InputView,
    after: PsbtView,
) -> bool {
    &&& after.inputs.len() == before.inputs.len() + 1
    &&& after.inputs.drop_last() == before.inputs
    &&& after.inputs.last().non_witness_utxo == Some(transaction_bytes(coin.tx@))
    &&& after.inputs.last().witness_utxo == Some(coin.tx@.output[coin.outpoint.vout as int])
    &&& after.inputs.last().partial_sigs == described.partial_sigs
    &&& after.inputs.last().witness_script == described.witness_script
    &&& after.inputs.last().bip32_derivation == described.bip32_derivation
    &&& after.inputs.last().final_script_sig == described.final_script_sig
    &&& after.inputs.last().final_script_witness == described.final_script_witness
    &&& after.inputs.last().other == described.other
    &&& after.unsigned_tx.input.len() == before.unsigned_tx.input.len() + 1
    &&& after.unsigned_tx.input.drop_last() == before.unsigned_tx.input
    &&& after.unsigned_tx.input.last().previous_output.txid == coin.outpoint.txid@
    &&& after.unsigned_tx.input.last().previous_output.vout == coin.outpoint.vout
    &&& after.unsigned_tx.input.last().script_sig.len() == 0
    &&& after.unsigned_tx.input.last().sequence == 0xFFFF_FFFD
    &&& after.unsigned_tx.input.last().witness.len() == 0
    &&& after.unsigned_tx.output.len() == before.unsigned_tx.output.len() + 1
    &&& after.unsigned_tx.output.drop_last() == before.unsigned_tx.output
    &&& after.unsigned_tx.output.last() == coin.tx@.output[coin.outpoint.vout as int]
    &&& after.outputs.len() == before.outputs.len() + 1
    &&& after.outputs.drop_last() == before.outputs
    &&& after.outputs.last() is None
    &&& after.unsigned_tx.version == before.unsigned_tx.version
    &&& after.unsigned_tx.lock_time == before.unsigned_tx.lock_time
    &&& after.other == before.other
}

/// Adds the coin and its output to a proposal.
pub fn contribute(psbt: &mut Psbt, own: OwnInput)
    requires
        own.coin.is_output(),
    ensures
        final(psbt)@ == old(psbt)@.with_coin(own.coin, own.psbtin@),
        adds_coin(old(psbt)@, own.coin, own.psbtin@, final(psbt)@),
        final(psbt)@.inputs.last().non_witness_utxo == Some(transaction_bytes(own.coin.tx@)),
        final(psbt)@.inputs.last().witness_utxo == Some(
            own.coin.tx@.output[own.coin.outpoint.vout as int],
        ),
        final(psbt)@.inputs.last().partial_sigs == own.psbtin@.partial_sigs,
        final(psbt)@.inputs.last().witness_script == own.psbtin@.witness_script,
        final(psbt)@.inputs.last().bip32_derivation == own.psbtin@.bip32_derivation,
        final(psbt)@.inputs.last().final_script_sig == own.psbtin@.final_script_sig,
        final(psbt)@.inputs.last().final_script_witness == own.psbtin@.final_script_witness,
        final(psbt)@.inputs.last().other == own.psbtin@.other,
{
    let ghost before = psbt@;
    let bare = coin_input(&own.coin);
    let txout = own.coin.tx.tx_out(own.coin.outpoint.vout);
    let mut psbtin = own.psbtin;
    psbtin.non_witness_utxo = bare.non_witness_utxo;
    psbtin.witness_utxo = bare.witness_utxo;
    assert(psbtin@ =~= own.coin.described(own.psbtin@));
    psbt.inputs.push(psbtin);
    psbt.unsigned_tx.input.push(spending_input(own.coin.outpoint));
    psbt.outputs.push(None);
    if let Some(txout) = txout {
        psbt.unsigned_tx.output.push(txout);
    }
    let ghost after = before.with_coin(own.coin, own.psbtin@);
    assert(psbt@.inputs =~= after.inputs);
    assert(psbt@.unsigned_tx.input =~= after.unsigned_tx.input);
    assert(psbt@.outputs =~= after.outputs);
    assert(psbt@.unsigned_tx.output =~= after.unsigned_tx.output);
    proof {
        law_contribution_adds_the_coin(before, own.coin, own.psbtin@);
    }
}

/// The proposal once all of it has been accepted as it is: no input is the wallet's own or known,
/// every output is the wallet's, and nothing is added. `None` where the payjoin crate objects.
pub open spec fn accepted(proposal: Receiver<UncheckedProposal>) -> Option<
    Receiver<ProvisionalProposal>,
> {
    let proposal = maybe_inputs_owned_of(interactive_assumed(proposal));
    match maybe_inputs_seen_of(inputs_not_owned(proposal, false)) {
        Some(proposal) => match outputs_unknown_of(no_inputs_seen_before(proposal, false)) {
            Some(proposal) => committed_unchanged(proposal, true),
            None => None,
        },
        None => None,
    }
}

/// Accepts all of a proposal as it is.
pub fn accept(proposal: Receiver<UncheckedProposal>) -> (provisional: Option<
    Receiver<ProvisionalProposal>,
>)
    ensures
        provisional == accepted(proposal),
        provisional matches Some(provisional) ==> uncontributed(provisional),
{
    let proposal = into_maybe_inputs_owned(assume_interactive_receiver(proposal));
    let proposal = match into_maybe_inputs_seen(check_inputs_not_owned(proposal)) {
        Some(proposal) => proposal,
        None => {
            return None;
        },
    };
    let proposal = match into_outputs_unknown(check_no_inputs_seen_before(proposal)) {
        Some(proposal) => proposal,
        None => {
            return None;
        },
    };
    let ghost unknown = proposal;
    let proposal = match into_wants_outputs(identify_receiver_outputs(proposal)) {
        Some(proposal) => proposal,
        None => {
            return None;
        },
    };
    let proposal = into_wants_inputs(commit_outputs(proposal));
    let proposal = into_provisional_proposal(commit_inputs(proposal));
    assert(committed_unchanged(unknown, true) == Some(proposal));
    Some(proposal)
}

/// The PSBT as which a proposal passes through a receiver that accepts all of it.
pub open spec fn passed_through(proposal: Receiver<UncheckedProposal>) -> Option<PsbtView> {
    match accepted(proposal) {
        Some(provisional) => match payjoin_proposal_of(
            finalized_as_proposed(provisional, None, Some(MAX_FEE_RATE)),
        ) {
            Some(finalized) => Some(payjoin_proposal_psbt(finalized)),
            None => None,
        },
        None => None,
    }
}

/// What a proposal is answered with that is accepted as it is and whose PSBT the wallet has signed
/// as `psbt`.
pub open spec fn answered(proposal: Receiver<UncheckedProposal>, psbt: PsbtView) -> Option<
    Receiver<PayjoinProposal>,
> {
    match accepted(proposal) {
        Some(provisional) => match finalized_as_answered(
            provisional,
            psbt,
            None,
            Some(MAX_FEE_RATE),
        ) {
            Some(transition) => payjoin_proposal_of(transition),
            None => None,
        },
        None => None,
    }
}

/// Passes a proposal through a receiver that accepts all of it.
pub fn pass_through(proposal: Receiver<UncheckedProposal>) -> (passed: Option<Psbt>)
    ensures
        psbt_view(passed) == passed_through(proposal),
{
    match accept(proposal) {
        Some(provisional) => {
            let transition = finalize_as_proposed(provisional, None, Some(MAX_FEE_RATE));
            match into_payjoin_proposal(transition) {
                Some(finalized) => Some(proposed_psbt(&finalized)),
                None => None,
            }
        },
        None => None,
    }
}

/// The answer to the proposal of a sender: `psbt`, which the wallet has signed.
pub fn respond_to_proposal(proposal: Receiver<UncheckedProposal>, psbt: &Psbt) -> (answer: Option<
    Receiver<PayjoinProposal>,
>)
    requires
        psbt@.well_formed(),
    ensures
        answer == answered(proposal, psbt@),
{
    match accept(proposal) {
        Some(provisional) => match finalize_as_answered(
            provisional,
            psbt,
            None,
            Some(MAX_FEE_RATE),
        ) {
            Some(transition) => into_payjoin_proposal(transition),
            None => None,
        },
        None => None,
    }
}

/// What a proposal is processed to: the PSBT `passed` that it passes through as, with a coin of
/// the wallet added to it.
pub open spec fn processed(passed: Option<PsbtView>, own: Option<OwnInput>) -> Result<
    PsbtView,
    ProposalError,
> {
    match (own, passed) {
        (None, _) => Err(ProposalError::NoCoin),
        (Some(_), None) => Err(ProposalError::NotAccepted),
        (Some(own), Some(psbt)) => Ok(psbt.with_coin(own.coin, own.psbtin@)),
    }
}

pub open spec fn processed_view(result: Result<Psbt, ProposalError>) -> Result<
    PsbtView,
    ProposalError,
> {
    match result {
        Ok(psbt) => Ok(psbt@),
        Err(error) => Err(error),
    }
}

/// Adds a coin of the wallet to the PSBT as which a proposal has passed through.
pub fn process_passed_psbt(passed: Option<Psbt>, own: OwnInput) -> (result: Result<
    Psbt,
    ProposalError,
>)
    requires
        own.coin.is_output(),
    ensures
        processed_view(result) == processed(psbt_view(passed), Some(own)),
        passed is None ==> result == Err::<Psbt, ProposalError>(ProposalError::NotAccepted),
        passed matches Some(before) ==> (result matches Ok(after) && adds_coin(
            before@,
            own.coin,
            own.psbtin@,
            after@,
        )),
{
    match passed {
        Some(mut psbt) => {
            contribute(&mut psbt, own);
            Ok(psbt)
        },
        None => Err(ProposalError::NotAccepted),
    }
}

/// Processes the proposal of a sender: accepts all of it and adds a coin of the wallet.
pub fn process_proposal_psbt(
    proposal: Receiver<UncheckedProposal>,
    own: Option<OwnInput>,
) -> (result: Result<Psbt, ProposalError>)
    requires
        own matches Some(own) ==> own.coin.is_output(),
    ensures
        processed_view(result) == processed(passed_through(proposal), own),
        own is None ==> result == Err::<Psbt, ProposalError>(ProposalError::NoCoin),
        own is Some && passed_through(proposal) is None ==> result == Err::<Psbt, ProposalError>(
            ProposalError::NotAccepted,
        ),
        own is Some && passed_through(proposal) is Some ==> (result matches Ok(after) && adds_coin(
            passed_through(proposal)->0,
            own->0.coin,
            own->0.psbtin@,
            after@,
        )),
{
    match own {
        Some(own) => {
            let passed = pass_through(proposal);
            process_passed_psbt(passed, own)
        },
        None => Err(ProposalError::NoCoin),
    }
}

/// A contribution adds one input that spends the coin, with all that was described of its keys and
/// scripts, and the output that the coin is, and changes nothing else.
pub proof fn law_contribution_adds_the_coin(psbt: PsbtView, coin: Coin, psbtin: InputView)
    ensures
        adds_coin(psbt, coin, psbtin, psbt.with_coin(coin, psbtin)),
        psbt.with_coin(coin, psbtin).inputs.last().non_witness_utxo == Some(
            transaction_bytes(coin.tx@),
        ),
        psbt.with_coin(coin, psbtin).inputs.last().witness_utxo == Some(
            coin.tx@.output[coin.outpoint.vout as int],
        ),
        psbt.with_coin(coin, psbtin).inputs.last().partial_sigs == psbtin.partial_sigs,
        psbt.with_coin(coin, psbtin).inputs.last().witness_script == psbtin.witness_script,
        psbt.with_coin(coin, psbtin).inputs.last().bip32_derivation == psbtin.bip32_derivation,
        psbt.with_coin(coin, psbtin).inputs.last().final_script_sig == psbtin.final_script_sig,
        psbt.with_coin(coin, psbtin).inputs.last().final_script_witness
            == psbtin.final_script_witness,
        psbt.with_coin(coin, psbtin).inputs.last().other == psbtin.other,
{
    let after = psbt.with_coin(coin, psbtin);
    assert(after.inputs.drop_last() =~= psbt.inputs);
    assert(after.outputs.drop_last() =~= psbt.outputs);
    assert(after.unsigned_tx.input.drop_last() =~= psbt.unsigned_tx.input);
    assert(after.unsigned_tx.output.drop_last() =~= psbt.unsigned_tx.output);
}

/// A proposal is accepted if and only if the payjoin crate takes it through all checks: that no
/// input is the wallet's own, that none was seen before, and that the outputs are the wallet's. It
/// is then committed as it was proposed, and finalized within the highest fee rate and no lowest
/// one.
pub proof fn law_proposal_goes_through_all_checks(
    proposal: Receiver<UncheckedProposal>,
    psbt: PsbtView,
)
    ensures
        ({
            let owned = inputs_not_owned(
                maybe_inputs_owned_of(interactive_assumed(proposal)),
                false,
            );
            let seen = no_inputs_seen_before(maybe_inputs_seen_of(owned)->0, false);
            let outputs = receiver_outputs(outputs_unknown_of(seen)->0, true);
            let committed = provisional_proposal_of(
                inputs_committed(wants_inputs_of(outputs_committed(wants_outputs_of(outputs)->0))),
            );
            let finalized = payjoin_proposal_of(
                finalized_as_proposed(committed, None, Some(37_500)),
            );
            let answer = finalized_as_answered(committed, psbt, None, Some(37_500));
            if maybe_inputs_seen_of(owned) is Some && outputs_unknown_of(seen) is Some
                && wants_outputs_of(outputs) is Some {
                &&& accepted(proposal) == Some(committed)
                &&& passed_through(proposal) is Some <==> finalized is Some
                &&& finalized is Some ==> passed_through(proposal) == Some(
                    payjoin_proposal_psbt(finalized->0),
                )
                &&& answer is Some ==> answered(proposal, psbt) == payjoin_proposal_of(answer->0)
                &&& answer is None ==> answered(proposal, psbt) is None
            } else {
                &&& accepted(proposal) is None
                &&& passed_through(proposal) is None
                &&& answered(proposal, psbt) is None
            }
        }),
{
}

/// A contribution keeps the invariant of a PSBT, and leaves all that the sender proposed where it
/// is.
pub proof fn law_contribution_extends_the_proposal(psbt: PsbtView, coin: Coin, psbtin: InputView)
    requires
        psbt.well_formed(),
    ensures
        ({
            let after = psbt.with_coin(coin, psbtin);
            &&& after.well_formed()
            &&& after.inputs.drop_last() == psbt.inputs
            &&& after.outputs.drop_last() == psbt.outputs
            &&& after.unsigned_tx.input.drop_last() == psbt.unsigned_tx.input
            &&& after.unsigned_tx.output.drop_last() == psbt.unsigned_tx.output
            &&& after.unsigned_tx.version == psbt.unsigned_tx.version
            &&& after.unsigned_tx.lock_time == psbt.unsigned_tx.lock_time
            &&& after.other == psbt.other
        }),
{
    let after = psbt.with_coin(coin, psbtin);
    assert(after.inputs.drop_last() =~= psbt.inputs);
    assert(after.outputs.drop_last() =~= psbt.outputs);
    assert(after.unsigned_tx.input.drop_last() =~= psbt.unsigned_tx.input);
    assert(after.unsigned_tx.output.drop_last() =~= psbt.unsigned_tx.output);
}

/// The value that a contribution brings in goes out again: the new output is the one that the new
/// input spends, and the map of that input says so.
pub proof fn law_contribution_returns_its_value(psbt: PsbtView, own: OwnInput)
    requires
        psbt.well_formed(),
        own.coin.is_output(),
    ensures
        ({
            let after = psbt.with_coin(own.coin, own.psbtin@);
            &&& after.unsigned_tx.input.last().previous_output == own.coin.outpoint@
            &&& after.inputs.last().witness_utxo == Some(after.unsigned_tx.output.last())
            &&& after.unsigned_tx.output.last()
                == own.coin.tx@.output[own.coin.outpoint.vout as int]
        }),
{
}

/// The record of a receiver, as far as the check reads it.
#[derive(Debug)]
pub struct ReceiverRecord {
    pub status: PayjoinStatus,
    /// The text of the PSBT that the wallet is to sign.
    pub psbt: String,
}

/// What came back when the directory was asked for the sender's proposal.
#[derive(Debug)]
pub enum DirectoryAnswer {
    /// There was no response to the request.
    RequestFailed,
    /// There is no proposal yet.
    Empty,
    /// The sender's proposal.
    Proposal(Receiver<UncheckedProposal>),
}

/// How far the check of one record has come.
#[derive(Debug)]
pub enum ReceiverCheck {
    Start(ReceiverRecord),
    /// The directory is being asked for a proposal to contribute to.
    Polling,
    /// A coin for this proposal is being looked for.
    FindingCoin(Receiver<UncheckedProposal>),
    /// The descriptor is being applied to the input that spends the coin.
    Describing { proposal: Receiver<UncheckedProposal>, coin: Coin },
    FindingSpend,
    /// The directory is being asked for the proposal that the signed PSBT answers.
    PollingAgain(Psbt),
    /// The inputs of the signed PSBT are being finalized, to answer this proposal.
    Attempting { proposal: Receiver<UncheckedProposal>, work: Finalizing },
    Responding(Psbt),
    Done,
}

/// What the world outside answers to a command.
#[derive(Debug)]
pub enum ReceiverEvent {
    Begin,
    Polled(DirectoryAnswer),
    /// A confirmed coin of the wallet, if there is one.
    Coin(Option<Coin>),
    /// The map of the input, to which the descriptor has added what it knows.
    Described(Input),
    /// The PSBT that the wallet has under a transaction id.
    Spend(Option<Psbt>),
    /// The map that an input was given by an attempt to finalize it, if that succeeded.
    Attempted(Option<Input>),
    /// Whether there was a response.
    Responded(bool),
}

/// One change of what is stored.
#[derive(Debug)]
pub enum ReceiverWrite {
    /// Store this status in the record, and the text of this PSBT.
    UpdateStatus { status: PayjoinStatus, psbt: Psbt },
    /// Store this PSBT under its id.
    StoreSpend(Psbt),
}

#[verifier::ext_equal]
pub ghost enum ReceiverWriteView {
    UpdateStatus { status: PayjoinStatus, psbt: PsbtView },
    StoreSpend(PsbtView),
}

impl View for ReceiverWrite {
    type V = ReceiverWriteView;

    open spec fn view(&self) -> ReceiverWriteView {
        match *self {
            ReceiverWrite::UpdateStatus { status, psbt } => ReceiverWriteView::UpdateStatus {
                status,
                psbt: psbt@,
            },
            ReceiverWrite::StoreSpend(psbt) => ReceiverWriteView::StoreSpend(psbt@),
        }
    }
}

pub open spec fn writes_view(writes: Seq<ReceiverWrite>) -> Seq<ReceiverWriteView> {
    writes.map_values(|write: ReceiverWrite| write@)
}

/// The writes after which the user can sign `psbt`.
pub open spec fn signing_writes(psbt: PsbtView) -> Seq<ReceiverWriteView> {
    seq![
        ReceiverWriteView::UpdateStatus { status: PayjoinStatus::Signing, psbt },
        ReceiverWriteView::StoreSpend(psbt),
    ]
}

/// The write that completes the record with `psbt`.
pub open spec fn completing_writes(psbt: PsbtView) -> Seq<ReceiverWriteView> {
    seq![ReceiverWriteView::UpdateStatus { status: PayjoinStatus::Completed, psbt }]
}

/// What is to be done in the world outside.
#[derive(Debug)]
pub enum ReceiverCommand {
    /// Ask the directory for the sender's proposal.
    Poll,
    /// Look for a confirmed coin of the wallet.
    FindCoin,
    /// Apply the wallet's descriptor, derived at this index, to this map.
    Describe { psbtin: Input, keychain: Keychain, derivation_index: u32 },
    /// Look up the PSBT that the wallet has under this id.
    FindSpend(Txid),
    /// Try to finalize one input of this PSBT.
    Attempt { psbt: Psbt, index: usize },
    /// Answer the sender with this.
    Respond(Receiver<PayjoinProposal>),
    /// Do these writes, the first one first. The check is over.
    Write(Vec<ReceiverWrite>),
    /// The proposal could not be dealt with. The check is over.
    Fail(ProposalError),
    /// The check is over.
    Finish,
}

impl ReceiverCheck {
    /// The event answers the last command.
    pub open spec fn expects(self, event: ReceiverEvent) -> bool {
        match self {
            ReceiverCheck::Start(_) => event is Begin,
            ReceiverCheck::Polling => event is Polled,
            ReceiverCheck::FindingCoin(_) => event matches ReceiverEvent::Coin(coin) && (
            coin matches Some(coin) ==> coin.is_output()),
            ReceiverCheck::Describing { .. } => event is Described,
            ReceiverCheck::FindingSpend => event matches ReceiverEvent::Spend(spend) && (
            spend matches Some(psbt) ==> psbt@.well_formed()),
            ReceiverCheck::PollingAgain(_) => event is Polled,
            ReceiverCheck::Attempting { .. } => event is Attempted,
            ReceiverCheck::Responding(_) => event is Responded,
            ReceiverCheck::Done => false,
        }
    }

    /// Only an output is contributed, and only a signed PSBT is answered with.
    pub open spec fn well_formed(self) -> bool {
        match self {
            ReceiverCheck::Describing { coin, .. } => coin.is_output(),
            ReceiverCheck::PollingAgain(psbt) => psbt@.well_formed() && psbt@.signed(),
            ReceiverCheck::Attempting { work, .. } => of_signed(work),
            _ => true,
        }
    }

    /// How many more phases there can be.
    pub open spec fn phases_left(self) -> int {
        match self {
            ReceiverCheck::Start(_) => 5,
            ReceiverCheck::Polling => 3,
            ReceiverCheck::FindingCoin(_) => 2,
            ReceiverCheck::Describing { .. } => 1,
            ReceiverCheck::FindingSpend => 4,
            ReceiverCheck::PollingAgain(_) => 3,
            ReceiverCheck::Attempting { .. } => 2,
            ReceiverCheck::Responding(_) => 1,
            ReceiverCheck::Done => 0,
        }
    }

    /// How many more inputs there are to be attempted.
    pub open spec fn attempts_left(self) -> int {
        match self {
            ReceiverCheck::Attempting { work, .. } => work.inputs_to_finalize.len() - work.done,
            _ => 0,
        }
    }

    /// `then` is closer to the end: there are fewer phases left, or as many and fewer attempts.
    pub open spec fn closer(self, then: ReceiverCheck) -> bool {
        ||| 0 <= then.phases_left() < self.phases_left()
        ||| {
            &&& then.phases_left() == self.phases_left()
            &&& 0 <= then.attempts_left() < self.attempts_left()
        }
    }
}

/// The PSBT that is being finalized is complete and carries a signature.
pub open spec fn of_signed(work: Finalizing) -> bool {
    exists|before: PsbtView, outcomes: Seq<Option<InputView>>| #[trigger]
        work.after(before, outcomes) && before.signed() && before.well_formed()
}

/// The check of the record is over and nothing is to be stored.
pub open spec fn idle(next: ReceiverCheck, command: ReceiverCommand) -> bool {
    next is Done && command is Finish
}

/// The check of the record is over with these writes.
pub open spec fn writes(
    expected: Seq<ReceiverWriteView>,
    next: ReceiverCheck,
    command: ReceiverCommand,
) -> bool {
    &&& next is Done
    &&& command matches ReceiverCommand::Write(done)
    &&& writes_view(done@) == expected
}

/// The check of the record is over because of an error.
pub open spec fn fails(
    error: ProposalError,
    next: ReceiverCheck,
    command: ReceiverCommand,
) -> bool {
    next is Done && command == ReceiverCommand::Fail(error)
}

/// What a record asks for that is being signed, and whose PSBT is read as `parsed`.
pub open spec fn signing(
    parsed: Option<PsbtView>,
    next: ReceiverCheck,
    command: ReceiverCommand,
) -> bool {
    match parsed {
        Some(psbt) => {
            &&& next is FindingSpend
            &&& command matches ReceiverCommand::FindSpend(txid)
            &&& txid@ == txid_of(psbt.unsigned_tx)
        },
        None => idle(next, command),
    }
}

/// What a record asks for.
pub open spec fn begun(
    record: ReceiverRecord,
    next: ReceiverCheck,
    command: ReceiverCommand,
) -> bool {
    match record.status {
        PayjoinStatus::Pending => next is Polling && command is Poll,
        PayjoinStatus::Signing => signing(psbt_parsed(record.psbt@), next, command),
        _ => idle(next, command),
    }
}

/// The descriptor is to be applied to the input that spends a coin, which is taken to be one of
/// the receiving descriptor.
pub open spec fn describes(
    proposal: Receiver<UncheckedProposal>,
    coin: Coin,
    next: ReceiverCheck,
    command: ReceiverCommand,
) -> bool {
    &&& next == ReceiverCheck::Describing { proposal, coin }
    &&& command matches ReceiverCommand::Describe { psbtin, keychain, derivation_index }
    &&& psbtin@ == coin.bare_input()
    &&& keychain == Keychain::Receive
    &&& derivation_index == coin.derivation_index
}

/// What becomes of a proposal that was processed to `result`: the user is to sign the PSBT.
pub open spec fn recorded(
    result: Result<PsbtView, ProposalError>,
    next: ReceiverCheck,
    command: ReceiverCommand,
) -> bool {
    match result {
        Ok(psbt) => writes(signing_writes(psbt), next, command),
        Err(error) => fails(error, next, command),
    }
}

/// What becomes of the signed PSBT `psbt`, once it is finalized: the sender is answered with
/// `answer`, if there is one.
pub open spec fn responds(
    psbt: PsbtView,
    answer: Option<Receiver<PayjoinProposal>>,
    next: ReceiverCheck,
    command: ReceiverCommand,
) -> bool {
    match answer {
        Some(answer) => {
            &&& next matches ReceiverCheck::Responding(kept)
            &&& kept@ == psbt
            &&& command == ReceiverCommand::Respond(answer)
        },
        None => fails(ProposalError::NotAccepted, next, command),
    }
}

/// The finalizing of a signed PSBT goes on: to an attempt on its next input, or, once all have
/// been attempted, to the answer.
pub open spec fn finalizes(
    proposal: Receiver<UncheckedProposal>,
    before: PsbtView,
    outcomes: Seq<Option<InputView>>,
    next: ReceiverCheck,
    command: ReceiverCommand,
) -> bool {
    match command {
        ReceiverCommand::Attempt { psbt, index } => {
            &&& next matches ReceiverCheck::Attempting { proposal: kept, work }
            &&& kept == proposal
            &&& work.after(before, outcomes)
            &&& psbt@ == work.psbt@
            &&& index == work.at()
        },
        _ => {
            let psbt = before.finalized_with(outcomes);
            &&& outcomes.len() == before.wanted().len()
            &&& responds(psbt, answered(proposal, psbt), next, command)
        },
    }
}

/// One step of the check of a record: from its state and an event to the next state and a
/// command.
pub open spec fn receiver_step(
    check: ReceiverCheck,
    event: ReceiverEvent,
    next: ReceiverCheck,
    command: ReceiverCommand,
) -> bool {
    match (check, event) {
        (ReceiverCheck::Start(record), ReceiverEvent::Begin) => begun(record, next, command),
        (ReceiverCheck::Polling, ReceiverEvent::Polled(answer)) => match answer {
            DirectoryAnswer::Proposal(proposal) => {
                next == ReceiverCheck::FindingCoin(proposal) && command is FindCoin
            },
            _ => idle(next, command),
        },
        (ReceiverCheck::FindingCoin(proposal), ReceiverEvent::Coin(coin)) => match coin {
            Some(coin) => describes(proposal, coin, next, command),
            None => fails(ProposalError::NoCoin, next, command),
        },
        (ReceiverCheck::Describing { proposal, coin }, ReceiverEvent::Described(psbtin)) => {
            recorded(
                processed(passed_through(proposal), Some(OwnInput { coin, psbtin })),
                next,
                command,
            )
        },
        (ReceiverCheck::FindingSpend, ReceiverEvent::Spend(spend)) => match spend {
            Some(psbt) => if psbt@.signed() {
                next == ReceiverCheck::PollingAgain(psbt) && command is Poll
            } else {
                idle(next, command)
            },
            None => idle(next, command),
        },
        (ReceiverCheck::PollingAgain(psbt), ReceiverEvent::Polled(answer)) => match answer {
            DirectoryAnswer::Proposal(proposal) => finalizes(
                proposal,
                psbt@,
                Seq::empty(),
                next,
                command,
            ),
            _ => idle(next, command),
        },
        (
            ReceiverCheck::Attempting { proposal, work },
            ReceiverEvent::Attempted(attempt),
        ) => {
            forall|before: PsbtView, outcomes: Seq<Option<InputView>>| #[trigger]
                work.after(before, outcomes) ==> finalizes(
                    proposal,
                    before,
                    outcomes.push(outcome_view(attempt)),
                    next,
                    command,
                )
        },
        (ReceiverCheck::Responding(psbt), ReceiverEvent::Responded(answered)) => if answered {
            writes(completing_writes(psbt@), next, command)
        } else {
            idle(next, command)
        },
        _ => false,
    }
}

/// What a record asks for that is being signed: the PSBT that the wallet has under the id of the
/// record's PSBT, unless that PSBT could not be read.
pub fn begin_signing(parsed: Option<Psbt>) -> (result: (ReceiverCheck, ReceiverCommand))
    ensures
        signing(psbt_view(parsed), result.0, result.1),
        parsed matches Some(psbt) ==> {
            &&& result.0 is FindingSpend
            &&& result.1 is FindSpend
            &&& result.1->FindSpend_0@ == txid_of(psbt@.unsigned_tx)
        },
        parsed is None ==> result.0 is Done && result.1 is Finish,
{
    match parsed {
        Some(psbt) => {
            let txid = compute_txid(&psbt.unsigned_tx);
            (ReceiverCheck::FindingSpend, ReceiverCommand::FindSpend(txid))
        },
        None => (ReceiverCheck::Done, ReceiverCommand::Finish),
    }
}

/// Has the descriptor applied to the input that spends a coin.
fn describe(proposal: Receiver<UncheckedProposal>, coin: Coin) -> (result: (
    ReceiverCheck,
    ReceiverCommand,
))
    requires
        coin.is_output(),
    ensures
        describes(proposal, coin, result.0, result.1),
{
    let psbtin = coin_input(&coin);
    let (keychain, derivation_index) = describing_key(&coin);
    (
        ReceiverCheck::Describing { proposal, coin },
        ReceiverCommand::Describe { psbtin, keychain, derivation_index },
    )
}

/// Records what a proposal was processed to, for the user to sign it.
pub fn record_processed(result: Result<Psbt, ProposalError>) -> (step: (
    ReceiverCheck,
    ReceiverCommand,
))
    ensures
        recorded(processed_view(result), step.0, step.1),
        step.0 is Done,
        result matches Err(error) ==> step.1 == ReceiverCommand::Fail(error),
        result matches Ok(psbt) ==> {
            &&& step.1 is Write
            &&& step.1->Write_0.len() == 2
            &&& step.1->Write_0@[0] matches ReceiverWrite::UpdateStatus { status, psbt: recorded }
            &&& status == PayjoinStatus::Signing
            &&& recorded@ == psbt@
            &&& step.1->Write_0@[1] matches ReceiverWrite::StoreSpend(stored)
            &&& stored@ == psbt@
        },
{
    match result {
        Ok(psbt) => {
            let ghost view = psbt@;
            let stored = psbt.clone();
            let mut done: Vec<ReceiverWrite> = Vec::new();
            done.push(ReceiverWrite::UpdateStatus { status: PayjoinStatus::Signing, psbt });
            done.push(ReceiverWrite::StoreSpend(stored));
            assert(writes_view(done@) =~= signing_writes(view));
            (ReceiverCheck::Done, ReceiverCommand::Write(done))
        },
        Err(error) => (ReceiverCheck::Done, ReceiverCommand::Fail(error)),
    }
}

/// Answers the sender, if the proposal could be finalized with the signed PSBT.
pub fn respond(psbt: Psbt, answer: Option<Receiver<PayjoinProposal>>) -> (result: (
    ReceiverCheck,
    ReceiverCommand,
))
    ensures
        responds(psbt@, answer, result.0, result.1),
        answer matches Some(answer) ==> result.0 == ReceiverCheck::Responding(psbt),
        answer matches Some(answer) ==> result.1 == ReceiverCommand::Respond(answer),
        answer is None ==> result.0 is Done,
        answer is None ==> result.1 == ReceiverCommand::Fail(ProposalError::NotAccepted),
{
    match answer {
        Some(answer) => (ReceiverCheck::Responding(psbt), ReceiverCommand::Respond(answer)),
        None => (ReceiverCheck::Done, ReceiverCommand::Fail(ProposalError::NotAccepted)),
    }
}

/// Goes on with the finalizing of a signed PSBT.
fn go_on_finalizing(proposal: Receiver<UncheckedProposal>, step: FinalizeStep) -> (result: (
    ReceiverCheck,
    ReceiverCommand,
))
    requires
        match step {
            FinalizeStep::Attempt(work) => work.well_formed(),
            FinalizeStep::Finished(psbt) => psbt@.well_formed(),
        },
    ensures
        forall|before: PsbtView, outcomes: Seq<Option<InputView>>| #[trigger]
            continued(before, outcomes, step) ==> finalizes(
                proposal,
                before,
                outcomes,
                result.0,
                result.1,
            ),
{
    match step {
        FinalizeStep::Attempt(work) => {
            let index: usize = work.index();
            let psbt = work.psbt.clone();
            (
                ReceiverCheck::Attempting { proposal, work },
                ReceiverCommand::Attempt { psbt, index },
            )
        },
        FinalizeStep::Finished(psbt) => {
            let answer = respond_to_proposal(proposal, &psbt);
            respond(psbt, answer)
        },
    }
}

/// Begins to finalize a signed PSBT, to answer the proposal with it.
fn begin_finalizing(proposal: Receiver<UncheckedProposal>, psbt: Psbt) -> (result: (
    ReceiverCheck,
    ReceiverCommand,
))
    requires
        psbt@.well_formed(),
    ensures
        finalizes(proposal, psbt@, Seq::empty(), result.0, result.1),
{
    let ghost before = psbt@;
    assert(psbt.inputs.len() == before.inputs.len());
    let step = finalize_psbt(psbt);
    proof {
        if step is Finished {
            law_finalizing_touches_only_signed_inputs(before, Seq::empty());
        }
    }
    assert(continued(before, Seq::empty(), step));
    go_on_finalizing(proposal, step)
}

/// Goes on to finalize a signed PSBT after an attempt.
fn attempted(
    proposal: Receiver<UncheckedProposal>,
    work: Finalizing,
    attempt: Option<Input>,
) -> (result: (ReceiverCheck, ReceiverCommand))
    requires
        of_signed(work),
    ensures
        receiver_step(
            (ReceiverCheck::Attempting { proposal, work }),
            ReceiverEvent::Attempted(attempt),
            result.0,
            result.1,
        ),
{
    let ghost at_hand = work;
    let ghost given = outcome_view(attempt);
    assert(work.psbt.inputs.len() == work.psbt@.inputs.len());
    let step = finalize_attempted(work, attempt);
    proof {
        let (before, outcomes) = choose|before: PsbtView, outcomes: Seq<Option<InputView>>|
            #[trigger] at_hand.after(before, outcomes) && before.signed() && before.well_formed();
        assert(continued(before, outcomes.push(given), step));
        if step is Finished {
            law_finalizing_touches_only_signed_inputs(before, outcomes.push(given));
        }
    }
    let result = go_on_finalizing(proposal, step);
    assert forall|before: PsbtView, outcomes: Seq<Option<InputView>>| #[trigger]
        at_hand.after(before, outcomes) implies finalizes(
        proposal,
        before,
        outcomes.push(given),
        result.0,
        result.1,
    ) by {
        assert(continued(before, outcomes.push(given), step));
    }
    result
}

/// Completes the record with the PSBT that the sender was answered with.
fn complete(psbt: Psbt) -> (result: (ReceiverCheck, ReceiverCommand))
    ensures
        writes(completing_writes(psbt@), result.0, result.1),
{
    let ghost view = psbt@;
    let mut done: Vec<ReceiverWrite> = Vec::new();
    done.push(ReceiverWrite::UpdateStatus { status: PayjoinStatus::Completed, psbt });
    assert(writes_view(done@) =~= completing_writes(view));
    (ReceiverCheck::Done, ReceiverCommand::Write(done))
}

/// One step of the check of a record.
pub fn payjoin_receiver_check(check: ReceiverCheck, event: ReceiverEvent) -> (result: (
    ReceiverCheck,
    ReceiverCommand,
))
    requires
        check.well_formed(),
        check.expects(event),
    ensures
        receiver_step(check, event, result.0, result.1),
{
    match (check, event) {
        (ReceiverCheck::Start(record), _) => match record.status {
            PayjoinStatus::Pending => (ReceiverCheck::Polling, ReceiverCommand::Poll),
            PayjoinStatus::Signing => begin_signing(Psbt::from_text(record.psbt.as_str())),
            _ => (ReceiverCheck::Done, ReceiverCommand::Finish),
        },
        (ReceiverCheck::Polling, ReceiverEvent::Polled(DirectoryAnswer::Proposal(proposal))) => (
            ReceiverCheck::FindingCoin(proposal),
            ReceiverCommand::FindCoin,
        ),
        (ReceiverCheck::FindingCoin(proposal), ReceiverEvent::Coin(coin)) => match coin {
            Some(coin) => describe(proposal, coin),
            None => (ReceiverCheck::Done, ReceiverCommand::Fail(ProposalError::NoCoin)),
        },
        (ReceiverCheck::Describing { proposal, coin }, ReceiverEvent::Described(psbtin)) => {
            record_processed(process_proposal_psbt(proposal, Some(OwnInput { coin, psbtin })))
        },
        (ReceiverCheck::FindingSpend, ReceiverEvent::Spend(Some(psbt))) => {
            if psbt.is_signed() {
                (ReceiverCheck::PollingAgain(psbt), ReceiverCommand::Poll)
            } else {
                (ReceiverCheck::Done, ReceiverCommand::Finish)
            }
        },
        (
            ReceiverCheck::PollingAgain(psbt),
            ReceiverEvent::Polled(DirectoryAnswer::Proposal(proposal)),
        ) => begin_finalizing(proposal, psbt),
        (ReceiverCheck::Attempting { proposal, work }, ReceiverEvent::Attempted(attempt)) => {
            attempted(proposal, work, attempt)
        },
        (ReceiverCheck::Responding(psbt), ReceiverEvent::Responded(true)) => complete(psbt),
        _ => (ReceiverCheck::Done, ReceiverCommand::Finish),
    }
}

/// What one attempt at an input of a signed PSBT leads to.
proof fn lemma_attempted(
    check: ReceiverCheck,
    event: ReceiverEvent,
    next: ReceiverCheck,
    command: ReceiverCommand,
) -> (s: (PsbtView, Seq<Option<InputView>>))
    requires
        check is Attempting,
        check.well_formed(),
        check.expects(event),
        receiver_step(check, event, next, command),
    ensures
        s.0.signed(),
        s.0.well_formed(),
        s.1.len() > 0,
        check->work.after(s.0, s.1.drop_last()),
        finalizes(check->Attempting_proposal, s.0, s.1, next, command),
{
    let work = check->work;
    let given = outcome_view(event->Attempted_0);
    let (before, outcomes) = choose|before: PsbtView, outcomes: Seq<Option<InputView>>| #[trigger]
        work.after(before, outcomes) && before.signed() && before.well_formed();
    assert(finalizes(check->Attempting_proposal, before, outcomes.push(given), next, command));
    assert(outcomes.push(given).drop_last() =~= outcomes);
    (before, outcomes.push(given))
}

/// A check keeps its invariant and comes to an end: every step leads on to fewer phases, or within
/// a phase to fewer attempts, and it is done exactly if nothing further is asked of the world
/// outside.
pub proof fn law_receiver_check_ends(
    check: ReceiverCheck,
    event: ReceiverEvent,
    next: ReceiverCheck,
    command: ReceiverCommand,
)
    requires
        check.well_formed(),
        check.expects(event),
        receiver_step(check, event, next, command),
    ensures
        next.well_formed(),
        check.closer(next),
        next is Done <==> command is Write || command is Fail || command is Finish,
{
    if check is Attempting {
        let (before, outcomes) = lemma_attempted(check, event, next, command);
        assert(next is Attempting ==> next->work.after(before, outcomes));
    }
    if check is PollingAgain && next is Attempting {
        assert(next->work.after(check->PollingAgain_0@, Seq::empty()));
    }
}

/// A record is checked only while it is pending or being signed: nothing is done about another.
pub proof fn law_settled_receiver_record_is_left_alone(
    record: ReceiverRecord,
    next: ReceiverCheck,
    command: ReceiverCommand,
)
    requires
        record.status != PayjoinStatus::Pending,
        record.status != PayjoinStatus::Signing,
        receiver_step(ReceiverCheck::Start(record), ReceiverEvent::Begin, next, command),
    ensures
        next is Done,
        command is Finish,
{
}

/// The answer `answer` is what the proposal is answered with if the wallet has signed its PSBT as
/// `before`, once each input of it that carries a signature has been attempted.
pub open spec fn answers_signed(
    answer: Receiver<PayjoinProposal>,
    kept: PsbtView,
    before: PsbtView,
    outcomes: Seq<Option<InputView>>,
    proposal: Receiver<UncheckedProposal>,
) -> bool {
    &&& before.signed()
    &&& outcomes.len() == before.wanted().len()
    &&& kept == before.finalized_with(outcomes)
    &&& answered(proposal, kept) == Some(answer)
}

/// The sender is answered only with a PSBT of the wallet that the user has signed, finalized; and
/// the record is completed with the very PSBT that the sender was answered with.
pub proof fn law_only_signed_psbt_is_answered_with(
    check: ReceiverCheck,
    event: ReceiverEvent,
    between: ReceiverCheck,
    answer: Receiver<PayjoinProposal>,
    next: ReceiverCheck,
    command: ReceiverCommand,
)
    requires
        check.well_formed(),
        check.expects(event),
        receiver_step(check, event, between, ReceiverCommand::Respond(answer)),
        receiver_step(between, ReceiverEvent::Responded(true), next, command),
    ensures
        between is Responding,
        exists|
            before: PsbtView,
            outcomes: Seq<Option<InputView>>,
            proposal: Receiver<UncheckedProposal>,
        | #[trigger]
            answers_signed(answer, between->Responding_0@, before, outcomes, proposal),
        writes(completing_writes(between->Responding_0@), next, command),
{
    match (check, event) {
        (
            ReceiverCheck::PollingAgain(psbt),
            ReceiverEvent::Polled(DirectoryAnswer::Proposal(proposal)),
        ) => {
            assert(answers_signed(
                answer,
                between->Responding_0@,
                psbt@,
                Seq::empty(),
                proposal,
            ));
        },
        (ReceiverCheck::Attempting { proposal, work }, _) => {
            let (before, outcomes) = lemma_attempted(
                check,
                event,
                between,
                ReceiverCommand::Respond(answer),
            );
            assert(answers_signed(answer, between->Responding_0@, before, outcomes, proposal));
        },
        _ => {},
    }
}

/// The only writes are those of a record whose proposal was processed, which is then to be signed,
/// and of a record whose sender was answered, which is then completed. In the first case the
/// status changes before the PSBT is stored.
pub proof fn law_receiver_writes(
    check: ReceiverCheck,
    event: ReceiverEvent,
    next: ReceiverCheck,
    done: Vec<ReceiverWrite>,
)
    requires
        check.well_formed(),
        check.expects(event),
        receiver_step(check, event, next, ReceiverCommand::Write(done)),
    ensures
        match (check, event) {
            (ReceiverCheck::Describing { proposal, coin }, ReceiverEvent::Described(psbtin)) => {
                &&& passed_through(proposal) matches Some(passed)
                &&& writes_view(done@) == signing_writes(passed.with_coin(coin, psbtin@))
            },
            (ReceiverCheck::Responding(psbt), ReceiverEvent::Responded(_)) => writes_view(done@)
                == completing_writes(psbt@),
            _ => false,
        },
{
    if check is Attempting {
        let (before, outcomes) = lemma_attempted(
            check,
            event,
            next,
            ReceiverCommand::Write(done),
        );
    }
}

/// The status of a record only ever moves from pending to being signed, and from there to
/// completed: a coin is looked for only while the record is pending, and the sender is answered
/// only while it is being signed.
pub proof fn law_receiver_status_moves_forward(
    record: ReceiverRecord,
    check: ReceiverCheck,
    event: ReceiverEvent,
    next: ReceiverCheck,
    command: ReceiverCommand,
)
    requires
        check.well_formed(),
        check.expects(event),
        receiver_step(check, event, next, command),
    ensures
        check == ReceiverCheck::Start(record) && next is Polling ==> record.status
            == PayjoinStatus::Pending,
        next is FindingCoin ==> check is Polling,
        next is Describing ==> check is FindingCoin,
        check == ReceiverCheck::Start(record) && next is FindingSpend ==> record.status
            == PayjoinStatus::Signing,
        next is PollingAgain ==> check is FindingSpend,
        next is Attempting ==> check is PollingAgain || check is Attempting,
        next is Responding ==> check is PollingAgain || check is Attempting,
{
    if check is Attempting {
        let (before, outcomes) = lemma_attempted(check, event, next, command);
    }
}

/// The check of a record begins with what its status calls for: a pending record asks the directory
/// for a proposal, one that is being signed looks up the PSBT that the user may have signed, under
/// the id of the PSBT in the record, unless the text of that PSBT cannot be read. Nothing is done
/// about any other record.
pub proof fn law_receiver_record_is_taken_up(
    record: ReceiverRecord,
    next: ReceiverCheck,
    command: ReceiverCommand,
)
    requires
        receiver_step(ReceiverCheck::Start(record), ReceiverEvent::Begin, next, command),
    ensures
        record.status == PayjoinStatus::Pending ==> next is Polling && command is Poll,
        record.status == PayjoinStatus::Signing && psbt_parsed(record.psbt@) is Some ==> {
            &&& next is FindingSpend
            &&& command is FindSpend
            &&& command->FindSpend_0@ == txid_of(psbt_parsed(record.psbt@)->0.unsigned_tx)
        },
        record.status == PayjoinStatus::Signing && psbt_parsed(record.psbt@) is None ==> next
            is Done && command is Finish,
        record.status != PayjoinStatus::Pending && record.status != PayjoinStatus::Signing ==> next
            is Done && command is Finish,
{
}

/// Without a proposal in the directory nothing is done, whether one is to be contributed to or to
/// be answered.
pub proof fn law_nothing_is_done_without_a_proposal(
    check: ReceiverCheck,
    answer: DirectoryAnswer,
    next: ReceiverCheck,
    command: ReceiverCommand,
)
    requires
        check is Polling || check is PollingAgain,
        answer is RequestFailed || answer is Empty,
        receiver_step(check, ReceiverEvent::Polled(answer), next, command),
    ensures
        next is Done,
        command is Finish,
{
}

/// A coin of the wallet is looked for as soon as there is a proposal to contribute to.
pub proof fn law_coin_is_looked_for(
    proposal: Receiver<UncheckedProposal>,
    next: ReceiverCheck,
    command: ReceiverCommand,
)
    requires
        receiver_step(
            ReceiverCheck::Polling,
            ReceiverEvent::Polled(DirectoryAnswer::Proposal(proposal)),
            next,
            command,
        ),
    ensures
        next == ReceiverCheck::FindingCoin(proposal),
        command is FindCoin,
{
}

/// If the wallet has a coin, the receiving descriptor is applied to the input that spends it, which
/// as yet says nothing but what it spends. If it has none, the check fails.
pub proof fn law_coin_is_described(
    proposal: Receiver<UncheckedProposal>,
    coin: Option<Coin>,
    next: ReceiverCheck,
    command: ReceiverCommand,
)
    requires
        receiver_step(
            ReceiverCheck::FindingCoin(proposal),
            ReceiverEvent::Coin(coin),
            next,
            command,
        ),
    ensures
        coin is None ==> next is Done && command == ReceiverCommand::Fail(ProposalError::NoCoin),
        coin matches Some(coin) ==> {
            &&& next == (ReceiverCheck::Describing { proposal, coin })
            &&& command is Describe
            &&& command->psbtin@.non_witness_utxo == Some(transaction_bytes(coin.tx@))
            &&& command->psbtin@.witness_utxo == Some(
                coin.tx@.output[coin.outpoint.vout as int],
            )
            &&& holds_nothing_else(command->psbtin@)
            &&& command->keychain == Keychain::Receive
            &&& command->derivation_index == coin.derivation_index
        },
{
}

/// What the proposal passes through as, with the coin and all that its descriptor knows, is recorded
/// for the user to sign: first in the record, then among the PSBTs of the wallet. A proposal that is
/// not accepted fails the check, and nothing is stored.
pub proof fn law_processed_proposal_is_recorded(
    proposal: Receiver<UncheckedProposal>,
    coin: Coin,
    psbtin: Input,
    next: ReceiverCheck,
    command: ReceiverCommand,
)
    requires
        receiver_step(
            (ReceiverCheck::Describing { proposal, coin }),
            ReceiverEvent::Described(psbtin),
            next,
            command,
        ),
    ensures
        next is Done,
        passed_through(proposal) is None ==> command == ReceiverCommand::Fail(
            ProposalError::NotAccepted,
        ),
        passed_through(proposal) is Some ==> {
            &&& command is Write
            &&& command->Write_0.len() == 2
            &&& command->Write_0@[0] matches ReceiverWrite::UpdateStatus { status, psbt }
            &&& status == PayjoinStatus::Signing
            &&& adds_coin(passed_through(proposal)->0, coin, psbtin@, psbt@)
            &&& command->Write_0@[1] matches ReceiverWrite::StoreSpend(stored)
            &&& stored@ == psbt@
        },
{
    if passed_through(proposal) is Some {
        law_contribution_adds_the_coin(passed_through(proposal)->0, coin, psbtin@);
        let done = command->Write_0@;
        assert(writes_view(done).len() == done.len());
        assert(writes_view(done)[0] == done[0]@);
        assert(writes_view(done)[1] == done[1]@);
    }
}

/// The directory is asked for the proposal that is to be answered exactly if the wallet has the PSBT
/// and some input of it has a signature.
pub proof fn law_signed_psbt_is_to_be_answered_with(
    spend: Option<Psbt>,
    next: ReceiverCheck,
    command: ReceiverCommand,
)
    requires
        receiver_step(ReceiverCheck::FindingSpend, ReceiverEvent::Spend(spend), next, command),
    ensures
        spend is None ==> next is Done && command is Finish,
        spend matches Some(psbt) ==> (if exists|i: int|
            0 <= i < psbt.inputs.len() && (#[trigger] psbt.inputs@[i]).partial_sigs.len() > 0 {
            next == ReceiverCheck::PollingAgain(psbt) && command is Poll
        } else {
            next is Done && command is Finish
        }),
{
    if let Some(psbt) = spend {
        law_psbt_view(psbt);
        law_signed_if_some_input_is(psbt@);
        if exists|i: int|
            0 <= i < psbt.inputs.len() && (#[trigger] psbt.inputs@[i]).partial_sigs.len() > 0 {
            let i = choose|i: int|
                0 <= i < psbt.inputs.len() && (#[trigger] psbt.inputs@[i]).partial_sigs.len() > 0;
            assert(psbt@.inputs[i] == psbt.inputs@[i]@);
        } else if psbt@.signed() {
            let i = choose|i: int|
                0 <= i < psbt@.inputs.len() && (#[trigger] psbt@.inputs[i]).partial_sigs.len() > 0;
            assert(psbt@.inputs[i] == psbt.inputs@[i]@);
            assert(psbt.inputs@[i].partial_sigs.len() > 0);
        }
    }
}

/// What follows on attempts that gave these outcomes. While there is an input with a signature, no
/// final script and a known output that was not attempted, the first of them is attempted, as it
/// was in the beginning. Then the sender is answered with a PSBT that has the transaction as it was,
/// each attempted input as its attempt left it and every other input as it was; if the proposal
/// cannot be finalized with it, the check fails.
pub open spec fn follows_attempts(
    proposal: Receiver<UncheckedProposal>,
    before: PsbtView,
    outcomes: Seq<Option<InputView>>,
    next: ReceiverCheck,
    command: ReceiverCommand,
) -> bool {
    if outcomes.len() < before.wanted().len() {
        let at = before.wanted()[outcomes.len() as int] as int;
        &&& next is Attempting
        &&& next->Attempting_proposal == proposal
        &&& next->work.after(before, outcomes)
        &&& command is Attempt
        &&& command->index == at
        &&& command->psbt@.unsigned_tx == before.unsigned_tx
        &&& command->psbt@.inputs.len() == before.inputs.len()
        &&& command->psbt@.inputs[at] == before.inputs[at]
        &&& before.inputs[at].partial_sigs.len() > 0
        &&& before.inputs[at].final_script_sig is None
        &&& before.inputs[at].final_script_witness is None
        &&& before.inputs[at].witness_utxo is Some
    } else {
        exists|finalized: PsbtView| #[trigger]
            has_outcomes(before, outcomes, finalized) && (match answered(proposal, finalized) {
                Some(answer) => {
                    &&& next is Responding
                    &&& next->Responding_0@ == finalized
                    &&& command == ReceiverCommand::Respond(answer)
                },
                None => next is Done && command == ReceiverCommand::Fail(
                    ProposalError::NotAccepted,
                ),
            })
    }
}

/// The PSBT `finalized` is `before`, but that each attempted input is as its attempt left it.
pub open spec fn has_outcomes(
    before: PsbtView,
    outcomes: Seq<Option<InputView>>,
    finalized: PsbtView,
) -> bool {
    &&& finalized.unsigned_tx == before.unsigned_tx
    &&& finalized.outputs == before.outputs
    &&& finalized.other == before.other
    &&& finalized.inputs.len() == before.inputs.len()
    &&& forall|j: int|
        0 <= j < before.wanted().len() ==> finalized.inputs[(
        #[trigger] before.wanted()[j]) as int] == (match outcomes[j] {
            Some(input) => input,
            None => before.inputs[before.wanted()[j] as int],
        })
    &&& forall|i: usize|
        i < before.inputs.len() && !(#[trigger] before.wanted().contains(i))
            ==> finalized.inputs[i as int] == before.inputs[i as int]
}

/// A step that goes on with finalizing follows on the attempts so far.
proof fn lemma_follows_attempts(
    proposal: Receiver<UncheckedProposal>,
    before: PsbtView,
    outcomes: Seq<Option<InputView>>,
    next: ReceiverCheck,
    command: ReceiverCommand,
)
    requires
        before.inputs.len() <= usize::MAX,
        finalizes(proposal, before, outcomes, next, command),
    ensures
        follows_attempts(proposal, before, outcomes, next, command),
{
    law_wanted_inputs_are_listed_once(before);
    if command is Attempt {
        law_attempt_is_on_a_signed_input(next->work, before, outcomes);
    } else {
        let finalized = before.finalized_with(outcomes);
        law_finalizing_touches_only_signed_inputs(before, outcomes);
        assert forall|j: int| 0 <= j < before.wanted().len() implies finalized.inputs[(
        #[trigger] before.wanted()[j]) as int] == (match outcomes[j] {
            Some(input) => input,
            None => before.inputs[before.wanted()[j] as int],
        }) by {
            law_signed_input_is_finalized_or_kept(before, outcomes, j);
        }
        assert forall|i: usize|
            i < before.inputs.len() && !(
            #[trigger] before.wanted().contains(i)) implies finalized.inputs[i as int]
            == before.inputs[i as int] by {
            assert(!before.inputs[i as int].wants_finalizing());
            assert(before.finalized_with(outcomes).inputs[i as int] == before.inputs[i as int]);
        }
        assert(has_outcomes(before, outcomes, finalized));
    }
}

/// A signed PSBT is finalized as soon as there is a proposal to answer: there is an attempt on its
/// first input with a signature, no final script and a known output, or, if there is none, the
/// sender is answered with the PSBT as it is.
pub proof fn law_signed_psbt_is_finalized(
    psbt: Psbt,
    proposal: Receiver<UncheckedProposal>,
    next: ReceiverCheck,
    command: ReceiverCommand,
)
    requires
        receiver_step(
            ReceiverCheck::PollingAgain(psbt),
            ReceiverEvent::Polled(DirectoryAnswer::Proposal(proposal)),
            next,
            command,
        ),
    ensures
        follows_attempts(proposal, psbt@, Seq::empty(), next, command),
{
    law_psbt_view(psbt);
    lemma_follows_attempts(proposal, psbt@, Seq::empty(), next, command);
}

/// After an attempt the next of the inputs with a signature, no final script and a known output is
/// attempted, and once all have been, the sender is answered.
pub proof fn law_attempts_follow_each_other(
    proposal: Receiver<UncheckedProposal>,
    work: Finalizing,
    before: PsbtView,
    outcomes: Seq<Option<InputView>>,
    attempt: Option<Input>,
    next: ReceiverCheck,
    command: ReceiverCommand,
)
    requires
        work.after(before, outcomes),
        receiver_step(
            (ReceiverCheck::Attempting { proposal, work }),
            ReceiverEvent::Attempted(attempt),
            next,
            command,
        ),
    ensures
        attempt matches Some(input) ==> follows_attempts(
            proposal,
            before,
            outcomes.push(Some(input@)),
            next,
            command,
        ),
        attempt is None ==> follows_attempts(proposal, before, outcomes.push(None), next, command),
{
    assert(work.psbt.inputs.len() == before.inputs.len());
    let all = outcomes.push(outcome_view(attempt));
    assert(finalizes(proposal, before, all, next, command));
    lemma_follows_attempts(proposal, before, all, next, command);
}

/// Once there was a response to the answer, the record is completed with the PSBT that the sender
/// was answered with. Without a response nothing is stored.
pub proof fn law_answered_record_is_completed(
    psbt: Psbt,
    responded: bool,
    next: ReceiverCheck,
    command: ReceiverCommand,
)
    requires
        receiver_step(
            ReceiverCheck::Responding(psbt),
            ReceiverEvent::Responded(responded),
            next,
            command,
        ),
    ensures
        next is Done,
        !responded ==> command is Finish,
        responded ==> {
            &&& command is Write
            &&& command->Write_0.len() == 1
            &&& command->Write_0@[0] matches ReceiverWrite::UpdateStatus { status, psbt: stored }
            &&& status == PayjoinStatus::Completed
            &&& stored@ == psbt@
        },
{
    if let ReceiverCommand::Write(done) = command {
        assert(writes_view(done@).len() == done.len());
        assert(writes_view(done@)[0] == done@[0]@);
    }
}

/// A check takes every answer that there can be to what it asks, whatever the record holds. The only
/// thing that is asked of a PSBT is that it is complete, and of a coin that it is an output.
pub proof fn law_receiver_check_takes_every_answer(
    record: ReceiverRecord,
    proposal: Receiver<UncheckedProposal>,
    answer: DirectoryAnswer,
    coin: Option<Coin>,
    contributed: Coin,
    psbtin: Input,
    spend: Option<Psbt>,
    psbt: Psbt,
    work: Finalizing,
    attempt: Option<Input>,
    responded: bool,
)
    ensures
        ReceiverCheck::Start(record).well_formed(),
        ReceiverCheck::Start(record).expects(ReceiverEvent::Begin),
        ReceiverCheck::Polling.expects(ReceiverEvent::Polled(answer)),
        (coin matches Some(coin) ==> coin.outpoint.vout < coin.tx.output.len())
            ==> ReceiverCheck::FindingCoin(proposal).expects(ReceiverEvent::Coin(coin)),
        (ReceiverCheck::Describing { proposal, coin: contributed }).expects(
            ReceiverEvent::Described(psbtin),
        ),
        (spend matches Some(psbt) ==> psbt@.well_formed()) ==> ReceiverCheck::FindingSpend.expects(
            ReceiverEvent::Spend(spend),
        ),
        ReceiverCheck::PollingAgain(psbt).expects(ReceiverEvent::Polled(answer)),
        (ReceiverCheck::Attempting { proposal, work }).expects(ReceiverEvent::Attempted(attempt)),
        ReceiverCheck::Responding(psbt).expects(ReceiverEvent::Responded(responded)),
{
}

} // verus!

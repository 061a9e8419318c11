//! The sending side of a payjoin.
use vstd::prelude::*;
use vstd::string::*;

use ::payjoin::persist::MaybeFatalTransition;
use ::payjoin::send::v2::EncapsulationError;
use ::payjoin::send::v2::Sender;
use ::payjoin::send::v2::SessionEvent as SenderSessionEvent;
use ::payjoin::send::v2::V2GetContext;
use ::payjoin::send::v2::V2PostContext;
use ::payjoin::send::v2::WithReplyKey;

use crate::protocol::original_posted;
use crate::protocol::process_post_response;
use crate::psbt::{Input, OutPoint, Psbt, Txid};
use crate::psbt::{InputView, OutPointView, PsbtView, TxInView};
use crate::sessions::db::{
    error_text, metadata_write, replacing_writes, SessionMetadata, SessionWrite,
};
use crate::sessions::db::{
    law_replacing_keeps_the_new_spend, spends_after, writes_view, SessionMetadataView,
    SessionWriteView,
};
use crate::sessions::types::PayjoinStatus;
use crate::wire::compute_txid;
use crate::wire::txid_of;

verus! {

/// The position of the last of the inputs that spends `outpoint`, or -1.
pub open spec fn last_spending(inputs: Seq<TxInView>, outpoint: OutPointView) -> int
    decreases inputs.len(),
{
    if inputs.len() == 0 {
        -1
    } else if inputs.last().previous_output == outpoint {
        inputs.len() - 1
    } else {
        last_spending(inputs.drop_last(), outpoint)
    }
}

impl PsbtView {
    /// The map that this PSBT has for the input that spends `outpoint`, without signatures.
    pub open spec fn unsigned_input(self, outpoint: OutPointView) -> Option<InputView> {
        let position = last_spending(self.unsigned_tx.input, outpoint);
        if position >= 0 {
            Some(self.inputs[position].without_sigs())
        } else {
            None
        }
    }

    /// This proposal with the maps of `original` for the inputs that both have.
    pub open spec fn restored_from(self, original: PsbtView) -> PsbtView {
        PsbtView {
            inputs: Seq::new(
                self.inputs.len(),
                |i: int|
                    match original.unsigned_input(self.unsigned_tx.input[i].previous_output) {
                        Some(input) => input,
                        None => self.inputs[i],
                    },
            ),
            ..self
        }
    }
}

/// Some input of the PSBT spends `outpoint`.
pub open spec fn spends(psbt: PsbtView, outpoint: OutPointView) -> bool {
    exists|j: int|
        0 <= j < psbt.unsigned_tx.input.len() && (
        #[trigger] psbt.unsigned_tx.input[j]).previous_output == outpoint
}

/// Input `j` of the PSBT spends `outpoint`, and no later input does.
pub open spec fn spends_last(psbt: PsbtView, j: int, outpoint: OutPointView) -> bool {
    &&& 0 <= j < psbt.unsigned_tx.input.len()
    &&& psbt.unsigned_tx.input[j].previous_output == outpoint
    &&& forall|k: int|
        j < k < psbt.unsigned_tx.input.len() ==> (
        #[trigger] psbt.unsigned_tx.input[k]).previous_output != outpoint
}

/// The map `restored` has no signatures; in all else it is the map `original`.
pub open spec fn differs_in_signatures_only(original: InputView, restored: InputView) -> bool {
    &&& restored.partial_sigs.len() == 0
    &&& restored.non_witness_utxo == original.non_witness_utxo
    &&& restored.witness_utxo == original.witness_utxo
    &&& restored.witness_script == original.witness_script
    &&& restored.bip32_derivation == original.bip32_derivation
    &&& restored.final_script_sig == original.final_script_sig
    &&& restored.final_script_witness == original.final_script_witness
    &&& restored.other == original.other
}

/// The map that `original` has for the input that spends `outpoint`, without signatures.
fn unsigned_input(original: &Psbt, outpoint: &OutPoint) -> (input: Option<Input>)
    requires
        original@.unsigned_tx.input.len() <= original@.inputs.len(),
    ensures
        match input {
            Some(input) => original@.unsigned_input(outpoint@) == Some(input@),
            None => original@.unsigned_input(outpoint@) is None,
        },
{
    let ghost all = original@.unsigned_tx.input;
    let mut i: usize = original.unsigned_tx.input.len();
    assert(all.take(i as int) =~= all);
    while i > 0
        invariant
            i <= original.unsigned_tx.input.len(),
            all == original@.unsigned_tx.input,
            original@.unsigned_tx.input.len() <= original@.inputs.len(),
            last_spending(all, outpoint@) == last_spending(all.take(i as int), outpoint@),
        decreases i,
    {
        assert(all[i - 1] == original.unsigned_tx.input@[i - 1]@);
        if original.unsigned_tx.input[i - 1].previous_output.same(outpoint) {
            assert(last_spending(all, outpoint@) == i - 1);
            assert(original@.inputs[i - 1] == original.inputs@[i - 1]@);
            let mut input = original.inputs[i - 1].clone();
            input.partial_sigs = Vec::new();
            assert(input@ =~= original@.inputs[i - 1].without_sigs());
            return Some(input);
        }
        assert(all.take(i as int).drop_last() =~= all.take(i - 1));
        i -= 1;
    }
    None
}

/// Puts the maps of `original` back into the inputs that the proposal has in common with it, but
/// no signatures: the peer's proposal lacks what the wallet needs to sign them.
pub fn restore_inputs(proposal: &mut Psbt, original: &Psbt)
    requires
        original@.unsigned_tx.input.len() <= original@.inputs.len(),
        old(proposal)@.inputs.len() <= old(proposal)@.unsigned_tx.input.len(),
    ensures
        final(proposal)@ == old(proposal)@.restored_from(original@),
        final(proposal)@.unsigned_tx == old(proposal)@.unsigned_tx,
        final(proposal)@.outputs == old(proposal)@.outputs,
        final(proposal)@.other == old(proposal)@.other,
        final(proposal)@.inputs.len() == old(proposal)@.inputs.len(),
        forall|i: int, j: int|
            0 <= i < old(proposal)@.inputs.len() && #[trigger] spends_last(
                original@,
                j,
                old(proposal)@.unsigned_tx.input[i].previous_output,
            ) ==> differs_in_signatures_only(
                original@.inputs[j],
                #[trigger] final(proposal)@.inputs[i],
            ),
        forall|i: int|
            0 <= i < old(proposal)@.inputs.len() && !spends(
                original@,
                old(proposal)@.unsigned_tx.input[i].previous_output,
            ) ==> #[trigger] final(proposal)@.inputs[i] == old(proposal)@.inputs[i],
{
    let ghost before = proposal@;
    let mut i: usize = 0;
    while i < proposal.inputs.len()
        invariant
            i <= proposal.inputs.len(),
            proposal.inputs.len() == before.inputs.len(),
            before.inputs.len() <= before.unsigned_tx.input.len(),
            original@.unsigned_tx.input.len() <= original@.inputs.len(),
            proposal@.unsigned_tx == before.unsigned_tx,
            proposal@.outputs == before.outputs,
            proposal@.other == before.other,
            forall|k: int|
                0 <= k < i ==> (#[trigger] proposal.inputs@[k])@ == before.restored_from(
                    original@,
                ).inputs[k],
            forall|k: int|
                i <= k < before.inputs.len() ==> (#[trigger] proposal.inputs@[k])@ == before.inputs[k],
        decreases before.inputs.len() - i,
    {
        assert(before.unsigned_tx.input[i as int] == proposal.unsigned_tx.input@[i as int]@) by {
            assert(proposal@.unsigned_tx.input[i as int] == proposal.unsigned_tx.input@[i as int]@);
        }
        match unsigned_input(original, &proposal.unsigned_tx.input[i].previous_output) {
            Some(input) => {
                proposal.inputs.set(i, input);
            },
            None => {},
        }
        i += 1;
    }
    assert(proposal@.inputs =~= before.restored_from(original@).inputs);
    proof {
        assert forall|i: int, j: int|
            0 <= i < before.inputs.len() && #[trigger] spends_last(
                original@,
                j,
                before.unsigned_tx.input[i].previous_output,
            ) implies differs_in_signatures_only(
            original@.inputs[j],
            #[trigger] proposal@.inputs[i],
        ) by {
            law_own_inputs_are_restored_unsigned(before, original@, i, j);
        }
        assert forall|i: int|
            0 <= i < before.inputs.len() && !spends(
                original@,
                before.unsigned_tx.input[i].previous_output,
            ) implies #[trigger] proposal@.inputs[i] == before.inputs[i] by {
            law_foreign_inputs_are_left_alone(before, original@, i);
        }
    }
}

/// The state in which the log of a sender's session leaves it.
#[derive(Debug)]
pub enum SenderState {
    Uninitialized,
    WithReplyKey,
    V2GetContext,
    ProposalReceived(Psbt),
    TerminalFailure,
}

/// How the posting of the original PSBT to the directory went.
#[derive(Debug)]
pub enum PostOutcome {
    /// There was no request, or no response to it.
    RequestFailed(String),
    /// The directory took the PSBT.
    Accepted,
    /// The response was an error, or the event could not be stored.
    Rejected(String),
}

/// How the polling of the directory for the receiver's proposal went.
#[derive(Debug)]
pub enum PollOutcome {
    /// There was no request, or no response to it.
    RequestFailed(String),
    /// The receiver's proposal came.
    Progress(Psbt),
    /// There is no proposal yet.
    Stasis,
    /// The response was an error, or the event could not be stored.
    Rejected(String),
}

/// What is to be done with a session that is in a certain state.
#[derive(Debug)]
pub enum SenderWork {
    PostOriginal,
    PollProposal,
    /// Nothing: this is the outcome.
    Settled(Result<Option<Psbt>, String>),
}

/// A proposal if there is one, or the text of an error.
pub open spec fn outcome_view(outcome: Result<Option<Psbt>, String>) -> Result<Option<Psbt>, Seq<char>> {
    match outcome {
        Ok(psbt) => Ok(psbt),
        Err(error) => Err(error@),
    }
}

/// What posting the original PSBT comes to.
pub open spec fn posted(outcome: PostOutcome) -> Result<(), Seq<char>> {
    match outcome {
        PostOutcome::RequestFailed(error) => Err(error@),
        PostOutcome::Accepted => Ok(()),
        PostOutcome::Rejected(error) => Err(error@),
    }
}

/// What polling for the proposal comes to.
pub open spec fn polled(outcome: PollOutcome) -> Result<Option<Psbt>, Seq<char>> {
    match outcome {
        PollOutcome::RequestFailed(error) => Err(error@),
        PollOutcome::Progress(psbt) => Ok(Some(psbt)),
        PollOutcome::Stasis => Ok(None),
        PollOutcome::Rejected(error) => Err("Response error: "@ + error@),
    }
}

/// What a session in a certain state asks for.
pub open spec fn work_of(state: SenderState, work: SenderWork) -> bool {
    match state {
        SenderState::WithReplyKey => work is PostOriginal,
        SenderState::V2GetContext => work is PollProposal,
        SenderState::ProposalReceived(psbt) => work == SenderWork::Settled(Ok(Some(psbt))),
        _ => work matches SenderWork::Settled(outcome) && outcome_view(outcome) == Err::<
            Option<Psbt>,
            Seq<char>,
        >("Unexpected sender state"@),
    }
}

/// What polling for the receiver's proposal comes to.
pub fn get_proposed_payjoin_psbt(outcome: PollOutcome) -> (result: Result<Option<Psbt>, String>)
    ensures
        outcome_view(result) == polled(outcome),
        outcome matches PollOutcome::Progress(psbt) ==> result == Ok::<_, String>(Some(psbt)),
        outcome is Stasis ==> result == Ok::<_, String>(None::<Psbt>),
        outcome matches PollOutcome::RequestFailed(error) ==> (result matches Err(text) && text@
            == error@),
        outcome matches PollOutcome::Rejected(error) ==> (result matches Err(text) && text@
            == "Response error: "@ + error@),
{
    match outcome {
        PollOutcome::RequestFailed(error) => Err(error),
        PollOutcome::Progress(psbt) => Ok(Some(psbt)),
        PollOutcome::Stasis => Ok(None),
        PollOutcome::Rejected(error) => Err(error_text("Response error: ", error.as_str())),
    }
}

/// What the directory's response to the original PSBT takes the session to.
pub fn posted_original(
    sender: Sender<WithReplyKey>,
    response: &Vec<u8>,
    context: V2PostContext,
) -> (transition: MaybeFatalTransition<
    SenderSessionEvent,
    Sender<V2GetContext>,
    EncapsulationError,
>)
    ensures
        transition == original_posted(sender, response@, context),
{
    process_post_response(sender, response, context)
}

/// What posting the original PSBT comes to.
pub fn post_orginal_proposal(outcome: PostOutcome) -> (result: Result<(), String>)
    ensures
        match result {
            Ok(()) => posted(outcome) is Ok,
            Err(error) => posted(outcome) == Err::<(), Seq<char>>(error@),
        },
        result is Ok <==> outcome is Accepted,
        outcome matches PostOutcome::RequestFailed(error) ==> result->Err_0@ == error@,
        outcome matches PostOutcome::Rejected(error) ==> result->Err_0@ == error@,
{
    match outcome {
        PostOutcome::RequestFailed(error) => Err(error),
        PostOutcome::Accepted => Ok(()),
        PostOutcome::Rejected(error) => Err(error),
    }
}

/// What is to be done with a session that its log leaves in `state`.
pub fn process_sender_session(state: SenderState) -> (work: SenderWork)
    ensures
        work_of(state, work),
        work is PostOriginal <==> state is WithReplyKey,
        work is PollProposal <==> state is V2GetContext,
        state matches SenderState::ProposalReceived(psbt) ==> work == SenderWork::Settled(
            Ok(Some(psbt)),
        ),
        state is Uninitialized || state is TerminalFailure ==> (work matches SenderWork::Settled(
            Err(error),
        ) && error@ == "Unexpected sender state"@),
{
    match state {
        SenderState::WithReplyKey => SenderWork::PostOriginal,
        SenderState::V2GetContext => SenderWork::PollProposal,
        SenderState::ProposalReceived(psbt) => SenderWork::Settled(Ok(Some(psbt))),
        _ => SenderWork::Settled(Err("Unexpected sender state".to_string())),
    }
}

/// How far the check of one session has come.
#[derive(Debug)]
pub enum SenderCheck {
    Start(SessionMetadata),
    Replaying(SessionMetadata),
    Posting(SessionMetadata),
    Polling(SessionMetadata),
    FindingSpend { metadata: SessionMetadata, txid: Txid, proposal: Psbt },
    Done,
}

/// What the world outside answers to a command.
#[derive(Debug)]
pub enum SenderEvent {
    /// The check begins.
    Begin,
    /// The log was replayed.
    Replayed(SenderState),
    /// What posting the original PSBT came to.
    Posted(Result<(), String>),
    /// How the polling for the proposal went.
    Polled(PollOutcome),
    /// The PSBT that the wallet has under a transaction id.
    Spend(Option<Psbt>),
}

/// What is to be done in the world outside.
#[derive(Debug)]
pub enum SenderCommand {
    /// Replay the log of the session.
    Replay,
    /// Post the original PSBT to the directory and store the event.
    PostOriginal,
    /// Ask the directory for the receiver's proposal and store the event.
    PollProposal,
    /// Look up the PSBT that the wallet has under this id.
    FindSpend(Txid),
    /// Do these writes, the first one first. The check is over.
    Write(Vec<SessionWrite>),
    /// The check is over; there may be something to warn of.
    Finish(Option<String>),
}

impl SenderCheck {
    /// The event answers the last command.
    pub open spec fn expects(self, event: SenderEvent) -> bool {
        match self {
            SenderCheck::Start(_) => event is Begin,
            SenderCheck::Replaying(_) => event matches SenderEvent::Replayed(state) && (
            state matches SenderState::ProposalReceived(psbt) ==> psbt@.well_formed()),
            SenderCheck::Posting(_) => event is Posted,
            SenderCheck::Polling(_) => event matches SenderEvent::Polled(outcome) && (
            outcome matches PollOutcome::Progress(psbt) ==> psbt@.well_formed()),
            SenderCheck::FindingSpend { .. } => event matches SenderEvent::Spend(spend) && (
            spend matches Some(psbt) ==> psbt@.well_formed()),
            SenderCheck::Done => false,
        }
    }

    /// A proposal is only at hand while a session waits for one, under the id of the PSBT that
    /// was sent.
    pub open spec fn well_formed(self) -> bool {
        match self {
            SenderCheck::Posting(metadata) | SenderCheck::Polling(metadata) => metadata.status
                == PayjoinStatus::Pending || metadata.status == PayjoinStatus::WaitingReceiver,
            SenderCheck::FindingSpend { metadata, txid, proposal } => {
                &&& metadata.status == PayjoinStatus::WaitingReceiver
                &&& metadata.maybe_txid == Some(txid)
                &&& proposal@.well_formed()
            },
            _ => true,
        }
    }

    /// How many more steps there can be.
    pub open spec fn rank(self) -> nat {
        match self {
            SenderCheck::Start(_) => 4,
            SenderCheck::Replaying(_) => 3,
            SenderCheck::Posting(_) => 2,
            SenderCheck::Polling(_) => 2,
            SenderCheck::FindingSpend { .. } => 1,
            SenderCheck::Done => 0,
        }
    }
}

/// The check is over and there is nothing to warn of.
pub open spec fn idle(next: SenderCheck, command: SenderCommand) -> bool {
    next is Done && command == SenderCommand::Finish(None)
}

/// The check is over and there is something to warn of.
pub open spec fn warned(next: SenderCheck, command: SenderCommand, warning: Seq<char>) -> bool {
    &&& next is Done
    &&& command matches SenderCommand::Finish(Some(text))
    &&& text@ == warning
}

/// The writes after which a session waits for its receiver.
pub open spec fn waiting_writes(metadata: SessionMetadataView) -> Seq<SessionWriteView> {
    seq![
        SessionWriteView::UpdateMetadata(
            SessionMetadataView { status: PayjoinStatus::WaitingReceiver, ..metadata },
        ),
    ]
}

/// The writes that complete a session with `proposal`, which answers the PSBT `original` that was
/// stored under `txid`.
pub open spec fn completing_writes(
    metadata: SessionMetadataView,
    txid: Seq<u8>,
    proposal: PsbtView,
    original: PsbtView,
) -> Seq<SessionWriteView> {
    seq![
        SessionWriteView::DeleteSpend(txid),
        SessionWriteView::StoreSpend(proposal.restored_from(original)),
        SessionWriteView::UpdateMetadata(completed(metadata, proposal, original)),
    ]
}

/// What becomes of a session whose processing came to `outcome`.
pub open spec fn settled(
    metadata: SessionMetadata,
    outcome: Result<Option<Psbt>, Seq<char>>,
    next: SenderCheck,
    command: SenderCommand,
) -> bool {
    match (metadata.status, outcome) {
        (PayjoinStatus::Pending, Ok(_)) => {
            &&& next is Done
            &&& command matches SenderCommand::Write(writes)
            &&& writes_view(writes@) == waiting_writes(metadata@)
        },
        (PayjoinStatus::Pending, Err(error)) => warned(
            next,
            command,
            "process_sender_session(): "@ + error,
        ),
        (PayjoinStatus::WaitingReceiver, Ok(Some(proposal))) => match metadata.maybe_txid {
            Some(txid) => {
                &&& next == SenderCheck::FindingSpend { metadata, txid, proposal }
                &&& command == SenderCommand::FindSpend(txid)
            },
            None => idle(next, command),
        },
        (PayjoinStatus::WaitingReceiver, Err(error)) => warned(
            next,
            command,
            "payjoin_sender_check(): "@ + error,
        ),
        _ => idle(next, command),
    }
}

/// What becomes of a session whose log leaves it in `state`.
pub open spec fn replayed(
    metadata: SessionMetadata,
    state: SenderState,
    next: SenderCheck,
    command: SenderCommand,
) -> bool {
    if metadata.status == PayjoinStatus::Pending || metadata.status
        == PayjoinStatus::WaitingReceiver {
        match state {
            SenderState::WithReplyKey => next == SenderCheck::Posting(metadata) && command
                is PostOriginal,
            SenderState::V2GetContext => next == SenderCheck::Polling(metadata) && command
                is PollProposal,
            SenderState::ProposalReceived(psbt) => settled(metadata, Ok(Some(psbt)), next, command),
            _ => settled(metadata, Err("Unexpected sender state"@), next, command),
        }
    } else {
        idle(next, command)
    }
}

/// The metadata of a session that `proposal` completes, which answers the PSBT `original`.
pub open spec fn completed(
    metadata: SessionMetadataView,
    proposal: PsbtView,
    original: PsbtView,
) -> SessionMetadataView {
    SessionMetadataView {
        status: PayjoinStatus::Completed,
        maybe_txid: Some(txid_of(proposal.unsigned_tx)),
        maybe_psbt: Some(proposal.restored_from(original)),
        maybe_bip21: metadata.maybe_bip21,
    }
}

/// One step of the check of a session: from its state and an event to the next state and a
/// command.
pub open spec fn sender_step(
    check: SenderCheck,
    event: SenderEvent,
    next: SenderCheck,
    command: SenderCommand,
) -> bool {
    match (check, event) {
        (SenderCheck::Start(metadata), SenderEvent::Begin) => if metadata.status
            == PayjoinStatus::Completed {
            idle(next, command)
        } else {
            next == SenderCheck::Replaying(metadata) && command is Replay
        },
        (SenderCheck::Replaying(metadata), SenderEvent::Replayed(state)) => replayed(
            metadata,
            state,
            next,
            command,
        ),
        (SenderCheck::Posting(metadata), SenderEvent::Posted(_)) => settled(
            metadata,
            Ok(None),
            next,
            command,
        ),
        (SenderCheck::Polling(metadata), SenderEvent::Polled(outcome)) => settled(
            metadata,
            polled(outcome),
            next,
            command,
        ),
        (
            SenderCheck::FindingSpend { metadata, txid, proposal },
            SenderEvent::Spend(Some(original)),
        ) => {
            &&& next is Done
            &&& command matches SenderCommand::Write(writes)
            &&& writes_view(writes@) == completing_writes(
                metadata@,
                txid@,
                proposal@,
                original@,
            )
        },
        (SenderCheck::FindingSpend { .. }, SenderEvent::Spend(None)) => idle(next, command),
        _ => false,
    }
}

/// Decides what becomes of a session whose processing came to `outcome`.
fn settle(metadata: SessionMetadata, outcome: Result<Option<Psbt>, String>) -> (result: (
    SenderCheck,
    SenderCommand,
))
    ensures
        settled(metadata, outcome_view(outcome), result.0, result.1),
{
    match metadata.status {
        PayjoinStatus::Pending => match outcome {
            Ok(_) => (
                SenderCheck::Done,
                SenderCommand::Write(
                    metadata_write(
                        SessionMetadata { status: PayjoinStatus::WaitingReceiver, ..metadata },
                    ),
                ),
            ),
            Err(error) => (
                SenderCheck::Done,
                SenderCommand::Finish(
                    Some(error_text("process_sender_session(): ", error.as_str())),
                ),
            ),
        },
        PayjoinStatus::WaitingReceiver => match outcome {
            Ok(Some(proposal)) => match metadata.maybe_txid {
                Some(txid) => (
                    SenderCheck::FindingSpend { metadata, txid, proposal },
                    SenderCommand::FindSpend(txid),
                ),
                None => (SenderCheck::Done, SenderCommand::Finish(None)),
            },
            Ok(None) => (SenderCheck::Done, SenderCommand::Finish(None)),
            Err(error) => (
                SenderCheck::Done,
                SenderCommand::Finish(Some(error_text("payjoin_sender_check(): ", error.as_str()))),
            ),
        },
        _ => (SenderCheck::Done, SenderCommand::Finish(None)),
    }
}

/// One step of the check of a session.
pub fn payjoin_sender_check(check: SenderCheck, event: SenderEvent) -> (result: (
    SenderCheck,
    SenderCommand,
))
    requires
        check.well_formed(),
        check.expects(event),
    ensures
        sender_step(check, event, result.0, result.1),
{
    match (check, event) {
        (SenderCheck::Start(metadata), _) => {
            // No need to check Completed
            if metadata.status == PayjoinStatus::Completed {
                (SenderCheck::Done, SenderCommand::Finish(None))
            } else {
                (SenderCheck::Replaying(metadata), SenderCommand::Replay)
            }
        },
        (SenderCheck::Replaying(metadata), SenderEvent::Replayed(state)) => {
            match metadata.status {
                PayjoinStatus::Pending | PayjoinStatus::WaitingReceiver => {
                    match process_sender_session(state) {
                        SenderWork::PostOriginal => (
                            SenderCheck::Posting(metadata),
                            SenderCommand::PostOriginal,
                        ),
                        SenderWork::PollProposal => (
                            SenderCheck::Polling(metadata),
                            SenderCommand::PollProposal,
                        ),
                        SenderWork::Settled(outcome) => settle(metadata, outcome),
                    }
                },
                _ => (SenderCheck::Done, SenderCommand::Finish(None)),
            }
        },
        (SenderCheck::Posting(metadata), _) => settle(metadata, Ok(None)),
        (SenderCheck::Polling(metadata), SenderEvent::Polled(outcome)) => settle(
            metadata,
            get_proposed_payjoin_psbt(outcome),
        ),
        (
            SenderCheck::FindingSpend { metadata, txid, mut proposal },
            SenderEvent::Spend(Some(original)),
        ) => {
            restore_inputs(&mut proposal, &original);
            let new_txid = compute_txid(&proposal.unsigned_tx);
            let stored = proposal.clone();
            let update = SessionMetadata {
                status: PayjoinStatus::Completed,
                maybe_txid: Some(new_txid),
                maybe_psbt: Some(proposal),
                maybe_bip21: metadata.maybe_bip21,
            };
            (SenderCheck::Done, SenderCommand::Write(replacing_writes(txid, stored, update)))
        },
        _ => (SenderCheck::Done, SenderCommand::Finish(None)),
    }
}

impl SenderCheck {
    /// What is stored of the session that is being checked.
    pub open spec fn session(self) -> Option<SessionMetadata> {
        match self {
            SenderCheck::Start(metadata) => Some(metadata),
            SenderCheck::Replaying(metadata) => Some(metadata),
            SenderCheck::Posting(metadata) => Some(metadata),
            SenderCheck::Polling(metadata) => Some(metadata),
            SenderCheck::FindingSpend { metadata, .. } => Some(metadata),
            SenderCheck::Done => None,
        }
    }
}

impl SenderCommand {
    /// The writes that are to be done.
    pub open spec fn writes(self) -> Seq<SessionWriteView> {
        match self {
            SenderCommand::Write(writes) => writes_view(writes@),
            _ => Seq::empty(),
        }
    }
}

/// A check keeps its invariant and comes to an end: every step brings it closer to being done,
/// it is done exactly if nothing further is asked of the world outside, and until then it speaks
/// of the same session.
pub proof fn law_sender_check_ends(
    check: SenderCheck,
    event: SenderEvent,
    next: SenderCheck,
    command: SenderCommand,
)
    requires
        check.well_formed(),
        check.expects(event),
        sender_step(check, event, next, command),
    ensures
        next.well_formed(),
        next.rank() < check.rank(),
        next is Done <==> command is Write || command is Finish,
        next is Done || next.session() == check.session(),
{
}

/// Nothing is done about a session that is completed.
pub proof fn law_completed_sender_session_is_left_alone(
    metadata: SessionMetadata,
    next: SenderCheck,
    command: SenderCommand,
)
    requires
        metadata.status == PayjoinStatus::Completed,
        sender_step(SenderCheck::Start(metadata), SenderEvent::Begin, next, command),
    ensures
        next is Done,
        command == SenderCommand::Finish(None),
{
}

/// These writes take a pending session to waiting for its receiver, with nothing else changed, or
/// one that waits to completed, with the URI unchanged.
pub open spec fn moves_forward(
    before: SessionMetadataView,
    writes: Seq<SessionWriteView>,
) -> bool {
    ||| before.status == PayjoinStatus::Pending && writes == waiting_writes(before)
    ||| {
        &&& before.status == PayjoinStatus::WaitingReceiver
        &&& writes.len() == 3
        &&& writes[2] matches SessionWriteView::UpdateMetadata(after)
        &&& after.status == PayjoinStatus::Completed
        &&& after.maybe_bip21 == before.maybe_bip21
    }
}

/// The status of a session only ever moves from pending to waiting for the receiver, and from
/// there to completed. Its BIP 21 URI stays, and so do its id and its PSBT until it is completed.
pub proof fn law_sender_status_moves_forward(
    check: SenderCheck,
    event: SenderEvent,
    next: SenderCheck,
    command: SenderCommand,
)
    requires
        check.well_formed(),
        sender_step(check, event, next, command),
        command is Write,
    ensures
        check.session() is Some,
        moves_forward(check.session()->0@, command.writes()),
{
}

/// Posting never fails a session: whatever came of it, a pending session then waits for its
/// receiver, and one that already waits goes on waiting.
pub proof fn law_posting_never_fails_a_session(
    metadata: SessionMetadata,
    outcome: Result<(), String>,
    next: SenderCheck,
    command: SenderCommand,
)
    requires
        SenderCheck::Posting(metadata).well_formed(),
        sender_step(SenderCheck::Posting(metadata), SenderEvent::Posted(outcome), next, command),
    ensures
        metadata.status == PayjoinStatus::Pending ==> (command.writes() == waiting_writes(metadata@)),
        metadata.status == PayjoinStatus::WaitingReceiver ==> command == SenderCommand::Finish(None),
{
}

/// A session is completed only with a proposal for the PSBT that it sent. The PSBT under the id
/// that was stored is replaced: afterwards the wallet has the proposal, even if it has the same
/// id, and the id and the PSBT that the metadata hold belong together.
pub proof fn law_completion_replaces_the_original(
    spends: Map<Seq<u8>, PsbtView>,
    metadata: SessionMetadata,
    txid: Txid,
    proposal: Psbt,
    original: Psbt,
    next: SenderCheck,
    command: SenderCommand,
)
    requires
        (SenderCheck::FindingSpend { metadata, txid, proposal }).well_formed(),
        sender_step(
            (SenderCheck::FindingSpend { metadata, txid, proposal }),
            SenderEvent::Spend(Some(original)),
            next,
            command,
        ),
    ensures
        metadata.maybe_txid == Some(txid),
        proposal@.restored_from(original@).unsigned_tx == proposal@.unsigned_tx,
        spends_after(spends, command.writes()) == spends.remove(txid@).insert(
            txid_of(proposal@.unsigned_tx),
            proposal@.restored_from(original@),
        ),
        command.writes()[2] == SessionWriteView::UpdateMetadata(
            completed(metadata@, proposal@, original@),
        ),
{
    law_replacing_keeps_the_new_spend(
        spends,
        txid@,
        proposal@.restored_from(original@),
        completed(metadata@, proposal@, original@),
    );
}

/// A position that is found spends the output, and no later one does; if none is found then no
/// input spends it.
proof fn lemma_last_spending(inputs: Seq<TxInView>, outpoint: OutPointView)
    ensures
        ({
            let p = last_spending(inputs, outpoint);
            &&& -1 <= p < inputs.len()
            &&& p >= 0 ==> inputs[p].previous_output == outpoint
            &&& forall|i: int|
                p < i < inputs.len() ==> (#[trigger] inputs[i]).previous_output != outpoint
        }),
    decreases inputs.len(),
{
    if inputs.len() > 0 && inputs.last().previous_output != outpoint {
        lemma_last_spending(inputs.drop_last(), outpoint);
        let p = last_spending(inputs, outpoint);
        assert forall|i: int| p < i < inputs.len() implies (#[trigger] inputs[i]).previous_output
            != outpoint by {
            if i < inputs.len() - 1 {
                assert(inputs.drop_last()[i] == inputs[i]);
            }
        }
    }
}

/// Restoring touches nothing but input maps: the proposed transaction stays as it is, and with it
/// its id.
pub proof fn law_restoring_keeps_the_transaction(proposal: PsbtView, original: PsbtView)
    ensures
        proposal.restored_from(original).unsigned_tx == proposal.unsigned_tx,
        proposal.restored_from(original).outputs == proposal.outputs,
        proposal.restored_from(original).other == proposal.other,
        proposal.restored_from(original).inputs.len() == proposal.inputs.len(),
        proposal.well_formed() ==> proposal.restored_from(original).well_formed(),
{
}

/// An input that the proposal shares with the original gets the map of the original without its
/// signatures (the last such map, should several inputs of the original spend the same output).
pub proof fn law_own_inputs_are_restored_unsigned(
    proposal: PsbtView,
    original: PsbtView,
    i: int,
    j: int,
)
    requires
        0 <= i < proposal.inputs.len(),
        0 <= j < original.unsigned_tx.input.len(),
        original.unsigned_tx.input[j].previous_output
            == proposal.unsigned_tx.input[i].previous_output,
        forall|k: int|
            j < k < original.unsigned_tx.input.len() ==> (#[trigger] original.unsigned_tx.input[k]).previous_output
                != original.unsigned_tx.input[j].previous_output,
    ensures
        proposal.restored_from(original).inputs[i] == original.inputs[j].without_sigs(),
        proposal.restored_from(original).inputs[i].partial_sigs.len() == 0,
        proposal.restored_from(original).inputs[i].non_witness_utxo
            == original.inputs[j].non_witness_utxo,
        proposal.restored_from(original).inputs[i].witness_utxo == original.inputs[j].witness_utxo,
        proposal.restored_from(original).inputs[i].witness_script
            == original.inputs[j].witness_script,
        proposal.restored_from(original).inputs[i].bip32_derivation
            == original.inputs[j].bip32_derivation,
        proposal.restored_from(original).inputs[i].final_script_sig
            == original.inputs[j].final_script_sig,
        proposal.restored_from(original).inputs[i].final_script_witness
            == original.inputs[j].final_script_witness,
        proposal.restored_from(original).inputs[i].other == original.inputs[j].other,
{
    lemma_last_spending(
        original.unsigned_tx.input,
        proposal.unsigned_tx.input[i].previous_output,
    );
}

/// An input that the original does not have is left as the peer proposed it.
pub proof fn law_foreign_inputs_are_left_alone(proposal: PsbtView, original: PsbtView, i: int)
    requires
        0 <= i < proposal.inputs.len(),
        forall|j: int|
            0 <= j < original.unsigned_tx.input.len() ==> (
            #[trigger] original.unsigned_tx.input[j]).previous_output
                != proposal.unsigned_tx.input[i].previous_output,
    ensures
        proposal.restored_from(original).inputs[i] == proposal.inputs[i],
{
    lemma_last_spending(
        original.unsigned_tx.input,
        proposal.unsigned_tx.input[i].previous_output,
    );
}

/// Restoring a second time changes nothing.
pub proof fn law_restoring_is_idempotent(proposal: PsbtView, original: PsbtView)
    ensures
        proposal.restored_from(original).restored_from(original) == proposal.restored_from(
            original,
        ),
{
    let once = proposal.restored_from(original);
    assert(once.restored_from(original).inputs =~= once.inputs);
}

/// A session that is not completed is looked at: its log is replayed.
pub proof fn law_open_sender_session_is_replayed(
    metadata: SessionMetadata,
    next: SenderCheck,
    command: SenderCommand,
)
    requires
        metadata.status != PayjoinStatus::Completed,
        sender_step(SenderCheck::Start(metadata), SenderEvent::Begin, next, command),
    ensures
        next == SenderCheck::Replaying(metadata),
        command is Replay,
{
}

/// A session goes on from where its log leaves it, whether it is pending or already waits for its
/// receiver: until the directory has taken the original PSBT it is posted, again if need be, and
/// from then on the proposal is polled for.
pub proof fn law_session_is_posted_until_taken_then_polled(
    metadata: SessionMetadata,
    state: SenderState,
    next: SenderCheck,
    command: SenderCommand,
)
    requires
        metadata.status == PayjoinStatus::Pending || metadata.status
            == PayjoinStatus::WaitingReceiver,
        sender_step(
            SenderCheck::Replaying(metadata),
            SenderEvent::Replayed(state),
            next,
            command,
        ),
    ensures
        state is WithReplyKey <==> command is PostOriginal,
        state is WithReplyKey ==> next == SenderCheck::Posting(metadata),
        state is V2GetContext <==> command is PollProposal,
        state is V2GetContext ==> next == SenderCheck::Polling(metadata),
{
}

/// Nothing is done about a session of another status, whatever its log says.
pub proof fn law_other_sender_sessions_are_only_replayed(
    metadata: SessionMetadata,
    state: SenderState,
    next: SenderCheck,
    command: SenderCommand,
)
    requires
        metadata.status != PayjoinStatus::Pending,
        metadata.status != PayjoinStatus::WaitingReceiver,
        sender_step(
            SenderCheck::Replaying(metadata),
            SenderEvent::Replayed(state),
            next,
            command,
        ),
    ensures
        next is Done,
        command == SenderCommand::Finish(None),
{
}

/// A log that leaves a session in no state to go on from is warned of, and nothing is stored.
pub proof fn law_unexpected_sender_state_is_warned_of(
    metadata: SessionMetadata,
    state: SenderState,
    next: SenderCheck,
    command: SenderCommand,
)
    requires
        metadata.status == PayjoinStatus::Pending || metadata.status
            == PayjoinStatus::WaitingReceiver,
        state is Uninitialized || state is TerminalFailure,
        sender_step(
            SenderCheck::Replaying(metadata),
            SenderEvent::Replayed(state),
            next,
            command,
        ),
    ensures
        next is Done,
        command is Finish,
        command->Finish_0 is Some,
        metadata.status == PayjoinStatus::Pending ==> command->Finish_0->0@
            == "process_sender_session(): "@ + "Unexpected sender state"@,
        metadata.status == PayjoinStatus::WaitingReceiver ==> command->Finish_0->0@
            == "payjoin_sender_check(): "@ + "Unexpected sender state"@,
{
}

/// The event says that this proposal has come.
pub open spec fn brings(check: SenderCheck, event: SenderEvent, proposal: Psbt) -> bool {
    ||| check is Replaying && event == SenderEvent::Replayed(
        SenderState::ProposalReceived(proposal),
    )
    ||| check is Polling && event == SenderEvent::Polled(PollOutcome::Progress(proposal))
}

/// A proposal that has come, now or before, is taken over by a session that waits for one: the PSBT
/// that was sent is looked up under the id that the session stores. Without such an id nothing is
/// done, and a session that was still pending first comes to wait.
pub proof fn law_proposal_is_taken_over(
    metadata: SessionMetadata,
    check: SenderCheck,
    event: SenderEvent,
    proposal: Psbt,
    next: SenderCheck,
    command: SenderCommand,
)
    requires
        check == SenderCheck::Replaying(metadata) || check == SenderCheck::Polling(metadata),
        brings(check, event, proposal),
        sender_step(check, event, next, command),
    ensures
        metadata.status == PayjoinStatus::WaitingReceiver ==> (match metadata.maybe_txid {
            Some(txid) => {
                &&& next == (SenderCheck::FindingSpend { metadata, txid, proposal })
                &&& command == SenderCommand::FindSpend(txid)
            },
            None => next is Done && command == SenderCommand::Finish(None),
        }),
        metadata.status == PayjoinStatus::Pending ==> next is Done && comes_to_wait(
            metadata,
            command,
        ),
{
    if let SenderCommand::Write(done) = command {
        assert(writes_view(done@).len() == done.len());
        assert(writes_view(done@)[0] == done@[0]@);
    }
}

/// The one thing that is stored is that the session waits for its receiver: its id, its PSBT and
/// its URI stay as they are.
pub open spec fn comes_to_wait(metadata: SessionMetadata, command: SenderCommand) -> bool {
    &&& command matches SenderCommand::Write(done)
    &&& done.len() == 1
    &&& done@[0] matches SessionWrite::UpdateMetadata(stored)
    &&& stored.status == PayjoinStatus::WaitingReceiver
    &&& stored@.maybe_txid == metadata@.maybe_txid
    &&& stored@.maybe_psbt == metadata@.maybe_psbt
    &&& stored@.maybe_bip21 == metadata@.maybe_bip21
}

/// As long as there is no proposal, and whatever came of posting, a pending session comes to wait
/// for its receiver, and one that waits is left as it is.
pub proof fn law_session_waits_without_a_proposal(
    metadata: SessionMetadata,
    check: SenderCheck,
    event: SenderEvent,
    next: SenderCheck,
    command: SenderCommand,
)
    requires
        (check == SenderCheck::Posting(metadata) && event is Posted) || (check
            == SenderCheck::Polling(metadata) && event == SenderEvent::Polled(PollOutcome::Stasis)),
        sender_step(check, event, next, command),
    ensures
        next is Done,
        metadata.status == PayjoinStatus::Pending ==> comes_to_wait(metadata, command),
        metadata.status != PayjoinStatus::Pending ==> command == SenderCommand::Finish(None),
{
    if let SenderCommand::Write(done) = command {
        assert(writes_view(done@).len() == done.len());
        assert(writes_view(done@)[0] == done@[0]@);
    }
}

/// A poll that fails is warned of with what the directory or the network said, and nothing is
/// stored.
pub proof fn law_failed_poll_is_warned_of(
    metadata: SessionMetadata,
    outcome: PollOutcome,
    next: SenderCheck,
    command: SenderCommand,
)
    requires
        metadata.status == PayjoinStatus::Pending || metadata.status
            == PayjoinStatus::WaitingReceiver,
        outcome is RequestFailed || outcome is Rejected,
        sender_step(SenderCheck::Polling(metadata), SenderEvent::Polled(outcome), next, command),
    ensures
        next is Done,
        command is Finish,
        command->Finish_0 is Some,
        ({
            let heading = if metadata.status == PayjoinStatus::Pending {
                "process_sender_session(): "@
            } else {
                "payjoin_sender_check(): "@
            };
            &&& outcome matches PollOutcome::RequestFailed(error) ==> command->Finish_0->0@
                == heading + error@
            &&& outcome matches PollOutcome::Rejected(error) ==> command->Finish_0->0@ == heading + (
            "Response error: "@ + error@)
        }),
{
}

/// A proposal for a PSBT that the wallet no longer has is not taken over.
pub proof fn law_proposal_for_an_unknown_psbt_is_left(
    metadata: SessionMetadata,
    txid: Txid,
    proposal: Psbt,
    next: SenderCheck,
    command: SenderCommand,
)
    requires
        sender_step(
            (SenderCheck::FindingSpend { metadata, txid, proposal }),
            SenderEvent::Spend(None),
            next,
            command,
        ),
    ensures
        next is Done,
        command == SenderCommand::Finish(None),
{
}

/// What is stored when a session is completed: first the PSBT that was sent is deleted, then the
/// proposal is stored, then the metadata. The proposal has the transaction that the receiver
/// proposed; each of its inputs that the PSBT that was sent has as well has the map of that PSBT
/// without signatures, and every other input is as it was proposed. The metadata hold that very
/// proposal, its id and the URI of the session.
pub proof fn law_completed_session_stores_the_proposal(
    metadata: SessionMetadata,
    txid: Txid,
    proposal: Psbt,
    original: Psbt,
    next: SenderCheck,
    command: SenderCommand,
)
    requires
        sender_step(
            (SenderCheck::FindingSpend { metadata, txid, proposal }),
            SenderEvent::Spend(Some(original)),
            next,
            command,
        ),
    ensures
        next is Done,
        command is Write,
        command->Write_0.len() == 3,
        command->Write_0@[0] matches SessionWrite::DeleteSpend(deleted) && deleted@ == txid@,
        command->Write_0@[1] is StoreSpend,
        command->Write_0@[2] is UpdateMetadata,
        ({
            let stored = command->Write_0@[1]->StoreSpend_0@;
            let update = command->Write_0@[2]->UpdateMetadata_0@;
            &&& stored.unsigned_tx == proposal@.unsigned_tx
            &&& stored.outputs == proposal@.outputs
            &&& stored.other == proposal@.other
            &&& stored.inputs.len() == proposal@.inputs.len()
            &&& forall|i: int, j: int|
                0 <= i < proposal@.inputs.len() && #[trigger] spends_last(
                    original@,
                    j,
                    proposal@.unsigned_tx.input[i].previous_output,
                ) ==> differs_in_signatures_only(original@.inputs[j], #[trigger] stored.inputs[i])
            &&& forall|i: int|
                0 <= i < proposal@.inputs.len() && !spends(
                    original@,
                    proposal@.unsigned_tx.input[i].previous_output,
                ) ==> #[trigger] stored.inputs[i] == proposal@.inputs[i]
            &&& update.status == PayjoinStatus::Completed
            &&& update.maybe_psbt == Some(stored)
            &&& update.maybe_txid == Some(txid_of(proposal@.unsigned_tx))
            &&& update.maybe_bip21 == metadata@.maybe_bip21
        }),
{
    let done = command->Write_0@;
    assert(writes_view(done).len() == done.len());
    assert(writes_view(done)[0] == done[0]@);
    assert(writes_view(done)[1] == done[1]@);
    assert(writes_view(done)[2] == done[2]@);
    let before = proposal@;
    let stored = before.restored_from(original@);
    assert forall|i: int, j: int|
        0 <= i < before.inputs.len() && #[trigger] spends_last(
            original@,
            j,
            before.unsigned_tx.input[i].previous_output,
        ) implies differs_in_signatures_only(original@.inputs[j], #[trigger] stored.inputs[i]) by {
        law_own_inputs_are_restored_unsigned(before, original@, i, j);
    }
    assert forall|i: int|
        0 <= i < before.inputs.len() && !spends(
            original@,
            before.unsigned_tx.input[i].previous_output,
        ) implies #[trigger] stored.inputs[i] == before.inputs[i] by {
        law_foreign_inputs_are_left_alone(before, original@, i);
    }
}

/// A check takes every answer that there can be to what it asks, whatever is stored of the session:
/// every state of the log, and every outcome of posting and of polling. The only thing that is asked
/// of a PSBT is that it is complete.
pub proof fn law_sender_check_takes_every_answer(
    metadata: SessionMetadata,
    txid: Txid,
    proposal: Psbt,
    state: SenderState,
    posted: Result<(), String>,
    outcome: PollOutcome,
    spend: Option<Psbt>,
)
    ensures
        SenderCheck::Start(metadata).well_formed(),
        SenderCheck::Start(metadata).expects(SenderEvent::Begin),
        (state matches SenderState::ProposalReceived(psbt) ==> psbt@.well_formed())
            ==> SenderCheck::Replaying(metadata).expects(SenderEvent::Replayed(state)),
        SenderCheck::Posting(metadata).expects(SenderEvent::Posted(posted)),
        (outcome matches PollOutcome::Progress(psbt) ==> psbt@.well_formed())
            ==> SenderCheck::Polling(metadata).expects(SenderEvent::Polled(outcome)),
        (spend matches Some(psbt) ==> psbt@.well_formed()) ==> (SenderCheck::FindingSpend {
            metadata,
            txid,
            proposal,
        }).expects(SenderEvent::Spend(spend)),
{
}

} // verus!

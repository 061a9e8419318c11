//! The sending side of a payjoin that is kept as one record.
use vstd::prelude::*;

use crate::protocol::{check_pj_supported, parse_bip21, PayjoinUri};
use crate::protocol::{bip21_parsed, payjoin_uri, pj_supported};
use crate::psbt::{clone_optional_bytes, clone_origins, Psbt, Txid};
use crate::psbt::{InputView, PsbtView};
use crate::sessions::types::PayjoinStatus;
use crate::wire::txid_of;

verus! {

impl InputView {
    /// The same map with the witness script and the key derivations of `original`.
    pub open spec fn with_keys_of(self, original: InputView) -> InputView {
        InputView {
            witness_script: original.witness_script,
            bip32_derivation: original.bip32_derivation,
            ..self
        }
    }
}

impl PsbtView {
    /// This proposal with the witness scripts and the key derivations that `original` has at the
    /// same positions.
    pub open spec fn with_keys_of(self, original: PsbtView) -> PsbtView {
        PsbtView {
            inputs: Seq::new(
                self.inputs.len(),
                |i: int|
                    if i < original.inputs.len() {
                        self.inputs[i].with_keys_of(original.inputs[i])
                    } else {
                        self.inputs[i]
                    },
            ),
            ..self
        }
    }
}

/// The PSBT `restored` is `proposal` but for two fields of each input that `original` has as well:
/// the witness script and the key derivations of these are those of `original`.
pub open spec fn has_keys_restored(
    proposal: PsbtView,
    original: PsbtView,
    restored: PsbtView,
) -> bool {
    &&& restored.unsigned_tx == proposal.unsigned_tx
    &&& restored.outputs == proposal.outputs
    &&& restored.other == proposal.other
    &&& restored.inputs.len() == proposal.inputs.len()
    &&& forall|i: int|
        original.inputs.len() <= i < proposal.inputs.len() ==> #[trigger] restored.inputs[i]
            == proposal.inputs[i]
    &&& forall|i: int|
        0 <= i < proposal.inputs.len() && i < original.inputs.len() ==> {
            &&& (#[trigger] restored.inputs[i]).witness_script == original.inputs[i].witness_script
            &&& restored.inputs[i].bip32_derivation == original.inputs[i].bip32_derivation
            &&& restored.inputs[i].non_witness_utxo == proposal.inputs[i].non_witness_utxo
            &&& restored.inputs[i].witness_utxo == proposal.inputs[i].witness_utxo
            &&& restored.inputs[i].partial_sigs == proposal.inputs[i].partial_sigs
            &&& restored.inputs[i].final_script_sig == proposal.inputs[i].final_script_sig
            &&& restored.inputs[i].final_script_witness == proposal.inputs[i].final_script_witness
            &&& restored.inputs[i].other == proposal.inputs[i].other
        }
}

/// Puts the witness scripts and the key derivations of `original` back into the inputs of the
/// proposal: the peer's proposal lacks them, and the wallet needs them to sign.
pub fn restore_keys(proposal: &mut Psbt, original: &Psbt)
    requires
        original@.inputs.len() <= old(proposal)@.inputs.len(),
    ensures
        final(proposal)@ == old(proposal)@.with_keys_of(original@),
        has_keys_restored(old(proposal)@, original@, final(proposal)@),
{
    let ghost before = proposal@;
    let mut index: usize = 0;
    while index < original.inputs.len()
        invariant
            index <= original.inputs.len(),
            original.inputs.len() <= proposal.inputs.len(),
            proposal.inputs.len() == before.inputs.len(),
            proposal@.unsigned_tx == before.unsigned_tx,
            proposal@.outputs == before.outputs,
            proposal@.other == before.other,
            forall|k: int|
                0 <= k < index ==> (#[trigger] proposal.inputs@[k])@ == before.inputs[k].with_keys_of(
                    original@.inputs[k],
                ),
            forall|k: int|
                index <= k < before.inputs.len() ==> (#[trigger] proposal.inputs@[k])@
                    == before.inputs[k],
        decreases original.inputs.len() - index,
    {
        assert(original@.inputs[index as int] == original.inputs@[index as int]@);
        proposal.inputs[index].witness_script = clone_optional_bytes(
            &original.inputs[index].witness_script,
        );
        proposal.inputs[index].bip32_derivation = clone_origins(
            &original.inputs[index].bip32_derivation,
        );
        assert(proposal.inputs@[index as int]@ =~= before.inputs[index as int].with_keys_of(
            original@.inputs[index as int],
        ));
        index += 1;
    }
    assert(proposal@.inputs =~= before.with_keys_of(original@).inputs);
}

/// Reads the URI that a record was made for; `None` where it is not one of a payjoin.
pub fn record_uri(bip21: &str) -> (uri: Option<PayjoinUri>)
    ensures
        uri == payjoin_uri(bip21@),
        bip21_parsed(bip21@) is None ==> uri is None,
        bip21_parsed(bip21@) is Some ==> uri == pj_supported(bip21_parsed(bip21@)->0),
{
    match parse_bip21(bip21) {
        Some(uri) => check_pj_supported(uri),
        None => None,
    }
}

/// The record of a sender, as far as the check reads it.
#[derive(Debug)]
pub struct SenderRecord {
    /// The text of the URI that is paid.
    pub bip21: String,
    /// The id of the PSBT that is to be sent.
    pub txid: Txid,
    pub status: PayjoinStatus,
    /// Whether the record holds the sender of the protocol.
    pub has_sender: bool,
}

/// How far the check of one record has come.
#[derive(Debug)]
pub enum SenderCheck {
    Start(SenderRecord),
    /// The original PSBT is being posted for the first time.
    Posting(SenderRecord),
    /// It is being posted again, to ask for the proposal behind it.
    PostingAgain(SenderRecord),
    FindingSpend(SenderRecord),
    Getting { record: SenderRecord, original: Psbt },
    Done,
}

/// How the request for the receiver's proposal went.
#[derive(Debug)]
pub enum GetOutcome {
    /// There was no response to the request.
    RequestFailed,
    /// There is no proposal yet.
    Empty,
    /// The response was an error.
    Rejected,
    /// The receiver's proposal came.
    Proposal(Psbt),
}

/// What the world outside answers to a command.
#[derive(Debug)]
pub enum SenderEvent {
    Begin,
    /// Whether there was a response.
    Posted(bool),
    /// The PSBT that the wallet has under the id of the record.
    Spend(Psbt),
    Got(GetOutcome),
}

/// One change of what is stored.
#[derive(Debug)]
pub enum SenderWrite {
    /// Store this PSBT under its id.
    StoreSpend(Psbt),
    /// Delete the PSBT under this id.
    DeleteSpend(Txid),
    /// Store this status in the record of this id, with the sender that was built, or without one.
    UpdateStatus { txid: Txid, status: PayjoinStatus, with_sender: bool },
}

#[verifier::ext_equal]
pub ghost enum SenderWriteView {
    StoreSpend(PsbtView),
    DeleteSpend(Seq<u8>),
    UpdateStatus { txid: Seq<u8>, status: PayjoinStatus, with_sender: bool },
}

impl View for SenderWrite {
    type V = SenderWriteView;

    open spec fn view(&self) -> SenderWriteView {
        match *self {
            SenderWrite::StoreSpend(psbt) => SenderWriteView::StoreSpend(psbt@),
            SenderWrite::DeleteSpend(txid) => SenderWriteView::DeleteSpend(txid@),
            SenderWrite::UpdateStatus { txid, status, with_sender } => {
                SenderWriteView::UpdateStatus { txid: txid@, status, with_sender }
            },
        }
    }
}

pub open spec fn writes_view(writes: Seq<SenderWrite>) -> Seq<SenderWriteView> {
    writes.map_values(|write: SenderWrite| write@)
}

/// The PSBTs that the wallet has, by their ids, after these writes.
pub open spec fn spends_after(
    spends: Map<Seq<u8>, PsbtView>,
    writes: Seq<SenderWriteView>,
) -> Map<Seq<u8>, PsbtView>
    decreases writes.len(),
{
    if writes.len() == 0 {
        spends
    } else {
        let before = spends_after(spends, writes.drop_last());
        match writes.last() {
            SenderWriteView::StoreSpend(psbt) => before.insert(txid_of(psbt.unsigned_tx), psbt),
            SenderWriteView::DeleteSpend(txid) => before.remove(txid),
            SenderWriteView::UpdateStatus { .. } => before,
        }
    }
}

/// The write after which the receiver's proposal is waited for.
pub open spec fn waiting_writes(txid: Seq<u8>) -> Seq<SenderWriteView> {
    seq![
        SenderWriteView::UpdateStatus {
            txid,
            status: PayjoinStatus::WaitingReceiver,
            with_sender: true,
        },
    ]
}

/// The writes that put `psbt` in the place of the PSBT under `txid` and complete the record. The
/// new PSBT is stored before the old one is deleted.
pub open spec fn completing_writes(txid: Seq<u8>, psbt: PsbtView) -> Seq<SenderWriteView> {
    seq![
        SenderWriteView::StoreSpend(psbt),
        SenderWriteView::DeleteSpend(txid),
        SenderWriteView::UpdateStatus {
            txid,
            status: PayjoinStatus::Completed,
            with_sender: false,
        },
    ]
}

/// What is to be done in the world outside.
#[derive(Debug)]
pub enum SenderCommand {
    /// Build a sender of the wallet's PSBT under this id to this URI and post that PSBT.
    PostOriginal { txid: Txid, uri: PayjoinUri },
    /// Post the original PSBT with the sender that the record holds.
    PostAgain,
    /// Look up the PSBT that the wallet has under this id.
    FindSpend(Txid),
    /// Ask for the receiver's proposal.
    Get,
    /// Do these writes, the first one first. The check is over.
    Write(Vec<SenderWrite>),
    /// The URI of the record is not one of a payjoin. The check is over.
    Fail,
    /// The check is over.
    Finish,
}

impl SenderCheck {
    /// The event answers the last command. A proposal has at least the inputs of the original.
    pub open spec fn expects(self, event: SenderEvent) -> bool {
        match self {
            SenderCheck::Start(_) => event is Begin,
            SenderCheck::Posting(_) => event is Posted,
            SenderCheck::PostingAgain(_) => event is Posted,
            SenderCheck::FindingSpend(_) => event is Spend,
            SenderCheck::Getting { original, .. } => event matches SenderEvent::Got(outcome) && (
            outcome matches GetOutcome::Proposal(psbt) ==> original@.inputs.len()
                <= psbt@.inputs.len()),
            SenderCheck::Done => false,
        }
    }

    /// A record is only asked for while its status calls for it.
    pub open spec fn well_formed(self) -> bool {
        match self {
            SenderCheck::Posting(record) => record.status == PayjoinStatus::Pending,
            SenderCheck::PostingAgain(record)
            | SenderCheck::FindingSpend(record)
            | SenderCheck::Getting { record, .. } => {
                &&& record.status == PayjoinStatus::WaitingReceiver
                &&& record.has_sender
            },
            _ => true,
        }
    }

    /// How many more steps there can be.
    pub open spec fn rank(self) -> nat {
        match self {
            SenderCheck::Start(_) => 4,
            SenderCheck::Posting(_) => 1,
            SenderCheck::PostingAgain(_) => 3,
            SenderCheck::FindingSpend(_) => 2,
            SenderCheck::Getting { .. } => 1,
            SenderCheck::Done => 0,
        }
    }

    /// The record that is being checked.
    pub open spec fn record(self) -> Option<SenderRecord> {
        match self {
            SenderCheck::Start(record) => Some(record),
            SenderCheck::Posting(record) => Some(record),
            SenderCheck::PostingAgain(record) => Some(record),
            SenderCheck::FindingSpend(record) => Some(record),
            SenderCheck::Getting { record, .. } => Some(record),
            SenderCheck::Done => None,
        }
    }
}

/// The check of the record is over and nothing is to be stored.
pub open spec fn idle(next: SenderCheck, command: SenderCommand) -> bool {
    next is Done && command is Finish
}

/// The check of the record is over with these writes.
pub open spec fn writes(
    expected: Seq<SenderWriteView>,
    next: SenderCheck,
    command: SenderCommand,
) -> bool {
    &&& next is Done
    &&& command matches SenderCommand::Write(done)
    &&& writes_view(done@) == expected
}

/// What a record asks for whose PSBT has not been posted yet, and whose URI is read as `uri`.
pub open spec fn posting(
    record: SenderRecord,
    uri: Option<PayjoinUri>,
    next: SenderCheck,
    command: SenderCommand,
) -> bool {
    match uri {
        Some(uri) => {
            &&& next == SenderCheck::Posting(record)
            &&& command == SenderCommand::PostOriginal { txid: record.txid, uri }
        },
        None => next is Done && command is Fail,
    }
}

/// One step of the check of a record: from its state and an event to the next state and a
/// command.
pub open spec fn sender_step(
    check: SenderCheck,
    event: SenderEvent,
    next: SenderCheck,
    command: SenderCommand,
) -> bool {
    match (check, event) {
        (SenderCheck::Start(record), SenderEvent::Begin) => match record.status {
            PayjoinStatus::Pending => posting(record, payjoin_uri(record.bip21@), next, command),
            PayjoinStatus::WaitingReceiver => if record.has_sender {
                &&& next == SenderCheck::PostingAgain(record)
                &&& command is PostAgain
            } else {
                idle(next, command)
            },
            _ => idle(next, command),
        },
        (SenderCheck::Posting(record), SenderEvent::Posted(answered)) => if answered {
            writes(waiting_writes(record.txid@), next, command)
        } else {
            idle(next, command)
        },
        (SenderCheck::PostingAgain(record), SenderEvent::Posted(answered)) => if answered {
            &&& next == SenderCheck::FindingSpend(record)
            &&& command == SenderCommand::FindSpend(record.txid)
        } else {
            idle(next, command)
        },
        (SenderCheck::FindingSpend(record), SenderEvent::Spend(original)) => {
            &&& next == SenderCheck::Getting { record, original }
            &&& command is Get
        },
        (
            SenderCheck::Getting { record, original },
            SenderEvent::Got(GetOutcome::Proposal(proposal)),
        ) => writes(
            completing_writes(record.txid@, proposal@.with_keys_of(original@)),
            next,
            command,
        ),
        (SenderCheck::Getting { .. }, SenderEvent::Got(_)) => idle(next, command),
        _ => false,
    }
}

/// What a record asks for whose PSBT has not been posted yet: that it be posted, unless the URI
/// could not be read.
pub fn begin_posting(record: SenderRecord, uri: Option<PayjoinUri>) -> (result: (
    SenderCheck,
    SenderCommand,
))
    ensures
        posting(record, uri, result.0, result.1),
        uri matches Some(uri) ==> result.0 == SenderCheck::Posting(record),
        uri matches Some(uri) ==> result.1 == (SenderCommand::PostOriginal {
            txid: record.txid,
            uri,
        }),
        uri is None ==> result.0 is Done && result.1 is Fail,
{
    match uri {
        Some(uri) => {
            let txid = record.txid;
            (SenderCheck::Posting(record), SenderCommand::PostOriginal { txid, uri })
        },
        None => (SenderCheck::Done, SenderCommand::Fail),
    }
}

/// Stores that the receiver's proposal is waited for.
fn wait_for_receiver(txid: Txid) -> (result: (SenderCheck, SenderCommand))
    ensures
        writes(waiting_writes(txid@), result.0, result.1),
{
    let mut done: Vec<SenderWrite> = Vec::new();
    done.push(
        SenderWrite::UpdateStatus {
            txid,
            status: PayjoinStatus::WaitingReceiver,
            with_sender: true,
        },
    );
    assert(writes_view(done@) =~= waiting_writes(txid@));
    (SenderCheck::Done, SenderCommand::Write(done))
}

/// Puts the receiver's proposal, with the keys of the original, in the place of the original.
fn complete(txid: Txid, proposal: Psbt, original: &Psbt) -> (result: (SenderCheck, SenderCommand))
    requires
        original@.inputs.len() <= proposal@.inputs.len(),
    ensures
        writes(
            completing_writes(txid@, proposal@.with_keys_of(original@)),
            result.0,
            result.1,
        ),
{
    let mut psbt = proposal;
    restore_keys(&mut psbt, original);
    let ghost restored = psbt@;
    let mut done: Vec<SenderWrite> = Vec::new();
    done.push(SenderWrite::StoreSpend(psbt));
    done.push(SenderWrite::DeleteSpend(txid));
    done.push(
        SenderWrite::UpdateStatus { txid, status: PayjoinStatus::Completed, with_sender: false },
    );
    assert(writes_view(done@) =~= completing_writes(txid@, restored));
    (SenderCheck::Done, SenderCommand::Write(done))
}

/// One step of the check of a record.
pub fn payjoin_sender_check(check: SenderCheck, event: SenderEvent) -> (result: (
    SenderCheck,
    SenderCommand,
))
    requires
        check.expects(event),
    ensures
        sender_step(check, event, result.0, result.1),
{
    match (check, event) {
        (SenderCheck::Start(record), _) => match record.status {
            PayjoinStatus::Pending => {
                let uri = record_uri(record.bip21.as_str());
                begin_posting(record, uri)
            },
            PayjoinStatus::WaitingReceiver => {
                if record.has_sender {
                    (SenderCheck::PostingAgain(record), SenderCommand::PostAgain)
                } else {
                    (SenderCheck::Done, SenderCommand::Finish)
                }
            },
            _ => (SenderCheck::Done, SenderCommand::Finish),
        },
        (SenderCheck::Posting(record), SenderEvent::Posted(true)) => wait_for_receiver(record.txid),
        (SenderCheck::PostingAgain(record), SenderEvent::Posted(true)) => {
            let txid = record.txid;
            (SenderCheck::FindingSpend(record), SenderCommand::FindSpend(txid))
        },
        (SenderCheck::FindingSpend(record), SenderEvent::Spend(original)) => (
            SenderCheck::Getting { record, original },
            SenderCommand::Get,
        ),
        (
            SenderCheck::Getting { record, original },
            SenderEvent::Got(GetOutcome::Proposal(proposal)),
        ) => complete(record.txid, proposal, &original),
        _ => (SenderCheck::Done, SenderCommand::Finish),
    }
}

/// A check keeps its invariant and comes to an end: every step brings it closer to being done,
/// it is done exactly if nothing further is asked of the world outside, and until then it speaks
/// of the same record.
pub proof fn law_sender_check_ends(
    check: SenderCheck,
    event: SenderEvent,
    next: SenderCheck,
    command: SenderCommand,
)
    requires
        check.well_formed(),
        sender_step(check, event, next, command),
    ensures
        next.well_formed(),
        next.rank() < check.rank(),
        next is Done <==> command is Write || command is Fail || command is Finish,
        next is Done || next.record() == check.record(),
{
}

/// The status of a record only ever moves from pending to waiting for the receiver, and from
/// there to completed, and the PSBT that is then replaced is the one that was sent.
pub proof fn law_sender_status_moves_forward(
    check: SenderCheck,
    event: SenderEvent,
    next: SenderCheck,
    done: Vec<SenderWrite>,
)
    requires
        check.well_formed(),
        sender_step(check, event, next, SenderCommand::Write(done)),
    ensures
        check.record() is Some,
        match check.record()->0.status {
            PayjoinStatus::Pending => writes_view(done@) == waiting_writes(
                check.record()->0.txid@,
            ),
            PayjoinStatus::WaitingReceiver => exists|psbt: PsbtView|
                writes_view(done@) == #[trigger] completing_writes(
                    check.record()->0.txid@,
                    psbt,
                ),
            _ => false,
        },
{
    if let SenderCheck::Getting { record, original } = check {
        let proposal = event->Got_0->Proposal_0;
        assert(writes_view(done@) == completing_writes(
            record.txid@,
            proposal@.with_keys_of(original@),
        ));
    }
}

/// Completing a record puts the new PSBT in the place of the old one and touches no other. If both
/// have the same id, the new one is gone as well.
pub proof fn law_completion_replaces_the_original(
    spends: Map<Seq<u8>, PsbtView>,
    txid: Seq<u8>,
    psbt: PsbtView,
)
    ensures
        ({
            let id = txid_of(psbt.unsigned_tx);
            let after = spends_after(spends, completing_writes(txid, psbt));
            &&& after == spends.insert(id, psbt).remove(txid)
            &&& id != txid ==> after.dom().contains(id) && after[id] == psbt
            &&& !after.dom().contains(txid)
        }),
{
    let all = completing_writes(txid, psbt);
    reveal_with_fuel(spends_after, 4);
    assert(all.drop_last().drop_last().drop_last() =~= Seq::empty());
}

/// Restoring keys touches nothing but two fields of the inputs that the original has as well: the
/// proposed transaction stays as it is, and so do the signatures and further inputs.
pub proof fn law_restoring_keys_keeps_the_rest(proposal: PsbtView, original: PsbtView, i: int)
    requires
        0 <= i < proposal.inputs.len(),
    ensures
        ({
            let restored = proposal.with_keys_of(original);
            &&& restored.unsigned_tx == proposal.unsigned_tx
            &&& restored.outputs == proposal.outputs
            &&& restored.other == proposal.other
            &&& restored.inputs.len() == proposal.inputs.len()
            &&& restored.inputs[i].partial_sigs == proposal.inputs[i].partial_sigs
            &&& restored.inputs[i].non_witness_utxo == proposal.inputs[i].non_witness_utxo
            &&& restored.inputs[i].witness_utxo == proposal.inputs[i].witness_utxo
            &&& restored.inputs[i].final_script_sig == proposal.inputs[i].final_script_sig
            &&& restored.inputs[i].final_script_witness == proposal.inputs[i].final_script_witness
            &&& restored.inputs[i].other == proposal.inputs[i].other
            &&& restored.inputs[i].with_keys_of(proposal.inputs[i]) == proposal.inputs[i]
            &&& i >= original.inputs.len() ==> restored.inputs[i] == proposal.inputs[i]
            &&& i < original.inputs.len() ==> restored.inputs[i].witness_script
                == original.inputs[i].witness_script && restored.inputs[i].bip32_derivation
                == original.inputs[i].bip32_derivation
        }),
{
}

/// Restoring keys a second time changes nothing.
pub proof fn law_restoring_keys_is_idempotent(proposal: PsbtView, original: PsbtView)
    ensures
        proposal.with_keys_of(original).with_keys_of(original) == proposal.with_keys_of(original),
{
    let once = proposal.with_keys_of(original);
    assert(once.with_keys_of(original).inputs =~= once.inputs);
}

/// A text stands for a URI to which a payjoin can be sent exactly if it can be read and has payjoin
/// parameters.
pub proof fn law_uri_of_a_text(bip21: Seq<char>)
    ensures
        bip21_parsed(bip21) is None ==> payjoin_uri(bip21) is None,
        bip21_parsed(bip21) is Some ==> payjoin_uri(bip21) == pj_supported(
            bip21_parsed(bip21)->0,
        ),
{
}

/// A pending record is posted to the URI that its text stands for, and fails if it stands for none.
/// One that waits for its receiver is posted again with the sender that it holds, and left alone if
/// it holds none. So is every other record.
pub proof fn law_record_is_posted_until_completed(
    record: SenderRecord,
    next: SenderCheck,
    command: SenderCommand,
)
    requires
        sender_step(SenderCheck::Start(record), SenderEvent::Begin, next, command),
    ensures
        record.status == PayjoinStatus::Pending ==> (match payjoin_uri(record.bip21@) {
            Some(uri) => next == SenderCheck::Posting(record) && command == (
            SenderCommand::PostOriginal { txid: record.txid, uri }),
            None => next is Done && command is Fail,
        }),
        record.status == PayjoinStatus::WaitingReceiver && record.has_sender ==> next
            == SenderCheck::PostingAgain(record) && command is PostAgain,
        record.status == PayjoinStatus::WaitingReceiver && !record.has_sender ==> next is Done
            && command is Finish,
        record.status != PayjoinStatus::Pending && record.status != PayjoinStatus::WaitingReceiver
            ==> next is Done && command is Finish,
{
}

/// Once there was a response to the original PSBT, a pending record waits for its receiver with the
/// sender that was built. Without a response nothing is stored.
pub proof fn law_posted_record_waits(
    record: SenderRecord,
    answered: bool,
    next: SenderCheck,
    command: SenderCommand,
)
    requires
        sender_step(SenderCheck::Posting(record), SenderEvent::Posted(answered), next, command),
    ensures
        next is Done,
        !answered ==> command is Finish,
        answered ==> {
            &&& command is Write
            &&& command->Write_0.len() == 1
            &&& command->Write_0@[0] matches SenderWrite::UpdateStatus { txid, status, with_sender }
            &&& txid@ == record.txid@
            &&& status == PayjoinStatus::WaitingReceiver
            &&& with_sender
        },
{
    if let SenderCommand::Write(done) = command {
        assert(writes_view(done@).len() == done.len());
        assert(writes_view(done@)[0] == done@[0]@);
    }
}

/// Once there was a response to posting again, the PSBT that was sent is looked up under the id of
/// the record. Without a response nothing is done.
pub proof fn law_posted_psbt_is_looked_up(
    record: SenderRecord,
    answered: bool,
    next: SenderCheck,
    command: SenderCommand,
)
    requires
        sender_step(
            SenderCheck::PostingAgain(record),
            SenderEvent::Posted(answered),
            next,
            command,
        ),
    ensures
        answered ==> next == SenderCheck::FindingSpend(record),
        answered ==> command == SenderCommand::FindSpend(record.txid),
        !answered ==> next is Done && command is Finish,
{
}

/// Once the PSBT that was sent is at hand, the proposal is asked for.
pub proof fn law_proposal_is_asked_for(
    record: SenderRecord,
    original: Psbt,
    next: SenderCheck,
    command: SenderCommand,
)
    requires
        sender_step(
            SenderCheck::FindingSpend(record),
            SenderEvent::Spend(original),
            next,
            command,
        ),
    ensures
        next == (SenderCheck::Getting { record, original }),
        command is Get,
{
}

/// What is stored when the proposal has come: first the proposal with the keys of the PSBT that was
/// sent, then that PSBT is deleted, then the record is completed without a sender. As long as no
/// proposal has come nothing is stored.
pub proof fn law_completed_record_stores_the_proposal(
    record: SenderRecord,
    original: Psbt,
    outcome: GetOutcome,
    next: SenderCheck,
    command: SenderCommand,
)
    requires
        sender_step(
            (SenderCheck::Getting { record, original }),
            SenderEvent::Got(outcome),
            next,
            command,
        ),
    ensures
        next is Done,
        !(outcome is Proposal) ==> command is Finish,
        outcome matches GetOutcome::Proposal(proposal) ==> {
            &&& command is Write
            &&& command->Write_0.len() == 3
            &&& command->Write_0@[0] matches SenderWrite::StoreSpend(stored)
            &&& has_keys_restored(proposal@, original@, stored@)
            &&& command->Write_0@[1] matches SenderWrite::DeleteSpend(deleted)
            &&& deleted@ == record.txid@
            &&& command->Write_0@[2] matches SenderWrite::UpdateStatus { txid, status, with_sender }
            &&& txid@ == record.txid@
            &&& status == PayjoinStatus::Completed
            &&& !with_sender
        },
{
    if let SenderCommand::Write(done) = command {
        assert(writes_view(done@).len() == done.len());
        assert(writes_view(done@)[0] == done@[0]@);
        assert(writes_view(done@)[1] == done@[1]@);
        assert(writes_view(done@)[2] == done@[2]@);
    }
}

/// A check takes every answer that there can be to what it asks, whatever the record holds. The only
/// thing that is asked of a proposal is that it has at least the inputs of the PSBT that was sent.
pub proof fn law_sender_check_takes_every_answer(
    record: SenderRecord,
    answered: bool,
    original: Psbt,
    outcome: GetOutcome,
)
    ensures
        SenderCheck::Start(record).expects(SenderEvent::Begin),
        SenderCheck::Posting(record).expects(SenderEvent::Posted(answered)),
        SenderCheck::PostingAgain(record).expects(SenderEvent::Posted(answered)),
        SenderCheck::FindingSpend(record).expects(SenderEvent::Spend(original)),
        (outcome matches GetOutcome::Proposal(psbt) ==> original@.inputs.len()
            <= psbt@.inputs.len()) ==> (SenderCheck::Getting { record, original }).expects(
            SenderEvent::Got(outcome),
        ),
{
}

} // verus!

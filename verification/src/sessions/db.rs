//! What is stored of a payjoin session: an append-only log of events, and the metadata that the
//! wallet shows.
use vstd::prelude::*;
use vstd::string::*;

use ::payjoin::receive::v2::SessionEvent as ReceiverSessionEvent;
use ::payjoin::send::v2::SessionEvent as SenderSessionEvent;

use crate::psbt::{Psbt, Txid};
use crate::psbt::{psbt_view, PsbtView};
use crate::sessions::types::PayjoinStatus;
use crate::wire::txid_of;

verus! {

#[verifier::external_type_specification]
#[verifier::external_body]
pub struct ExReceiverSessionEvent(ReceiverSessionEvent);

#[verifier::external_type_specification]
#[verifier::external_body]
pub struct ExSenderSessionEvent(SenderSessionEvent);

#[verifier::external_type_specification]
#[verifier::external_body]
pub struct ExJsonError(serde_json::Error);

/// The number under which a session is stored.
#[derive(Debug, Clone, Copy, PartialEq, Eq, Structural)]
pub struct SessionId(pub i64);

impl SessionId {
    pub fn new(id: i64) -> (session_id: Self)
        ensures
            session_id.0 == id,
    {
        Self(id)
    }
}

/// Why the events of a session could not be stored or read back.
#[derive(Debug)]
pub enum PersisterError {
    Serialize(serde_json::Error),
    Deserialize(serde_json::Error),
    NotFound(String),
}

/// What a `serde_json::Error` says of itself.
pub uninterp spec fn json_error_text(error: serde_json::Error) -> Seq<char>;

/// The JSON that `serde_json::to_vec` writes for an event of a receiver, or its error.
pub uninterp spec fn receiver_event_json(event: ReceiverSessionEvent) -> Result<Seq<u8>, serde_json::Error>;

/// The event of a receiver that `serde_json::from_slice` reads from JSON, or its error.
pub uninterp spec fn receiver_event_read(json: Seq<u8>) -> Result<ReceiverSessionEvent, serde_json::Error>;

/// The JSON that `serde_json::to_vec` writes for an event of a sender, or its error.
pub uninterp spec fn sender_event_json(event: SenderSessionEvent) -> Result<Seq<u8>, serde_json::Error>;

/// The event of a sender that `serde_json::from_slice` reads from JSON, or its error.
pub uninterp spec fn sender_event_read(json: Seq<u8>) -> Result<SenderSessionEvent, serde_json::Error>;

pub open spec fn json_view(json: Result<Vec<u8>, serde_json::Error>) -> Result<Seq<u8>, serde_json::Error> {
    match json {
        Ok(bytes) => Ok(bytes@),
        Err(error) => Err(error),
    }
}

/// Prints a `serde_json::Error` with its `Display`. The text is a function of the error.
#[verifier::external_body]
fn json_error_to_string(error: &serde_json::Error) -> (text: String)
    ensures
        text@ == json_error_text(*error),
{
    error.to_string()
}

/// Calls `serde_json::to_vec` on an event of a receiver. The outcome is a function of the event.
#[verifier::external_body]
fn receiver_event_to_vec(event: &ReceiverSessionEvent) -> (json: Result<Vec<u8>, serde_json::Error>)
    ensures
        json_view(json) == receiver_event_json(*event),
{
    serde_json::to_vec(event)
}

/// Calls `serde_json::from_slice` for an event of a receiver. The outcome is a function of the
/// bytes.
#[verifier::external_body]
fn receiver_event_from_slice(json: &Vec<u8>) -> (event: Result<ReceiverSessionEvent, serde_json::Error>)
    ensures
        event == receiver_event_read(json@),
{
    serde_json::from_slice(json)
}

/// Calls `serde_json::to_vec` on an event of a sender. The outcome is a function of the event.
#[verifier::external_body]
fn sender_event_to_vec(event: &SenderSessionEvent) -> (json: Result<Vec<u8>, serde_json::Error>)
    ensures
        json_view(json) == sender_event_json(*event),
{
    serde_json::to_vec(event)
}

/// Calls `serde_json::from_slice` for an event of a sender. The outcome is a function of the
/// bytes.
#[verifier::external_body]
fn sender_event_from_slice(json: &Vec<u8>) -> (event: Result<SenderSessionEvent, serde_json::Error>)
    ensures
        event == sender_event_read(json@),
{
    serde_json::from_slice(json)
}

impl PersisterError {
    /// The text of the error.
    pub open spec fn text(self) -> Seq<char> {
        match self {
            PersisterError::Serialize(error) => "Serialization failed: "@ + json_error_text(error),
            PersisterError::Deserialize(error) => "Deserialization failed: "@ + json_error_text(error),
            PersisterError::NotFound(key) => "Key not found: "@ + key@,
        }
    }

    /// Prints the error.
    pub fn to_string(&self) -> (text: String)
        ensures
            text@ == self.text(),
    {
        match self {
            PersisterError::Serialize(error) => {
                let cause = json_error_to_string(error);
                error_text("Serialization failed: ", cause.as_str())
            },
            PersisterError::Deserialize(error) => {
                let cause = json_error_to_string(error);
                error_text("Deserialization failed: ", cause.as_str())
            },
            PersisterError::NotFound(key) => error_text("Key not found: ", key.as_str()),
        }
    }
}

/// A heading and, behind it, a cause.
pub(crate) fn error_text(heading: &str, cause: &str) -> (text: String)
    ensures
        text@ == heading@ + cause@,
{
    let mut text = String::from_str(heading);
    text.append(cause);
    text
}

/// An entry to be appended to the log of a session.
#[derive(Debug)]
pub struct EventRecord {
    pub session_id: SessionId,
    pub event: Vec<u8>,
}

/// The outcome of reading a whole log with `read`: all its events, in the order in which they
/// were stored, or the error of the first entry that cannot be read.
pub open spec fn log_read<E>(
    log: Seq<Seq<u8>>,
    read: spec_fn(Seq<u8>) -> Result<E, serde_json::Error>,
    outcome: Result<Seq<E>, serde_json::Error>,
) -> bool {
    match outcome {
        Ok(events) => {
            &&& events.len() == log.len()
            &&& forall|i: int| 0 <= i < log.len() ==> read(#[trigger] log[i]) == Ok::<E, serde_json::Error>(events[i])
        },
        Err(error) => exists|i: int|
            #![trigger log[i]]
            {
                &&& 0 <= i < log.len()
                &&& read(log[i]) == Err::<E, serde_json::Error>(error)
                &&& forall|j: int| 0 <= j < i ==> read(#[trigger] log[j]) is Ok
            },
    }
}

pub open spec fn log_view(log: Seq<Vec<u8>>) -> Seq<Seq<u8>> {
    log.map_values(|entry: Vec<u8>| entry@)
}

pub open spec fn loaded_view<E>(loaded: Result<Vec<E>, PersisterError>) -> Result<Seq<E>, serde_json::Error>
    recommends
        loaded is Ok || loaded->Err_0 is Deserialize,
{
    match loaded {
        Ok(events) => Ok(events@),
        Err(error) => Err(error->Deserialize_0),
    }
}

/// The session of a receiver, as far as its storage is concerned.
#[derive(Debug, Clone, Copy)]
pub struct ReceiverPersister {
    pub session_id: SessionId,
}

impl ReceiverPersister {
    /// The session that the database has just been told to keep under `session_id`.
    pub fn new(session_id: i64) -> (persister: Self)
        ensures
            persister.session_id == SessionId(session_id),
    {
        Self { session_id: SessionId(session_id) }
    }

    /// A session that is already known.
    pub fn from_id(id: SessionId) -> (persister: Self)
        ensures
            persister.session_id == id,
    {
        Self { session_id: id }
    }

    /// The entry that stores `event` in the log of this session.
    pub fn save_event(&self, event: &ReceiverSessionEvent) -> (record: Result<EventRecord, PersisterError>)
        ensures
            match record {
                Ok(record) => record.session_id == self.session_id && receiver_event_json(*event)
                    == Ok::<Seq<u8>, serde_json::Error>(record.event@),
                Err(PersisterError::Serialize(error)) => receiver_event_json(*event) == Err::<
                    Seq<u8>,
                    serde_json::Error,
                >(error),
                Err(_) => false,
            },
    {
        match receiver_event_to_vec(event) {
            Ok(event) => Ok(EventRecord { session_id: self.session_id, event }),
            Err(error) => Err(PersisterError::Serialize(error)),
        }
    }

    /// Reads the events of this session from its log.
    pub fn load(&self, log: Vec<Vec<u8>>) -> (events: Result<Vec<ReceiverSessionEvent>, PersisterError>)
        ensures
            events matches Err(error) ==> error is Deserialize,
            log_read(
                log_view(log@),
                |json: Seq<u8>| receiver_event_read(json),
                loaded_view(events),
            ),
            events is Ok <==> forall|i: int|
                0 <= i < log.len() ==> receiver_event_read((#[trigger] log@[i])@) is Ok,
            events matches Ok(read) ==> read.len() == log.len() && forall|i: int|
                0 <= i < log.len() ==> receiver_event_read((#[trigger] log@[i])@) == Ok::<
                    ReceiverSessionEvent,
                    serde_json::Error,
                >(read@[i]),
            events matches Err(PersisterError::Deserialize(error)) ==> exists|i: int|
                0 <= i < log.len() && receiver_event_read((#[trigger] log@[i])@) == Err::<
                    ReceiverSessionEvent,
                    serde_json::Error,
                >(error) && forall|j: int|
                    0 <= j < i ==> receiver_event_read((#[trigger] log@[j])@) is Ok,
    {
        let ghost entries = log_view(log@);
        let mut events: Vec<ReceiverSessionEvent> = Vec::new();
        let mut i: usize = 0;
        while i < log.len()
            invariant
                i <= log.len(),
                events.len() == i,
                entries == log_view(log@),
                forall|k: int| 0 <= k < i ==> receiver_event_read(#[trigger] entries[k]) == Ok::<
                    ReceiverSessionEvent,
                    serde_json::Error,
                >(events@[k]),
                forall|k: int| 0 <= k < i ==> receiver_event_read((#[trigger] log@[k])@) == Ok::<
                    ReceiverSessionEvent,
                    serde_json::Error,
                >(events@[k]),
            decreases log.len() - i,
        {
            assert(entries[i as int] == log@[i as int]@);
            match receiver_event_from_slice(&log[i]) {
                Ok(event) => events.push(event),
                Err(error) => {
                    return Err(PersisterError::Deserialize(error));
                },
            }
            i += 1;
        }
        Ok(events)
    }

    /// The session whose completion is to be recorded when this session is closed.
    pub fn close(&self) -> (session_id: SessionId)
        ensures
            session_id == self.session_id,
    {
        self.session_id
    }
}

/// The session of a sender, as far as its storage is concerned.
#[derive(Debug, Clone, Copy)]
pub struct SenderPersister {
    pub session_id: SessionId,
}

impl SenderPersister {
    /// The session that the database has just been told to keep under `session_id`.
    pub fn new(session_id: i64) -> (persister: Self)
        ensures
            persister.session_id == SessionId(session_id),
    {
        Self { session_id: SessionId(session_id) }
    }

    /// A session that is already known.
    pub fn from_id(id: SessionId) -> (persister: Self)
        ensures
            persister.session_id == id,
    {
        Self { session_id: id }
    }

    /// The entry that stores `event` in the log of this session.
    pub fn save_event(&self, event: &SenderSessionEvent) -> (record: Result<EventRecord, PersisterError>)
        ensures
            match record {
                Ok(record) => record.session_id == self.session_id && sender_event_json(*event)
                    == Ok::<Seq<u8>, serde_json::Error>(record.event@),
                Err(PersisterError::Serialize(error)) => sender_event_json(*event) == Err::<
                    Seq<u8>,
                    serde_json::Error,
                >(error),
                Err(_) => false,
            },
    {
        match sender_event_to_vec(event) {
            Ok(event) => Ok(EventRecord { session_id: self.session_id, event }),
            Err(error) => Err(PersisterError::Serialize(error)),
        }
    }

    /// Reads the events of this session from its log.
    pub fn load(&self, log: Vec<Vec<u8>>) -> (events: Result<Vec<SenderSessionEvent>, PersisterError>)
        ensures
            events matches Err(error) ==> error is Deserialize,
            log_read(
                log_view(log@),
                |json: Seq<u8>| sender_event_read(json),
                loaded_view(events),
            ),
            events is Ok <==> forall|i: int|
                0 <= i < log.len() ==> sender_event_read((#[trigger] log@[i])@) is Ok,
            events matches Ok(read) ==> read.len() == log.len() && forall|i: int|
                0 <= i < log.len() ==> sender_event_read((#[trigger] log@[i])@) == Ok::<
                    SenderSessionEvent,
                    serde_json::Error,
                >(read@[i]),
            events matches Err(PersisterError::Deserialize(error)) ==> exists|i: int|
                0 <= i < log.len() && sender_event_read((#[trigger] log@[i])@) == Err::<
                    SenderSessionEvent,
                    serde_json::Error,
                >(error) && forall|j: int|
                    0 <= j < i ==> sender_event_read((#[trigger] log@[j])@) is Ok,
    {
        let ghost entries = log_view(log@);
        let mut events: Vec<SenderSessionEvent> = Vec::new();
        let mut i: usize = 0;
        while i < log.len()
            invariant
                i <= log.len(),
                events.len() == i,
                entries == log_view(log@),
                forall|k: int| 0 <= k < i ==> sender_event_read(#[trigger] entries[k]) == Ok::<
                    SenderSessionEvent,
                    serde_json::Error,
                >(events@[k]),
                forall|k: int| 0 <= k < i ==> sender_event_read((#[trigger] log@[k])@) == Ok::<
                    SenderSessionEvent,
                    serde_json::Error,
                >(events@[k]),
            decreases log.len() - i,
        {
            assert(entries[i as int] == log@[i as int]@);
            match sender_event_from_slice(&log[i]) {
                Ok(event) => events.push(event),
                Err(error) => {
                    return Err(PersisterError::Deserialize(error));
                },
            }
            i += 1;
        }
        Ok(events)
    }

    /// The session whose completion is to be recorded when this session is closed.
    pub fn close(&self) -> (session_id: SessionId)
        ensures
            session_id == self.session_id,
    {
        self.session_id
    }
}

/// Reading a log has exactly one outcome.
pub proof fn law_log_read_is_a_function<E>(
    log: Seq<Seq<u8>>,
    read: spec_fn(Seq<u8>) -> Result<E, serde_json::Error>,
    a: Result<Seq<E>, serde_json::Error>,
    b: Result<Seq<E>, serde_json::Error>,
)
    requires
        log_read(log, read, a),
        log_read(log, read, b),
    ensures
        a == b,
{
    match (a, b) {
        (Ok(x), Ok(y)) => {
            assert forall|i: int| 0 <= i < x.len() implies x[i] == y[i] by {
                assert(read(log[i]) == Ok::<E, serde_json::Error>(x[i]));
            }
            assert(x =~= y);
        },
        (Err(x), Err(y)) => {
            let i = choose|i: int|
                #![trigger log[i]]
                0 <= i < log.len() && read(log[i]) == Err::<E, serde_json::Error>(x) && forall|j: int|
                    0 <= j < i ==> read(#[trigger] log[j]) is Ok;
            let k = choose|k: int|
                #![trigger log[k]]
                0 <= k < log.len() && read(log[k]) == Err::<E, serde_json::Error>(y) && forall|j: int|
                    0 <= j < k ==> read(#[trigger] log[j]) is Ok;
            assert(i == k);
        },
        (Ok(_), Err(y)) => {
            let k = choose|k: int|
                #![trigger log[k]]
                0 <= k < log.len() && read(log[k]) == Err::<E, serde_json::Error>(y);
            assert(read(log[k]) is Ok);
        },
        (Err(x), Ok(_)) => {
            let k = choose|k: int|
                #![trigger log[k]]
                0 <= k < log.len() && read(log[k]) == Err::<E, serde_json::Error>(x);
            assert(read(log[k]) is Ok);
        },
    }
}

/// A log gives back the events that were stored in it, in the order in which they were stored,
/// if each of them is read from the entry that was written for it.
pub proof fn law_log_gives_back_what_was_stored<E>(
    events: Seq<E>,
    write: spec_fn(E) -> Result<Seq<u8>, serde_json::Error>,
    read: spec_fn(Seq<u8>) -> Result<E, serde_json::Error>,
    outcome: Result<Seq<E>, serde_json::Error>,
)
    requires
        forall|i: int|
            0 <= i < events.len() ==> write(#[trigger] events[i]) is Ok && read(
                write(events[i])->Ok_0,
            ) == Ok::<E, serde_json::Error>(events[i]),
        log_read(events.map_values(|event: E| write(event)->Ok_0), read, outcome),
    ensures
        outcome == Ok::<Seq<E>, serde_json::Error>(events),
{
    let log = events.map_values(|event: E| write(event)->Ok_0);
    assert forall|i: int| 0 <= i < log.len() implies read(#[trigger] log[i]) == Ok::<E, serde_json::Error>(
        events[i],
    ) by {
        assert(write(events[i]) is Ok);
    }
    law_log_read_is_a_function(log, read, outcome, Ok(events));
}

/// Storing one more event leaves what is read before it as it was: the longer log is read as the
/// events of the shorter one and the new event.
pub proof fn law_append_extends_the_log<E>(
    log: Seq<Seq<u8>>,
    entry: Seq<u8>,
    read: spec_fn(Seq<u8>) -> Result<E, serde_json::Error>,
    events: Seq<E>,
    event: E,
)
    requires
        log_read(log, read, Ok::<Seq<E>, serde_json::Error>(events)),
        read(entry) == Ok::<E, serde_json::Error>(event),
    ensures
        log_read(log.push(entry), read, Ok::<Seq<E>, serde_json::Error>(events.push(event))),
{
    assert forall|i: int| 0 <= i < log.push(entry).len() implies read(#[trigger] log.push(entry)[i])
        == Ok::<E, serde_json::Error>(events.push(event)[i]) by {
        if i < log.len() {
            assert(read(log[i]) == Ok::<E, serde_json::Error>(events[i]));
        }
    }
}

/// The first entry that cannot be read decides: its error is what comes of reading the log,
/// whatever stands behind it, and without such an entry there is no error.
pub proof fn law_first_unreadable_entry_decides<E>(
    log: Seq<Seq<u8>>,
    read: spec_fn(Seq<u8>) -> Result<E, serde_json::Error>,
    outcome: Result<Seq<E>, serde_json::Error>,
    i: int,
)
    requires
        log_read(log, read, outcome),
        0 <= i < log.len(),
        forall|j: int| 0 <= j < i ==> read(#[trigger] log[j]) is Ok,
    ensures
        read(log[i]) is Err ==> outcome is Err,
        read(log[i]) is Err ==> outcome->Err_0 == read(log[i])->Err_0,
        outcome is Ok ==> outcome->Ok_0.len() == log.len(),
        outcome is Ok ==> read(log[i]) == Ok::<E, serde_json::Error>(outcome->Ok_0[i]),
{
    if read(log[i]) is Err {
        assert(log_read(log, read, Err::<Seq<E>, serde_json::Error>(read(log[i])->Err_0)));
        law_log_read_is_a_function(
            log,
            read,
            outcome,
            Err::<Seq<E>, serde_json::Error>(read(log[i])->Err_0),
        );
    }
}

/// The text of an error names what failed, and behind it the cause.
pub proof fn law_error_texts(error: serde_json::Error, key: String)
    ensures
        PersisterError::Serialize(error).text() == "Serialization failed: "@ + json_error_text(error),
        PersisterError::Deserialize(error).text() == "Deserialization failed: "@ + json_error_text(
            error,
        ),
        PersisterError::NotFound(key).text() == "Key not found: "@ + key@,
{
}

/// What is stored of a session besides its log.
#[derive(Debug)]
pub struct SessionMetadata {
    pub status: PayjoinStatus,
    pub maybe_txid: Option<Txid>,
    pub maybe_psbt: Option<Psbt>,
    pub maybe_bip21: Option<String>,
}

#[verifier::ext_equal]
pub ghost struct SessionMetadataView {
    pub status: PayjoinStatus,
    pub maybe_txid: Option<Seq<u8>>,
    pub maybe_psbt: Option<PsbtView>,
    pub maybe_bip21: Option<Seq<char>>,
}

impl View for SessionMetadata {
    type V = SessionMetadataView;

    open spec fn view(&self) -> SessionMetadataView {
        SessionMetadataView {
            status: self.status,
            maybe_txid: match self.maybe_txid {
                Some(txid) => Some(txid@),
                None => None,
            },
            maybe_psbt: psbt_view(self.maybe_psbt),
            maybe_bip21: match self.maybe_bip21 {
                Some(bip21) => Some(bip21@),
                None => None,
            },
        }
    }
}

/// A change to what is stored.
#[derive(Debug)]
pub enum SessionWrite {
    /// Delete the PSBT that the wallet has under this id.
    DeleteSpend(Txid),
    /// Store this PSBT under the id of its transaction.
    StoreSpend(Psbt),
    /// Put this in place of the metadata of the session.
    UpdateMetadata(SessionMetadata),
}

pub ghost enum SessionWriteView {
    DeleteSpend(Seq<u8>),
    StoreSpend(PsbtView),
    UpdateMetadata(SessionMetadataView),
}

impl View for SessionWrite {
    type V = SessionWriteView;

    open spec fn view(&self) -> SessionWriteView {
        match *self {
            SessionWrite::DeleteSpend(txid) => SessionWriteView::DeleteSpend(txid@),
            SessionWrite::StoreSpend(psbt) => SessionWriteView::StoreSpend(psbt@),
            SessionWrite::UpdateMetadata(metadata) => SessionWriteView::UpdateMetadata(metadata@),
        }
    }
}

pub open spec fn writes_view(writes: Seq<SessionWrite>) -> Seq<SessionWriteView> {
    writes.map_values(|write: SessionWrite| write@)
}

/// The view of metadata holds all of it.
pub proof fn law_metadata_view(metadata: SessionMetadata)
    ensures
        metadata@.status == metadata.status,
        metadata@.maybe_txid is Some <==> metadata.maybe_txid is Some,
        metadata.maybe_txid matches Some(txid) ==> metadata@.maybe_txid == Some(txid@),
        metadata@.maybe_psbt is Some <==> metadata.maybe_psbt is Some,
        metadata.maybe_psbt matches Some(psbt) ==> metadata@.maybe_psbt == Some(psbt@),
        metadata@.maybe_bip21 is Some <==> metadata.maybe_bip21 is Some,
        metadata.maybe_bip21 matches Some(bip21) ==> metadata@.maybe_bip21 == Some(bip21@),
{
}

/// The view of a list of writes has each of them, in order, with what it writes.
pub proof fn law_writes_view(writes: Seq<SessionWrite>, i: int)
    requires
        0 <= i < writes.len(),
    ensures
        writes_view(writes).len() == writes.len(),
        writes[i] matches SessionWrite::DeleteSpend(txid) ==> writes_view(writes)[i]
            == SessionWriteView::DeleteSpend(txid@),
        writes[i] matches SessionWrite::StoreSpend(psbt) ==> writes_view(writes)[i]
            == SessionWriteView::StoreSpend(psbt@),
        writes[i] matches SessionWrite::UpdateMetadata(metadata) ==> writes_view(writes)[i]
            == SessionWriteView::UpdateMetadata(metadata@),
{
}

/// The PSBTs of the wallet, by their ids, after these writes, the first one first.
pub open spec fn spends_after(
    spends: Map<Seq<u8>, PsbtView>,
    writes: Seq<SessionWriteView>,
) -> Map<Seq<u8>, PsbtView>
    decreases writes.len(),
{
    if writes.len() == 0 {
        spends
    } else {
        let before = spends_after(spends, writes.drop_last());
        match writes.last() {
            SessionWriteView::DeleteSpend(txid) => before.remove(txid),
            SessionWriteView::StoreSpend(psbt) => before.insert(txid_of(psbt.unsigned_tx), psbt),
            SessionWriteView::UpdateMetadata(_) => before,
        }
    }
}

/// Writes are done one after the other: one more write changes what the earlier ones left, and
/// nothing but the PSBT that it names.
pub proof fn law_writes_are_done_in_order(
    spends: Map<Seq<u8>, PsbtView>,
    writes: Seq<SessionWriteView>,
    txid: Seq<u8>,
    psbt: PsbtView,
    metadata: SessionMetadataView,
)
    ensures
        spends_after(spends, Seq::empty()) == spends,
        spends_after(spends, writes.push(SessionWriteView::DeleteSpend(txid))) == spends_after(
            spends,
            writes,
        ).remove(txid),
        spends_after(spends, writes.push(SessionWriteView::StoreSpend(psbt))) == spends_after(
            spends,
            writes,
        ).insert(txid_of(psbt.unsigned_tx), psbt),
        spends_after(spends, writes.push(SessionWriteView::UpdateMetadata(metadata)))
            == spends_after(spends, writes),
{
    assert(writes.push(SessionWriteView::DeleteSpend(txid)).drop_last() =~= writes);
    assert(writes.push(SessionWriteView::StoreSpend(psbt)).drop_last() =~= writes);
    assert(writes.push(SessionWriteView::UpdateMetadata(metadata)).drop_last() =~= writes);
}

/// The write that stores metadata.
pub fn metadata_write(metadata: SessionMetadata) -> (writes: Vec<SessionWrite>)
    ensures
        writes_view(writes@) == seq![SessionWriteView::UpdateMetadata(metadata@)],
{
    let ghost stored = metadata@;
    let mut writes: Vec<SessionWrite> = Vec::new();
    writes.push(SessionWrite::UpdateMetadata(metadata));
    assert(writes_view(writes@) =~= seq![SessionWriteView::UpdateMetadata(stored)]);
    writes
}

/// The writes that store a PSBT and then the metadata.
pub fn spend_writes(psbt: Psbt, metadata: SessionMetadata) -> (writes: Vec<SessionWrite>)
    ensures
        writes_view(writes@) == seq![
            SessionWriteView::StoreSpend(psbt@),
            SessionWriteView::UpdateMetadata(metadata@),
        ],
{
    let ghost all = seq![
        SessionWriteView::StoreSpend(psbt@),
        SessionWriteView::UpdateMetadata(metadata@),
    ];
    let mut writes: Vec<SessionWrite> = Vec::new();
    writes.push(SessionWrite::StoreSpend(psbt));
    writes.push(SessionWrite::UpdateMetadata(metadata));
    assert(writes_view(writes@) =~= all);
    writes
}

/// The writes that put one PSBT in the place of another and then store the metadata. The old PSBT
/// is deleted first: the new one may have the same id.
pub fn replacing_writes(txid: Txid, psbt: Psbt, metadata: SessionMetadata) -> (writes: Vec<
    SessionWrite,
>)
    ensures
        writes_view(writes@) == seq![
            SessionWriteView::DeleteSpend(txid@),
            SessionWriteView::StoreSpend(psbt@),
            SessionWriteView::UpdateMetadata(metadata@),
        ],
{
    let ghost all = seq![
        SessionWriteView::DeleteSpend(txid@),
        SessionWriteView::StoreSpend(psbt@),
        SessionWriteView::UpdateMetadata(metadata@),
    ];
    let mut writes: Vec<SessionWrite> = Vec::new();
    writes.push(SessionWrite::DeleteSpend(txid));
    writes.push(SessionWrite::StoreSpend(psbt));
    writes.push(SessionWrite::UpdateMetadata(metadata));
    assert(writes_view(writes@) =~= all);
    writes
}

/// After a PSBT was put in the place of another, the wallet has it, even if both have the same
/// id; it no longer has the old one, and all others as before.
pub proof fn law_replacing_keeps_the_new_spend(
    spends: Map<Seq<u8>, PsbtView>,
    txid: Seq<u8>,
    psbt: PsbtView,
    metadata: SessionMetadataView,
)
    ensures
        spends_after(
            spends,
            seq![
                SessionWriteView::DeleteSpend(txid),
                SessionWriteView::StoreSpend(psbt),
                SessionWriteView::UpdateMetadata(metadata),
            ],
        ) == spends.remove(txid).insert(txid_of(psbt.unsigned_tx), psbt),
{
    let all = seq![
        SessionWriteView::DeleteSpend(txid),
        SessionWriteView::StoreSpend(psbt),
        SessionWriteView::UpdateMetadata(metadata),
    ];
    reveal_with_fuel(spends_after, 4);
    assert(all.drop_last().drop_last().drop_last() =~= Seq::empty());
}

} // verus!

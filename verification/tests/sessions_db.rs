use payjoin::receive::v2::SessionEvent as ReceiverSessionEvent;
use payjoin::send::v2::SessionEvent as SenderSessionEvent;

use lianad_payjoin::sessions::db::{PersisterError, ReceiverPersister, SenderPersister, SessionId};

#[test]
fn sessions_keep_their_number() {
    assert_eq!(SessionId::new(-3), SessionId(-3));
    assert_eq!(ReceiverPersister::new(5).session_id, SessionId(5));
    assert_eq!(ReceiverPersister::from_id(SessionId(6)).session_id, SessionId(6));
    assert_eq!(SenderPersister::new(7).session_id, SessionId(7));
    assert_eq!(SenderPersister::from_id(SessionId(8)).session_id, SessionId(8));
    assert_eq!(ReceiverPersister::new(9).close(), SessionId(9));
    assert_eq!(SenderPersister::new(10).close(), SessionId(10));
}

#[test]
fn receiver_events_are_stored_as_json() {
    let persister = ReceiverPersister::new(11);
    let event = ReceiverSessionEvent::SessionInvalid("too late".to_string(), None);
    let record = persister.save_event(&event).unwrap();
    assert_eq!(record.session_id, SessionId(11));
    assert_eq!(record.event, br#"{"SessionInvalid":["too late",null]}"#.to_vec());
}

#[test]
fn sender_events_are_stored_as_json() {
    let persister = SenderPersister::new(12);
    let event = SenderSessionEvent::SessionInvalid("too late".to_string());
    let record = persister.save_event(&event).unwrap();
    assert_eq!(record.session_id, SessionId(12));
    assert_eq!(record.event, br#"{"SessionInvalid":"too late"}"#.to_vec());
}

#[test]
fn receiver_log_gives_back_what_was_stored() {
    let persister = ReceiverPersister::new(1);
    let events = vec![
        ReceiverSessionEvent::SessionInvalid("a".to_string(), None),
        ReceiverSessionEvent::SessionInvalid("b".to_string(), None),
    ];
    let mut log = vec![];
    for event in &events {
        log.push(persister.save_event(event).unwrap().event);
    }
    assert_eq!(persister.load(log).unwrap(), events);
    assert_eq!(persister.load(vec![]).unwrap(), vec![]);
}

#[test]
fn sender_log_gives_back_what_was_stored() {
    let persister = SenderPersister::new(1);
    let events = vec![
        SenderSessionEvent::SessionInvalid("a".to_string()),
        SenderSessionEvent::SessionInvalid("b".to_string()),
    ];
    let mut log = vec![];
    for event in &events {
        log.push(persister.save_event(event).unwrap().event);
    }
    assert_eq!(persister.load(log).unwrap(), events);
}

#[test]
fn appending_extends_the_log() {
    let persister = SenderPersister::new(1);
    let log = vec![br#"{"SessionInvalid":"a"}"#.to_vec()];
    let before = persister.load(log.clone()).unwrap();
    let mut longer = log;
    longer.push(br#"{"SessionInvalid":"b"}"#.to_vec());
    let after = persister.load(longer).unwrap();
    assert_eq!(after[0], before[0]);
    assert_eq!(after[1], SenderSessionEvent::SessionInvalid("b".to_string()));
}

#[test]
fn first_unreadable_entry_is_reported() {
    let receiver = ReceiverPersister::new(1);
    let log = vec![
        br#"{"SessionInvalid":["a",null]}"#.to_vec(),
        b"{".to_vec(),
        b"]".to_vec(),
    ];
    let error = receiver.load(log).unwrap_err();
    assert!(matches!(error, PersisterError::Deserialize(_)));
    assert_eq!(
        error.to_string(),
        "Deserialization failed: EOF while parsing an object at line 1 column 1"
    );
    let sender = SenderPersister::new(1);
    let error = sender.load(vec![b"]".to_vec()]).unwrap_err();
    assert_eq!(
        error.to_string(),
        "Deserialization failed: expected value at line 1 column 1"
    );
}

#[test]
fn errors_say_what_failed() {
    let cause = serde_json::from_slice::<u8>(b"x").unwrap_err();
    assert_eq!(
        PersisterError::Serialize(cause).to_string(),
        "Serialization failed: expected value at line 1 column 1"
    );
    assert_eq!(
        PersisterError::NotFound("session 4".to_string()).to_string(),
        "Key not found: session 4"
    );
}

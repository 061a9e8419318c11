use std::str::FromStr;
use std::time::Duration;

use payjoin::bitcoin;
use payjoin::persist::SessionPersister;
use payjoin::receive::v2::{
    replay_event_log, Initialized, ReceiveSession, Receiver, SessionEvent, UncheckedProposal,
};
use payjoin::OhttpKeys;

use lianad_payjoin::psbt::{
    Input, KeyOrigin, OutPoint, PartialSig, Psbt, Transaction, TxIn, TxOut,
};
use lianad_payjoin::records::receiver::{
    accept, coin_input, contribute, describing_key, pass_through, payjoin_receiver_check,
    process_passed_psbt, process_proposal_psbt, record_processed, respond, respond_to_proposal,
    DirectoryAnswer, OwnInput, ProposalError, ReceiverCheck, ReceiverCommand, ReceiverEvent,
    ReceiverRecord, ReceiverWrite, MAX_FEE_RATE,
};
use lianad_payjoin::records::sender::{
    begin_posting, payjoin_sender_check, record_uri, restore_keys, GetOutcome, SenderCheck,
    SenderCommand, SenderEvent, SenderRecord, SenderWrite,
};
use lianad_payjoin::sessions::receiver::{proposed_psbt, Coin, Keychain};
use lianad_payjoin::sessions::types::PayjoinStatus;

/// A log with these events.
struct Log(std::cell::RefCell<Vec<SessionEvent>>);

impl SessionPersister for Log {
    type SessionEvent = SessionEvent;
    type InternalStorageError = std::io::Error;

    fn save_event(&self, event: &SessionEvent) -> Result<(), std::io::Error> {
        self.0.borrow_mut().push(event.clone());
        Ok(())
    }

    fn load(&self) -> Result<Box<dyn Iterator<Item = SessionEvent>>, std::io::Error> {
        Ok(Box::new(self.0.borrow().clone().into_iter()))
    }

    fn close(&self) -> Result<(), std::io::Error> {
        Ok(())
    }
}

fn script(seed: u8) -> bitcoin::ScriptBuf {
    bitcoin::ScriptBuf::new_p2wpkh(&bitcoin::hashes::Hash::from_byte_array([seed; 20]))
}

fn bitcoin_psbt(seeds: &[u8]) -> bitcoin::Psbt {
    let tx = bitcoin::Transaction {
        version: bitcoin::transaction::Version::TWO,
        lock_time: bitcoin::absolute::LockTime::ZERO,
        input: seeds
            .iter()
            .map(|seed| bitcoin::TxIn {
                previous_output: bitcoin::OutPoint::new(
                    bitcoin::hashes::Hash::from_byte_array([*seed; 32]),
                    0,
                ),
                ..Default::default()
            })
            .collect(),
        output: vec![bitcoin::TxOut {
            value: bitcoin::Amount::from_sat(40_000),
            script_pubkey: script(200),
        }],
    };
    let mut psbt = bitcoin::Psbt::from_unsigned_tx(tx).unwrap();
    for (index, seed) in seeds.iter().enumerate() {
        psbt.inputs[index].witness_utxo = Some(bitcoin::TxOut {
            value: bitcoin::Amount::from_sat(50_000),
            script_pubkey: script(*seed),
        });
    }
    psbt
}

fn psbt(seeds: &[u8]) -> Psbt {
    Psbt::from_text(&bitcoin_psbt(seeds).to_string()).unwrap()
}

fn txid(seeds: &[u8]) -> [u8; 32] {
    bitcoin::hashes::Hash::to_byte_array(bitcoin_psbt(seeds).unsigned_tx.compute_txid())
}

fn session(log: &Log) -> Receiver<Initialized> {
    let address = bitcoin::Address::from_str("tb1q6d3a2w975yny0asuvd9a67ner4nks58ff0q8g4")
        .unwrap()
        .assume_checked();
    let keys = OhttpKeys::from_str("OH1QYPM5JXYNS754Y4R45QWE336QFX6ZR8DQGVQCULVZTV20TFVEYDMFQC")
        .unwrap();
    Receiver::create_session(address, "https://example.com", keys, Some(Duration::from_secs(600)))
        .save(log)
        .unwrap()
}

/// The text of a URI to which a payjoin can be sent.
fn bip21() -> String {
    session(&Log(std::cell::RefCell::new(vec![]))).pj_uri().to_string()
}

fn proposal(psbt: &bitcoin::Psbt) -> Receiver<UncheckedProposal> {
    let log = Log(std::cell::RefCell::new(vec![]));
    session(&log);
    let params = r#"{"v":2,"output_substitution":"Enabled","additional_fee_contribution":null,"min_fee_rate":250}"#;
    let entry = format!(
        r#"{{"UncheckedProposal":[{{"psbt":{},"params":{}}},null]}}"#,
        serde_json::to_string(psbt).unwrap(),
        params
    );
    log.save_event(&serde_json::from_str(&entry).unwrap()).unwrap();
    match replay_event_log(&log).unwrap().0 {
        ReceiveSession::UncheckedProposal(proposal) => proposal,
        state => panic!("{:?}", state),
    }
}

fn origin() -> KeyOrigin {
    KeyOrigin { key: vec![2], fingerprint: [3; 4], path: vec![0, 7] }
}

fn own_input() -> OwnInput {
    let tx = Transaction {
        version: 2,
        lock_time: 0,
        input: vec![],
        output: vec![
            TxOut { value: 1, script_pubkey: vec![1] },
            TxOut { value: 7_000, script_pubkey: vec![2] },
        ],
    };
    let coin = Coin {
        outpoint: OutPoint { txid: [8; 32], vout: 1 },
        is_change: true,
        derivation_index: 3,
        tx,
    };
    let mut psbtin = coin_input(&coin);
    psbtin.witness_script = Some(vec![5]);
    OwnInput { coin, psbtin }
}

#[test]
fn coin_becomes_an_input_map() {
    let psbtin = coin_input(&own_input().coin);
    assert_eq!(psbtin.witness_utxo, Some(TxOut { value: 7_000, script_pubkey: vec![2] }));
    let tx = bitcoin::Transaction {
        version: bitcoin::transaction::Version::TWO,
        lock_time: bitcoin::absolute::LockTime::ZERO,
        input: vec![],
        output: vec![
            bitcoin::TxOut {
                value: bitcoin::Amount::from_sat(1),
                script_pubkey: bitcoin::ScriptBuf::from_bytes(vec![1]),
            },
            bitcoin::TxOut {
                value: bitcoin::Amount::from_sat(7_000),
                script_pubkey: bitcoin::ScriptBuf::from_bytes(vec![2]),
            },
        ],
    };
    assert_eq!(psbtin.non_witness_utxo, Some(bitcoin::consensus::encode::serialize(&tx)));
    assert_eq!(psbtin.witness_script, None);
}

#[test]
fn coin_is_derived_from_the_receiving_descriptor() {
    assert!(own_input().coin.is_change);
    assert_eq!(describing_key(&own_input().coin), (Keychain::Receive, 3));
}

#[test]
fn contributed_map_says_what_is_spent() {
    let mut own = own_input();
    own.psbtin.witness_utxo = Some(TxOut { value: 1, script_pubkey: vec![1] });
    own.psbtin.non_witness_utxo = None;
    let mut after = psbt(&[1]);
    contribute(&mut after, own);
    assert_eq!(after.inputs[1], own_input().psbtin);
}

#[test]
fn proposal_is_accepted_unless_the_protocol_objects() {
    let provisional = accept(proposal(&bitcoin_psbt(&[1, 2])));
    assert!(provisional.is_some());
    // Nothing is paid to the receiver.
    let mut sent = bitcoin_psbt(&[1]);
    sent.unsigned_tx.output.clear();
    sent.outputs.clear();
    assert!(accept(proposal(&sent)).is_none());
    assert_eq!(pass_through(proposal(&sent)), None);
}

#[test]
fn contribution_extends_the_proposal() {
    let before = psbt(&[1, 2]);
    let mut after = before.clone();
    contribute(&mut after, own_input());
    assert_eq!(after.inputs.len(), 3);
    assert_eq!(after.inputs[0..2], before.inputs[..]);
    assert_eq!(after.inputs[2], own_input().psbtin);
    assert_eq!(
        after.unsigned_tx.input[2],
        TxIn {
            previous_output: OutPoint { txid: [8; 32], vout: 1 },
            script_sig: vec![],
            sequence: 0xFFFF_FFFD,
            witness: vec![],
        }
    );
    assert_eq!(after.outputs.len(), 2);
    assert!(after.outputs[1].is_none());
    assert_eq!(after.unsigned_tx.output[0], before.unsigned_tx.output[0]);
    // What the coin brings in goes out again.
    assert_eq!(after.unsigned_tx.output[1], TxOut { value: 7_000, script_pubkey: vec![2] });
    assert_eq!(after.other, before.other);
}

#[test]
fn proposal_is_processed_with_a_coin() {
    let mut sent = bitcoin_psbt(&[1, 2]);
    sent.inputs[0].final_script_witness = Some(bitcoin::Witness::from_slice(&[vec![1u8]]));
    let processed = process_proposal_psbt(proposal(&sent), Some(own_input())).unwrap();
    // The signatures of the sender are gone, as they no longer hold.
    let mut expected = psbt(&[1, 2]);
    contribute(&mut expected, own_input());
    assert_eq!(processed, expected);
    assert_eq!(pass_through(proposal(&sent)), Some(psbt(&[1, 2])));
}

#[test]
fn highest_fee_rate() {
    let rate = bitcoin::FeeRate::from_sat_per_vb(150).unwrap();
    assert_eq!(MAX_FEE_RATE, rate.to_sat_per_kwu());
}

#[test]
fn sender_is_answered_with_the_signed_psbt() {
    let answer = psbt(&[1, 2, 9]);
    let answered = respond_to_proposal(proposal(&bitcoin_psbt(&[1, 2])), &answer).unwrap();
    assert_eq!(proposed_psbt(&answered), answer);
    let mut sent = bitcoin_psbt(&[1]);
    sent.inputs[0].witness_utxo = None;
    assert!(respond_to_proposal(proposal(&sent), &answer).is_none());
}

#[test]
fn proposal_is_not_processed_without_a_coin() {
    let result = process_proposal_psbt(proposal(&bitcoin_psbt(&[1])), None);
    assert_eq!(result, Err(ProposalError::NoCoin));
}

#[test]
fn proposal_that_is_not_accepted_is_not_processed() {
    let mut sent = bitcoin_psbt(&[1]);
    sent.inputs[0].witness_utxo = None;
    let result = process_proposal_psbt(proposal(&sent), Some(own_input()));
    assert_eq!(result, Err(ProposalError::NotAccepted));
    assert_eq!(process_passed_psbt(None, own_input()), Err(ProposalError::NotAccepted));
}

fn begin(status: PayjoinStatus, text: String) -> (ReceiverCheck, ReceiverCommand) {
    let record = ReceiverRecord { status, psbt: text };
    payjoin_receiver_check(ReceiverCheck::Start(record), ReceiverEvent::Begin)
}

fn assert_receiver_idle(result: (ReceiverCheck, ReceiverCommand)) {
    assert!(matches!(result.0, ReceiverCheck::Done));
    assert!(matches!(result.1, ReceiverCommand::Finish));
}

fn receiver_writes(command: ReceiverCommand) -> Vec<ReceiverWrite> {
    match command {
        ReceiverCommand::Write(writes) => writes,
        command => panic!("{:?}", command),
    }
}

fn polled(sent: &bitcoin::Psbt) -> ReceiverEvent {
    ReceiverEvent::Polled(DirectoryAnswer::Proposal(proposal(sent)))
}

#[test]
fn pending_receiver_records_a_processed_proposal() {
    let (check, command) = begin(PayjoinStatus::Pending, String::new());
    assert!(matches!(command, ReceiverCommand::Poll));
    let (check, command) = payjoin_receiver_check(check, polled(&bitcoin_psbt(&[1])));
    assert!(matches!(command, ReceiverCommand::FindCoin));
    let event = ReceiverEvent::Coin(Some(own_input().coin));
    let (check, command) = payjoin_receiver_check(check, event);
    match command {
        ReceiverCommand::Describe { psbtin, keychain, derivation_index } => {
            assert_eq!(psbtin, coin_input(&own_input().coin));
            assert_eq!(keychain, Keychain::Receive);
            assert_eq!(derivation_index, 3);
        }
        command => panic!("{:?}", command),
    }
    let event = ReceiverEvent::Described(own_input().psbtin);
    let (check, command) = payjoin_receiver_check(check, event);
    assert!(matches!(check, ReceiverCheck::Done));
    let mut expected = psbt(&[1]);
    contribute(&mut expected, own_input());
    let writes = receiver_writes(command);
    assert_eq!(writes.len(), 2);
    match &writes[0] {
        ReceiverWrite::UpdateStatus { status, psbt } => {
            assert_eq!(*status, PayjoinStatus::Signing);
            assert_eq!(*psbt, expected);
        }
        write => panic!("{:?}", write),
    }
    match &writes[1] {
        ReceiverWrite::StoreSpend(psbt) => assert_eq!(*psbt, expected),
        write => panic!("{:?}", write),
    }
}

#[test]
fn proposal_that_cannot_be_processed_fails() {
    let (check, _) = begin(PayjoinStatus::Pending, String::new());
    let (check, _) = payjoin_receiver_check(check, polled(&bitcoin_psbt(&[1])));
    let (check, command) = payjoin_receiver_check(check, ReceiverEvent::Coin(None));
    assert!(matches!(check, ReceiverCheck::Done));
    assert!(matches!(command, ReceiverCommand::Fail(ProposalError::NoCoin)));
    let (check, command) = record_processed(Err(ProposalError::NotAccepted));
    assert!(matches!(check, ReceiverCheck::Done));
    assert!(matches!(command, ReceiverCommand::Fail(ProposalError::NotAccepted)));
}

#[test]
fn pending_receiver_without_a_proposal_stays_pending() {
    for answer in [DirectoryAnswer::RequestFailed, DirectoryAnswer::Empty] {
        let (check, _) = begin(PayjoinStatus::Pending, String::new());
        assert_receiver_idle(payjoin_receiver_check(check, ReceiverEvent::Polled(answer)));
    }
}

#[test]
fn settled_receiver_record_is_left_alone() {
    for status in [PayjoinStatus::WaitingReceiver, PayjoinStatus::Completed, PayjoinStatus::Failed] {
        assert_receiver_idle(begin(status, psbt(&[1]).to_text().unwrap()));
    }
}

#[test]
fn unreadable_receiver_record_is_skipped() {
    assert_receiver_idle(begin(PayjoinStatus::Signing, "nonsense".to_string()));
}

#[test]
fn unsigned_psbt_is_not_answered_with() {
    for spend in [None, Some(psbt(&[1, 2]))] {
        let (check, command) = begin(PayjoinStatus::Signing, bitcoin_psbt(&[1, 2]).to_string());
        match command {
            ReceiverCommand::FindSpend(wanted) => assert_eq!(wanted, txid(&[1, 2])),
            command => panic!("{:?}", command),
        }
        assert_receiver_idle(payjoin_receiver_check(check, ReceiverEvent::Spend(spend)));
    }
}

/// Takes a record that is being signed to the point where the signed PSBT was found.
fn signed(seeds: &[u8]) -> (ReceiverCheck, Psbt) {
    let mut signed = psbt(seeds);
    signed.inputs[0].partial_sigs = vec![PartialSig { key: vec![1], signature: vec![1] }];
    let (check, _) = begin(PayjoinStatus::Signing, bitcoin_psbt(seeds).to_string());
    let (check, command) =
        payjoin_receiver_check(check, ReceiverEvent::Spend(Some(signed.clone())));
    assert!(matches!(command, ReceiverCommand::Poll));
    (check, signed)
}

/// Takes a record whose signed PSBT was found to the answer.
fn responding(sent: &bitcoin::Psbt) -> (ReceiverCheck, ReceiverCommand, Psbt) {
    let (check, signed) = signed(&[1, 2]);
    let (check, command) = payjoin_receiver_check(check, polled(sent));
    match command {
        ReceiverCommand::Attempt { psbt, index } => {
            assert_eq!(psbt, signed);
            assert_eq!(index, 0);
        }
        command => panic!("{:?}", command),
    }
    let mut finalized = signed;
    finalized.inputs[0].partial_sigs = vec![];
    finalized.inputs[0].final_script_witness = Some(vec![vec![1]]);
    let event = ReceiverEvent::Attempted(Some(finalized.inputs[0].clone()));
    let (check, command) = payjoin_receiver_check(check, event);
    (check, command, finalized)
}

#[test]
fn signed_psbt_completes_the_record() {
    let (check, command, finalized) = responding(&bitcoin_psbt(&[1, 2]));
    match command {
        ReceiverCommand::Respond(answer) => assert_eq!(proposed_psbt(&answer), finalized),
        command => panic!("{:?}", command),
    }
    let (check, command) = payjoin_receiver_check(check, ReceiverEvent::Responded(true));
    assert!(matches!(check, ReceiverCheck::Done));
    let writes = receiver_writes(command);
    assert_eq!(writes.len(), 1);
    match &writes[0] {
        ReceiverWrite::UpdateStatus { status, psbt } => {
            assert_eq!(*status, PayjoinStatus::Completed);
            assert_eq!(*psbt, finalized);
        }
        write => panic!("{:?}", write),
    }
}

#[test]
fn proposal_that_is_not_accepted_is_not_answered() {
    let mut sent = bitcoin_psbt(&[1, 2]);
    sent.inputs[0].witness_utxo = None;
    let (check, command, _) = responding(&sent);
    assert!(matches!(check, ReceiverCheck::Done));
    assert!(matches!(command, ReceiverCommand::Fail(ProposalError::NotAccepted)));
    let (check, command) = respond(psbt(&[1]), None);
    assert!(matches!(check, ReceiverCheck::Done));
    assert!(matches!(command, ReceiverCommand::Fail(ProposalError::NotAccepted)));
}

#[test]
fn signed_psbt_is_kept_if_it_cannot_be_delivered() {
    for answer in [DirectoryAnswer::RequestFailed, DirectoryAnswer::Empty] {
        let (check, _) = signed(&[1]);
        assert_receiver_idle(payjoin_receiver_check(check, ReceiverEvent::Polled(answer)));
    }
    let (check, command, _) = responding(&bitcoin_psbt(&[1, 2]));
    assert!(matches!(command, ReceiverCommand::Respond(_)));
    assert_receiver_idle(payjoin_receiver_check(check, ReceiverEvent::Responded(false)));
}

fn start(status: PayjoinStatus, has_sender: bool) -> (SenderCheck, SenderCommand) {
    let record = SenderRecord { bip21: bip21(), txid: [6; 32], status, has_sender };
    payjoin_sender_check(SenderCheck::Start(record), SenderEvent::Begin)
}

fn assert_sender_idle(result: (SenderCheck, SenderCommand)) {
    assert!(matches!(result.0, SenderCheck::Done));
    assert!(matches!(result.1, SenderCommand::Finish));
}

fn sender_writes(command: SenderCommand) -> Vec<SenderWrite> {
    match command {
        SenderCommand::Write(writes) => writes,
        command => panic!("{:?}", command),
    }
}

fn assert_status(write: &SenderWrite, expected: PayjoinStatus, sender: bool) {
    match write {
        SenderWrite::UpdateStatus { txid, status, with_sender } => {
            assert_eq!(*txid, [6; 32]);
            assert_eq!(*status, expected);
            assert_eq!(*with_sender, sender);
        }
        write => panic!("{:?}", write),
    }
}

#[test]
fn pending_sender_waits_once_it_has_posted() {
    let (check, command) = start(PayjoinStatus::Pending, false);
    match command {
        SenderCommand::PostOriginal { txid, uri } => {
            assert_eq!(txid, [6; 32]);
            let address = "tb1q6d3a2w975yny0asuvd9a67ner4nks58ff0q8g4";
            assert_eq!(uri.0.address.to_string(), address);
            assert_eq!(uri.0.extras.endpoint().host_str(), Some("example.com"));
        }
        command => panic!("{:?}", command),
    }
    let (check, command) = payjoin_sender_check(check, SenderEvent::Posted(true));
    assert!(matches!(check, SenderCheck::Done));
    let writes = sender_writes(command);
    assert_eq!(writes.len(), 1);
    assert_status(&writes[0], PayjoinStatus::WaitingReceiver, true);
    let (check, _) = start(PayjoinStatus::Pending, false);
    assert_sender_idle(payjoin_sender_check(check, SenderEvent::Posted(false)));
}

#[test]
fn only_uris_of_payjoins_are_read() {
    let text = bip21();
    assert_eq!(record_uri(&text).unwrap().0.to_string(), text);
    assert!(record_uri("nonsense").is_none());
    // A URI without a payjoin endpoint.
    let plain = "bitcoin:tb1q6d3a2w975yny0asuvd9a67ner4nks58ff0q8g4?amount=0.1";
    assert!(record_uri(plain).is_none());
    for uri in ["nonsense", plain] {
        let record = SenderRecord {
            bip21: uri.to_string(),
            txid: [6; 32],
            status: PayjoinStatus::Pending,
            has_sender: false,
        };
        let (check, command) =
            payjoin_sender_check(SenderCheck::Start(record), SenderEvent::Begin);
        assert!(matches!(check, SenderCheck::Done));
        assert!(matches!(command, SenderCommand::Fail));
    }
    let record = SenderRecord {
        bip21: String::new(),
        txid: [6; 32],
        status: PayjoinStatus::Pending,
        has_sender: false,
    };
    assert!(matches!(begin_posting(record, None).1, SenderCommand::Fail));
}

#[test]
fn settled_sender_record_is_left_alone() {
    for status in [PayjoinStatus::Signing, PayjoinStatus::Completed, PayjoinStatus::Failed] {
        assert_sender_idle(start(status, true));
    }
    assert_sender_idle(start(PayjoinStatus::WaitingReceiver, false));
}

/// Takes a record that waits for its receiver to the point where the proposal is asked for.
fn getting(original: Psbt) -> SenderCheck {
    let (check, command) = start(PayjoinStatus::WaitingReceiver, true);
    assert!(matches!(command, SenderCommand::PostAgain));
    let (check, command) = payjoin_sender_check(check, SenderEvent::Posted(true));
    match command {
        SenderCommand::FindSpend(txid) => assert_eq!(txid, [6; 32]),
        command => panic!("{:?}", command),
    }
    let (check, command) = payjoin_sender_check(check, SenderEvent::Spend(original));
    assert!(matches!(command, SenderCommand::Get));
    check
}

#[test]
fn waiting_sender_without_a_proposal_goes_on_waiting() {
    let (check, _) = start(PayjoinStatus::WaitingReceiver, true);
    assert_sender_idle(payjoin_sender_check(check, SenderEvent::Posted(false)));
    for outcome in [GetOutcome::RequestFailed, GetOutcome::Empty, GetOutcome::Rejected] {
        let check = getting(psbt(&[1]));
        assert_sender_idle(payjoin_sender_check(check, SenderEvent::Got(outcome)));
    }
}

#[test]
fn proposal_completes_a_waiting_sender() {
    let mut original = psbt(&[1]);
    original.inputs[0].witness_script = Some(vec![1]);
    original.inputs[0].bip32_derivation = vec![origin()];
    let check = getting(original);
    let outcome = GetOutcome::Proposal(psbt(&[1, 2]));
    let (check, command) = payjoin_sender_check(check, SenderEvent::Got(outcome));
    assert!(matches!(check, SenderCheck::Done));
    let mut expected = psbt(&[1, 2]);
    expected.inputs[0].witness_script = Some(vec![1]);
    expected.inputs[0].bip32_derivation = vec![origin()];
    let writes = sender_writes(command);
    assert_eq!(writes.len(), 3);
    // The proposal is stored before the original is deleted.
    match &writes[0] {
        SenderWrite::StoreSpend(stored) => assert_eq!(*stored, expected),
        write => panic!("{:?}", write),
    }
    match &writes[1] {
        SenderWrite::DeleteSpend(txid) => assert_eq!(*txid, [6; 32]),
        write => panic!("{:?}", write),
    }
    assert_status(&writes[2], PayjoinStatus::Completed, false);
}

#[test]
fn keys_are_restored_by_position() {
    let mut original = psbt(&[1, 2]);
    original.inputs[1].witness_script = Some(vec![7]);
    original.inputs[1].partial_sigs = vec![PartialSig { key: vec![8], signature: vec![8] }];
    let mut proposal = psbt(&[1, 2, 3]);
    proposal.inputs[0].witness_script = Some(vec![9]);
    proposal.inputs[2].witness_script = Some(vec![9]);
    let mut once = proposal.clone();
    restore_keys(&mut once, &original);
    assert_eq!(once.inputs[0].witness_script, None);
    assert_eq!(once.inputs[1].witness_script, Some(vec![7]));
    assert!(once.inputs[1].partial_sigs.is_empty());
    assert_eq!(once.inputs[2], proposal.inputs[2]);
    assert_eq!(once.unsigned_tx, proposal.unsigned_tx);
    let mut twice = once.clone();
    restore_keys(&mut twice, &original);
    assert_eq!(once, twice);
    assert_eq!(Input::default().witness_script, None);
}

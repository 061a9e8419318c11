use std::cell::RefCell;
use std::str::FromStr;
use std::time::Duration;

use bitcoin_ohttp::hpke::{Aead, Kdf, Kem};
use bitcoin_ohttp::{KeyConfig, Server, SymmetricSuite};
use payjoin::bitcoin;
use payjoin::persist::{NoopSessionPersister, SessionPersister};
use payjoin::receive::v2::{
    replay_event_log, PayjoinProposal, ReceiveSession, Receiver, SessionEvent, SessionHistory,
};
use payjoin::OhttpKeys;

use lianad_payjoin::psbt::{Input, OutPoint, PartialSig, Psbt, Transaction, TxIn, TxOut};
use lianad_payjoin::sessions::db::{ReceiverPersister, SessionId, SessionMetadata, SessionWrite};
use lianad_payjoin::sessions::helpers::OHTTP_RELAY;
use lianad_payjoin::sessions::receiver::{
    can_broadcast, candidate_inputs, check_inputs_not_owned, check_no_inputs_seen_before,
    commit_outputs, contributed_psbt, describe_candidates, identify_receiver_outputs, input_pairs,
    mempool_request, payjoin_receiver_check, posted_proposal, process_receiver_session, proposed_psbt, read_from_directory, Coin,
    Contribution, Keychain, ListedSession, ReadOutcome, ReceiverCheck, ReceiverCommand,
    ReceiverEvent, ReceiverPass, ReceiverPhase, ReceiverState, ReceiverStep, SendOutcome,
};
use lianad_payjoin::sessions::types::PayjoinStatus;

/// A log in memory, written and read by the library.
struct Log {
    persister: ReceiverPersister,
    entries: RefCell<Vec<Vec<u8>>>,
}

impl SessionPersister for Log {
    type SessionEvent = SessionEvent;
    type InternalStorageError = std::io::Error;

    fn save_event(&self, event: &SessionEvent) -> Result<(), std::io::Error> {
        self.entries.borrow_mut().push(self.persister.save_event(event).unwrap().event);
        Ok(())
    }

    fn load(&self) -> Result<Box<dyn Iterator<Item = SessionEvent>>, std::io::Error> {
        Ok(Box::new(self.persister.load(self.entries.borrow().clone()).unwrap().into_iter()))
    }

    fn close(&self) -> Result<(), std::io::Error> {
        Ok(())
    }
}

fn script(seed: u8) -> bitcoin::ScriptBuf {
    bitcoin::ScriptBuf::new_p2wpkh(&bitcoin::hashes::Hash::from_byte_array([seed; 20]))
}

fn bitcoin_psbt(seeds: &[u8]) -> bitcoin::Psbt {
    let tx = bitcoin::Transaction {
        version: bitcoin::transaction::Version::TWO,
        lock_time: bitcoin::absolute::LockTime::ZERO,
        input: seeds
            .iter()
            .map(|seed| bitcoin::TxIn {
                previous_output: bitcoin::OutPoint::new(
                    bitcoin::hashes::Hash::from_byte_array([*seed; 32]),
                    0,
                ),
                ..Default::default()
            })
            .collect(),
        output: vec![bitcoin::TxOut {
            value: bitcoin::Amount::from_sat(40_000),
            script_pubkey: script(200),
        }],
    };
    let mut psbt = bitcoin::Psbt::from_unsigned_tx(tx).unwrap();
    for (index, seed) in seeds.iter().enumerate() {
        psbt.inputs[index].witness_utxo = Some(bitcoin::TxOut {
            value: bitcoin::Amount::from_sat(50_000),
            script_pubkey: script(*seed),
        });
    }
    psbt
}

fn psbt(seeds: &[u8]) -> Psbt {
    Psbt::from_text(&bitcoin_psbt(seeds).to_string()).unwrap()
}

fn txid(seeds: &[u8]) -> [u8; 32] {
    bitcoin::hashes::Hash::to_byte_array(bitcoin_psbt(seeds).unsigned_tx.compute_txid())
}

fn sig() -> PartialSig {
    PartialSig { key: vec![1], signature: vec![1] }
}

/// A gateway through which the directory answers.
fn gateway() -> Server {
    let suite = SymmetricSuite::new(Kdf::HkdfSha256, Aead::ChaCha20Poly1305);
    Server::new(KeyConfig::new(1, Kem::K256Sha256, vec![suite]).unwrap()).unwrap()
}

fn keys_of(gateway: &Server) -> OhttpKeys {
    OhttpKeys::decode(&gateway.config().encode().unwrap()).unwrap()
}

/// The encrypted response to a request, with this status and nothing else.
fn response(gateway: &Server, request: &[u8], status: u8) -> Vec<u8> {
    let (_, response) = gateway.decapsulate(request).unwrap();
    // A message of known length, its status, and three empty parts behind it.
    let mut message = vec![1, 0x40, status, 0, 0, 0];
    message.resize(8192 - 48, 0);
    response.encapsulate(&message).unwrap()
}

fn session_log(keys: OhttpKeys) -> Log {
    let log = Log { persister: ReceiverPersister::new(1), entries: RefCell::new(vec![]) };
    let address = bitcoin::Address::from_str("tb1q6d3a2w975yny0asuvd9a67ner4nks58ff0q8g4")
        .unwrap()
        .assume_checked();
    Receiver::create_session(address, "https://example.com", keys, Some(Duration::from_secs(600)))
        .save(&log)
        .unwrap();
    log
}

/// The log of a session into which a sender has put this PSBT.
fn proposal_log(psbt: &bitcoin::Psbt) -> Log {
    let keys = OhttpKeys::from_str("OH1QYPM5JXYNS754Y4R45QWE336QFX6ZR8DQGVQCULVZTV20TFVEYDMFQC")
        .unwrap();
    proposal_log_with(psbt, keys)
}

/// The same log, of a session with these keys.
fn proposal_log_with(psbt: &bitcoin::Psbt, keys: OhttpKeys) -> Log {
    let log = session_log(keys);
    let params = r#"{"v":2,"output_substitution":"Enabled","additional_fee_contribution":null,"min_fee_rate":250}"#;
    let entry = format!(
        r#"{{"UncheckedProposal":[{{"psbt":{},"params":{}}},null]}}"#,
        serde_json::to_string(psbt).unwrap(),
        params
    );
    log.entries.borrow_mut().push(entry.into_bytes());
    log
}

fn replay(log: &Log) -> (ReceiveSession, SessionHistory) {
    replay_event_log(log).unwrap()
}

fn pass(sessions: Vec<ListedSession>) -> ReceiverPass {
    ReceiverPass { sessions, position: 0, phase: ReceiverPhase::Choosing }
}

fn listed(id: i64, completed_at: Option<i128>) -> ListedSession {
    ListedSession { session_id: SessionId(id), completed_at }
}

fn running(check: ReceiverCheck) -> ReceiverPass {
    match check {
        ReceiverCheck::Running(pass) => pass,
        ReceiverCheck::Done => panic!("the pass is over"),
    }
}

/// A pass over one session, up to where its log has been replayed.
fn replayed(state: ReceiverState) -> (ReceiverCheck, ReceiverCommand) {
    let (check, command) =
        payjoin_receiver_check(pass(vec![listed(4, None)]), ReceiverEvent::Clock(10));
    match command {
        ReceiverCommand::Replay(id) => assert_eq!(id, SessionId(4)),
        command => panic!("{:?}", command),
    }
    payjoin_receiver_check(running(check), ReceiverEvent::Replayed(Ok(state)))
}

fn warning_of(command: ReceiverCommand) -> Option<String> {
    match command {
        ReceiverCommand::Finish(warning) => warning,
        command => panic!("{:?}", command),
    }
}

fn assert_goes_on(check: ReceiverCheck) {
    let pass = running(check);
    assert_eq!(pass.position, 1);
    assert!(matches!(pass.phase, ReceiverPhase::Choosing));
    let (check, command) = payjoin_receiver_check(pass, ReceiverEvent::Clock(10));
    assert!(matches!(check, ReceiverCheck::Done));
    assert_eq!(warning_of(command), None);
}

fn writes_of(command: ReceiverCommand) -> Vec<SessionWrite> {
    match command {
        ReceiverCommand::Write(writes) => writes,
        command => panic!("{:?}", command),
    }
}

fn assert_metadata(write: &SessionWrite, expected: PayjoinStatus, seeds: &[u8]) {
    let metadata: &SessionMetadata = match write {
        SessionWrite::UpdateMetadata(metadata) => metadata,
        write => panic!("{:?}", write),
    };
    assert_eq!(metadata.status, expected);
    assert_eq!(metadata.maybe_txid, Some(txid(seeds)));
    assert_eq!(metadata.maybe_psbt, Some(psbt(seeds)));
    assert_eq!(metadata.maybe_bip21, Some("bitcoin:address".to_string()));
}

fn contribution(seeds: &[u8]) -> Contribution {
    Contribution { psbt: psbt(seeds), bip21: "bitcoin:address".to_string() }
}

/// The step that a command begins.
fn step_of(command: &ReceiverCommand) -> ReceiverStep {
    match command {
        ReceiverCommand::Run(step) => *step,
        ReceiverCommand::CheckBroadcast { min_fee_rate } => {
            assert_eq!(*min_fee_rate, None);
            ReceiverStep::CheckProposal
        }
        ReceiverCommand::ListCoins => ReceiverStep::ContributeInputs,
        command => panic!("{:?}", command),
    }
}

#[test]
fn checks_take_a_proposal_to_its_inputs() {
    let log = proposal_log(&bitcoin_psbt(&[1, 2]));
    let proposal = match replay(&log).0 {
        ReceiveSession::UncheckedProposal(proposal) => proposal,
        state => panic!("{:?}", state),
    };
    let proposal = proposal.assume_interactive_receiver().save(&log).unwrap();
    let proposal = check_inputs_not_owned(proposal).save(&log).unwrap();
    let proposal = check_no_inputs_seen_before(proposal).save(&log).unwrap();
    let proposal = identify_receiver_outputs(proposal).save(&log).unwrap();
    let proposal = commit_outputs(proposal).save(&log).unwrap();
    match replay(&log).0 {
        ReceiveSession::WantsInputs(logged) => assert_eq!(logged, proposal),
        state => panic!("{:?}", state),
    }
    assert_eq!(contributed_psbt(&replay(&log).1), None);
    proposal.commit_inputs().save(&log).unwrap();
    assert_eq!(contributed_psbt(&replay(&log).1), Some(psbt(&[1, 2])));
}

#[test]
fn proposal_without_outputs_is_rejected() {
    let mut psbt = bitcoin_psbt(&[1]);
    psbt.unsigned_tx.output.clear();
    psbt.outputs.clear();
    let log = proposal_log(&psbt);
    let proposal = match replay(&log).0 {
        ReceiveSession::UncheckedProposal(proposal) => proposal,
        state => panic!("{:?}", state),
    };
    let proposal = proposal.assume_interactive_receiver().save(&log).unwrap();
    let proposal = check_inputs_not_owned(proposal).save(&log).unwrap();
    let proposal = check_no_inputs_seen_before(proposal).save(&log).unwrap();
    assert!(identify_receiver_outputs(proposal).save(&log).is_err());
    assert!(matches!(replay(&log).0, ReceiveSession::TerminalFailure));
}

#[test]
fn input_without_utxo_is_rejected() {
    let mut psbt = bitcoin_psbt(&[1]);
    psbt.inputs[0].witness_utxo = None;
    let proposal = match replay(&proposal_log(&psbt)).0 {
        ReceiveSession::UncheckedProposal(proposal) => proposal,
        state => panic!("{:?}", state),
    };
    let none = NoopSessionPersister::default();
    let proposal = proposal.assume_interactive_receiver().save(&none).unwrap();
    assert!(check_inputs_not_owned(proposal).save(&none).is_err());
}

/// The proposal of this log, accepted as it is and answered with a PSBT of one input.
fn answered(log: &Log) -> Receiver<PayjoinProposal> {
    let none = NoopSessionPersister::default();
    let proposal = match replay(log).0 {
        ReceiveSession::UncheckedProposal(proposal) => proposal,
        state => panic!("{:?}", state),
    };
    let proposal = proposal.assume_interactive_receiver().save(&none).unwrap();
    let proposal = check_inputs_not_owned(proposal).save(&none).unwrap();
    let proposal = check_no_inputs_seen_before(proposal).save(&none).unwrap();
    let proposal = identify_receiver_outputs(proposal).save(&none).unwrap();
    let proposal = commit_outputs(proposal).save(&none).unwrap().commit_inputs().save(&none).unwrap();
    let answer = bitcoin_psbt(&[7]);
    proposal.finalize_proposal(|_| Ok(answer.clone()), None, None).save(&none).unwrap()
}

#[test]
fn answer_to_the_sender_is_the_finalized_psbt() {
    let proposal = answered(&proposal_log(&bitcoin_psbt(&[1, 2])));
    assert_eq!(proposed_psbt(&proposal), psbt(&[7]));
}

#[test]
fn status_of_the_response_to_the_answer_decides() {
    let none = NoopSessionPersister::<SessionEvent>::default();
    let gateway = gateway();
    let log = proposal_log_with(&bitcoin_psbt(&[1, 2]), keys_of(&gateway));
    for (status, accepted) in [(0xC8, true), (0xCA, false)] {
        let mut proposal = answered(&log);
        let (request, context) = proposal.extract_req(OHTTP_RELAY).unwrap();
        let response = response(&gateway, &request.body, status);
        let result = posted_proposal(&proposal, &response, context).save(&none);
        assert_eq!(result.is_ok(), accepted);
    }
}

#[test]
fn response_to_the_answer_that_cannot_be_opened_is_an_error() {
    let none = NoopSessionPersister::<SessionEvent>::default();
    let gateway = gateway();
    let mut proposal = answered(&proposal_log_with(&bitcoin_psbt(&[1, 2]), keys_of(&gateway)));
    let (request, _) = proposal.extract_req(OHTTP_RELAY).unwrap();
    // The last is a response to another request.
    for response in [vec![], vec![0; 8192], response(&gateway, &request.body, 0xC8)] {
        let (_, context) = proposal.extract_req(OHTTP_RELAY).unwrap();
        assert!(posted_proposal(&proposal, &response, context).save(&none).is_err());
    }
}

#[test]
fn node_is_asked_for_the_transaction() {
    let tx = psbt(&[1]).unsigned_tx;
    let expected = bitcoin::consensus::encode::serialize_hex(&bitcoin_psbt(&[1]).unsigned_tx);
    assert_eq!(mempool_request(&tx), vec![expected]);
}

#[test]
fn first_answer_of_the_node_counts() {
    assert!(can_broadcast(&vec![true, false]));
    assert!(!can_broadcast(&vec![false, true]));
    assert!(!can_broadcast(&vec![]));
}

#[test]
fn directory_outcomes() {
    assert_eq!(read_from_directory(ReadOutcome::Progress), Ok(()));
    assert_eq!(read_from_directory(ReadOutcome::Stasis), Err("NoResults".to_string()));
    assert_eq!(
        read_from_directory(ReadOutcome::Rejected("bad".to_string())),
        Err("bad".to_string())
    );
    assert_eq!(
        read_from_directory(ReadOutcome::RequestFailed("down".to_string())),
        Err("down".to_string())
    );
}

fn funding() -> Transaction {
    Transaction {
        version: 2,
        lock_time: 0,
        input: vec![TxIn {
            previous_output: OutPoint { txid: [3; 32], vout: 1 },
            script_sig: vec![],
            sequence: 0,
            witness: vec![],
        }],
        output: vec![
            TxOut { value: 5, script_pubkey: script(5).to_bytes() },
            TxOut { value: 6, script_pubkey: script(6).to_bytes() },
        ],
    }
}

fn bitcoin_funding() -> bitcoin::Transaction {
    bitcoin::Transaction {
        version: bitcoin::transaction::Version::TWO,
        lock_time: bitcoin::absolute::LockTime::ZERO,
        input: vec![bitcoin::TxIn {
            previous_output: bitcoin::OutPoint::new(
                bitcoin::hashes::Hash::from_byte_array([3; 32]),
                1,
            ),
            sequence: bitcoin::Sequence(0),
            ..Default::default()
        }],
        output: vec![
            bitcoin::TxOut { value: bitcoin::Amount::from_sat(5), script_pubkey: script(5) },
            bitcoin::TxOut { value: bitcoin::Amount::from_sat(6), script_pubkey: script(6) },
        ],
    }
}

fn coin(vout: u32, is_change: bool) -> Coin {
    let txid = bitcoin::hashes::Hash::to_byte_array(bitcoin_funding().compute_txid());
    Coin { outpoint: OutPoint { txid, vout }, is_change, derivation_index: 7 + vout, tx: funding() }
}

#[test]
fn every_coin_is_a_candidate() {
    let candidates = candidate_inputs(&vec![coin(1, false), coin(0, true)], 300).unwrap();
    assert_eq!(candidates.len(), 2);
    assert_eq!(candidates[0].keychain, Keychain::Receive);
    assert_eq!(candidates[0].derivation_index, 8);
    assert_eq!(candidates[0].weight, 300);
    assert_eq!(candidates[1].keychain, Keychain::Change);
    assert_eq!(candidates[1].derivation_index, 7);
    let txin = &candidates[0].txin;
    assert_eq!(txin.previous_output, coin(1, false).outpoint);
    assert_eq!(txin.sequence, bitcoin::Sequence::ENABLE_RBF_NO_LOCKTIME.0);
    assert!(txin.script_sig.is_empty());
    assert!(txin.witness.is_empty());
    let psbtin = &candidates[0].psbtin;
    assert_eq!(psbtin.witness_utxo, Some(TxOut { value: 6, script_pubkey: script(6).to_bytes() }));
    let serialized = bitcoin::consensus::encode::serialize(&bitcoin_funding());
    assert_eq!(psbtin.non_witness_utxo, Some(serialized));
    assert!(psbtin.partial_sigs.is_empty());
    assert!(psbtin.bip32_derivation.is_empty());
    assert_eq!(candidate_inputs(&vec![], 300).unwrap().len(), 0);
}

#[test]
fn coin_without_an_output_is_an_error() {
    let result = candidate_inputs(&vec![coin(0, false), coin(2, false)], 0);
    assert_eq!(result.unwrap_err(), "invalid output index");
    let expected = bitcoin_funding().tx_out(2).unwrap_err().to_string();
    assert_eq!(expected, "invalid output index");
}

#[test]
fn candidates_are_paired_if_they_are_accepted() {
    let mut candidates = candidate_inputs(&vec![coin(0, false), coin(1, false)], 0).unwrap();
    candidates[1].psbtin.witness_utxo = Some(TxOut { value: 9, script_pubkey: vec![] });
    let pairs = input_pairs(&candidates);
    assert_eq!(pairs.len(), 2);
    assert!(pairs[0].is_some());
    assert!(pairs[1].is_none());
    let pair = format!("{:?}", pairs[0]);
    assert!(pair.contains("Sequence(0xfffffffd)"), "{}", pair);
}

#[test]
fn description_does_not_change_what_is_spent() {
    let candidates = candidate_inputs(&vec![coin(0, false), coin(1, true)], 0).unwrap();
    let mut maps = vec![Input::default(), candidates[1].psbtin.clone()];
    maps[0].witness_script = Some(vec![5]);
    maps[1].witness_utxo = Some(TxOut { value: 9, script_pubkey: vec![] });
    let described = describe_candidates(&candidates, &maps);
    assert_eq!(described.len(), 2);
    for (after, before) in described.iter().zip(&candidates) {
        assert_eq!(after.txin, before.txin);
        assert_eq!(after.keychain, before.keychain);
        assert_eq!(after.psbtin.witness_utxo, before.psbtin.witness_utxo);
        assert_eq!(after.psbtin.non_witness_utxo, before.psbtin.non_witness_utxo);
    }
    assert_eq!(described[0].psbtin.witness_script, Some(vec![5]));
    assert_eq!(described[1].psbtin.witness_script, None);
}

#[test]
fn past_sessions_are_skipped() {
    let sessions = vec![listed(1, Some(9)), listed(2, Some(10)), listed(3, None)];
    let (check, command) = payjoin_receiver_check(pass(sessions), ReceiverEvent::Clock(10));
    assert!(matches!(command, ReceiverCommand::ReadClock));
    let pass = running(check);
    assert_eq!(pass.position, 1);
    // Completed at this very moment is not in the past.
    let (_, command) = payjoin_receiver_check(pass, ReceiverEvent::Clock(10));
    match command {
        ReceiverCommand::Replay(id) => assert_eq!(id, SessionId(2)),
        command => panic!("{:?}", command),
    }
}

#[test]
fn empty_pass_is_over_at_once() {
    let (check, command) = payjoin_receiver_check(pass(vec![]), ReceiverEvent::Clock(0));
    assert!(matches!(check, ReceiverCheck::Done));
    assert_eq!(warning_of(command), None);
}

#[test]
fn broken_log_ends_the_pass() {
    let (check, _) = payjoin_receiver_check(
        pass(vec![listed(4, None), listed(5, None)]),
        ReceiverEvent::Clock(10),
    );
    let event = ReceiverEvent::Replayed(Err("ReplayError".to_string()));
    let (check, command) = payjoin_receiver_check(running(check), event);
    assert!(matches!(check, ReceiverCheck::Done));
    assert_eq!(
        warning_of(command).unwrap(),
        "process_receiver_session(): Failed to replay receiver event log: ReplayError"
    );
}

#[test]
fn unexpected_states_end_the_pass() {
    let (check, command) = replayed(ReceiverState::TerminalFailure);
    assert!(matches!(check, ReceiverCheck::Done));
    let state = ReceiveSession::TerminalFailure;
    assert_eq!(
        warning_of(command).unwrap(),
        format!("process_receiver_session(): Unexpected receiver state: {:?}", state)
    );
    let (_, command) = replayed(ReceiverState::Uninitialized);
    let log = Log { persister: ReceiverPersister::new(1), entries: RefCell::new(vec![]) };
    let state = replay(&log).0;
    assert_eq!(
        warning_of(command).unwrap(),
        format!("process_receiver_session(): Unexpected receiver state: {:?}", state)
    );
}

#[test]
fn session_runs_through_all_steps() {
    let steps = [
        ReceiverStep::ReadFromDirectory,
        ReceiverStep::CheckProposal,
        ReceiverStep::CheckInputsNotOwned,
        ReceiverStep::CheckNoInputsSeenBefore,
        ReceiverStep::IdentifyReceiverOutputs,
        ReceiverStep::CommitOutputs,
        ReceiverStep::ContributeInputs,
    ];
    let (mut check, mut command) = replayed(ReceiverState::Initialized);
    for (index, expected) in steps.iter().enumerate() {
        assert_eq!(step_of(&command), *expected);
        if index + 1 < steps.len() {
            (check, command) =
                payjoin_receiver_check(running(check), ReceiverEvent::Stepped(Ok(())));
        }
    }
    let event = ReceiverEvent::Coins { coins: vec![coin(0, false), coin(1, true)], weight: 300 };
    (check, command) = payjoin_receiver_check(running(check), event);
    let candidates = match command {
        ReceiverCommand::Describe(candidates) => candidates,
        command => panic!("{:?}", command),
    };
    assert_eq!(candidates.len(), 2);
    assert_eq!(candidates[1].keychain, Keychain::Change);
    let mut maps: Vec<Input> = candidates.iter().map(|it| it.psbtin.clone()).collect();
    maps[1].witness_script = Some(vec![5]);
    let pairs = input_pairs(&describe_candidates(&candidates, &maps));
    (check, command) = payjoin_receiver_check(running(check), ReceiverEvent::Described(maps));
    match command {
        ReceiverCommand::Select(offered) => {
            assert_eq!(format!("{:?}", offered), format!("{:?}", pairs))
        }
        command => panic!("{:?}", command),
    }
    (check, command) = payjoin_receiver_check(running(check), ReceiverEvent::Selected(1));
    match command {
        ReceiverCommand::Contribute(pair) => {
            assert!(pair.is_some());
            assert_eq!(format!("{:?}", pair), format!("{:?}", pairs[1]));
            assert_ne!(format!("{:?}", pair), format!("{:?}", pairs[0]));
        }
        command => panic!("{:?}", command),
    }
    let event = ReceiverEvent::Contributed(Ok(contribution(&[1, 2])));
    (check, command) = payjoin_receiver_check(running(check), event);
    let writes = writes_of(command);
    assert_eq!(writes.len(), 2);
    match &writes[0] {
        SessionWrite::StoreSpend(stored) => assert_eq!(*stored, psbt(&[1, 2])),
        write => panic!("{:?}", write),
    }
    assert_metadata(&writes[1], PayjoinStatus::Signing, &[1, 2]);
    assert_goes_on(check);
}

#[test]
fn coin_that_is_no_output_ends_the_pass() {
    let (check, _) = replayed(ReceiverState::WantsInputs);
    let event = ReceiverEvent::Coins { coins: vec![coin(2, false)], weight: 300 };
    let (check, command) = payjoin_receiver_check(running(check), event);
    assert!(matches!(check, ReceiverCheck::Done));
    assert_eq!(warning_of(command).unwrap(), "process_receiver_session(): invalid output index");
}

#[test]
fn each_state_starts_with_its_step() {
    let starts = vec![
        (ReceiverState::UncheckedProposal, ReceiverStep::CheckProposal),
        (ReceiverState::MaybeInputsOwned, ReceiverStep::CheckInputsNotOwned),
        (ReceiverState::MaybeInputsSeen, ReceiverStep::CheckNoInputsSeenBefore),
        (ReceiverState::OutputsUnknown, ReceiverStep::IdentifyReceiverOutputs),
        (ReceiverState::WantsOutputs, ReceiverStep::CommitOutputs),
        (ReceiverState::WantsInputs, ReceiverStep::ContributeInputs),
    ];
    for (state, expected) in starts {
        assert_eq!(step_of(&replayed(state).1), expected);
    }
}

#[test]
fn failing_step_ends_the_pass() {
    let (check, _) = replayed(ReceiverState::Initialized);
    let event = ReceiverEvent::Stepped(Err("NoResults".to_string()));
    let (check, command) = payjoin_receiver_check(running(check), event);
    assert!(matches!(check, ReceiverCheck::Done));
    assert_eq!(warning_of(command).unwrap(), "process_receiver_session(): NoResults");
    let pass = ReceiverPass {
        sessions: vec![listed(4, None)],
        position: 0,
        phase: ReceiverPhase::Contributing,
    };
    let event = ReceiverEvent::Contributed(Err("too low".to_string()));
    let outcome = process_receiver_session(pass, event);
    assert_eq!(outcome.unwrap_err(), "too low");
}

#[test]
fn provisional_proposal_waits_for_a_signature() {
    assert_goes_on(replayed(ReceiverState::ProvisionalProposal(None)).0);
    for spend in [None, Some(psbt(&[1, 2]))] {
        let state = ReceiverState::ProvisionalProposal(Some(psbt(&[1, 2])));
        let (check, command) = replayed(state);
        match command {
            ReceiverCommand::FindSpend(wanted) => assert_eq!(wanted, txid(&[1, 2])),
            command => panic!("{:?}", command),
        }
        let (check, command) = payjoin_receiver_check(running(check), ReceiverEvent::Spend(spend));
        assert!(matches!(command, ReceiverCommand::ReadClock));
        assert_goes_on(check);
    }
}

#[test]
fn signed_proposal_is_finalized_and_sent() {
    let (check, _) = replayed(ReceiverState::ProvisionalProposal(Some(psbt(&[1, 2]))));
    let mut signed = psbt(&[1, 2]);
    signed.inputs[0].partial_sigs = vec![sig()];
    let event = ReceiverEvent::Spend(Some(signed.clone()));
    let (check, command) = payjoin_receiver_check(running(check), event);
    match command {
        ReceiverCommand::Attempt { psbt, index } => {
            assert_eq!(psbt, signed);
            assert_eq!(index, 0);
        }
        command => panic!("{:?}", command),
    }
    let mut finalized = signed.inputs[0].clone();
    finalized.partial_sigs = vec![];
    finalized.final_script_witness = Some(vec![vec![1]]);
    let event = ReceiverEvent::Attempted(Some(finalized.clone()));
    let (check, command) = payjoin_receiver_check(running(check), event);
    match command {
        ReceiverCommand::Finalize { psbt, min_fee_rate, max_fee_rate } => {
            assert_eq!(psbt.inputs[0], finalized);
            assert_eq!(psbt.inputs[1], signed.inputs[1]);
            assert_eq!(psbt.unsigned_tx, signed.unsigned_tx);
            assert_eq!(min_fee_rate, None);
            assert_eq!(max_fee_rate, None);
        }
        command => panic!("{:?}", command),
    }
    let (check, command) =
        payjoin_receiver_check(running(check), ReceiverEvent::Stepped(Ok(())));
    assert!(matches!(command, ReceiverCommand::Send));
    let event = ReceiverEvent::Sent(SendOutcome::Accepted(contribution(&[1, 2])));
    let (check, command) = payjoin_receiver_check(running(check), event);
    let writes = writes_of(command);
    assert_eq!(writes.len(), 1);
    assert_metadata(&writes[0], PayjoinStatus::Completed, &[1, 2]);
    assert_goes_on(check);
}

#[test]
fn every_signed_input_is_attempted() {
    let (check, _) = replayed(ReceiverState::ProvisionalProposal(Some(psbt(&[1, 2, 3]))));
    let mut signed = psbt(&[1, 2, 3]);
    signed.inputs[0].partial_sigs = vec![sig()];
    signed.inputs[2].partial_sigs = vec![sig()];
    let event = ReceiverEvent::Spend(Some(signed.clone()));
    let (mut check, mut command) = payjoin_receiver_check(running(check), event);
    for expected in [0, 2] {
        match command {
            ReceiverCommand::Attempt { index, .. } => assert_eq!(index, expected),
            command => panic!("{:?}", command),
        }
        (check, command) = payjoin_receiver_check(running(check), ReceiverEvent::Attempted(None));
    }
    match command {
        ReceiverCommand::Finalize { psbt, .. } => assert_eq!(psbt, signed),
        command => panic!("{:?}", command),
    }
    assert!(matches!(running(check).phase, ReceiverPhase::Finalizing));
}

#[test]
fn refused_finalization_ends_the_pass() {
    let (check, _) = replayed(ReceiverState::ProvisionalProposal(Some(psbt(&[1]))));
    let mut signed = psbt(&[1]);
    signed.inputs[0].partial_sigs = vec![sig()];
    let (check, _) =
        payjoin_receiver_check(running(check), ReceiverEvent::Spend(Some(signed)));
    let (check, _) = payjoin_receiver_check(running(check), ReceiverEvent::Attempted(None));
    let event = ReceiverEvent::Stepped(Err("fee too high".to_string()));
    let (check, command) = payjoin_receiver_check(running(check), event);
    assert!(matches!(check, ReceiverCheck::Done));
    assert_eq!(warning_of(command).unwrap(), "process_receiver_session(): fee too high");
}

#[test]
fn unanswered_proposal_is_sent_another_time() {
    let (check, command) = replayed(ReceiverState::PayjoinProposal);
    assert!(matches!(command, ReceiverCommand::Send));
    let event = ReceiverEvent::Sent(SendOutcome::RequestFailed("down".to_string()));
    let (check, command) = payjoin_receiver_check(running(check), event);
    assert!(matches!(command, ReceiverCommand::ReadClock));
    assert_goes_on(check);
}

#[test]
fn rejected_proposal_ends_the_pass() {
    let (check, _) = replayed(ReceiverState::PayjoinProposal);
    let event = ReceiverEvent::Sent(SendOutcome::Rejected("bad".to_string()));
    let (check, command) = payjoin_receiver_check(running(check), event);
    assert!(matches!(check, ReceiverCheck::Done));
    assert_eq!(warning_of(command).unwrap(), "process_receiver_session(): bad");
}

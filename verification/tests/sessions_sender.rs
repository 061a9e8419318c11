use std::str::FromStr;
use std::time::Duration;

use bitcoin_ohttp::hpke::{Aead, Kdf, Kem};
use bitcoin_ohttp::{KeyConfig, Server, SymmetricSuite};
use payjoin::bitcoin;
use payjoin::persist::NoopSessionPersister;
use payjoin::receive::v2::Receiver;
use payjoin::send::v2::{Sender, SenderBuilder, WithReplyKey};
use payjoin::OhttpKeys;

use lianad_payjoin::psbt::{PartialSig, Psbt};
use lianad_payjoin::sessions::db::{SessionMetadata, SessionWrite};
use lianad_payjoin::sessions::helpers::OHTTP_RELAY;
use lianad_payjoin::sessions::sender::{
    get_proposed_payjoin_psbt, payjoin_sender_check, post_orginal_proposal, posted_original,
    process_sender_session, restore_inputs, PollOutcome, PostOutcome, SenderCheck, SenderCommand,
    SenderEvent, SenderState, SenderWork,
};
use lianad_payjoin::sessions::types::PayjoinStatus;

fn bitcoin_psbt(seeds: &[u8]) -> bitcoin::Psbt {
    let tx = bitcoin::Transaction {
        version: bitcoin::transaction::Version::TWO,
        lock_time: bitcoin::absolute::LockTime::ZERO,
        input: seeds
            .iter()
            .map(|seed| bitcoin::TxIn {
                previous_output: bitcoin::OutPoint::new(
                    bitcoin::hashes::Hash::from_byte_array([*seed; 32]),
                    0,
                ),
                ..Default::default()
            })
            .collect(),
        output: vec![],
    };
    bitcoin::Psbt::from_unsigned_tx(tx).unwrap()
}

fn plain(psbt: &bitcoin::Psbt) -> Psbt {
    Psbt::from_text(&psbt.to_string()).unwrap()
}

fn sig(mark: u8) -> PartialSig {
    PartialSig { key: vec![mark], signature: vec![] }
}

/// A PSBT whose input maps can be told apart by their witness scripts.
fn psbt(seeds: &[u8], mark: u8) -> Psbt {
    let mut psbt = plain(&bitcoin_psbt(seeds));
    for (input, seed) in psbt.inputs.iter_mut().zip(seeds) {
        input.witness_script = Some(vec![*seed, mark]);
        input.partial_sigs = vec![sig(mark)];
    }
    psbt
}

fn txid(seeds: &[u8]) -> [u8; 32] {
    bitcoin::hashes::Hash::to_byte_array(bitcoin_psbt(seeds).unsigned_tx.compute_txid())
}

fn metadata(status: PayjoinStatus, maybe_txid: Option<[u8; 32]>) -> SessionMetadata {
    SessionMetadata {
        status,
        maybe_txid,
        maybe_psbt: Some(psbt(&[1, 2], 0)),
        maybe_bip21: Some("bitcoin:address".to_string()),
    }
}

/// Takes a session to the point where its log has been replayed.
fn replayed(metadata: SessionMetadata, state: SenderState) -> (SenderCheck, SenderCommand) {
    let (check, command) = payjoin_sender_check(SenderCheck::Start(metadata), SenderEvent::Begin);
    assert!(matches!(command, SenderCommand::Replay));
    payjoin_sender_check(check, SenderEvent::Replayed(state))
}

fn writes_of(command: SenderCommand) -> Vec<SessionWrite> {
    match command {
        SenderCommand::Write(writes) => writes,
        command => panic!("{:?}", command),
    }
}

fn only(mut writes: Vec<SessionWrite>) -> SessionWrite {
    assert_eq!(writes.len(), 1);
    writes.remove(0)
}

/// A gateway through which the directory answers.
fn gateway() -> Server {
    let suite = SymmetricSuite::new(Kdf::HkdfSha256, Aead::ChaCha20Poly1305);
    Server::new(KeyConfig::new(1, Kem::K256Sha256, vec![suite]).unwrap()).unwrap()
}

fn keys_of(gateway: &Server) -> OhttpKeys {
    OhttpKeys::decode(&gateway.config().encode().unwrap()).unwrap()
}

/// The encrypted response to a request, with this status and nothing else.
fn response(gateway: &Server, request: &[u8], status: u8) -> Vec<u8> {
    let (_, response) = gateway.decapsulate(request).unwrap();
    // A message of known length, its status, and three empty parts behind it.
    let mut message = vec![1, 0x40, status, 0, 0, 0];
    message.resize(8192 - 48, 0);
    response.encapsulate(&message).unwrap()
}

/// A sender to an address of a receiver.
fn sender(keys: OhttpKeys) -> Sender<WithReplyKey> {
    let address = bitcoin::Address::from_str("tb1q6d3a2w975yny0asuvd9a67ner4nks58ff0q8g4")
        .unwrap()
        .assume_checked();
    let uri = Receiver::create_session(
        address.clone(),
        "https://example.com",
        keys,
        Some(Duration::from_secs(600)),
    )
    .save(&NoopSessionPersister::default())
    .unwrap()
    .pj_uri();
    let mut psbt = bitcoin_psbt(&[1]);
    psbt.unsigned_tx.output.push(bitcoin::TxOut {
        value: bitcoin::Amount::from_sat(40_000),
        script_pubkey: address.script_pubkey(),
    });
    psbt.outputs.push(Default::default());
    psbt.inputs[0].witness_utxo = Some(bitcoin::TxOut {
        value: bitcoin::Amount::from_sat(50_000),
        script_pubkey: address.script_pubkey(),
    });
    psbt.inputs[0].final_script_witness =
        Some(bitcoin::Witness::from_slice(&[vec![1u8; 72], vec![2u8; 33]]));
    SenderBuilder::new(psbt, uri)
        .build_recommended(bitcoin::FeeRate::BROADCAST_MIN)
        .save(&NoopSessionPersister::default())
        .unwrap()
}

#[test]
fn response_that_cannot_be_opened_is_an_error() {
    let none = NoopSessionPersister::default();
    for response in [vec![], vec![0; 8192]] {
        let sender = sender(keys_of(&gateway()));
        let (_, context) = sender.extract_v2(OHTTP_RELAY).unwrap();
        assert!(posted_original(sender, &response, context).save(&none).is_err());
    }
}

#[test]
fn status_of_the_response_decides() {
    let none = NoopSessionPersister::default();
    let gateway = gateway();
    for (status, accepted) in [(0xC8, true), (0xCA, false)] {
        let sender = sender(keys_of(&gateway));
        let (request, context) = sender.extract_v2(OHTTP_RELAY).unwrap();
        let response = response(&gateway, &request.body, status);
        let result = posted_original(sender, &response, context).save(&none);
        assert_eq!(result.is_ok(), accepted);
    }
}

#[test]
fn response_to_another_request_is_an_error() {
    let none = NoopSessionPersister::default();
    let gateway = gateway();
    let sender = sender(keys_of(&gateway));
    let (request, _) = sender.extract_v2(OHTTP_RELAY).unwrap();
    let (_, context) = sender.extract_v2(OHTTP_RELAY).unwrap();
    let response = response(&gateway, &request.body, 0xC8);
    assert!(posted_original(sender, &response, context).save(&none).is_err());
}

#[test]
fn polling_outcomes() {
    let proposal = psbt(&[1], 0);
    let progress = get_proposed_payjoin_psbt(PollOutcome::Progress(proposal.clone()));
    assert_eq!(progress, Ok(Some(proposal)));
    assert_eq!(get_proposed_payjoin_psbt(PollOutcome::Stasis), Ok(None));
    assert_eq!(
        get_proposed_payjoin_psbt(PollOutcome::Rejected("bad".to_string())),
        Err("Response error: bad".to_string())
    );
    assert_eq!(
        get_proposed_payjoin_psbt(PollOutcome::RequestFailed("down".to_string())),
        Err("down".to_string())
    );
}

#[test]
fn posting_outcomes() {
    assert_eq!(post_orginal_proposal(PostOutcome::Accepted), Ok(()));
    assert_eq!(
        post_orginal_proposal(PostOutcome::Rejected("bad".to_string())),
        Err("bad".to_string())
    );
    assert_eq!(
        post_orginal_proposal(PostOutcome::RequestFailed("down".to_string())),
        Err("down".to_string())
    );
}

#[test]
fn work_depends_on_the_state() {
    assert!(matches!(process_sender_session(SenderState::WithReplyKey), SenderWork::PostOriginal));
    assert!(matches!(process_sender_session(SenderState::V2GetContext), SenderWork::PollProposal));
    match process_sender_session(SenderState::ProposalReceived(psbt(&[1], 0))) {
        SenderWork::Settled(outcome) => assert_eq!(outcome, Ok(Some(psbt(&[1], 0)))),
        work => panic!("{:?}", work),
    }
    for state in [SenderState::Uninitialized, SenderState::TerminalFailure] {
        match process_sender_session(state) {
            SenderWork::Settled(outcome) => {
                assert_eq!(outcome, Err("Unexpected sender state".to_string()))
            }
            work => panic!("{:?}", work),
        }
    }
}

#[test]
fn completed_session_is_left_alone() {
    let start = SenderCheck::Start(metadata(PayjoinStatus::Completed, None));
    let (check, command) = payjoin_sender_check(start, SenderEvent::Begin);
    assert!(matches!(check, SenderCheck::Done));
    assert!(matches!(command, SenderCommand::Finish(None)));
}

#[test]
fn failed_and_signing_sessions_are_only_replayed() {
    for status in [PayjoinStatus::Failed, PayjoinStatus::Signing] {
        let (check, command) = replayed(metadata(status, None), SenderState::V2GetContext);
        assert!(matches!(check, SenderCheck::Done));
        assert!(matches!(command, SenderCommand::Finish(None)));
    }
}

#[test]
fn pending_session_waits_whatever_came_of_posting() {
    for posted in [Ok(()), Err("down".to_string())] {
        let (check, command) =
            replayed(metadata(PayjoinStatus::Pending, Some([5; 32])), SenderState::WithReplyKey);
        assert!(matches!(command, SenderCommand::PostOriginal));
        let (check, command) = payjoin_sender_check(check, SenderEvent::Posted(posted));
        assert!(matches!(check, SenderCheck::Done));
        match only(writes_of(command)) {
            SessionWrite::UpdateMetadata(update) => {
                assert_eq!(update.status, PayjoinStatus::WaitingReceiver);
                assert_eq!(update.maybe_txid, Some([5; 32]));
                assert_eq!(update.maybe_psbt, Some(psbt(&[1, 2], 0)));
                assert_eq!(update.maybe_bip21, Some("bitcoin:address".to_string()));
            }
            write => panic!("{:?}", write),
        }
    }
}

#[test]
fn pending_session_in_an_unexpected_state_is_warned_of() {
    let (check, command) =
        replayed(metadata(PayjoinStatus::Pending, None), SenderState::Uninitialized);
    assert!(matches!(check, SenderCheck::Done));
    match command {
        SenderCommand::Finish(warning) => assert_eq!(
            warning,
            Some("process_sender_session(): Unexpected sender state".to_string())
        ),
        command => panic!("{:?}", command),
    }
}

#[test]
fn waiting_session_in_an_unexpected_state_is_warned_of() {
    let (_, command) =
        replayed(metadata(PayjoinStatus::WaitingReceiver, None), SenderState::TerminalFailure);
    match command {
        SenderCommand::Finish(warning) => assert_eq!(
            warning,
            Some("payjoin_sender_check(): Unexpected sender state".to_string())
        ),
        command => panic!("{:?}", command),
    }
}

#[test]
fn waiting_session_without_a_proposal_goes_on_waiting() {
    let (check, command) =
        replayed(metadata(PayjoinStatus::WaitingReceiver, Some([5; 32])), SenderState::V2GetContext);
    assert!(matches!(command, SenderCommand::PollProposal));
    let (check, command) = payjoin_sender_check(check, SenderEvent::Polled(PollOutcome::Stasis));
    assert!(matches!(check, SenderCheck::Done));
    assert!(matches!(command, SenderCommand::Finish(None)));
}

#[test]
fn rejected_poll_is_warned_of() {
    let (check, _) =
        replayed(metadata(PayjoinStatus::WaitingReceiver, Some([5; 32])), SenderState::V2GetContext);
    let rejected = PollOutcome::Rejected("expired".to_string());
    let (_, command) = payjoin_sender_check(check, SenderEvent::Polled(rejected));
    match command {
        SenderCommand::Finish(warning) => assert_eq!(
            warning,
            Some("payjoin_sender_check(): Response error: expired".to_string())
        ),
        command => panic!("{:?}", command),
    }
}

#[test]
fn proposal_without_a_stored_id_is_not_taken_over() {
    let (check, command) = replayed(
        metadata(PayjoinStatus::WaitingReceiver, None),
        SenderState::ProposalReceived(psbt(&[1, 3], 9)),
    );
    assert!(matches!(check, SenderCheck::Done));
    assert!(matches!(command, SenderCommand::Finish(None)));
}

#[test]
fn proposal_for_an_unknown_psbt_is_not_taken_over() {
    let (check, command) = replayed(
        metadata(PayjoinStatus::WaitingReceiver, Some([5; 32])),
        SenderState::ProposalReceived(psbt(&[1, 3], 9)),
    );
    match command {
        SenderCommand::FindSpend(wanted) => assert_eq!(wanted, [5; 32]),
        command => panic!("{:?}", command),
    }
    let (check, command) = payjoin_sender_check(check, SenderEvent::Spend(None));
    assert!(matches!(check, SenderCheck::Done));
    assert!(matches!(command, SenderCommand::Finish(None)));
}

#[test]
fn proposal_completes_a_waiting_session() {
    let (check, _) =
        replayed(metadata(PayjoinStatus::WaitingReceiver, Some([5; 32])), SenderState::V2GetContext);
    let progress = PollOutcome::Progress(psbt(&[3, 1], 9));
    let (check, command) = payjoin_sender_check(check, SenderEvent::Polled(progress));
    assert!(matches!(command, SenderCommand::FindSpend(_)));
    let (check, command) =
        payjoin_sender_check(check, SenderEvent::Spend(Some(psbt(&[1, 2], 4))));
    assert!(matches!(check, SenderCheck::Done));
    let mut writes = writes_of(command).into_iter();
    match writes.next() {
        Some(SessionWrite::DeleteSpend(replaced)) => assert_eq!(replaced, [5; 32]),
        write => panic!("{:?}", write),
    }
    let stored = match writes.next() {
        Some(SessionWrite::StoreSpend(psbt)) => psbt,
        write => panic!("{:?}", write),
    };
    assert_eq!(stored.unsigned_tx, psbt(&[3, 1], 9).unsigned_tx);
    // The peer's input is as it was proposed.
    assert_eq!(stored.inputs[0], psbt(&[3], 9).inputs[0]);
    // The wallet's own input has its map back, without the signature.
    assert_eq!(stored.inputs[1].witness_script, Some(vec![1, 4]));
    assert!(stored.inputs[1].partial_sigs.is_empty());
    match writes.next() {
        Some(SessionWrite::UpdateMetadata(metadata)) => {
            assert_eq!(metadata.status, PayjoinStatus::Completed);
            assert_eq!(metadata.maybe_txid, Some(txid(&[3, 1])));
            assert_eq!(metadata.maybe_bip21, Some("bitcoin:address".to_string()));
            assert_eq!(metadata.maybe_psbt, Some(stored));
        }
        write => panic!("{:?}", write),
    }
    assert!(writes.next().is_none());
}

#[test]
fn restoring_is_idempotent() {
    let original = psbt(&[1, 2], 4);
    let mut once = psbt(&[2, 3, 1], 9);
    restore_inputs(&mut once, &original);
    let mut twice = once.clone();
    restore_inputs(&mut twice, &original);
    assert_eq!(once, twice);
    assert_eq!(once.inputs[0].witness_script, Some(vec![2, 4]));
    assert_eq!(once.inputs[1].witness_script, Some(vec![3, 9]));
    assert_eq!(once.inputs[1].partial_sigs, vec![sig(9)]);
    assert_eq!(once.inputs[2].witness_script, Some(vec![1, 4]));
}

#[test]
fn last_of_equal_inputs_is_restored() {
    let mut original = psbt(&[1, 1], 4);
    original.inputs[1].witness_script = Some(vec![8]);
    let mut proposal = psbt(&[1], 9);
    restore_inputs(&mut proposal, &original);
    assert_eq!(proposal.inputs[0].witness_script, Some(vec![8]));
}

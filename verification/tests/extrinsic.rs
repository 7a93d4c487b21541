use advanca::advanca::AdvancaRuntime;
use advanca::codec::{from_bytes, to_bytes};
use advanca::event::EventRecord;
use advanca::extrinsic::{
    events_of, start, step, Action, BlockEvent, Envelope, Mortality, Rejection, Reply,
    SigningPayload, Submission, SubmitError, TxStatus,
};
use advanca::primitives::{AccountId32, H256};

type State = Submission<AdvancaRuntime>;
type Do = Action<AdvancaRuntime>;
type Got = Reply<AdvancaRuntime>;

fn record(n: u8) -> EventRecord {
    EventRecord { module_index: n, event_index: n, payload: vec![n] }
}

fn block_events() -> Vec<BlockEvent> {
    vec![
        BlockEvent { extrinsic: Some(0), record: record(1) },
        BlockEvent { extrinsic: Some(2), record: record(2) },
        BlockEvent { extrinsic: None, record: record(3) },
        BlockEvent { extrinsic: Some(2), record: record(4) },
        BlockEvent { extrinsic: Some(1), record: record(5) },
    ]
}

fn watching() -> State {
    let (state, _) = start::<AdvancaRuntime>(vec![9, 1], Mortality::Immortal, 0);
    let (state, _) = step(state, Got::Nonce(3));
    let (state, _) =
        step(state, Got::Signed { signer: AccountId32([1; 32]), signature: vec![7; 64] });
    state
}

#[test]
fn a_submission_begins_by_asking_for_the_nonce() {
    let (state, action) = start::<AdvancaRuntime>(vec![9, 1], Mortality::Immortal, 5);
    assert_eq!(
        state,
        State::AwaitingNonce { call: vec![9, 1], mortality: Mortality::Immortal, tip: 5 }
    );
    assert_eq!(action, Do::QueryNonce);
}

#[test]
fn the_payload_holds_call_nonce_mortality_and_tip() {
    let mortality = Mortality::Mortal { birth: 100, period: 64 };
    let (state, _) = start::<AdvancaRuntime>(vec![9, 1, 2], mortality, 5);
    let (state, action) = step(state, Got::Nonce(42));
    assert_eq!(
        action,
        Do::Sign(SigningPayload { call: vec![9, 1, 2], nonce: 42, mortality, tip: 5 })
    );
    assert_eq!(
        state,
        State::AwaitingSignature { call: vec![9, 1, 2], nonce: 42, mortality, tip: 5 }
    );
}

#[test]
fn the_envelope_holds_signer_signature_and_payload() {
    let mortality = Mortality::Mortal { birth: 100, period: 64 };
    let (state, _) = start::<AdvancaRuntime>(vec![9, 1, 2], mortality, 5);
    let (state, _) = step(state, Got::Nonce(42));
    let signer = AccountId32([1; 32]);
    let (state, action) =
        step(state, Got::Signed { signer: signer.clone(), signature: vec![7; 64] });
    assert_eq!(
        action,
        Do::Submit(Envelope {
            signer,
            signature: vec![7; 64],
            nonce: 42,
            mortality,
            tip: 5,
            call: vec![9, 1, 2],
        })
    );
    assert_eq!(state, State::Watching);
}

#[test]
fn an_unavailable_nonce_is_a_transport_error() {
    let (state, _) = start::<AdvancaRuntime>(vec![9, 1], Mortality::Immortal, 0);
    let (state, action) = step(state, Got::NonceUnavailable);
    assert_eq!(state, State::Closed);
    assert_eq!(action, Do::Finish(Err(SubmitError::Transport)));
}

#[test]
fn ready_keeps_waiting() {
    let (state, action) = step(watching(), Got::Status(TxStatus::Ready));
    assert_eq!(state, State::Watching);
    assert_eq!(action, Do::Wait);
}

#[test]
fn inclusion_asks_for_the_events_of_the_block() {
    let block = H256([8; 32]);
    let (state, action) = step(watching(), Got::Status(TxStatus::InBlock(block)));
    assert_eq!(state, State::AwaitingEvents { block });
    assert_eq!(action, Do::FetchEvents(block));
    let (state, action) = step(watching(), Got::Status(TxStatus::Finalized(block)));
    assert_eq!(state, State::AwaitingEvents { block });
    assert_eq!(action, Do::FetchEvents(block));
}

#[test]
fn a_rejection_is_a_submission_error() {
    let (state, action) = step(watching(), Got::Status(TxStatus::Invalid));
    assert_eq!(state, State::Closed);
    assert_eq!(action, Do::Finish(Err(SubmitError::Submission(Rejection::Invalid))));
    let (state, action) = step(watching(), Got::Status(TxStatus::Dropped));
    assert_eq!(state, State::Closed);
    assert_eq!(action, Do::Finish(Err(SubmitError::Submission(Rejection::Dropped))));
}

#[test]
fn a_lost_connection_is_a_transport_error_in_every_phase() {
    let (nonce, _) = start::<AdvancaRuntime>(vec![9, 1], Mortality::Immortal, 0);
    let (signature, _) = step(nonce.clone(), Got::Nonce(0));
    let (events, _) = step(watching(), Got::Status(TxStatus::InBlock(H256([8; 32]))));
    for state in [nonce, signature, watching(), events] {
        let (state, action) = step(state, Got::Disconnected);
        assert_eq!(state, State::Closed);
        assert_eq!(action, Do::Finish(Err(SubmitError::Transport)));
    }
}

#[test]
fn a_reply_that_was_not_asked_for_is_a_transport_error() {
    let (state, _) = start::<AdvancaRuntime>(vec![9, 1], Mortality::Immortal, 0);
    let (state, action) = step(state, Got::Status(TxStatus::Ready));
    assert_eq!(state, State::Closed);
    assert_eq!(action, Do::Finish(Err(SubmitError::Transport)));
    let (state, action) = step(watching(), Got::Nonce(1));
    assert_eq!(state, State::Closed);
    assert_eq!(action, Do::Finish(Err(SubmitError::Transport)));
    let (state, action) = step(watching(), Got::Block { position: 0, events: vec![] });
    assert_eq!(state, State::Closed);
    assert_eq!(action, Do::Finish(Err(SubmitError::Transport)));
}

#[test]
fn the_events_of_the_extrinsic_end_the_submission() {
    let block = H256([8; 32]);
    let (state, _) = step(watching(), Got::Status(TxStatus::InBlock(block)));
    let (state, action) = step(state, Got::Status(TxStatus::Finalized(block)));
    assert_eq!(state, State::AwaitingEvents { block });
    assert_eq!(action, Do::Wait);
    let (state, action) = step(state, Got::Block { position: 2, events: block_events() });
    assert_eq!(state, State::Closed);
    assert_eq!(action, Do::Finish(Ok(vec![record(2), record(4)])));
}

#[test]
fn a_closed_submission_stays_closed() {
    let (state, _) = step(watching(), Got::Status(TxStatus::Invalid));
    let (state, action) = step(state, Got::Status(TxStatus::InBlock(H256([8; 32]))));
    assert_eq!(state, State::Closed);
    assert_eq!(action, Do::Stop);
    let (state, action) = step(state, Got::Disconnected);
    assert_eq!(state, State::Closed);
    assert_eq!(action, Do::Stop);
}

#[test]
fn events_of_keeps_the_order_of_the_block() {
    let events = block_events();
    assert_eq!(events_of(&events, 2), vec![record(2), record(4)]);
    assert_eq!(events_of(&events, 0), vec![record(1)]);
    assert_eq!(events_of(&events, 1), vec![record(5)]);
    assert_eq!(events_of(&events, 3), vec![]);
    assert_eq!(events_of(&[], 0), vec![]);
}

#[test]
fn mortality_bytes() {
    assert_eq!(to_bytes(&Mortality::<u32>::Immortal), vec![0]);
    let mortal = Mortality::Mortal { birth: 100u32, period: 64u32 };
    assert_eq!(to_bytes(&mortal), vec![1, 100, 0, 0, 0, 64, 0, 0, 0]);
    assert_eq!(from_bytes::<Mortality<u32>>(&[0]), Some(Mortality::Immortal));
    assert_eq!(from_bytes::<Mortality<u32>>(&[1, 100, 0, 0, 0, 64, 0, 0, 0]), Some(mortal));
    assert_eq!(from_bytes::<Mortality<u32>>(&[]), None);
    assert_eq!(from_bytes::<Mortality<u32>>(&[2]), None);
    assert_eq!(from_bytes::<Mortality<u32>>(&[1, 100, 0, 0, 0, 64, 0, 0]), None);
    assert_eq!(from_bytes::<Mortality<u32>>(&[0, 0]), None);
}

#[test]
fn signing_payload_bytes() {
    let payload = SigningPayload::<AdvancaRuntime> {
        call: vec![9, 1, 2],
        nonce: 42,
        mortality: Mortality::Immortal,
        tip: 5,
    };
    let mut expected = vec![12, 9, 1, 2, 42, 0, 0, 0, 0, 5];
    expected.extend_from_slice(&[0u8; 15]);
    assert_eq!(to_bytes(&payload), expected);
    assert_eq!(from_bytes::<SigningPayload<AdvancaRuntime>>(&expected), Some(payload));
    assert_eq!(from_bytes::<SigningPayload<AdvancaRuntime>>(&expected[..24]), None);
}

#[test]
fn envelope_bytes() {
    let envelope = Envelope::<AdvancaRuntime> {
        signer: AccountId32([0xa1; 32]),
        signature: vec![7; 64],
        nonce: 42,
        mortality: Mortality::Mortal { birth: 100, period: 64 },
        tip: 5,
        call: vec![9, 1, 2],
    };
    let mut expected = vec![0xa1; 32];
    expected.extend_from_slice(&[0x01, 0x01]);
    expected.extend_from_slice(&[7; 64]);
    expected.extend_from_slice(&[42, 0, 0, 0]);
    expected.extend_from_slice(&[1, 100, 0, 0, 0, 64, 0, 0, 0]);
    expected.push(5);
    expected.extend_from_slice(&[0u8; 15]);
    expected.extend_from_slice(&[12, 9, 1, 2]);
    assert_eq!(to_bytes(&envelope), expected);
    assert_eq!(from_bytes::<Envelope<AdvancaRuntime>>(&expected), Some(envelope));
    expected.push(0);
    assert_eq!(from_bytes::<Envelope<AdvancaRuntime>>(&expected), None);
}

//! Submitting a call and watching for its inclusion, as decisions. The
//! transport and the signer are outside this library: a driver performs the
//! action that a step asks for and hands back what came of it. One
//! submission owns one state; nothing is shared between submissions.

use crate::codec::{Decode, Encode};
use crate::event::{records_view, EventRecord, Record};
use crate::frame::balances::Balances;
use crate::frame::system::System;
use vstd::prelude::*;
use vstd::slice::{slice_subrange, slice_to_vec};

verus! {

/// How long a signed call stays valid. On the wire it is one byte, 0 for
/// immortal, or the byte 1 followed by the birth block and the period.
#[derive(Clone, Copy, Debug, PartialEq, Eq)]
pub enum Mortality<N> {
    /// For ever.
    Immortal,
    /// For `period` blocks from the block `birth` on.
    Mortal { birth: N, period: N },
}

/// What the signer signs: the encoded call with the nonce, the mortality
/// and the tip. Its byte form is that of its fields in order, the call as a
/// byte string with its length.
#[derive(Clone, Debug, PartialEq, Eq)]
pub struct SigningPayload<T: Balances> {
    pub call: Vec<u8>,
    pub nonce: <T as System>::Index,
    pub mortality: Mortality<<T as System>::BlockNumber>,
    pub tip: <T as Balances>::Balance,
}

/// The signed wrapper around an encoded call that goes to the transport.
/// Its byte form is that of its fields in order, the signature and the call
/// as byte strings with their lengths.
#[derive(Clone, Debug, PartialEq, Eq)]
pub struct Envelope<T: Balances> {
    pub signer: <T as System>::AccountId,
    pub signature: Vec<u8>,
    pub nonce: <T as System>::Index,
    pub mortality: Mortality<<T as System>::BlockNumber>,
    pub tip: <T as Balances>::Balance,
    pub call: Vec<u8>,
}

impl<N: Encode> Encode for Mortality<N> {
    type Value = Mortality<N::Value>;

    open spec fn value(&self) -> Self::Value {
        match *self {
            Mortality::Immortal => Mortality::Immortal,
            Mortality::Mortal { birth, period } => Mortality::Mortal {
                birth: birth.value(),
                period: period.value(),
            },
        }
    }

    open spec fn valid(v: Self::Value) -> bool {
        match v {
            Mortality::Immortal => true,
            Mortality::Mortal { birth, period } => <(N, N)>::valid((birth, period)),
        }
    }

    open spec fn wire(v: Self::Value) -> Seq<u8> {
        match v {
            Mortality::Immortal => seq![0u8],
            Mortality::Mortal { birth, period } => seq![1u8] + <(N, N)>::wire((birth, period)),
        }
    }

    fn encodable(&self) -> (ok: bool) {
        match self {
            Mortality::Immortal => true,
            Mortality::Mortal { birth, period } => birth.encodable() && period.encodable(),
        }
    }

    fn encode_to(&self, out: &mut Vec<u8>) {
        match self {
            Mortality::Immortal => {
                out.push(0);
            },
            Mortality::Mortal { birth, period } => {
                out.push(1);
                birth.encode_to(out);
                period.encode_to(out);
            },
        }
    }
}

impl<N: Decode> Decode for Mortality<N> {
    open spec fn parse(s: Seq<u8>) -> Option<(Self::Value, nat)> {
        if s.len() == 0 {
            None
        } else if s[0] == 0 {
            Some((Mortality::Immortal, 1))
        } else if s[0] == 1 {
            match <(N, N)>::parse(s.skip(1)) {
                Some((span, used)) => Some(
                    (Mortality::Mortal { birth: span.0, period: span.1 }, 1 + used),
                ),
                None => None,
            }
        } else {
            None
        }
    }

    proof fn lemma_parse_of_wire(v: Self::Value, rest: Seq<u8>) {
        if let Mortality::Mortal { birth, period } = v {
            let body = <(N, N)>::wire((birth, period));
            <(N, N)>::lemma_parse_of_wire((birth, period), rest);
            assert((Self::wire(v) + rest).skip(1) =~= body + rest);
        }
    }

    proof fn lemma_wire_of_parse(s: Seq<u8>) {
        if s.len() > 0 && s[0] == 1 {
            <(N, N)>::lemma_wire_of_parse(s.skip(1));
        }
    }

    fn decode(input: &[u8]) -> (r: Option<(Self, usize)>) {
        if input.len() == 0 {
            None
        } else if input[0] == 0 {
            Some((Mortality::Immortal, 1))
        } else if input[0] == 1 {
            let body = slice_subrange(input, 1, input.len());
            match <(N, N)>::decode(body) {
                Some(((birth, period), used)) => {
                    proof {
                        <(N, N)>::lemma_wire_of_parse(body@);
                    }
                    Some((Mortality::Mortal { birth, period }, 1 + used))
                },
                None => None,
            }
        } else {
            None
        }
    }
}

/// The field types of a signing payload, in wire order.
pub type PayloadFields<T> = (
    (Vec<u8>, <T as System>::Index),
    (Mortality<<T as System>::BlockNumber>, <T as Balances>::Balance),
);

impl<T: Balances> Encode for SigningPayload<T> {
    type Value = <PayloadFields<T> as Encode>::Value;

    open spec fn value(&self) -> Self::Value {
        ((self.call.value(), self.nonce.value()), (self.mortality.value(), self.tip.value()))
    }

    open spec fn valid(v: Self::Value) -> bool {
        <PayloadFields<T>>::valid(v)
    }

    open spec fn wire(v: Self::Value) -> Seq<u8> {
        <PayloadFields<T>>::wire(v)
    }

    fn encodable(&self) -> (ok: bool) {
        self.call.encodable() && self.nonce.encodable() && self.mortality.encodable()
            && self.tip.encodable()
    }

    fn encode_to(&self, out: &mut Vec<u8>) {
        self.call.encode_to(out);
        self.nonce.encode_to(out);
        self.mortality.encode_to(out);
        self.tip.encode_to(out);
    }
}

impl<T: Balances> Decode for SigningPayload<T> {
    open spec fn parse(s: Seq<u8>) -> Option<(Self::Value, nat)> {
        <PayloadFields<T>>::parse(s)
    }

    proof fn lemma_parse_of_wire(v: Self::Value, rest: Seq<u8>) {
        <PayloadFields<T>>::lemma_parse_of_wire(v, rest);
    }

    proof fn lemma_wire_of_parse(s: Seq<u8>) {
        <PayloadFields<T>>::lemma_wire_of_parse(s);
    }

    fn decode(input: &[u8]) -> (r: Option<(Self, usize)>) {
        match <PayloadFields<T>>::decode(input) {
            Some((((call, nonce), (mortality, tip)), used)) => Some(
                (SigningPayload { call, nonce, mortality, tip }, used),
            ),
            None => None,
        }
    }
}

/// The field types of an envelope, in wire order.
pub type EnvelopeFields<T> = (
    (<T as System>::AccountId, Vec<u8>, <T as System>::Index),
    (Mortality<<T as System>::BlockNumber>, <T as Balances>::Balance, Vec<u8>),
);

impl<T: Balances> Encode for Envelope<T> {
    type Value = <EnvelopeFields<T> as Encode>::Value;

    open spec fn value(&self) -> Self::Value {
        (
            (self.signer.value(), self.signature.value(), self.nonce.value()),
            (self.mortality.value(), self.tip.value(), self.call.value()),
        )
    }

    open spec fn valid(v: Self::Value) -> bool {
        <EnvelopeFields<T>>::valid(v)
    }

    open spec fn wire(v: Self::Value) -> Seq<u8> {
        <EnvelopeFields<T>>::wire(v)
    }

    fn encodable(&self) -> (ok: bool) {
        self.signer.encodable() && self.signature.encodable() && self.nonce.encodable()
            && self.mortality.encodable() && self.tip.encodable() && self.call.encodable()
    }

    fn encode_to(&self, out: &mut Vec<u8>) {
        self.signer.encode_to(out);
        self.signature.encode_to(out);
        self.nonce.encode_to(out);
        self.mortality.encode_to(out);
        self.tip.encode_to(out);
        self.call.encode_to(out);
    }
}

impl<T: Balances> Decode for Envelope<T> {
    open spec fn parse(s: Seq<u8>) -> Option<(Self::Value, nat)> {
        <EnvelopeFields<T>>::parse(s)
    }

    proof fn lemma_parse_of_wire(v: Self::Value, rest: Seq<u8>) {
        <EnvelopeFields<T>>::lemma_parse_of_wire(v, rest);
    }

    proof fn lemma_wire_of_parse(s: Seq<u8>) {
        <EnvelopeFields<T>>::lemma_wire_of_parse(s);
    }

    fn decode(input: &[u8]) -> (r: Option<(Self, usize)>) {
        match <EnvelopeFields<T>>::decode(input) {
            Some((((signer, signature, nonce), (mortality, tip, call)), used)) => Some(
                (Envelope { signer, signature, nonce, mortality, tip, call }, used),
            ),
            None => None,
        }
    }
}

/// A notification of the transport about a submitted envelope.
#[derive(Clone, Copy, Debug, PartialEq, Eq)]
pub enum TxStatus<H> {
    /// The transport took the envelope.
    Ready,
    /// The block with this hash holds the envelope.
    InBlock(H),
    /// The block with this hash holds the envelope and is final.
    Finalized(H),
    /// The ledger found the envelope invalid.
    Invalid,
    /// The ledger dropped the envelope.
    Dropped,
}

/// Why the ledger did not take an envelope.
#[derive(Clone, Copy, Debug, PartialEq, Eq, Structural)]
pub enum Rejection {
    Invalid,
    Dropped,
}

/// How a submission failed.
#[derive(Clone, Copy, Debug, PartialEq, Eq, Structural)]
pub enum SubmitError {
    /// The connection was lost, or the transport did not answer what was
    /// asked.
    Transport,
    /// The ledger rejected the envelope.
    Submission(Rejection),
}

/// An event of a block, with the position in the block of the extrinsic
/// that it came from, if it came from one.
#[derive(Clone, Debug, PartialEq, Eq)]
pub struct BlockEvent {
    pub extrinsic: Option<u32>,
    pub record: EventRecord,
}

/// What the driver reports back.
#[derive(Clone, Debug, PartialEq, Eq)]
pub enum Reply<T: Balances> {
    /// The signer's current nonce.
    Nonce(<T as System>::Index),
    /// The account state could not be read.
    NonceUnavailable,
    /// The signer's identity and its signature of the payload.
    Signed { signer: <T as System>::AccountId, signature: Vec<u8> },
    /// A notification of the status subscription.
    Status(TxStatus<<T as System>::Hash>),
    /// The events of the block that holds the envelope, and the envelope's
    /// position in that block.
    Block { position: u32, events: Vec<BlockEvent> },
    /// The connection was lost, or the subscription ended.
    Disconnected,
}

/// What the driver is to do next.
#[derive(Debug, PartialEq, Eq)]
pub enum Action<T: Balances> {
    /// Read the signer's current nonce.
    QueryNonce,
    /// Have the signer sign the payload.
    Sign(SigningPayload<T>),
    /// Hand the envelope to the transport and subscribe to its status.
    Submit(Envelope<T>),
    /// Wait for the next notification.
    Wait,
    /// Read the events of the block.
    FetchEvents(<T as System>::Hash),
    /// The submission ended, with the events of the call or with an error.
    Finish(Result<Vec<EventRecord>, SubmitError>),
    /// The submission had ended before.
    Stop,
}

/// The state of one submission.
#[derive(Clone, Debug, PartialEq, Eq)]
pub enum Submission<T: Balances> {
    /// The signer's nonce was asked for.
    AwaitingNonce {
        call: Vec<u8>,
        mortality: Mortality<<T as System>::BlockNumber>,
        tip: <T as Balances>::Balance,
    },
    /// The payload is with the signer.
    AwaitingSignature {
        call: Vec<u8>,
        nonce: <T as System>::Index,
        mortality: Mortality<<T as System>::BlockNumber>,
        tip: <T as Balances>::Balance,
    },
    /// The envelope is with the transport, and its status is watched.
    Watching,
    /// A block holds the envelope, and the events of the block were asked
    /// for.
    AwaitingEvents { block: <T as System>::Hash },
    /// The submission ended.
    Closed,
}

/// The records of `events` that came from the extrinsic at `position`, in
/// emission order.
pub open spec fn own_records(events: Seq<BlockEvent>, position: u32) -> Seq<Record>
    decreases events.len(),
{
    if events.len() == 0 {
        Seq::empty()
    } else if events.last().extrinsic == Some(position) {
        own_records(events.drop_last(), position).push(events.last().record@)
    } else {
        own_records(events.drop_last(), position)
    }
}

/// Whether a submission ends in failure with `error`.
pub open spec fn fails_with<T: Balances>(
    after: Submission<T>,
    action: Action<T>,
    error: SubmitError,
) -> bool {
    after is Closed && action == Action::<T>::Finish(Err(error))
}

/// Whether `after` and `action` are the state and the action that follow
/// when a submission in the state `before` gets the reply `reply`.
pub open spec fn follows<T: Balances>(
    before: Submission<T>,
    reply: Reply<T>,
    after: Submission<T>,
    action: Action<T>,
) -> bool {
    match before {
        Submission::AwaitingNonce { call, mortality, tip } => match reply {
            Reply::Nonce(nonce) => after == (Submission::<T>::AwaitingSignature {
                call,
                nonce,
                mortality,
                tip,
            }) && action is Sign && action->Sign_0.call@ == call@ && action->Sign_0.nonce == nonce
                && action->Sign_0.mortality == mortality && action->Sign_0.tip == tip,
            _ => fails_with(after, action, SubmitError::Transport),
        },
        Submission::AwaitingSignature { call, nonce, mortality, tip } => match reply {
            Reply::Signed { signer, signature } => after is Watching && action
                == Action::<T>::Submit(Envelope { signer, signature, nonce, mortality, tip, call }),
            _ => fails_with(after, action, SubmitError::Transport),
        },
        Submission::Watching => match reply {
            Reply::Status(TxStatus::Ready) => after is Watching && action is Wait,
            Reply::Status(TxStatus::InBlock(block)) => after == (Submission::<T>::AwaitingEvents {
                block,
            }) && action == Action::<T>::FetchEvents(block),
            Reply::Status(TxStatus::Finalized(block)) => after == (Submission::<
                T,
            >::AwaitingEvents { block }) && action == Action::<T>::FetchEvents(block),
            Reply::Status(TxStatus::Invalid) => fails_with(
                after,
                action,
                SubmitError::Submission(Rejection::Invalid),
            ),
            Reply::Status(TxStatus::Dropped) => fails_with(
                after,
                action,
                SubmitError::Submission(Rejection::Dropped),
            ),
            _ => fails_with(after, action, SubmitError::Transport),
        },
        Submission::AwaitingEvents { block } => match reply {
            Reply::Block { position, events } => after is Closed && action is Finish
                && action->Finish_0 is Ok && records_view(action->Finish_0->Ok_0@) == own_records(
                events@,
                position,
            ),
            Reply::Status(_) => after == before && action is Wait,
            _ => fails_with(after, action, SubmitError::Transport),
        },
        Submission::Closed => after is Closed && action is Stop,
    }
}

/// The records of `events` that came from the extrinsic at `position`, in
/// emission order.
pub fn events_of(events: &[BlockEvent], position: u32) -> (records: Vec<EventRecord>)
    ensures
        records_view(records@) == own_records(events@, position),
{
    let mut records: Vec<EventRecord> = Vec::new();
    let mut i: usize = 0;
    while i < events.len()
        invariant
            i <= events@.len(),
            records_view(records@) == own_records(events@.take(i as int), position),
        decreases events@.len() - i,
    {
        assert(events@.take(i + 1).drop_last() =~= events@.take(i as int));
        let from_here = match events[i].extrinsic {
            Some(p) => p == position,
            None => false,
        };
        if from_here {
            let record = EventRecord {
                module_index: events[i].record.module_index,
                event_index: events[i].record.event_index,
                payload: slice_to_vec(events[i].record.payload.as_slice()),
            };
            records.push(record);
        }
        i += 1;
    }
    assert(events@.take(i as int) =~= events@);
    records
}

/// The state in which a submission of the encoded call `call` begins, and
/// its first action: to ask for the signer's nonce.
pub fn start<T: Balances>(
    call: Vec<u8>,
    mortality: Mortality<<T as System>::BlockNumber>,
    tip: <T as Balances>::Balance,
) -> (r: (Submission<T>, Action<T>))
    ensures
        r.0 == (Submission::<T>::AwaitingNonce { call, mortality, tip }),
        r.1 is QueryNonce,
{
    (Submission::AwaitingNonce { call, mortality, tip }, Action::QueryNonce)
}

/// The state and the action that follow when the submission in `state`
/// gets `reply`. A nonce that cannot be read, a lost connection and a reply
/// that does not answer what was asked end the submission with a transport
/// error; a rejection by the ledger ends it with a submission error. Nothing
/// is retried.
pub fn step<T: Balances>(state: Submission<T>, reply: Reply<T>) -> (r: (Submission<T>, Action<T>))
    ensures
        follows(state, reply, r.0, r.1),
{
    match state {
        Submission::AwaitingNonce { call, mortality, tip } => match reply {
            Reply::Nonce(nonce) => {
                let payload = SigningPayload {
                    call: slice_to_vec(call.as_slice()),
                    nonce,
                    mortality,
                    tip,
                };
                (Submission::AwaitingSignature { call, nonce, mortality, tip }, Action::Sign(payload))
            },
            _ => (Submission::Closed, Action::Finish(Err(SubmitError::Transport))),
        },
        Submission::AwaitingSignature { call, nonce, mortality, tip } => match reply {
            Reply::Signed { signer, signature } => {
                let envelope = Envelope { signer, signature, nonce, mortality, tip, call };
                (Submission::Watching, Action::Submit(envelope))
            },
            _ => (Submission::Closed, Action::Finish(Err(SubmitError::Transport))),
        },
        Submission::Watching => match reply {
            Reply::Status(TxStatus::Ready) => (Submission::Watching, Action::Wait),
            Reply::Status(TxStatus::InBlock(block)) => (
                Submission::AwaitingEvents { block },
                Action::FetchEvents(block),
            ),
            Reply::Status(TxStatus::Finalized(block)) => (
                Submission::AwaitingEvents { block },
                Action::FetchEvents(block),
            ),
            Reply::Status(TxStatus::Invalid) => (
                Submission::Closed,
                Action::Finish(Err(SubmitError::Submission(Rejection::Invalid))),
            ),
            Reply::Status(TxStatus::Dropped) => (
                Submission::Closed,
                Action::Finish(Err(SubmitError::Submission(Rejection::Dropped))),
            ),
            _ => (Submission::Closed, Action::Finish(Err(SubmitError::Transport))),
        },
        Submission::AwaitingEvents { block } => match reply {
            Reply::Block { position, events } => {
                let records = events_of(events.as_slice(), position);
                (Submission::Closed, Action::Finish(Ok(records)))
            },
            Reply::Status(_) => (Submission::AwaitingEvents { block }, Action::Wait),
            _ => (Submission::Closed, Action::Finish(Err(SubmitError::Transport))),
        },
        Submission::Closed => (Submission::Closed, Action::Stop),
    }
}

/// A lost connection ends a submission that has not ended with a transport
/// error, whatever it was waiting for.
pub proof fn lemma_disconnect_is_transport_error<T: Balances>(
    before: Submission<T>,
    after: Submission<T>,
    action: Action<T>,
)
    requires
        !(before is Closed),
        follows(before, Reply::<T>::Disconnected, after, action),
    ensures
        fails_with(after, action, SubmitError::Transport),
{
}

/// A nonce that cannot be read ends the submission with a transport error.
pub proof fn lemma_nonce_unavailable_is_transport_error<T: Balances>(
    before: Submission<T>,
    after: Submission<T>,
    action: Action<T>,
)
    requires
        before is AwaitingNonce,
        follows(before, Reply::<T>::NonceUnavailable, after, action),
    ensures
        fails_with(after, action, SubmitError::Transport),
{
}

/// While the status is watched, a rejection ends the submission with the
/// submission error of that rejection.
pub proof fn lemma_rejection_is_submission_error<T: Balances>(
    status: TxStatus<<T as System>::Hash>,
    after: Submission<T>,
    action: Action<T>,
)
    requires
        status is Invalid || status is Dropped,
        follows(Submission::<T>::Watching, Reply::<T>::Status(status), after, action),
    ensures
        after is Closed,
        action is Finish,
        status is Invalid ==> action->Finish_0 == Err::<Vec<EventRecord>, SubmitError>(
            SubmitError::Submission(Rejection::Invalid),
        ),
        status is Dropped ==> action->Finish_0 == Err::<Vec<EventRecord>, SubmitError>(
            SubmitError::Submission(Rejection::Dropped),
        ),
{
}

/// A submission succeeds only on the events of the block that holds its
/// envelope.
pub proof fn lemma_success_needs_inclusion<T: Balances>(
    before: Submission<T>,
    reply: Reply<T>,
    after: Submission<T>,
    action: Action<T>,
)
    requires
        follows(before, reply, after, action),
        action is Finish,
        action->Finish_0 is Ok,
    ensures
        before is AwaitingEvents,
        reply is Block,
        after is Closed,
{
}

/// The events of a block are asked for only when the envelope was reported
/// in that block.
pub proof fn lemma_events_fetched_on_inclusion<T: Balances>(
    before: Submission<T>,
    reply: Reply<T>,
    after: Submission<T>,
    action: Action<T>,
)
    requires
        follows(before, reply, after, action),
        action is FetchEvents,
    ensures
        before is Watching,
        reply == Reply::<T>::Status(TxStatus::InBlock(action->FetchEvents_0)) || reply
            == Reply::<T>::Status(TxStatus::Finalized(action->FetchEvents_0)),
        after == (Submission::<T>::AwaitingEvents { block: action->FetchEvents_0 }),
{
}

/// A submission that has ended stays ended and asks for nothing more.
pub proof fn lemma_closed_is_final<T: Balances>(
    reply: Reply<T>,
    after: Submission<T>,
    action: Action<T>,
)
    requires
        follows(Submission::<T>::Closed, reply, after, action),
    ensures
        after is Closed,
        action is Stop,
{
}

/// The records handed out are the records of exactly those events that came
/// from the extrinsic asked for, in the order of the block.
pub proof fn lemma_own_records_is_filter(events: Seq<BlockEvent>, position: u32)
    ensures
        own_records(events, position) == events.filter(
            |e: BlockEvent| e.extrinsic == Some(position),
        ).map_values(|e: BlockEvent| e.record@),
    decreases events.len(),
{
    reveal(Seq::filter);
    if events.len() > 0 {
        lemma_own_records_is_filter(events.drop_last(), position);
    }
}

} // verus!

//! The decisions of the client connection driver.
//!
//! The driver pumps an SSH protocol state machine: it hands credential
//! requests to background tasks, delivers channel updates to the owners of
//! the channels, and reacts to whichever of its sources becomes ready first.
//! The byte stream, the mailboxes and the state machine belong to the caller.
//! This module holds the channel table and decides, for everything the caller
//! observed, what has to be done next.

use std::collections::HashMap;
use vstd::prelude::*;

verus! {

broadcast use vstd::std_specs::hash::group_hash_axioms;

/// Capacity of the mailbox for channel operations, and of the mailbox for
/// the results of credential tasks.
pub const OPERATIONS_CAPACITY: usize = 15;

/// Capacity of the mailbox that carries updates to the owner of one channel.
pub const CHANNEL_UPDATES_CAPACITY: usize = 10;

/// Where a channel stands between the request to open it and the peer's
/// answer.
#[derive(Clone, Copy, Debug, PartialEq, Eq, Structural)]
pub enum ChannelState {
    /// Requested; the opener is still waiting for the peer's answer.
    Pending,
    /// Confirmed by the peer; updates flow to the owner.
    Ready,
}

/// A signature over the session identifier, made by the signing callback.
#[derive(Clone, Debug, PartialEq, Eq)]
pub struct SignatureResult {
    pub key_alg_name: &'static str,
    pub public_key: Vec<u8>,
    pub signature: Vec<u8>,
}

/// What the authentication layer asks of the user.
#[derive(Clone, Debug, PartialEq, Eq)]
pub enum UserRequest {
    /// A password.
    Password,
    /// A signature over the session identifier.
    PrivateKeySign { session_identifier: [u8; 32] },
    /// A banner to show.
    Banner(Vec<u8>),
}

/// Work for a background task.
#[derive(Clone, Copy, Debug, PartialEq, Eq)]
pub enum CredentialTask {
    /// Call the password prompt.
    PromptPassword,
    /// Call the signing callback with this session identifier.
    SignPubkey { session_identifier: [u8; 32] },
}

/// The result that a background task put on the operations mailbox. An
/// `Err` holds the failure of the credential callback.
#[derive(Debug, PartialEq, Eq)]
pub enum Operation {
    PasswordEntered(Result<String, String>),
    Signature(Result<SignatureResult, String>),
}

/// What a channel update means for the channel table.
#[derive(Clone, Debug, PartialEq, Eq)]
pub enum UpdateKind {
    /// The peer confirmed the channel.
    Open,
    /// The peer refused the channel.
    OpenFailed { message: String },
    /// Anything else: data, a window adjustment, a request, a close.
    Other,
}

/// An update from the protocol state machine, addressed to one channel.
#[derive(Clone, Debug, PartialEq, Eq)]
pub struct ChannelUpdate {
    pub number: u32,
    pub kind: UpdateKind,
}

/// What to do with one channel update.
#[derive(Clone, Debug, PartialEq, Eq)]
pub enum Delivery {
    /// Signal readiness with success.
    Opened,
    /// Signal readiness with this failure.
    Refused { message: String },
    /// Push the update onto the updates mailbox of the channel.
    Forward,
}

/// An update that the channel table does not allow. Each one is fatal to the
/// connection.
#[derive(Clone, Copy, Debug, PartialEq, Eq, Structural)]
pub enum ProtocolViolation {
    /// The update names a channel that is not in the table.
    UnknownChannel { number: u32 },
    /// The peer answered the opening of a channel that is ready already.
    OpenedTwice { number: u32 },
    /// An update for a channel that the peer has not confirmed yet.
    NotReady { number: u32 },
}

/// What the first two stages of one iteration ask the caller to do.
#[derive(Debug, PartialEq, Eq)]
pub struct Progress {
    /// Background tasks to spawn, one for each credential request that needs
    /// one, in the order of the requests.
    pub tasks: Vec<CredentialTask>,
    /// One delivery for each update up to the first violation, in the order
    /// of the updates.
    pub deliveries: Vec<Delivery>,
    /// The violation at which delivery stopped, if there was one.
    pub violation: Option<ProtocolViolation>,
}

/// The status with which the protocol state machine refused bytes.
#[derive(Clone, Debug, PartialEq, Eq)]
pub enum SshStatus {
    /// The peer broke the protocol.
    PeerError(String),
    /// The peer disconnected.
    Disconnect,
}

/// What became ready while the driver was waiting.
#[derive(Debug, PartialEq, Eq)]
pub enum Event {
    /// The stream yielded this many bytes. Zero is the end of the stream.
    Read { count: usize },
    /// The state machine refused the bytes it was fed.
    Refused(SshStatus),
    /// The mailbox for channel operations yielded an operation (`true`) or
    /// reported that it is closed (`false`).
    ChannelOperation { present: bool },
    /// The operations mailbox yielded the result of a background task, or
    /// `None` when it is closed.
    Operation(Option<Operation>),
}

/// The one thing to do in reaction to an event.
#[derive(Clone, Debug, PartialEq, Eq)]
pub enum Command {
    /// Nothing.
    Nothing,
    /// Feed the first `count` bytes of the read buffer to the state machine.
    FeedBytes { count: usize },
    /// Hand the channel operation to the state machine.
    DoOperation,
    /// Hand the password to the authentication layer.
    SendPassword(String),
    /// Hand the signature to the authentication layer.
    SendSignature(SignatureResult),
}

/// What to do in reaction to an event.
#[derive(Clone, Debug, PartialEq, Eq)]
pub struct Reaction {
    pub command: Command,
    /// Whether to let the state machine make progress and write out every
    /// frame it has queued before the iteration ends.
    pub flush: bool,
}

/// Why the driver has to stop.
#[derive(Clone, Debug, PartialEq, Eq)]
pub enum Fatal {
    /// The peer broke the protocol.
    PeerError(String),
    /// The peer disconnected.
    Disconnect,
    /// A credential callback failed.
    Credential(String),
    /// A channel operation arrived before the connection had channels.
    NotConnected,
}

/// A channel operation, addressed to one channel.
#[derive(Clone, Debug, PartialEq, Eq)]
pub struct ChannelOperation<K> {
    pub number: u32,
    pub kind: K,
}

/// The updates mailbox of a channel is closed.
#[derive(Clone, Copy, Debug, PartialEq, Eq, Structural)]
pub struct ChannelClosed;

/// The handle to an open channel.
#[derive(Debug, PartialEq, Eq)]
pub struct Channel {
    number: u32,
}

/// The handle to a channel whose opening the peer has not answered yet.
#[derive(Debug, PartialEq, Eq)]
pub struct PendingChannel {
    channel: Channel,
}

/// The driver's record of the channels of one connection.
#[derive(Debug)]
pub struct ClientConnection {
    channels: HashMap<u32, ChannelState>,
}

/// The background task that one credential request needs, if any. A banner
/// needs none.
pub open spec fn task_for(request: UserRequest) -> Option<CredentialTask> {
    match request {
        UserRequest::Password => Some(CredentialTask::PromptPassword),
        UserRequest::PrivateKeySign { session_identifier } => Some(
            CredentialTask::SignPubkey { session_identifier },
        ),
        UserRequest::Banner(_) => None,
    }
}

/// The background tasks for a list of credential requests, in their order.
pub open spec fn tasks_for(requests: Seq<UserRequest>) -> Seq<CredentialTask>
    decreases requests.len(),
{
    if requests.len() == 0 {
        Seq::empty()
    } else {
        let before = tasks_for(requests.drop_last());
        match task_for(requests.last()) {
            Some(task) => before.push(task),
            None => before,
        }
    }
}

/// The table after one update, and what to do with the update.
///
/// An answer to an opening moves a pending channel on: a confirmation makes
/// it ready, a refusal removes it. Any other update goes to a ready channel
/// and leaves the table alone. Everything else is a violation and leaves the
/// table alone too.
pub open spec fn deliver_one(
    table: Map<u32, ChannelState>,
    number: u32,
    kind: UpdateKind,
) -> (Map<u32, ChannelState>, Result<Delivery, ProtocolViolation>) {
    if !table.contains_key(number) {
        (table, Err(ProtocolViolation::UnknownChannel { number }))
    } else {
        match (kind, table[number]) {
            (UpdateKind::Open, ChannelState::Pending) => (
                table.insert(number, ChannelState::Ready),
                Ok(Delivery::Opened),
            ),
            (UpdateKind::OpenFailed { message }, ChannelState::Pending) => (
                table.remove(number),
                Ok(Delivery::Refused { message }),
            ),
            (UpdateKind::Other, ChannelState::Ready) => (table, Ok(Delivery::Forward)),
            (UpdateKind::Other, ChannelState::Pending) => (
                table,
                Err(ProtocolViolation::NotReady { number }),
            ),
            (_, ChannelState::Ready) => (table, Err(ProtocolViolation::OpenedTwice { number })),
        }
    }
}

/// The table after a list of updates, the deliveries up to the first
/// violation, and that violation.
pub open spec fn deliver_all(table: Map<u32, ChannelState>, updates: Seq<ChannelUpdate>) -> (
    Map<u32, ChannelState>,
    Seq<Delivery>,
    Option<ProtocolViolation>,
)
    decreases updates.len(),
{
    if updates.len() == 0 {
        (table, Seq::empty(), None)
    } else {
        let (next, outcome) = deliver_one(table, updates[0].number, updates[0].kind);
        match outcome {
            Err(violation) => (next, Seq::empty(), Some(violation)),
            Ok(delivery) => {
                let (last, deliveries, violation) = deliver_all(next, updates.skip(1));
                (last, seq![delivery] + deliveries, violation)
            },
        }
    }
}

/// The reaction to an event.
///
/// `auth_present` says whether the state machine still has its
/// authentication layer, `channels_present` whether it has channels yet.
///
/// A failed password prompt is fatal only while the authentication layer is
/// there to receive the password. A failed signature is fatal in any case.
/// Whatever came out of the operations mailbox, the outbound frames are
/// flushed afterwards.
pub open spec fn reaction_to(event: Event, auth_present: bool, channels_present: bool) -> Result<
    Reaction,
    Fatal,
> {
    match event {
        Event::Read { count } => if count == 0 {
            Ok(Reaction { command: Command::Nothing, flush: false })
        } else {
            Ok(Reaction { command: Command::FeedBytes { count }, flush: false })
        },
        Event::Refused(SshStatus::PeerError(message)) => Err(Fatal::PeerError(message)),
        Event::Refused(SshStatus::Disconnect) => Err(Fatal::Disconnect),
        Event::ChannelOperation { present } => if !channels_present {
            Err(Fatal::NotConnected)
        } else if present {
            Ok(Reaction { command: Command::DoOperation, flush: false })
        } else {
            Ok(Reaction { command: Command::Nothing, flush: false })
        },
        Event::Operation(None) => Ok(Reaction { command: Command::Nothing, flush: true }),
        Event::Operation(Some(Operation::PasswordEntered(entered))) => if !auth_present {
            Ok(Reaction { command: Command::Nothing, flush: true })
        } else {
            match entered {
                Ok(password) => Ok(
                    Reaction { command: Command::SendPassword(password), flush: true },
                ),
                Err(failure) => Err(Fatal::Credential(failure)),
            }
        },
        Event::Operation(Some(Operation::Signature(signed))) => match signed {
            Err(failure) => Err(Fatal::Credential(failure)),
            Ok(signature) => if auth_present {
                Ok(Reaction { command: Command::SendSignature(signature), flush: true })
            } else {
                Ok(Reaction { command: Command::Nothing, flush: true })
            },
        },
    }
}

/// The background tasks for a list of credential requests, in their order.
/// Banners are dropped.
pub fn credential_tasks(requests: &Vec<UserRequest>) -> (tasks: Vec<CredentialTask>)
    ensures
        tasks@ == tasks_for(requests@),
{
    let mut tasks: Vec<CredentialTask> = Vec::new();
    let mut i: usize = 0;
    while i < requests.len()
        invariant
            i <= requests.len(),
            tasks@ == tasks_for(requests@.take(i as int)),
        decreases requests.len() - i,
    {
        proof {
            assert(requests@.take(i + 1).drop_last() =~= requests@.take(i as int));
        }
        match &requests[i] {
            UserRequest::Password => {
                tasks.push(CredentialTask::PromptPassword);
            },
            UserRequest::PrivateKeySign { session_identifier } => {
                tasks.push(CredentialTask::SignPubkey { session_identifier: *session_identifier });
            },
            UserRequest::Banner(_) => {},
        }
        i = i + 1;
    }
    proof {
        assert(requests@.take(i as int) =~= requests@);
    }
    tasks
}

/// Decides what to do in reaction to the event that ended the wait.
pub fn react(event: Event, auth_present: bool, channels_present: bool) -> (reaction: Result<
    Reaction,
    Fatal,
>)
    ensures
        reaction == reaction_to(event, auth_present, channels_present),
{
    match event {
        Event::Read { count } => {
            if count == 0 {
                Ok(Reaction { command: Command::Nothing, flush: false })
            } else {
                Ok(Reaction { command: Command::FeedBytes { count }, flush: false })
            }
        },
        Event::Refused(SshStatus::PeerError(message)) => Err(Fatal::PeerError(message)),
        Event::Refused(SshStatus::Disconnect) => Err(Fatal::Disconnect),
        Event::ChannelOperation { present } => {
            if !channels_present {
                Err(Fatal::NotConnected)
            } else if present {
                Ok(Reaction { command: Command::DoOperation, flush: false })
            } else {
                Ok(Reaction { command: Command::Nothing, flush: false })
            }
        },
        Event::Operation(None) => Ok(Reaction { command: Command::Nothing, flush: true }),
        Event::Operation(Some(Operation::PasswordEntered(entered))) => {
            if !auth_present {
                Ok(Reaction { command: Command::Nothing, flush: true })
            } else {
                match entered {
                    Ok(password) => Ok(
                        Reaction { command: Command::SendPassword(password), flush: true },
                    ),
                    Err(failure) => Err(Fatal::Credential(failure)),
                }
            }
        },
        Event::Operation(Some(Operation::Signature(signed))) => {
            match signed {
                Err(failure) => Err(Fatal::Credential(failure)),
                Ok(signature) => {
                    if auth_present {
                        Ok(Reaction { command: Command::SendSignature(signature), flush: true })
                    } else {
                        Ok(Reaction { command: Command::Nothing, flush: true })
                    }
                },
            }
        },
    }
}

impl Channel {
    /// The number that the state machine gave to this channel.
    pub closed spec fn spec_number(&self) -> u32 {
        self.number
    }

    /// The number that the state machine gave to this channel.
    #[verifier::when_used_as_spec(spec_number)]
    pub fn number(&self) -> (n: u32)
        ensures
            n == self.spec_number(),
    {
        self.number
    }

    /// Addresses an operation to this channel, ready for the mailbox for
    /// channel operations.
    pub fn send_operation<K>(&self, op: K) -> (addressed: ChannelOperation<K>)
        ensures
            addressed.number == self.number(),
            addressed.kind == op,
    {
        ChannelOperation { number: self.number, kind: op }
    }

    /// Turns what the updates mailbox yielded into the next update, or into
    /// the terminal error when the mailbox is closed.
    pub fn next_update<U>(&self, received: Option<U>) -> (update: Result<U, ChannelClosed>)
        ensures
            update == match received {
                Some(u) => Ok::<U, ChannelClosed>(u),
                None => Err(ChannelClosed),
            },
    {
        match received {
            Some(u) => Ok(u),
            None => Err(ChannelClosed),
        }
    }
}

impl PendingChannel {
    /// The number that the state machine gave to the channel.
    pub closed spec fn spec_number(&self) -> u32 {
        self.channel.number
    }

    /// The number that the state machine gave to the channel.
    #[verifier::when_used_as_spec(spec_number)]
    pub fn number(&self) -> (n: u32)
        ensures
            n == self.spec_number(),
    {
        self.channel.number
    }

    /// Turns the readiness signal into the outcome of the opening: the
    /// channel when the peer confirmed it, the peer's message when it
    /// refused, and `Err(None)` when the signal was lost (`signal` is
    /// `None`).
    pub fn wait_ready(self, signal: Option<Result<(), String>>) -> (outcome: Result<
        Channel,
        Option<String>,
    >)
        ensures
            match signal {
                Some(Ok(())) => outcome matches Ok(channel) && channel.number() == self.number(),
                Some(Err(message)) => outcome == Err::<Channel, Option<String>>(Some(message)),
                None => outcome == Err::<Channel, Option<String>>(None),
            },
    {
        match signal {
            Some(Ok(())) => Ok(self.channel),
            Some(Err(message)) => Err(Some(message)),
            None => Err(None),
        }
    }
}

impl View for ClientConnection {
    type V = Map<u32, ChannelState>;

    closed spec fn view(&self) -> Map<u32, ChannelState> {
        self.channels@
    }
}

impl ClientConnection {
    /// The driver's record of a fresh connection: no channels.
    pub fn connect() -> (connection: ClientConnection)
        ensures
            connection@ == Map::<u32, ChannelState>::empty(),
    {
        ClientConnection { channels: HashMap::new() }
    }

    /// The state of a channel, or `None` when it is not in the table.
    pub fn channel_state(&self, number: u32) -> (state: Option<ChannelState>)
        ensures
            state == if self@.contains_key(number) {
                Some(self@[number])
            } else {
                None
            },
    {
        match self.channels.get(&number) {
            Some(state) => Some(*state),
            None => None,
        }
    }

    /// Records a channel that the state machine has just created under
    /// `number`, and returns the handle on which its opener waits. A record
    /// under the same number is replaced.
    pub fn open_channel(&mut self, number: u32) -> (pending: PendingChannel)
        ensures
            final(self)@ == old(self)@.insert(number, ChannelState::Pending),
            pending.number() == number,
    {
        self.channels.insert(number, ChannelState::Pending);
        PendingChannel { channel: Channel { number } }
    }

    /// Applies one channel update to the table and says what to do with it.
    pub fn deliver(&mut self, number: u32, kind: &UpdateKind) -> (outcome: Result<
        Delivery,
        ProtocolViolation,
    >)
        ensures
            (final(self)@, outcome) == deliver_one(old(self)@, number, *kind),
    {
        let state = match self.channels.get(&number) {
            Some(state) => *state,
            None => {
                return Err(ProtocolViolation::UnknownChannel { number });
            },
        };
        match state {
            ChannelState::Pending => match kind {
                UpdateKind::Open => {
                    self.channels.insert(number, ChannelState::Ready);
                    Ok(Delivery::Opened)
                },
                UpdateKind::OpenFailed { message } => {
                    self.channels.remove(&number);
                    Ok(Delivery::Refused { message: message.clone() })
                },
                UpdateKind::Other => Err(ProtocolViolation::NotReady { number }),
            },
            ChannelState::Ready => match kind {
                UpdateKind::Other => Ok(Delivery::Forward),
                _ => Err(ProtocolViolation::OpenedTwice { number }),
            },
        }
    }

    /// The first two stages of one iteration of the main loop.
    ///
    /// `requests` are the credential requests that the authentication layer
    /// has pending, `updates` the channel updates that the state machine has
    /// queued. Every credential request that needs one gets a background
    /// task. The updates are applied to the table in order, up to the first
    /// violation.
    pub fn progress(&mut self, requests: &Vec<UserRequest>, updates: &Vec<ChannelUpdate>) -> (plan:
        Progress)
        ensures
            plan.tasks@ == tasks_for(requests@),
            (final(self)@, plan.deliveries@, plan.violation) == deliver_all(
                old(self)@,
                updates@,
            ),
    {
        let tasks = credential_tasks(requests);
        let mut deliveries: Vec<Delivery> = Vec::new();
        let mut i: usize = 0;
        proof {
            let (last, rest, violation) = deliver_all(self@, updates@);
            assert(updates@.skip(0) =~= updates@);
            assert(deliveries@ + rest =~= rest);
        }
        while i < updates.len()
            invariant
                i <= updates.len(),
                tasks@ == tasks_for(requests@),
                deliver_all(old(self)@, updates@) == ({
                    let (last, rest, violation) = deliver_all(self@, updates@.skip(i as int));
                    (last, deliveries@ + rest, violation)
                }),
            decreases updates.len() - i,
        {
            let ghost done = deliveries@;
            proof {
                assert(updates@.skip(i as int).skip(1) =~= updates@.skip(i + 1));
            }
            match self.deliver(updates[i].number, &updates[i].kind) {
                Err(violation) => {
                    proof {
                        assert(deliveries@ + Seq::<Delivery>::empty() =~= deliveries@);
                    }
                    return Progress { tasks, deliveries, violation: Some(violation) };
                },
                Ok(delivery) => {
                    deliveries.push(delivery);
                    proof {
                        let (last, rest, violation) = deliver_all(self@, updates@.skip(i + 1));
                        assert(done + (seq![delivery] + rest) =~= deliveries@ + rest);
                    }
                },
            }
            i = i + 1;
        }
        proof {
            assert(deliveries@ + Seq::<Delivery>::empty() =~= deliveries@);
        }
        Progress { tasks, deliveries, violation: None }
    }
}

/// Something that happens to the channel table of one connection.
pub enum TableEvent {
    /// The application opened a channel, and the state machine gave it this
    /// number.
    Opening(u32),
    /// The state machine emitted this update.
    Update(ChannelUpdate),
}

/// Whether a channel is in the table and waits for the peer's answer.
pub open spec fn is_pending(table: Map<u32, ChannelState>, number: u32) -> bool {
    table.contains_key(number) && table[number] == ChannelState::Pending
}

/// Whether the outcome of a delivery signals readiness, with success or with
/// failure.
pub open spec fn signals_readiness(outcome: Result<Delivery, ProtocolViolation>) -> bool {
    outcome matches Ok(delivery) && !(delivery is Forward)
}

/// The table after one event.
pub open spec fn table_after(table: Map<u32, ChannelState>, event: TableEvent) -> Map<
    u32,
    ChannelState,
> {
    match event {
        TableEvent::Opening(number) => table.insert(number, ChannelState::Pending),
        TableEvent::Update(update) => deliver_one(table, update.number, update.kind).0,
    }
}

/// The table after a list of events.
pub open spec fn table_after_all(table: Map<u32, ChannelState>, events: Seq<TableEvent>) -> Map<
    u32,
    ChannelState,
>
    decreases events.len(),
{
    if events.len() == 0 {
        table
    } else {
        table_after_all(table_after(table, events[0]), events.skip(1))
    }
}

/// How many times the events open the channel `number`.
pub open spec fn openings(events: Seq<TableEvent>, number: u32) -> nat
    decreases events.len(),
{
    if events.len() == 0 {
        0
    } else {
        let first: nat = if events[0] == TableEvent::Opening(number) {
            1
        } else {
            0
        };
        first + openings(events.skip(1), number)
    }
}

/// How many times readiness is signalled for the channel `number` while the
/// events are applied to the table.
pub open spec fn readiness_signals(
    table: Map<u32, ChannelState>,
    events: Seq<TableEvent>,
    number: u32,
) -> nat
    decreases events.len(),
{
    if events.len() == 0 {
        0
    } else {
        let first: nat = match events[0] {
            TableEvent::Update(update) => if update.number == number && signals_readiness(
                deliver_one(table, update.number, update.kind).1,
            ) {
                1
            } else {
                0
            },
            TableEvent::Opening(_) => 0,
        };
        first + readiness_signals(table_after(table, events[0]), events.skip(1), number)
    }
}

/// Readiness is signalled only for a channel that is pending, and the
/// channel is no longer pending afterwards: a confirmation leaves it ready,
/// a refusal removes it from the table. No other channel is touched.
pub proof fn lemma_signal_settles_pending(
    table: Map<u32, ChannelState>,
    number: u32,
    kind: UpdateKind,
)
    ensures
        ({
            let (after, outcome) = deliver_one(table, number, kind);
            &&& signals_readiness(outcome) ==> is_pending(table, number) && !is_pending(
                after,
                number,
            )
            &&& outcome == Ok::<Delivery, ProtocolViolation>(Delivery::Opened) ==> after.contains_key(
                number,
            ) && after[number] == ChannelState::Ready
            &&& outcome matches Ok(Delivery::Refused { .. }) ==> !after.contains_key(number)
            &&& !signals_readiness(outcome) ==> after == table
            &&& forall|other: u32|
                other != number ==> after.contains_key(other) == table.contains_key(other)
                    && after[other] == table[other]
        }),
{
}

/// Over any run of openings and updates, readiness is signalled for a
/// channel at most once for each time it was opened: the signals sent, plus
/// one if the channel is still pending at the end, never exceed the
/// openings, plus one if the channel was pending at the start.
pub proof fn lemma_one_signal_per_opening(
    table: Map<u32, ChannelState>,
    events: Seq<TableEvent>,
    number: u32,
)
    ensures
        readiness_signals(table, events, number) + (if is_pending(
            table_after_all(table, events),
            number,
        ) {
            1nat
        } else {
            0nat
        }) <= openings(events, number) + (if is_pending(table, number) {
            1nat
        } else {
            0nat
        }),
    decreases events.len(),
{
    if events.len() > 0 {
        let next = table_after(table, events[0]);
        lemma_one_signal_per_opening(next, events.skip(1), number);
        match events[0] {
            TableEvent::Update(update) => {
                lemma_signal_settles_pending(table, update.number, update.kind);
            },
            TableEvent::Opening(opened) => {},
        }
    }
}

} // verus!

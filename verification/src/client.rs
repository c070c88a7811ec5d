//! One client and the exchanges it makes.
//!
//! An exchange is a single round trip: the request goes out once, one
//! datagram is awaited, and whatever went wrong ends the exchange. The client
//! decides; the driver that owns the socket acts. It starts an exchange with
//! [`Event::Request`], carries out each [`Action`] it is handed and reports
//! the outcome as the next [`Event`], until the action is [`Action::Finish`].

use crate::error::Direction;
use crate::error::ProtocolError;
use crate::error::SntpError;
use crate::packet::build_request;
use crate::packet::parse_reply;
use crate::packet::reply_of;
use crate::packet::request_packet;
use crate::packet::PACKET_SIZE;
use crate::timestamp::Timestamp;
use vstd::prelude::*;

verus! {

/// The public NTP pool: a name that resolves to many servers in turn. It is
/// the server to ask where the caller names none.
pub const POOL_NTP_ADDR: &'static str = "pool.ntp.org:123";

/// The timeout of a new client, in seconds.
pub const DEFAULT_TIMEOUT_SECS: u64 = 5;

/// How long the transport may take over one send or one receive: `secs`
/// seconds and `nanos` nanoseconds.
///
/// A timeout of zero is no timeout: the transport then blocks until it is
/// done, however long that takes.
#[derive(Clone, Copy, Debug, PartialEq, Eq)]
pub struct Timeout {
    pub secs: u64,
    pub nanos: u32,
}

impl Timeout {
    /// Whether the timeout is zero, that is, none.
    pub open spec fn is_unlimited(self) -> bool {
        self.secs == 0 && self.nanos == 0
    }

    /// The limit to set on the transport: none for a timeout of zero, else
    /// the timeout itself, as it was configured.
    pub open spec fn limit(self) -> Option<Timeout> {
        if self.is_unlimited() {
            None
        } else {
            Some(self)
        }
    }

    /// A timeout of whole seconds.
    pub fn from_secs(secs: u64) -> (timeout: Timeout)
        ensures
            timeout == (Timeout { secs, nanos: 0 }),
    {
        Timeout { secs, nanos: 0 }
    }

    /// Whether the timeout is zero, that is, none.
    pub fn is_zero(&self) -> (zero: bool)
        ensures
            zero == self.is_unlimited(),
    {
        self.secs == 0 && self.nanos == 0
    }
}

/// What the driver reports to the client.
#[derive(Debug, PartialEq, Eq)]
pub enum Event<E> {
    /// The caller asks for the time.
    Request,
    /// The transport sent a datagram and reports how many octets it wrote.
    Sent(usize),
    /// The transport delivered a datagram: `len` octets, read into `buffer`.
    Received { buffer: [u8; PACKET_SIZE], len: usize },
    /// The transport failed or ran into its timeout, on sending or receiving.
    Failed(E),
}

/// What the client tells the driver to do next.
#[derive(Debug, PartialEq, Eq)]
pub enum Action<E> {
    /// Send `packet` to the server, within `timeout` if there is one.
    Send { packet: [u8; PACKET_SIZE], timeout: Option<Timeout> },
    /// Wait for one datagram, no longer than `timeout` if there is one.
    Receive { timeout: Option<Timeout> },
    /// The exchange is over, with this result.
    Finish(Result<Timestamp, SntpError<E>>),
}

/// What a client knows: the plain value that an [`SntpRequest`] stands for.
pub struct ClientState {
    /// Whether the last valid reply was a Kiss-of-Death.
    pub kiss_of_death: bool,
    /// The configured timeout of each send and each receive.
    pub timeout: Timeout,
}

impl ClientState {
    /// The state of a client that was just made.
    pub open spec fn initial() -> ClientState {
        ClientState {
            kiss_of_death: false,
            timeout: Timeout { secs: DEFAULT_TIMEOUT_SECS, nanos: 0 },
        }
    }

    /// The result of the exchange that ends with the given datagram.
    pub open spec fn outcome<E>(buffer: Seq<u8>, len: int) -> Result<Timestamp, SntpError<E>> {
        match reply_of(buffer, len) {
            Ok(reply) => Ok(reply.timestamp),
            Err(violation) => Err(SntpError::Protocol(violation)),
        }
    }

    /// The state after an event. Only a valid reply changes it: the flag then
    /// says whether that reply was a Kiss-of-Death.
    pub open spec fn after<E>(self, event: Event<E>) -> ClientState {
        match event {
            Event::Received { buffer, len } => match reply_of(buffer@, len as int) {
                Ok(reply) => ClientState { kiss_of_death: reply.kiss_of_death, ..self },
                Err(_) => self,
            },
            _ => self,
        }
    }

    /// Whether `action` is the client's answer to `event` in this state.
    /// For each state and event exactly one action is.
    pub open spec fn answers<E>(self, event: Event<E>, action: Action<E>) -> bool {
        match event {
            Event::Request => action matches Action::Send { packet, timeout }
                && packet@ == request_packet() && timeout == self.timeout.limit(),
            Event::Sent(written) => if written == PACKET_SIZE {
                action == Action::<E>::Receive { timeout: self.timeout.limit() }
            } else {
                action == Action::<E>::Finish(
                    Err(SntpError::Protocol(ProtocolError::SizeMismatch(Direction::Sent))),
                )
            },
            Event::Received { buffer, len } => action == Action::Finish(
                Self::outcome::<E>(buffer@, len as int),
            ),
            Event::Failed(error) => action == Action::Finish(Err(SntpError::Transport(error))),
        }
    }

    /// The event by which the driver reports how a send went.
    pub open spec fn send_event<E>(sent: Result<usize, E>) -> Event<E> {
        match sent {
            Ok(written) => Event::Sent(written),
            Err(error) => Event::Failed(error),
        }
    }

    /// The event by which the driver reports how a receive went.
    pub open spec fn receive_event<E>(received: Result<([u8; PACKET_SIZE], usize), E>) -> Event<
        E,
    > {
        match received {
            Ok((buffer, len)) => Event::Received { buffer, len },
            Err(error) => Event::Failed(error),
        }
    }

    /// The result of a whole exchange, given how the send went and how the
    /// receive went or would have gone. A failed send is the result, and so is
    /// an incomplete one; only after a complete send does the receive count:
    /// its failure, or what the datagram holds.
    pub open spec fn exchange<E>(
        sent: Result<usize, E>,
        received: Result<([u8; PACKET_SIZE], usize), E>,
    ) -> Result<Timestamp, SntpError<E>> {
        match sent {
            Err(error) => Err(SntpError::Transport(error)),
            Ok(written) => if written != PACKET_SIZE {
                Err(SntpError::Protocol(ProtocolError::SizeMismatch(Direction::Sent)))
            } else {
                match received {
                    Err(error) => Err(SntpError::Transport(error)),
                    Ok((buffer, len)) => Self::outcome(buffer@, len as int),
                }
            },
        }
    }
}

/// An SNTP client: its configuration and what the last reply told it.
#[derive(Debug)]
pub struct SntpRequest {
    kiss_of_death: bool,
    timeout: Timeout,
}

impl View for SntpRequest {
    type V = ClientState;

    closed spec fn view(&self) -> ClientState {
        ClientState { kiss_of_death: self.kiss_of_death, timeout: self.timeout }
    }
}

impl SntpRequest {
    /// Makes a client with the default timeout of five seconds that has seen
    /// no Kiss-of-Death.
    pub fn new() -> (client: SntpRequest)
        ensures
            client@ == ClientState::initial(),
            !client@.kiss_of_death,
            client@.timeout == (Timeout { secs: 5, nanos: 0 }),
    {
        SntpRequest { kiss_of_death: false, timeout: Timeout::from_secs(DEFAULT_TIMEOUT_SECS) }
    }

    /// Whether the last valid reply was a Kiss-of-Death. If so, the caller
    /// should stop querying that server.
    pub fn is_kiss_of_death(&self) -> (flag: bool)
        ensures
            flag == self@.kiss_of_death,
    {
        self.kiss_of_death
    }

    /// The configured timeout.
    pub fn timeout(&self) -> (timeout: Timeout)
        ensures
            timeout == self@.timeout,
    {
        self.timeout
    }

    /// Sets the timeout of every later send and receive. Zero means none.
    pub fn set_timeout(&mut self, timeout: Timeout)
        ensures
            final(self)@ == (ClientState { timeout, ..old(self)@ }),
    {
        self.timeout = timeout;
    }

    /// The limit to set on the transport for sending as well as receiving:
    /// `None`, to block without limit, where the timeout is zero.
    pub fn transport_timeout(&self) -> (limit: Option<Timeout>)
        ensures
            limit == self@.timeout.limit(),
            limit is None <==> self@.timeout.is_unlimited(),
            limit matches Some(t) ==> t == self@.timeout,
    {
        if self.timeout.is_zero() {
            None
        } else {
            Some(self.timeout)
        }
    }

    /// Takes in what the driver reports and decides what comes next.
    ///
    /// A request is answered by sending the packet, a complete send by
    /// waiting for the reply, and everything else by the end of the exchange:
    /// an incomplete send, a failure of the transport (handed on as it is),
    /// and a datagram, which is validated and decoded. A valid reply also
    /// sets the Kiss-of-Death flag; nothing else touches the client.
    pub fn step<E>(&mut self, event: Event<E>) -> (action: Action<E>)
        ensures
            old(self)@.answers(event, action),
            final(self)@ == old(self)@.after(event),
            final(self)@.timeout == old(self)@.timeout,
            action is Send <==> event is Request,
            action is Receive <==> event == Event::<E>::Sent(48),
            event matches Event::Failed(error) ==> action == Action::Finish(
                Err(SntpError::Transport(error)),
            ) && final(self)@ == old(self)@,
            event matches Event::Received { buffer, len } ==> (match reply_of(
                buffer@,
                len as int,
            ) {
                Ok(reply) => action == Action::<E>::Finish(Ok(reply.timestamp))
                    && final(self)@.kiss_of_death == (buffer@[1] == 0),
                Err(violation) => action == Action::<E>::Finish(
                    Err(SntpError::Protocol(violation)),
                ) && final(self)@ == old(self)@,
            }),
    {
        match event {
            Event::Request => Action::Send {
                packet: build_request(),
                timeout: self.transport_timeout(),
            },
            Event::Sent(written) => {
                if written == PACKET_SIZE {
                    Action::Receive { timeout: self.transport_timeout() }
                } else {
                    Action::Finish(
                        Err(SntpError::Protocol(ProtocolError::SizeMismatch(Direction::Sent))),
                    )
                }
            },
            Event::Received { buffer, len } => {
                match parse_reply(&buffer, len) {
                    Ok(reply) => {
                        self.kiss_of_death = reply.kiss_of_death;
                        Action::Finish(Ok(reply.timestamp))
                    },
                    Err(violation) => Action::Finish(Err(SntpError::Protocol(violation))),
                }
            },
            Event::Failed(error) => Action::Finish(Err(SntpError::Transport(error))),
        }
    }
}

/// The client's answer is determined: in one state, one event has one answer.
pub proof fn lemma_answer_is_unique<E>(
    state: ClientState,
    event: Event<E>,
    first: Action<E>,
    second: Action<E>,
)
    requires
        state.answers(event, first),
        state.answers(event, second),
    ensures
        first == second,
{
    if event is Request {
        assert(first->packet =~= second->packet);
    }
}

/// After a valid reply the Kiss-of-Death flag says whether that reply's
/// stratum is zero, whatever the client had seen before it.
pub proof fn lemma_flag_follows_latest_reply<E>(
    state: ClientState,
    earlier: Event<E>,
    buffer: [u8; PACKET_SIZE],
    len: usize,
)
    requires
        reply_of(buffer@, len as int) is Ok,
    ensures
        state.after(earlier).after(Event::<E>::Received { buffer, len }).kiss_of_death == (
        buffer@[1] == 0),
{
}

/// Nothing but a valid reply changes the client: a rejected datagram, a send
/// and a failure leave the flag as the last valid reply set it. The timeout
/// changes with no event at all.
pub proof fn lemma_only_a_valid_reply_sets_the_flag<E>(state: ClientState, event: Event<E>)
    ensures
        (event matches Event::Received { buffer, len } ==> reply_of(buffer@, len as int) is Err)
            ==> state.after(event) == state,
        state.after(event).timeout == state.timeout,
{
}

/// A failure of the transport, a timeout among them, ends the exchange with
/// that one error: the client asks for nothing more and stays as it was. The
/// request goes out in answer to a call for the time and at no other moment,
/// so nothing is ever sent again.
pub proof fn lemma_failure_is_final<E>(state: ClientState, event: Event<E>, action: Action<E>)
    requires
        state.answers(event, action),
    ensures
        event matches Event::Failed(error) ==> action == Action::Finish(
            Err(SntpError::Transport(error)),
        ) && state.after(event) == state,
        action is Send <==> event is Request,
        action is Receive <==> event == Event::<E>::Sent(PACKET_SIZE),
        !(event is Request) && event != Event::<E>::Sent(PACKET_SIZE) ==> action is Finish,
{
}

/// Sending and receiving are held to the same limit, the configured timeout,
/// and a timeout of zero sets no limit on either.
pub proof fn lemma_timeout_is_symmetric<E>(
    state: ClientState,
    send: Action<E>,
    receive: Action<E>,
)
    requires
        state.answers(Event::<E>::Request, send),
        state.answers(Event::<E>::Sent(PACKET_SIZE), receive),
    ensures
        send is Send,
        receive is Receive,
        send->Send_timeout == receive->Receive_timeout,
        send->Send_timeout is None <==> state.timeout.is_unlimited(),
        send->Send_timeout matches Some(limit) ==> limit == state.timeout,
{
}

/// One exchange is one round trip. The request goes out in the first step.
/// A send that fails or is incomplete ends the exchange in the second step,
/// before anything is received. After a complete send one datagram is waited
/// for, and the third step ends the exchange whatever came of it.
pub proof fn lemma_exchange_is_one_round_trip<E>(
    state: ClientState,
    sent: Result<usize, E>,
    received: Result<([u8; PACKET_SIZE], usize), E>,
    first: Action<E>,
    second: Action<E>,
    third: Action<E>,
)
    requires
        state.answers(Event::<E>::Request, first),
        state.after(Event::<E>::Request).answers(ClientState::send_event(sent), second),
        state.after(Event::<E>::Request).after(ClientState::send_event(sent)).answers(
            ClientState::receive_event(received),
            third,
        ),
    ensures
        first is Send,
        sent == Ok::<usize, E>(PACKET_SIZE) ==> second is Receive && third == Action::Finish(
            ClientState::exchange(sent, received),
        ),
        sent != Ok::<usize, E>(PACKET_SIZE) ==> second == Action::Finish(
            ClientState::exchange(sent, received),
        ),
{
}

} // verus!

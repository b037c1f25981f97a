use vstd::prelude::*;

verus! {

/// Connection state of one shard.
#[derive(Debug, Clone, Copy, PartialEq, Eq, Structural)]
pub enum ShardState {
    Disconnected,
    Connecting,
    AwaitingHello,
    Identifying,
    Resuming,
    Connected,
    Zombie,
    /// Stopped by the supervisor; no event leaves this state.
    Stopped,
}

/// What the connection reports to the shard.
#[derive(Debug, Clone, PartialEq, Eq)]
pub enum ShardEvent {
    /// The shard is spawned, or its reconnect delay has passed.
    Connect,
    /// The transport is established.
    TransportOpened,
    /// The server greeted the shard with its heartbeat interval.
    Hello { heartbeat_interval_ms: u64 },
    /// No Hello arrived within the handshake budget.
    HandshakeTimeout,
    /// A fresh session was established.
    Ready { session_id: String, resume_url: String },
    /// The prior session was restored.
    Resumed,
    /// A server-pushed event with its sequence number.
    Dispatch { sequence: u64 },
    /// The heartbeat timer fired.
    HeartbeatDue,
    /// The server acknowledged the last heartbeat.
    HeartbeatAck,
    /// The server invalidated the session.
    InvalidSession { resumable: bool },
    /// The server asked the shard to reconnect.
    ReconnectRequested,
    /// The transport closed.
    TransportClosed,
    /// A frame that could not be decoded.
    Malformed,
    /// Explicit shutdown by the supervisor.
    Shutdown,
}

/// What the shard asks its runner to do next.
#[derive(Debug, Clone, PartialEq, Eq)]
pub enum ShardAction {
    /// Nothing to do.
    Nothing,
    /// Open the transport.
    OpenTransport,
    /// Start the handshake timer.
    AwaitHello,
    /// Acquire an identify lease from the coordinator, then send Identify.
    AcquireAndIdentify,
    /// Send Resume with the prior session.
    SendResume { session_id: String, sequence: u64 },
    /// Send a heartbeat carrying the last sequence seen.
    SendHeartbeat { last_sequence: Option<u64> },
    /// Hand the dispatch to the forwarder.
    Forward { sequence: u64 },
    /// Force-close the transport.
    CloseTransport,
    /// Reconnect after the backoff of the given attempt; `alert` escalates
    /// repeated handshake timeouts to the supervisor.
    ScheduleReconnect { attempt: u32, alert: bool },
}

/// The session that a shard may resume.
#[derive(Debug, Clone, PartialEq, Eq)]
pub struct Session {
    pub session_id: String,
    pub sequence: u64,
    pub resume_url: String,
}

/// Heartbeats left unacknowledged before a connection counts as a zombie.
pub const MAX_MISSED_ACKS: u32 = 2;

/// Mathematical model of a session.
pub struct SessionModel {
    pub session_id: Seq<char>,
    pub sequence: u64,
    pub resume_url: Seq<char>,
}

/// Mathematical model of a shard.
pub struct ShardModel {
    pub state: ShardState,
    pub session: Option<SessionModel>,
    pub heartbeat_interval_ms: u64,
    pub ack_pending: bool,
    pub missed_acks: u32,
    pub attempt: u32,
    pub handshake_timeouts: u32,
    pub alert_threshold: u32,
}

/// Model of an action.
pub enum ActionModel {
    Nothing,
    OpenTransport,
    AwaitHello,
    AcquireAndIdentify,
    SendResume { session_id: Seq<char>, sequence: u64 },
    SendHeartbeat { last_sequence: Option<u64> },
    Forward { sequence: u64 },
    CloseTransport,
    ScheduleReconnect { attempt: u32, alert: bool },
}

/// Model of an event.
pub enum EventModel {
    Connect,
    TransportOpened,
    Hello { heartbeat_interval_ms: u64 },
    HandshakeTimeout,
    Ready { session_id: Seq<char>, resume_url: Seq<char> },
    Resumed,
    Dispatch { sequence: u64 },
    HeartbeatDue,
    HeartbeatAck,
    InvalidSession { resumable: bool },
    ReconnectRequested,
    TransportClosed,
    Malformed,
    Shutdown,
}

impl View for Session {
    type V = SessionModel;

    open spec fn view(&self) -> SessionModel {
        SessionModel {
            session_id: self.session_id@,
            sequence: self.sequence,
            resume_url: self.resume_url@,
        }
    }
}

impl View for ShardEvent {
    type V = EventModel;

    open spec fn view(&self) -> EventModel {
        match self {
            ShardEvent::Connect => EventModel::Connect,
            ShardEvent::TransportOpened => EventModel::TransportOpened,
            ShardEvent::Hello { heartbeat_interval_ms } => EventModel::Hello {
                heartbeat_interval_ms: *heartbeat_interval_ms,
            },
            ShardEvent::HandshakeTimeout => EventModel::HandshakeTimeout,
            ShardEvent::Ready { session_id, resume_url } => EventModel::Ready {
                session_id: session_id@,
                resume_url: resume_url@,
            },
            ShardEvent::Resumed => EventModel::Resumed,
            ShardEvent::Dispatch { sequence } => EventModel::Dispatch { sequence: *sequence },
            ShardEvent::HeartbeatDue => EventModel::HeartbeatDue,
            ShardEvent::HeartbeatAck => EventModel::HeartbeatAck,
            ShardEvent::InvalidSession { resumable } => EventModel::InvalidSession {
                resumable: *resumable,
            },
            ShardEvent::ReconnectRequested => EventModel::ReconnectRequested,
            ShardEvent::TransportClosed => EventModel::TransportClosed,
            ShardEvent::Malformed => EventModel::Malformed,
            ShardEvent::Shutdown => EventModel::Shutdown,
        }
    }
}

impl View for ShardAction {
    type V = ActionModel;

    open spec fn view(&self) -> ActionModel {
        match self {
            ShardAction::Nothing => ActionModel::Nothing,
            ShardAction::OpenTransport => ActionModel::OpenTransport,
            ShardAction::AwaitHello => ActionModel::AwaitHello,
            ShardAction::AcquireAndIdentify => ActionModel::AcquireAndIdentify,
            ShardAction::SendResume { session_id, sequence } => ActionModel::SendResume {
                session_id: session_id@,
                sequence: *sequence,
            },
            ShardAction::SendHeartbeat { last_sequence } => ActionModel::SendHeartbeat {
                last_sequence: *last_sequence,
            },
            ShardAction::Forward { sequence } => ActionModel::Forward { sequence: *sequence },
            ShardAction::CloseTransport => ActionModel::CloseTransport,
            ShardAction::ScheduleReconnect { attempt, alert } => ActionModel::ScheduleReconnect {
                attempt: *attempt,
                alert: *alert,
            },
        }
    }
}

/// Adds one without passing the largest `u32`.
pub open spec fn bump(n: u32) -> u32 {
    if n < u32::MAX {
        (n + 1) as u32
    } else {
        n
    }
}

/// The shard after leaving a live or half-open connection: the transport is
/// gone, the heartbeat state is cleared and a reconnect is scheduled.
pub open spec fn disconnect(s: ShardModel, session: Option<SessionModel>) -> (ShardModel, ActionModel) {
    (
        ShardModel {
            state: ShardState::Disconnected,
            session,
            ack_pending: false,
            missed_acks: 0,
            attempt: bump(s.attempt),
            ..s
        },
        ActionModel::ScheduleReconnect { attempt: s.attempt, alert: false },
    )
}

/// One transition of the shard: the next state and the action it asks for.
pub open spec fn step(s: ShardModel, e: EventModel) -> (ShardModel, ActionModel) {
    let unchanged = (s, ActionModel::Nothing);
    if s.state == ShardState::Stopped {
        unchanged
    } else {
        match e {
            EventModel::Shutdown => (
                ShardModel { state: ShardState::Stopped, ack_pending: false, missed_acks: 0, ..s },
                ActionModel::CloseTransport,
            ),
            EventModel::Malformed => unchanged,
            EventModel::Connect => if s.state == ShardState::Disconnected {
                (ShardModel { state: ShardState::Connecting, ..s }, ActionModel::OpenTransport)
            } else {
                unchanged
            },
            EventModel::TransportOpened => if s.state == ShardState::Connecting {
                (ShardModel { state: ShardState::AwaitingHello, ..s }, ActionModel::AwaitHello)
            } else {
                unchanged
            },
            EventModel::HandshakeTimeout => if s.state == ShardState::Connecting || s.state
                == ShardState::AwaitingHello {
                let timeouts = bump(s.handshake_timeouts);
                (
                    ShardModel {
                        state: ShardState::Disconnected,
                        handshake_timeouts: timeouts,
                        attempt: bump(s.attempt),
                        ..s
                    },
                    ActionModel::ScheduleReconnect {
                        attempt: s.attempt,
                        alert: timeouts >= s.alert_threshold,
                    },
                )
            } else {
                unchanged
            },
            EventModel::Hello { heartbeat_interval_ms } => if s.state == ShardState::AwaitingHello {
                match s.session {
                    Some(sess) => (
                        ShardModel {
                            state: ShardState::Resuming,
                            heartbeat_interval_ms,
                            handshake_timeouts: 0,
                            ..s
                        },
                        ActionModel::SendResume {
                            session_id: sess.session_id,
                            sequence: sess.sequence,
                        },
                    ),
                    None => (
                        ShardModel {
                            state: ShardState::Identifying,
                            heartbeat_interval_ms,
                            handshake_timeouts: 0,
                            ..s
                        },
                        ActionModel::AcquireAndIdentify,
                    ),
                }
            } else {
                unchanged
            },
            EventModel::Ready { session_id, resume_url } => if s.state == ShardState::Identifying {
                (
                    ShardModel {
                        state: ShardState::Connected,
                        session: Some(SessionModel { session_id, sequence: 0, resume_url }),
                        ack_pending: false,
                        missed_acks: 0,
                        attempt: 0,
                        ..s
                    },
                    ActionModel::Nothing,
                )
            } else {
                unchanged
            },
            EventModel::Resumed => if s.state == ShardState::Resuming {
                (
                    ShardModel {
                        state: ShardState::Connected,
                        ack_pending: false,
                        missed_acks: 0,
                        attempt: 0,
                        ..s
                    },
                    ActionModel::Nothing,
                )
            } else {
                unchanged
            },
            EventModel::Dispatch { sequence } => if s.state == ShardState::Connected {
                match s.session {
                    Some(sess) => (
                        ShardModel {
                            session: Some(
                                SessionModel {
                                    sequence: if sequence > sess.sequence {
                                        sequence
                                    } else {
                                        sess.sequence
                                    },
                                    ..sess
                                },
                            ),
                            ..s
                        },
                        ActionModel::Forward { sequence },
                    ),
                    None => (s, ActionModel::Forward { sequence }),
                }
            } else {
                unchanged
            },
            EventModel::HeartbeatDue => if s.state == ShardState::Connected {
                let missed = if s.ack_pending {
                    bump(s.missed_acks)
                } else {
                    0
                };
                if missed >= MAX_MISSED_ACKS {
                    (
                        ShardModel { state: ShardState::Zombie, missed_acks: missed, ..s },
                        ActionModel::CloseTransport,
                    )
                } else {
                    (
                        ShardModel { ack_pending: true, missed_acks: missed, ..s },
                        ActionModel::SendHeartbeat {
                            last_sequence: match s.session {
                                Some(sess) => Some(sess.sequence),
                                None => None,
                            },
                        },
                    )
                }
            } else {
                unchanged
            },
            EventModel::HeartbeatAck => if s.state == ShardState::Connected {
                (ShardModel { ack_pending: false, missed_acks: 0, ..s }, ActionModel::Nothing)
            } else {
                unchanged
            },
            EventModel::InvalidSession { resumable } => if s.state == ShardState::Connected
                || s.state == ShardState::Resuming || s.state == ShardState::Identifying {
                disconnect(
                    s,
                    if resumable {
                        s.session
                    } else {
                        None
                    },
                )
            } else {
                unchanged
            },
            EventModel::ReconnectRequested => if s.state == ShardState::Connected || s.state
                == ShardState::Resuming || s.state == ShardState::Identifying {
                disconnect(s, s.session)
            } else {
                unchanged
            },
            EventModel::TransportClosed => if s.state == ShardState::Connected || s.state
                == ShardState::Resuming || s.state == ShardState::Identifying || s.state
                == ShardState::Zombie || s.state == ShardState::AwaitingHello || s.state
                == ShardState::Connecting {
                disconnect(s, s.session)
            } else {
                unchanged
            },
        }
    }
}

/// A disconnected shard with no session that receives Connect, the transport,
/// Hello and Ready becomes connected with a fresh session, and of the four
/// actions it asks for exactly one acquires an identify lease.
pub proof fn lemma_fresh_connect_identifies_once(
    s: ShardModel,
    interval: u64,
    session_id: Seq<char>,
    resume_url: Seq<char>,
)
    requires
        s.state == ShardState::Disconnected,
        s.session is None,
    ensures
        ({
            let (s1, a1) = step(s, EventModel::Connect);
            let (s2, a2) = step(s1, EventModel::TransportOpened);
            let (s3, a3) = step(s2, EventModel::Hello { heartbeat_interval_ms: interval });
            let (s4, a4) = step(s3, EventModel::Ready { session_id, resume_url });
            &&& s1.state == ShardState::Connecting
            &&& s2.state == ShardState::AwaitingHello
            &&& s3.state == ShardState::Identifying
            &&& s4.state == ShardState::Connected
            &&& s4.session == Some(SessionModel { session_id, sequence: 0, resume_url })
            &&& a3 is AcquireAndIdentify
            &&& !(a1 is AcquireAndIdentify) && !(a2 is AcquireAndIdentify)
                && !(a4 is AcquireAndIdentify)
        }),
{
}

/// Two consecutive heartbeats left unacknowledged turn a connected shard into a
/// zombie whose transport is closed; the close then disconnects it with a
/// reconnect scheduled, and the next Connect opens a new transport.
pub proof fn lemma_two_missed_acks_reconnect(s: ShardModel)
    requires
        s.state == ShardState::Connected,
        !s.ack_pending,
    ensures
        ({
            let (s1, a1) = step(s, EventModel::HeartbeatDue);
            let (s2, a2) = step(s1, EventModel::HeartbeatDue);
            let (s3, a3) = step(s2, EventModel::HeartbeatDue);
            let (s4, a4) = step(s3, EventModel::TransportClosed);
            let (s5, a5) = step(s4, EventModel::Connect);
            &&& a1 is SendHeartbeat && s1.state == ShardState::Connected
            &&& a2 is SendHeartbeat && s2.state == ShardState::Connected && s2.missed_acks == 1
            &&& a3 is CloseTransport && s3.state == ShardState::Zombie
            &&& a4 is ScheduleReconnect && s4.state == ShardState::Disconnected
            &&& a5 is OpenTransport && s5.state == ShardState::Connecting
        }),
{
}

/// A single unacknowledged heartbeat, followed by an acknowledgment, leaves the
/// shard connected and heartbeating.
pub proof fn lemma_one_missed_ack_stays_connected(s: ShardModel)
    requires
        s.state == ShardState::Connected,
        !s.ack_pending,
    ensures
        ({
            let (s1, a1) = step(s, EventModel::HeartbeatDue);
            let (s2, a2) = step(s1, EventModel::HeartbeatDue);
            let (s3, a3) = step(s2, EventModel::HeartbeatAck);
            let (s4, a4) = step(s3, EventModel::HeartbeatDue);
            &&& s2.state == ShardState::Connected && a2 is SendHeartbeat
            &&& s3.state == ShardState::Connected && s3.missed_acks == 0
            &&& s4.state == ShardState::Connected && a4 is SendHeartbeat
        }),
{
}

/// A resumable invalidation of a connected session leads, through a reconnect,
/// to one Resume carrying the prior session id and the last sequence seen, and
/// none of the actions on the way acquires an identify lease.
pub proof fn lemma_resumable_invalidation_resumes(s: ShardModel, interval: u64)
    requires
        s.state == ShardState::Connected,
        s.session is Some,
    ensures
        ({
            let (s1, a1) = step(s, EventModel::InvalidSession { resumable: true });
            let (s2, a2) = step(s1, EventModel::Connect);
            let (s3, a3) = step(s2, EventModel::TransportOpened);
            let (s4, a4) = step(s3, EventModel::Hello { heartbeat_interval_ms: interval });
            let (s5, a5) = step(s4, EventModel::Resumed);
            &&& s1.state == ShardState::Disconnected && s1.session == s.session
            &&& a4 == ActionModel::SendResume {
                session_id: s.session.unwrap().session_id,
                sequence: s.session.unwrap().sequence,
            }
            &&& s5.state == ShardState::Connected && s5.session == s.session
            &&& !(a1 is AcquireAndIdentify) && !(a2 is AcquireAndIdentify)
                && !(a3 is AcquireAndIdentify) && !(a4 is AcquireAndIdentify)
                && !(a5 is AcquireAndIdentify)
        }),
{
}

/// A non-resumable invalidation drops the session, so the next handshake
/// identifies afresh.
pub proof fn lemma_invalidation_without_resume_identifies(s: ShardModel, interval: u64)
    requires
        s.state == ShardState::Connected,
    ensures
        ({
            let (s1, a1) = step(s, EventModel::InvalidSession { resumable: false });
            let (s2, a2) = step(s1, EventModel::Connect);
            let (s3, a3) = step(s2, EventModel::TransportOpened);
            let (s4, a4) = step(s3, EventModel::Hello { heartbeat_interval_ms: interval });
            &&& s1.session is None
            &&& a4 is AcquireAndIdentify && s4.state == ShardState::Identifying
        }),
{
}

/// Within a session the sequence never decreases.
pub proof fn lemma_sequence_monotonic(s: ShardModel, e: EventModel)
    requires
        s.session is Some,
    ensures
        ({
            let (t, a) = step(s, e);
            t.session is Some && t.session.unwrap().session_id == s.session.unwrap().session_id
                ==> t.session.unwrap().sequence >= s.session.unwrap().sequence || e is Ready
        }),
{
}

/// Once stopped, a shard stays stopped and asks for nothing.
pub proof fn lemma_stopped_is_terminal(s: ShardModel, e: EventModel)
    requires
        s.state == ShardState::Stopped,
    ensures
        step(s, e) == (s, ActionModel::Nothing),
{
}

/// One connection's state machine.
pub struct Shard {
    state: ShardState,
    session: Option<Session>,
    heartbeat_interval_ms: u64,
    ack_pending: bool,
    missed_acks: u32,
    attempt: u32,
    handshake_timeouts: u32,
    alert_threshold: u32,
}

impl View for Shard {
    type V = ShardModel;

    closed spec fn view(&self) -> ShardModel {
        ShardModel {
            state: self.state,
            session: match self.session {
                Some(s) => Some(s@),
                None => None,
            },
            heartbeat_interval_ms: self.heartbeat_interval_ms,
            ack_pending: self.ack_pending,
            missed_acks: self.missed_acks,
            attempt: self.attempt,
            handshake_timeouts: self.handshake_timeouts,
            alert_threshold: self.alert_threshold,
        }
    }
}

/// The shard as spawned: disconnected, with no session.
pub open spec fn initial(alert_threshold: u32) -> ShardModel {
    ShardModel {
        state: ShardState::Disconnected,
        session: None,
        heartbeat_interval_ms: 0,
        ack_pending: false,
        missed_acks: 0,
        attempt: 0,
        handshake_timeouts: 0,
        alert_threshold,
    }
}

fn bump_exec(n: u32) -> (r: u32)
    ensures
        r == bump(n),
{
    if n < u32::MAX {
        n + 1
    } else {
        n
    }
}

impl Shard {
    /// A disconnected shard with no session; repeated handshake timeouts are
    /// escalated once `alert_threshold` of them have occurred in a row.
    pub fn new(alert_threshold: u32) -> (r: Shard)
        ensures
            r@ == initial(alert_threshold),
    {
        Shard {
            state: ShardState::Disconnected,
            session: None,
            heartbeat_interval_ms: 0,
            ack_pending: false,
            missed_acks: 0,
            attempt: 0,
            handshake_timeouts: 0,
            alert_threshold,
        }
    }

    pub fn state(&self) -> (r: ShardState)
        ensures
            r == self@.state,
    {
        self.state
    }

    pub fn session(&self) -> (r: &Option<Session>)
        ensures
            r.is_some() == self@.session.is_some(),
            r matches Some(s) ==> self@.session == Some(s@),
    {
        &self.session
    }

    pub fn heartbeat_interval_ms(&self) -> (r: u64)
        ensures
            r == self@.heartbeat_interval_ms,
    {
        self.heartbeat_interval_ms
    }

    pub fn missed_acks(&self) -> (r: u32)
        ensures
            r == self@.missed_acks,
    {
        self.missed_acks
    }

    fn disconnect(&mut self, keep_session: bool) -> (r: ShardAction)
        ensures
            (final(self)@, r@) == disconnect(
                old(self)@,
                if keep_session {
                    old(self)@.session
                } else {
                    None
                },
            ),
    {
        let attempt = self.attempt;
        self.state = ShardState::Disconnected;
        if !keep_session {
            self.session = None;
        }
        self.ack_pending = false;
        self.missed_acks = 0;
        self.attempt = bump_exec(attempt);
        ShardAction::ScheduleReconnect { attempt, alert: false }
    }

    /// Applies one event and returns the action that the runner must perform.
    pub fn step(&mut self, event: ShardEvent) -> (r: ShardAction)
        ensures
            (final(self)@, r@) == step(old(self)@, event@),
    {
        if self.state == ShardState::Stopped {
            return ShardAction::Nothing;
        }
        let live = self.state == ShardState::Connected || self.state == ShardState::Resuming
            || self.state == ShardState::Identifying;
        match event {
            ShardEvent::Shutdown => {
                self.state = ShardState::Stopped;
                self.ack_pending = false;
                self.missed_acks = 0;
                ShardAction::CloseTransport
            },
            ShardEvent::Malformed => ShardAction::Nothing,
            ShardEvent::Connect => {
                if self.state == ShardState::Disconnected {
                    self.state = ShardState::Connecting;
                    ShardAction::OpenTransport
                } else {
                    ShardAction::Nothing
                }
            },
            ShardEvent::TransportOpened => {
                if self.state == ShardState::Connecting {
                    self.state = ShardState::AwaitingHello;
                    ShardAction::AwaitHello
                } else {
                    ShardAction::Nothing
                }
            },
            ShardEvent::HandshakeTimeout => {
                if self.state == ShardState::Connecting || self.state == ShardState::AwaitingHello {
                    let attempt = self.attempt;
                    let timeouts = bump_exec(self.handshake_timeouts);
                    self.state = ShardState::Disconnected;
                    self.handshake_timeouts = timeouts;
                    self.attempt = bump_exec(attempt);
                    ShardAction::ScheduleReconnect {
                        attempt,
                        alert: timeouts >= self.alert_threshold,
                    }
                } else {
                    ShardAction::Nothing
                }
            },
            ShardEvent::Hello { heartbeat_interval_ms } => {
                if self.state == ShardState::AwaitingHello {
                    self.heartbeat_interval_ms = heartbeat_interval_ms;
                    self.handshake_timeouts = 0;
                    match &self.session {
                        Some(sess) => {
                            let action = ShardAction::SendResume {
                                session_id: sess.session_id.clone(),
                                sequence: sess.sequence,
                            };
                            self.state = ShardState::Resuming;
                            action
                        },
                        None => {
                            self.state = ShardState::Identifying;
                            ShardAction::AcquireAndIdentify
                        },
                    }
                } else {
                    ShardAction::Nothing
                }
            },
            ShardEvent::Ready { session_id, resume_url } => {
                if self.state == ShardState::Identifying {
                    self.state = ShardState::Connected;
                    self.session = Some(Session { session_id, sequence: 0, resume_url });
                    self.ack_pending = false;
                    self.missed_acks = 0;
                    self.attempt = 0;
                }
                ShardAction::Nothing
            },
            ShardEvent::Resumed => {
                if self.state == ShardState::Resuming {
                    self.state = ShardState::Connected;
                    self.ack_pending = false;
                    self.missed_acks = 0;
                    self.attempt = 0;
                }
                ShardAction::Nothing
            },
            ShardEvent::Dispatch { sequence } => {
                if self.state == ShardState::Connected {
                    match self.session.take() {
                        Some(sess) => {
                            let last = sess.sequence;
                            self.session = Some(
                                Session {
                                    sequence: if sequence > last {
                                        sequence
                                    } else {
                                        last
                                    },
                                    ..sess
                                },
                            );
                        },
                        None => {},
                    }
                    ShardAction::Forward { sequence }
                } else {
                    ShardAction::Nothing
                }
            },
            ShardEvent::HeartbeatDue => {
                if self.state == ShardState::Connected {
                    let missed = if self.ack_pending {
                        bump_exec(self.missed_acks)
                    } else {
                        0
                    };
                    self.missed_acks = missed;
                    if missed >= MAX_MISSED_ACKS {
                        self.state = ShardState::Zombie;
                        ShardAction::CloseTransport
                    } else {
                        self.ack_pending = true;
                        let last_sequence = match &self.session {
                            Some(sess) => Some(sess.sequence),
                            None => None,
                        };
                        ShardAction::SendHeartbeat { last_sequence }
                    }
                } else {
                    ShardAction::Nothing
                }
            },
            ShardEvent::HeartbeatAck => {
                if self.state == ShardState::Connected {
                    self.ack_pending = false;
                    self.missed_acks = 0;
                }
                ShardAction::Nothing
            },
            ShardEvent::InvalidSession { resumable } => {
                if live {
                    self.disconnect(resumable)
                } else {
                    ShardAction::Nothing
                }
            },
            ShardEvent::ReconnectRequested => {
                if live {
                    self.disconnect(true)
                } else {
                    ShardAction::Nothing
                }
            },
            ShardEvent::TransportClosed => {
                if live || self.state == ShardState::Zombie || self.state
                    == ShardState::AwaitingHello || self.state == ShardState::Connecting {
                    self.disconnect(true)
                } else {
                    ShardAction::Nothing
                }
            },
        }
    }
}

} // verus!

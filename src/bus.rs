use vstd::prelude::*;

verus! {

/// Seconds between two liveness probes sent by the session.
pub const KEEPALIVE_INTERVAL_SECS: u64 = 30;

/// The handshake frame that subscribes to the intents topic.
pub open spec fn subscribe_request() -> Seq<char> {
    "{\"jsonrpc\":\"2.0\",\"id\":1,\"method\":\"subscribe\",\"params\":[\"intents\"]}"@
}

/// Builds the text of the subscribe handshake frame.
pub fn subscribe_request_text() -> (r: String)
    ensures
        r@ == subscribe_request(),
{
    String::from_str("{\"jsonrpc\":\"2.0\",\"id\":1,\"method\":\"subscribe\",\"params\":[\"intents\"]}")
}

/// A frame of the bus transport.
#[derive(Debug, Clone)]
pub enum Frame {
    Text(String),
    Binary(Vec<u8>),
    /// Liveness probe.
    Ping(Vec<u8>),
    /// Liveness response.
    Pong(Vec<u8>),
    Close,
}

pub enum FrameView {
    Text(Seq<char>),
    Binary(Seq<u8>),
    Ping(Seq<u8>),
    Pong(Seq<u8>),
    Close,
}

impl View for Frame {
    type V = FrameView;

    open spec fn view(&self) -> FrameView {
        match self {
            Frame::Text(t) => FrameView::Text(t@),
            Frame::Binary(b) => FrameView::Binary(b@),
            Frame::Ping(p) => FrameView::Ping(p@),
            Frame::Pong(p) => FrameView::Pong(p@),
            Frame::Close => FrameView::Close,
        }
    }
}

/// What the driver of a session observed: the outcome of the action it was
/// given, or the next of the two raced sources (an inbound frame, a timer tick).
#[derive(Debug, Clone)]
pub enum BusEvent {
    /// The connection was established.
    Connected,
    /// The connection could not be established.
    ConnectFailed,
    /// The frame of the last `Send` action went out.
    Sent,
    /// The frame of the last `Send` action could not be sent.
    SendFailed,
    /// A frame arrived.
    Received(Frame),
    /// The transport reported an error while waiting for a frame.
    ReceiveFailed,
    /// The stream ended without a close frame or an error.
    StreamEnded,
    /// The keepalive timer fired.
    Tick,
}

pub enum BusEventView {
    Connected,
    ConnectFailed,
    Sent,
    SendFailed,
    Received(FrameView),
    ReceiveFailed,
    StreamEnded,
    Tick,
}

impl View for BusEvent {
    type V = BusEventView;

    open spec fn view(&self) -> BusEventView {
        match self {
            BusEvent::Connected => BusEventView::Connected,
            BusEvent::ConnectFailed => BusEventView::ConnectFailed,
            BusEvent::Sent => BusEventView::Sent,
            BusEvent::SendFailed => BusEventView::SendFailed,
            BusEvent::Received(f) => BusEventView::Received(f@),
            BusEvent::ReceiveFailed => BusEventView::ReceiveFailed,
            BusEvent::StreamEnded => BusEventView::StreamEnded,
            BusEvent::Tick => BusEventView::Tick,
        }
    }
}

/// What the driver of a session must do next.
#[derive(Debug, Clone)]
pub enum BusAction {
    /// Send this frame and report `Sent` or `SendFailed`.
    Send(Frame),
    /// Wait for the next inbound frame or timer tick.
    Await,
    /// Hand this text payload to the intent hook, then wait as for `Await`.
    Deliver(String),
    /// Close the connection and stop.
    Release,
    /// Stop; there is no connection to close.
    Abort,
    /// The event changed nothing: carry on as before, or stay stopped.
    Idle,
}

pub enum BusActionView {
    Send(FrameView),
    Await,
    Deliver(Seq<char>),
    Release,
    Abort,
    Idle,
}

impl View for BusAction {
    type V = BusActionView;

    open spec fn view(&self) -> BusActionView {
        match self {
            BusAction::Send(f) => BusActionView::Send(f@),
            BusAction::Await => BusActionView::Await,
            BusAction::Deliver(t) => BusActionView::Deliver(t@),
            BusAction::Release => BusActionView::Release,
            BusAction::Abort => BusActionView::Abort,
            BusAction::Idle => BusActionView::Idle,
        }
    }
}

/// Why a session stopped.
#[derive(Debug, Clone, Copy, PartialEq, Eq, Structural)]
pub enum Termination {
    /// The connection could not be established.
    ConnectFailed,
    /// The subscribe frame could not be sent.
    SubscribeFailed,
    /// The server sent a close frame.
    ClosedByServer,
    /// The transport reported an error while receiving.
    ReceiveFailed,
    /// The stream ended without a close frame.
    StreamEnded,
    /// A liveness response could not be sent.
    PongFailed,
    /// A liveness probe could not be sent.
    PingFailed,
}

impl Termination {
    /// Whether the session's caller receives this termination as an error;
    /// every other termination ends the loop without one.
    pub open spec fn surfaces_error_spec(self) -> bool {
        self == Termination::ConnectFailed || self == Termination::SubscribeFailed
    }

    pub fn surfaces_error(&self) -> (r: bool)
        ensures
            r == self.surfaces_error_spec(),
    {
        match self {
            Termination::ConnectFailed | Termination::SubscribeFailed => true,
            _ => false,
        }
    }
}

/// Where a session stands.
#[derive(Debug, Clone, Copy, PartialEq, Eq, Structural)]
pub enum Phase {
    /// Waiting for the connection to be established.
    Connecting,
    /// The subscribe frame is being sent.
    Subscribing,
    /// Waiting for an inbound frame or a timer tick.
    Listening,
    /// A liveness response is being sent.
    Replying,
    /// A liveness probe is being sent.
    Probing,
    /// Stopped for good.
    Finished(Termination),
}

/// Severity of an observability event.
#[derive(Debug, Clone, Copy, PartialEq, Eq, Structural)]
pub enum Level {
    Error,
    Info,
    Debug,
    Trace,
}

/// An observability event emitted by a session step.
#[derive(Debug, Clone, Copy, PartialEq, Eq, Structural)]
pub enum Notice {
    Connected,
    ConnectFailed,
    Listening,
    TextReceived,
    PongFailed,
    ClosedByServer,
    ReceiveFailed,
    StreamEnded,
    SendingPing,
    PingFailed,
}

pub open spec fn notice_level(n: Notice) -> Level {
    match n {
        Notice::Connected | Notice::Listening | Notice::ClosedByServer => Level::Info,
        Notice::TextReceived => Level::Debug,
        Notice::SendingPing => Level::Trace,
        _ => Level::Error,
    }
}

impl Notice {
    /// Severity at which this event is reported.
    pub fn level(&self) -> (r: Level)
        ensures
            r == notice_level(*self),
    {
        match self {
            Notice::Connected | Notice::Listening | Notice::ClosedByServer => Level::Info,
            Notice::TextReceived => Level::Debug,
            Notice::SendingPing => Level::Trace,
            _ => Level::Error,
        }
    }
}

/// One transition of a session: the phase after `e` in phase `p`, the action
/// owed to the driver, and the event to report.
pub open spec fn step_spec(p: Phase, e: BusEventView) -> (Phase, BusActionView, Option<Notice>) {
    match p {
        Phase::Connecting => match e {
            BusEventView::Connected => (
                Phase::Subscribing,
                BusActionView::Send(FrameView::Text(subscribe_request())),
                Some(Notice::Connected),
            ),
            BusEventView::ConnectFailed => (
                Phase::Finished(Termination::ConnectFailed),
                BusActionView::Abort,
                Some(Notice::ConnectFailed),
            ),
            _ => (p, BusActionView::Idle, None),
        },
        Phase::Subscribing => match e {
            BusEventView::Sent => (Phase::Listening, BusActionView::Await, Some(Notice::Listening)),
            BusEventView::SendFailed => (
                Phase::Finished(Termination::SubscribeFailed),
                BusActionView::Release,
                None,
            ),
            _ => (p, BusActionView::Idle, None),
        },
        Phase::Listening => match e {
            BusEventView::Received(f) => match f {
                FrameView::Text(t) => (
                    Phase::Listening,
                    BusActionView::Deliver(t),
                    Some(Notice::TextReceived),
                ),
                FrameView::Ping(d) => (
                    Phase::Replying,
                    BusActionView::Send(FrameView::Pong(d)),
                    None,
                ),
                FrameView::Close => (
                    Phase::Finished(Termination::ClosedByServer),
                    BusActionView::Release,
                    Some(Notice::ClosedByServer),
                ),
                _ => (Phase::Listening, BusActionView::Await, None),
            },
            BusEventView::ReceiveFailed => (
                Phase::Finished(Termination::ReceiveFailed),
                BusActionView::Release,
                Some(Notice::ReceiveFailed),
            ),
            BusEventView::StreamEnded => (
                Phase::Finished(Termination::StreamEnded),
                BusActionView::Release,
                Some(Notice::StreamEnded),
            ),
            BusEventView::Tick => (
                Phase::Probing,
                BusActionView::Send(FrameView::Ping(Seq::empty())),
                Some(Notice::SendingPing),
            ),
            _ => (p, BusActionView::Idle, None),
        },
        Phase::Replying => match e {
            BusEventView::Sent => (Phase::Listening, BusActionView::Await, None),
            BusEventView::SendFailed => (
                Phase::Finished(Termination::PongFailed),
                BusActionView::Release,
                Some(Notice::PongFailed),
            ),
            _ => (p, BusActionView::Idle, None),
        },
        Phase::Probing => match e {
            BusEventView::Sent => (Phase::Listening, BusActionView::Await, None),
            BusEventView::SendFailed => (
                Phase::Finished(Termination::PingFailed),
                BusActionView::Release,
                Some(Notice::PingFailed),
            ),
            _ => (p, BusActionView::Idle, None),
        },
        Phase::Finished(_) => (p, BusActionView::Idle, None),
    }
}

/// The answer of a session to one event.
#[derive(Debug, Clone)]
pub struct Reaction {
    pub action: BusAction,
    pub notice: Option<Notice>,
}

/// The decisions of one connection to the solver bus: subscribe once
/// connected, answer liveness probes, probe on each timer tick, and stop on
/// close, error, end of stream or a failed send.
#[derive(Debug, Clone, Copy)]
pub struct BusSession {
    pub phase: Phase,
}

impl BusSession {
    /// A session waiting for its connection.
    pub fn new() -> (r: BusSession)
        ensures
            r.phase == Phase::Connecting,
    {
        BusSession { phase: Phase::Connecting }
    }

    /// Why the session stopped, if it has.
    pub fn termination(&self) -> (r: Option<Termination>)
        ensures
            r == (match self.phase {
                Phase::Finished(t) => Some(t),
                _ => None,
            }),
    {
        match self.phase {
            Phase::Finished(t) => Some(t),
            _ => None,
        }
    }

    /// Advances the session by one event.
    pub fn step(&mut self, event: BusEvent) -> (r: Reaction)
        ensures
            (final(self).phase, r.action@, r.notice) == step_spec(old(self).phase, event@),
    {
        let (phase, action, notice) = match self.phase {
            Phase::Connecting => match event {
                BusEvent::Connected => (
                    Phase::Subscribing,
                    BusAction::Send(Frame::Text(subscribe_request_text())),
                    Some(Notice::Connected),
                ),
                BusEvent::ConnectFailed => (
                    Phase::Finished(Termination::ConnectFailed),
                    BusAction::Abort,
                    Some(Notice::ConnectFailed),
                ),
                _ => (self.phase, BusAction::Idle, None),
            },
            Phase::Subscribing => match event {
                BusEvent::Sent => (Phase::Listening, BusAction::Await, Some(Notice::Listening)),
                BusEvent::SendFailed => (
                    Phase::Finished(Termination::SubscribeFailed),
                    BusAction::Release,
                    None,
                ),
                _ => (self.phase, BusAction::Idle, None),
            },
            Phase::Listening => match event {
                BusEvent::Received(f) => match f {
                    Frame::Text(t) => (
                        Phase::Listening,
                        BusAction::Deliver(t),
                        Some(Notice::TextReceived),
                    ),
                    Frame::Ping(d) => (Phase::Replying, BusAction::Send(Frame::Pong(d)), None),
                    Frame::Close => (
                        Phase::Finished(Termination::ClosedByServer),
                        BusAction::Release,
                        Some(Notice::ClosedByServer),
                    ),
                    _ => (Phase::Listening, BusAction::Await, None),
                },
                BusEvent::ReceiveFailed => (
                    Phase::Finished(Termination::ReceiveFailed),
                    BusAction::Release,
                    Some(Notice::ReceiveFailed),
                ),
                BusEvent::StreamEnded => (
                    Phase::Finished(Termination::StreamEnded),
                    BusAction::Release,
                    Some(Notice::StreamEnded),
                ),
                BusEvent::Tick => (
                    Phase::Probing,
                    BusAction::Send(Frame::Ping(Vec::new())),
                    Some(Notice::SendingPing),
                ),
                _ => (self.phase, BusAction::Idle, None),
            },
            Phase::Replying => match event {
                BusEvent::Sent => (Phase::Listening, BusAction::Await, None),
                BusEvent::SendFailed => (
                    Phase::Finished(Termination::PongFailed),
                    BusAction::Release,
                    Some(Notice::PongFailed),
                ),
                _ => (self.phase, BusAction::Idle, None),
            },
            Phase::Probing => match event {
                BusEvent::Sent => (Phase::Listening, BusAction::Await, None),
                BusEvent::SendFailed => (
                    Phase::Finished(Termination::PingFailed),
                    BusAction::Release,
                    Some(Notice::PingFailed),
                ),
                _ => (self.phase, BusAction::Idle, None),
            },
            Phase::Finished(_) => (self.phase, BusAction::Idle, None),
        };
        self.phase = phase;
        Reaction { action, notice }
    }
}

} // verus!

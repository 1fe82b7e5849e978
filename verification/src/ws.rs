//! One connection: its liveness, and what it does with each frame.
//!
//! A session is a state machine. It is handed events (the connection was
//! established, the heartbeat timer fired, a frame came in, the connection
//! is going away) together with the current time in milliseconds, and answers
//! each with the actions to perform: requests for the hub and frames for the
//! client.

use vstd::prelude::*;
use crate::messages::{
    Connect, Disconnect, LobbyRequest, LobbyRequestView, PassengerInfo, PositionUpdate,
    ReserveSeat, RouteRequest, UnreserveSeat, WsMessage,
};
use crate::protocol::client_protocol::{ClientInput, ClientInputView};
use crate::protocol::server_protocol::{error_view, ErrorType, ServerOutput, ServerOutputView};

verus! {

/// How often a heartbeat ping is sent, in milliseconds.
pub const HEARTBEAT_INTERVAL: u64 = 5000;

/// How long a client may stay silent before it is dropped, in milliseconds.
pub const CLIENT_TIMEOUT: u64 = 10000;

/// Calls `uuid::Uuid::new_v4` and takes the 128-bit value of the result with
/// `Uuid::as_u128`. The identifier is random; what the crate fixes are the
/// version, four, in bits 76 to 79 and the variant in bits 62 and 63. The
/// crate panics where the system cannot supply random bytes.
#[verifier::external_body]
fn new_session_id() -> (id: u128)
    ensures
        (id >> 76) & 0xf == 4,
        (id >> 62) & 0x3 == 2,
{
    uuid::Uuid::new_v4().as_u128()
}

/// The heartbeat parameters, in milliseconds.
#[derive(Debug, Clone, Copy, PartialEq, Eq, Structural)]
pub struct Liveness {
    /// How often a ping is sent.
    pub interval: u64,
    /// How long a client may stay silent.
    pub timeout: u64,
}

impl Liveness {
    /// The timeout exceeds the interval, so that one missed ping is tolerated.
    pub open spec fn wf(&self) -> bool {
        0 < self.interval < self.timeout
    }
}

/// The default heartbeat parameters.
pub open spec fn default_liveness() -> Liveness {
    Liveness { interval: HEARTBEAT_INTERVAL, timeout: CLIENT_TIMEOUT }
}

/// Where a session is in its life.
#[derive(Debug, Clone, Copy, PartialEq, Eq, Structural)]
pub enum SessionState {
    Connecting,
    Active,
    Closing,
    Closed,
}

/// A frame that came in from the client. A text frame carries the request it
/// was decoded to, or nothing where it could not be decoded.
#[derive(Debug, Clone, PartialEq, Eq)]
pub enum Frame {
    Ping(Vec<u8>),
    Pong,
    Binary(Vec<u8>),
    Close,
    Continuation,
    Nop,
    Text(Option<ClientInput>),
    ProtocolError,
}

/// What a [`Frame`] says.
pub enum FrameView {
    Ping(Seq<u8>),
    Pong,
    Binary(Seq<u8>),
    Close,
    Continuation,
    Nop,
    Text(Option<ClientInputView>),
    ProtocolError,
}

impl View for Frame {
    type V = FrameView;

    open spec fn view(&self) -> FrameView {
        match *self {
            Frame::Ping(p) => FrameView::Ping(p@),
            Frame::Pong => FrameView::Pong,
            Frame::Binary(b) => FrameView::Binary(b@),
            Frame::Close => FrameView::Close,
            Frame::Continuation => FrameView::Continuation,
            Frame::Nop => FrameView::Nop,
            Frame::Text(Some(input)) => FrameView::Text(Some(input@)),
            Frame::Text(None) => FrameView::Text(None),
            Frame::ProtocolError => FrameView::ProtocolError,
        }
    }
}

/// Something a session wants done.
#[derive(Debug, Clone, PartialEq, Eq)]
pub enum SessionAction {
    /// Start the heartbeat timer with this interval.
    Heartbeat(u64),
    /// Hand this request to the hub.
    ToLobby(LobbyRequest),
    /// Send a ping to the client.
    Ping,
    /// Answer a ping with this payload.
    Pong(Vec<u8>),
    /// Send this message to the client.
    Text(ServerOutput),
    /// Acknowledge the client's close frame.
    Close,
    /// Stop the connection.
    Stop,
}

/// What a [`SessionAction`] says.
pub enum SessionActionView {
    Heartbeat(u64),
    ToLobby(LobbyRequestView),
    Ping,
    Pong(Seq<u8>),
    Text(ServerOutputView),
    Close,
    Stop,
}

impl View for SessionAction {
    type V = SessionActionView;

    open spec fn view(&self) -> SessionActionView {
        match *self {
            SessionAction::Heartbeat(i) => SessionActionView::Heartbeat(i),
            SessionAction::ToLobby(r) => SessionActionView::ToLobby(r@),
            SessionAction::Ping => SessionActionView::Ping,
            SessionAction::Pong(p) => SessionActionView::Pong(p@),
            SessionAction::Text(m) => SessionActionView::Text(m@),
            SessionAction::Close => SessionActionView::Close,
            SessionAction::Stop => SessionActionView::Stop,
        }
    }
}

/// What a list of actions says, in order.
pub open spec fn action_views(actions: Seq<SessionAction>) -> Seq<SessionActionView> {
    actions.map_values(|a: SessionAction| a@)
}

/// A session as a value: its identifier, when the client was last heard,
/// where it is in its life, and its heartbeat parameters.
pub struct SessionView {
    pub id: u128,
    pub hb: u64,
    pub state: SessionState,
    pub liveness: Liveness,
}

/// The reason sent back for a text frame that could not be decoded.
pub open spec fn unsupported_text() -> Seq<char> {
    "Unsupported message"@
}

/// The request that the session `id` hands to the hub for an input; none for
/// an input that the protocol does not support.
pub open spec fn request_for(id: u128, input: ClientInputView) -> Option<LobbyRequestView> {
    match input {
        ClientInputView::GetLineInformation(_) => None,
        ClientInputView::GetRouteInformation(identifier) => Some(
            LobbyRequestView::RouteRequest(id, identifier),
        ),
        ClientInputView::GeoPositionUpdate(position) => Some(
            LobbyRequestView::PositionUpdate(id, position),
        ),
        ClientInputView::GetPassengerInformation(d) => Some(LobbyRequestView::PassengerInfo(id, d)),
        ClientInputView::ReserveSeat(d) => Some(LobbyRequestView::ReserveSeat(id, d)),
        ClientInputView::UnreserveSeat => Some(LobbyRequestView::UnreserveSeat(id)),
    }
}

/// How long the client has been silent at the time `now`.
pub open spec fn silence(s: SessionView, now: u64) -> int {
    if now >= s.hb {
        now - s.hb
    } else {
        0
    }
}

/// The session once the connection is established: it becomes active, starts
/// its heartbeat and connects to the hub. Only a connecting session does so.
pub open spec fn after_started(s: SessionView) -> (SessionView, Seq<SessionActionView>) {
    if s.state == SessionState::Connecting {
        (
            SessionView { state: SessionState::Active, ..s },
            seq![
                SessionActionView::Heartbeat(s.liveness.interval),
                SessionActionView::ToLobby(LobbyRequestView::Connect(s.id)),
            ],
        )
    } else {
        (s, Seq::empty())
    }
}

/// The session after the heartbeat timer has fired at the time `now`: an
/// active session whose client has been silent for longer than the timeout
/// starts closing and stops the connection; any other active session pings
/// its client.
pub open spec fn after_heartbeat(s: SessionView, now: u64) -> (
    SessionView,
    Seq<SessionActionView>,
) {
    if s.state != SessionState::Active {
        (s, Seq::empty())
    } else if silence(s, now) > s.liveness.timeout {
        (SessionView { state: SessionState::Closing, ..s }, seq![SessionActionView::Stop])
    } else {
        (s, seq![SessionActionView::Ping])
    }
}

/// What a session answers to a frame that carries no request it supports.
pub open spec fn unsupported() -> SessionActionView {
    SessionActionView::Text(error_view(ErrorType::UnknownMessage, unsupported_text()))
}

/// The session after a frame has come in at the time `now`. Only an active
/// session reacts. A ping is answered and, like a pong, counts as a sign of
/// life. A close frame is acknowledged and, like a continuation frame or a
/// protocol error, ends the connection. A text frame becomes a request for
/// the hub. Every other data frame is answered with an error and the
/// connection stays: a binary frame, a text frame that could not be decoded,
/// and a decoded request that the protocol does not support.
pub open spec fn after_frame(s: SessionView, frame: FrameView, now: u64) -> (
    SessionView,
    Seq<SessionActionView>,
) {
    if s.state != SessionState::Active {
        (s, Seq::empty())
    } else {
        match frame {
            FrameView::Ping(payload) => (
                SessionView { hb: now, ..s },
                seq![SessionActionView::Pong(payload)],
            ),
            FrameView::Pong => (SessionView { hb: now, ..s }, Seq::empty()),
            FrameView::Binary(_) => (s, seq![unsupported()]),
            FrameView::Close => (
                SessionView { state: SessionState::Closing, ..s },
                seq![SessionActionView::Close, SessionActionView::Stop],
            ),
            FrameView::Continuation => (
                SessionView { state: SessionState::Closing, ..s },
                seq![SessionActionView::Stop],
            ),
            FrameView::Nop => (s, Seq::empty()),
            FrameView::Text(Some(input)) => match request_for(s.id, input) {
                Some(request) => (s, seq![SessionActionView::ToLobby(request)]),
                None => (s, seq![unsupported()]),
            },
            FrameView::Text(None) => (s, seq![unsupported()]),
            FrameView::ProtocolError => (
                SessionView { state: SessionState::Closing, ..s },
                seq![SessionActionView::Stop],
            ),
        }
    }
}

/// The session once the connection goes away: it disconnects from the hub
/// and is closed. A closed session does nothing.
pub open spec fn after_stopping(s: SessionView) -> (SessionView, Seq<SessionActionView>) {
    if s.state == SessionState::Closed {
        (s, Seq::empty())
    } else {
        (
            SessionView { state: SessionState::Closed, ..s },
            seq![SessionActionView::ToLobby(LobbyRequestView::Disconnect(s.id))],
        )
    }
}

/// Something that happens to a session, with the time at which it happens
/// where that matters.
pub enum SessionEvent {
    Started,
    Heartbeat(u64),
    Frame(FrameView, u64),
    Stopping,
}

/// The session after one event, and the actions it asks for.
pub open spec fn after(s: SessionView, event: SessionEvent) -> (SessionView, Seq<SessionActionView>) {
    match event {
        SessionEvent::Started => after_started(s),
        SessionEvent::Heartbeat(now) => after_heartbeat(s, now),
        SessionEvent::Frame(frame, now) => after_frame(s, frame, now),
        SessionEvent::Stopping => after_stopping(s),
    }
}

/// The session after a sequence of events, and all the actions it asked for,
/// in order.
pub open spec fn run(s: SessionView, events: Seq<SessionEvent>) -> (
    SessionView,
    Seq<SessionActionView>,
)
    decreases events.len(),
{
    if events.len() == 0 {
        (s, Seq::empty())
    } else {
        let (mid, earlier) = run(s, events.drop_last());
        let (end, last) = after(mid, events.last());
        (end, earlier + last)
    }
}

/// Whether an action hands a disconnect to the hub.
pub open spec fn is_disconnect(action: SessionActionView) -> bool {
    action matches SessionActionView::ToLobby(LobbyRequestView::Disconnect(_))
}

/// How many of the actions hand a disconnect to the hub.
pub open spec fn disconnects(actions: Seq<SessionActionView>) -> nat
    decreases actions.len(),
{
    if actions.len() == 0 {
        0
    } else {
        disconnects(actions.drop_last()) + if is_disconnect(actions.last()) {
            1nat
        } else {
            0nat
        }
    }
}

/// The session of one connection.
pub struct WebsocketClient {
    id: u128,
    hb: u64,
    state: SessionState,
    liveness: Liveness,
}

impl View for WebsocketClient {
    type V = SessionView;

    closed spec fn view(&self) -> SessionView {
        SessionView { id: self.id, hb: self.hb, state: self.state, liveness: self.liveness }
    }
}

/// A list that holds the one action `action`.
fn one(action: SessionAction) -> (r: Vec<SessionAction>)
    ensures
        action_views(r@) == seq![action@],
{
    let mut r: Vec<SessionAction> = Vec::new();
    r.push(action);
    proof {
        assert(action_views(r@) =~= seq![action@]);
    }
    r
}

/// A list that holds the two actions `first` and `second`.
fn two(first: SessionAction, second: SessionAction) -> (r: Vec<SessionAction>)
    ensures
        action_views(r@) == seq![first@, second@],
{
    let mut r: Vec<SessionAction> = Vec::new();
    r.push(first);
    r.push(second);
    proof {
        assert(action_views(r@) =~= seq![first@, second@]);
    }
    r
}

/// A list that holds no action.
fn none() -> (r: Vec<SessionAction>)
    ensures
        action_views(r@) == Seq::<SessionActionView>::empty(),
{
    let r: Vec<SessionAction> = Vec::new();
    proof {
        assert(action_views(r@) =~= Seq::<SessionActionView>::empty());
    }
    r
}

/// The answer to a frame that carries no request the session supports.
fn unsupported_answer() -> (action: SessionAction)
    ensures
        action@ == unsupported(),
{
    SessionAction::Text(
        ServerOutput::error_message(ErrorType::UnknownMessage, "Unsupported message".to_owned()),
    )
}

/// The request that the session `id` hands to the hub for an input.
pub fn request_from_input(id: u128, input: ClientInput) -> (r: Option<LobbyRequest>)
    ensures
        r is Some <==> request_for(id, input@) is Some,
        r matches Some(request) ==> Some(request@) == request_for(id, input@),
{
    match input {
        ClientInput::GetLineInformation(_) => None,
        ClientInput::GetRouteInformation(l) => Some(
            LobbyRequest::RouteRequest(RouteRequest { self_id: id, identifier: l.line }),
        ),
        ClientInput::GeoPositionUpdate(g) => Some(
            LobbyRequest::PositionUpdate(PositionUpdate { self_id: id, position: g }),
        ),
        ClientInput::GetPassengerInformation(v) => Some(
            LobbyRequest::PassengerInfo(
                PassengerInfo { self_id: id, descriptor_id: v.descriptor_id },
            ),
        ),
        ClientInput::ReserveSeat(v) => Some(
            LobbyRequest::ReserveSeat(ReserveSeat { self_id: id, descriptor_id: v.descriptor_id }),
        ),
        ClientInput::UnreserveSeat => Some(
            LobbyRequest::UnreserveSeat(UnreserveSeat { self_id: id }),
        ),
    }
}

impl WebsocketClient {
    /// A connecting session with a fresh random identifier and the default
    /// heartbeat parameters, whose client was last heard at the time `now`.
    pub fn new(now: u64) -> (r: Self)
        ensures
            r@.hb == now,
            r@.state == SessionState::Connecting,
            r@.liveness == default_liveness(),
            (r@.id >> 76) & 0xf == 4,
            (r@.id >> 62) & 0x3 == 2,
    {
        WebsocketClient {
            id: new_session_id(),
            hb: now,
            state: SessionState::Connecting,
            liveness: Liveness { interval: HEARTBEAT_INTERVAL, timeout: CLIENT_TIMEOUT },
        }
    }

    /// A connecting session with the given identifier and heartbeat
    /// parameters, where these are well formed.
    pub fn with_liveness(id: u128, now: u64, liveness: Liveness) -> (r: Option<Self>)
        ensures
            r is Some <==> liveness.wf(),
            r matches Some(s) ==> s@ == (SessionView {
                id,
                hb: now,
                state: SessionState::Connecting,
                liveness,
            }),
    {
        if 0 < liveness.interval && liveness.interval < liveness.timeout {
            Some(WebsocketClient { id, hb: now, state: SessionState::Connecting, liveness })
        } else {
            None
        }
    }

    /// The session's identifier.
    pub fn id(&self) -> (r: u128)
        ensures
            r == self@.id,
    {
        self.id
    }

    /// Where the session is in its life.
    pub fn state(&self) -> (r: SessionState)
        ensures
            r == self@.state,
    {
        self.state
    }

    /// The connection has been established.
    pub fn started(&mut self) -> (actions: Vec<SessionAction>)
        ensures
            (final(self)@, action_views(actions@)) == after_started(old(self)@),
    {
        match self.state {
            SessionState::Connecting => {
                self.state = SessionState::Active;
                two(
                    SessionAction::Heartbeat(self.liveness.interval),
                    SessionAction::ToLobby(LobbyRequest::Connect(Connect { self_id: self.id })),
                )
            },
            _ => none(),
        }
    }

    /// The heartbeat timer has fired at the time `now`.
    pub fn hb(&mut self, now: u64) -> (actions: Vec<SessionAction>)
        ensures
            (final(self)@, action_views(actions@)) == after_heartbeat(old(self)@, now),
    {
        match self.state {
            SessionState::Active => {
                let silent: u64 = if now >= self.hb {
                    now - self.hb
                } else {
                    0
                };
                if silent > self.liveness.timeout {
                    self.state = SessionState::Closing;
                    one(SessionAction::Stop)
                } else {
                    one(SessionAction::Ping)
                }
            },
            _ => none(),
        }
    }

    /// A frame has come in at the time `now`.
    pub fn handle(&mut self, msg: Frame, now: u64) -> (actions: Vec<SessionAction>)
        ensures
            (final(self)@, action_views(actions@)) == after_frame(old(self)@, msg@, now),
    {
        match self.state {
            SessionState::Active => {},
            _ => {
                return none();
            },
        }
        match msg {
            Frame::Ping(payload) => {
                self.hb = now;
                one(SessionAction::Pong(payload))
            },
            Frame::Pong => {
                self.hb = now;
                none()
            },
            Frame::Binary(_) => one(unsupported_answer()),
            Frame::Close => {
                self.state = SessionState::Closing;
                two(SessionAction::Close, SessionAction::Stop)
            },
            Frame::Continuation => {
                self.state = SessionState::Closing;
                one(SessionAction::Stop)
            },
            Frame::Nop => none(),
            Frame::Text(Some(input)) => match request_from_input(self.id, input) {
                Some(request) => one(SessionAction::ToLobby(request)),
                None => one(unsupported_answer()),
            },
            Frame::Text(None) => one(unsupported_answer()),
            Frame::ProtocolError => {
                self.state = SessionState::Closing;
                one(SessionAction::Stop)
            },
        }
    }

    /// The connection is going away.
    pub fn stopping(&mut self) -> (actions: Vec<SessionAction>)
        ensures
            (final(self)@, action_views(actions@)) == after_stopping(old(self)@),
    {
        match self.state {
            SessionState::Closed => none(),
            _ => {
                self.state = SessionState::Closed;
                one(SessionAction::ToLobby(LobbyRequest::Disconnect(Disconnect { self_id: self.id })))
            },
        }
    }

    /// The text of a frame that the hub has pushed, where the session is
    /// active; a session in any other state writes nothing.
    pub fn handle_message(&self, msg: WsMessage) -> (text: Option<String>)
        ensures
            text is Some <==> self@.state == SessionState::Active,
            text matches Some(t) ==> t == msg.0,
    {
        match self.state {
            SessionState::Active => Some(msg.0),
            _ => None,
        }
    }
}

/// The disconnects among two runs of actions add up.
pub proof fn lemma_disconnects_add(a: Seq<SessionActionView>, b: Seq<SessionActionView>)
    ensures
        disconnects(a + b) == disconnects(a) + disconnects(b),
    decreases b.len(),
{
    if b.len() == 0 {
        assert(a + b =~= a);
    } else {
        assert((a + b).drop_last() =~= a + b.drop_last());
        assert((a + b).last() == b.last());
        lemma_disconnects_add(a, b.drop_last());
    }
}

/// One event hands a disconnect to the hub exactly when it closes the
/// session, and then only one; and a closed session stays closed.
pub proof fn lemma_step_disconnects(s: SessionView, event: SessionEvent)
    ensures
        disconnects(after(s, event).1) == if s.state != SessionState::Closed && after(
            s,
            event,
        ).0.state == SessionState::Closed {
            1nat
        } else {
            0nat
        },
        s.state == SessionState::Closed ==> after(s, event).0.state == SessionState::Closed,
{
    let actions = after(s, event).1;
    reveal_with_fuel(disconnects, 3);
    if actions.len() == 1 {
        assert(actions.drop_last() =~= Seq::<SessionActionView>::empty());
    } else if actions.len() == 2 {
        assert(actions.drop_last().drop_last() =~= Seq::<SessionActionView>::empty());
    }
}

/// Whatever happens to a session, and in whatever order, the hub is handed a
/// disconnect for it exactly once if the session ends up closed, and never
/// otherwise; a session that is closed already hands over none.
pub proof fn lemma_disconnect_exactly_once(s: SessionView, events: Seq<SessionEvent>)
    ensures
        disconnects(run(s, events).1) == if s.state != SessionState::Closed && run(
            s,
            events,
        ).0.state == SessionState::Closed {
            1nat
        } else {
            0nat
        },
        s.state == SessionState::Closed ==> run(s, events).0.state == SessionState::Closed,
    decreases events.len(),
{
    if events.len() > 0 {
        let (mid, earlier) = run(s, events.drop_last());
        lemma_disconnect_exactly_once(s, events.drop_last());
        lemma_step_disconnects(mid, events.last());
        lemma_disconnects_add(earlier, after(mid, events.last()).1);
    }
}

} // verus!

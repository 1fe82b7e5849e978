use transit_hub::messages::{
    Connect, Disconnect, LobbyRequest, PassengerInfo, PositionUpdate, ReserveSeat, RouteRequest,
    UnreserveSeat, WsMessage,
};
use transit_hub::protocol::client_protocol::{
    ClientInput, GeoPosition, GeoPositionPoint, LineInformation, VehicleDescriptor,
};
use transit_hub::protocol::server_protocol::{ErrorOutput, ErrorType, ServerOutput};
use transit_hub::ws::{
    Frame, Liveness, SessionAction, SessionState, WebsocketClient, CLIENT_TIMEOUT,
    HEARTBEAT_INTERVAL,
};

fn active(id: u128, now: u64) -> WebsocketClient {
    let mut session = WebsocketClient::with_liveness(
        id,
        now,
        Liveness { interval: HEARTBEAT_INTERVAL, timeout: CLIENT_TIMEOUT },
    )
    .unwrap();
    assert_eq!(
        session.started(),
        vec![
            SessionAction::Heartbeat(5000),
            SessionAction::ToLobby(LobbyRequest::Connect(Connect { self_id: id })),
        ]
    );
    assert_eq!(session.state(), SessionState::Active);
    session
}

fn unsupported() -> SessionAction {
    SessionAction::Text(ServerOutput::Error(ErrorOutput {
        error_type: ErrorType::UnknownMessage,
        error_message: "Unsupported message".to_string(),
    }))
}

fn disconnects(actions: &[SessionAction]) -> usize {
    actions
        .iter()
        .filter(|a| matches!(a, SessionAction::ToLobby(LobbyRequest::Disconnect(_))))
        .count()
}

#[test]
fn idle_session_is_disconnected_once() {
    let mut session = active(11, 1_000);
    let mut all = Vec::new();
    // Within the timeout the client is pinged.
    assert_eq!(session.hb(6_000), vec![SessionAction::Ping]);
    assert_eq!(session.hb(11_000), vec![SessionAction::Ping]);
    // One millisecond past the timeout the connection is stopped.
    let timed_out = session.hb(11_001);
    assert_eq!(timed_out, vec![SessionAction::Stop]);
    assert_eq!(session.state(), SessionState::Closing);
    all.extend(timed_out);
    all.extend(session.hb(16_000));
    all.extend(session.stopping());
    assert_eq!(session.state(), SessionState::Closed);
    all.extend(session.stopping());
    all.extend(session.hb(21_000));
    all.extend(session.handle(Frame::Pong, 21_000));
    all.extend(session.started());
    assert_eq!(
        all,
        vec![
            SessionAction::Stop,
            SessionAction::ToLobby(LobbyRequest::Disconnect(Disconnect { self_id: 11 })),
        ]
    );
    assert_eq!(disconnects(&all), 1);
}

#[test]
fn ping_and_pong_are_signs_of_life() {
    let mut session = active(3, 0);
    assert_eq!(session.handle(Frame::Ping(vec![1, 2, 3]), 9_000), vec![SessionAction::Pong(vec![1, 2, 3])]);
    assert_eq!(session.hb(19_000), vec![SessionAction::Ping]);
    assert_eq!(session.handle(Frame::Pong, 19_500), vec![]);
    assert_eq!(session.hb(29_500), vec![SessionAction::Ping]);
    // A request is no sign of life.
    assert_eq!(
        session.handle(Frame::Text(Some(ClientInput::UnreserveSeat)), 29_600),
        vec![SessionAction::ToLobby(LobbyRequest::UnreserveSeat(UnreserveSeat { self_id: 3 }))]
    );
    assert_eq!(session.hb(29_500), vec![SessionAction::Ping]);
    assert_eq!(session.hb(29_501), vec![SessionAction::Stop]);
}

#[test]
fn a_clock_that_runs_backwards_times_nobody_out() {
    let mut session = active(3, 50_000);
    assert_eq!(session.hb(10), vec![SessionAction::Ping]);
    assert_eq!(session.state(), SessionState::Active);
}

#[test]
fn requests_are_handed_to_the_hub() {
    let mut session = active(5, 0);
    let area = GeoPosition {
        max_distance: 500_000,
        position: GeoPositionPoint {
            position_type: "Point".to_string(),
            coordinates: vec![17_638_900, 59_858_600],
        },
    };
    assert_eq!(
        session.handle(
            Frame::Text(Some(ClientInput::GeoPositionUpdate(GeoPosition {
                max_distance: 500_000,
                position: GeoPositionPoint {
                    position_type: "Point".to_string(),
                    coordinates: vec![17_638_900, 59_858_600],
                },
            }))),
            1
        ),
        vec![SessionAction::ToLobby(LobbyRequest::PositionUpdate(PositionUpdate {
            self_id: 5,
            position: area,
        }))]
    );
    assert_eq!(
        session.handle(
            Frame::Text(Some(ClientInput::GetRouteInformation(LineInformation {
                line: "801".to_string()
            }))),
            2
        ),
        vec![SessionAction::ToLobby(LobbyRequest::RouteRequest(RouteRequest {
            self_id: 5,
            identifier: "801".to_string(),
        }))]
    );
    assert_eq!(
        session.handle(
            Frame::Text(Some(ClientInput::GetPassengerInformation(VehicleDescriptor {
                descriptor_id: "bus-1".to_string()
            }))),
            3
        ),
        vec![SessionAction::ToLobby(LobbyRequest::PassengerInfo(PassengerInfo {
            self_id: 5,
            descriptor_id: "bus-1".to_string(),
        }))]
    );
    assert_eq!(
        session.handle(
            Frame::Text(Some(ClientInput::ReserveSeat(VehicleDescriptor {
                descriptor_id: "bus-1".to_string()
            }))),
            4
        ),
        vec![SessionAction::ToLobby(LobbyRequest::ReserveSeat(ReserveSeat {
            self_id: 5,
            descriptor_id: "bus-1".to_string(),
        }))]
    );
    assert_eq!(session.state(), SessionState::Active);
}

#[test]
fn a_request_outside_the_protocol_is_answered_with_an_error() {
    let mut session = active(5, 0);
    assert_eq!(
        session.handle(
            Frame::Text(Some(ClientInput::GetLineInformation(LineInformation {
                line: "8".to_string()
            }))),
            5
        ),
        vec![unsupported()]
    );
    assert_eq!(session.state(), SessionState::Active);
    // The refusal is no sign of life.
    assert_eq!(session.hb(10_000), vec![SessionAction::Ping]);
    assert_eq!(session.hb(10_001), vec![SessionAction::Stop]);
}

#[test]
fn undecodable_text_is_answered_and_the_connection_stays() {
    let mut session = active(5, 0);
    assert_eq!(session.handle(Frame::Text(None), 1), vec![unsupported()]);
    assert_eq!(session.state(), SessionState::Active);
    assert_eq!(session.handle(Frame::Nop, 2), vec![]);
}

#[test]
fn binary_frames_are_answered_with_an_error() {
    let mut session = active(5, 0);
    assert_eq!(session.handle(Frame::Binary(vec![9, 8]), 3), vec![unsupported()]);
    assert_eq!(session.handle(Frame::Binary(vec![]), 4), vec![unsupported()]);
    assert_eq!(session.state(), SessionState::Active);
}

#[test]
fn close_continuation_and_protocol_errors_end_the_connection() {
    let mut closing = active(1, 0);
    assert_eq!(closing.handle(Frame::Close, 1), vec![SessionAction::Close, SessionAction::Stop]);
    assert_eq!(closing.state(), SessionState::Closing);
    assert_eq!(closing.handle(Frame::Ping(vec![]), 2), vec![]);
    assert_eq!(
        closing.stopping(),
        vec![SessionAction::ToLobby(LobbyRequest::Disconnect(Disconnect { self_id: 1 }))]
    );

    let mut fragmented = active(2, 0);
    assert_eq!(fragmented.handle(Frame::Continuation, 1), vec![SessionAction::Stop]);
    assert_eq!(fragmented.state(), SessionState::Closing);

    let mut broken = active(3, 0);
    assert_eq!(broken.handle(Frame::ProtocolError, 1), vec![SessionAction::Stop]);
    assert_eq!(broken.state(), SessionState::Closing);
}

#[test]
fn a_session_that_never_started_reacts_to_nothing_but_the_end() {
    let mut session = WebsocketClient::with_liveness(
        8,
        0,
        Liveness { interval: 1, timeout: 2 },
    )
    .unwrap();
    assert_eq!(session.state(), SessionState::Connecting);
    assert_eq!(session.hb(100), vec![]);
    assert_eq!(session.handle(Frame::Close, 100), vec![]);
    assert_eq!(session.handle_message(WsMessage("late".to_string())), None);
    assert_eq!(
        session.stopping(),
        vec![SessionAction::ToLobby(LobbyRequest::Disconnect(Disconnect { self_id: 8 }))]
    );
    assert_eq!(session.state(), SessionState::Closed);
}

#[test]
fn pushed_frames_are_written_while_active() {
    let mut session = active(8, 0);
    assert_eq!(session.handle_message(WsMessage("{}".to_string())), Some("{}".to_string()));
    session.stopping();
    assert_eq!(session.handle_message(WsMessage("{}".to_string())), None);
}

#[test]
fn the_timeout_must_exceed_the_interval() {
    assert!(WebsocketClient::with_liveness(1, 0, Liveness { interval: 5, timeout: 5 }).is_none());
    assert!(WebsocketClient::with_liveness(1, 0, Liveness { interval: 0, timeout: 5 }).is_none());
    assert!(WebsocketClient::with_liveness(1, 0, Liveness { interval: 5, timeout: 6 }).is_some());
}

#[test]
fn fresh_identifiers_are_random_version_four() {
    let a = WebsocketClient::new(7);
    let b = WebsocketClient::new(7);
    assert_ne!(a.id(), b.id());
    for session in [&a, &b] {
        assert_eq!((session.id() >> 76) & 0xf, 4);
        assert_eq!((session.id() >> 62) & 0x3, 2);
        assert_eq!(session.state(), SessionState::Connecting);
        assert_eq!(uuid::Uuid::from_u128(session.id()).get_version_num(), 4);
    }
    let mut a = a;
    assert_eq!(
        a.started(),
        vec![
            SessionAction::Heartbeat(HEARTBEAT_INTERVAL),
            SessionAction::ToLobby(LobbyRequest::Connect(Connect { self_id: a.id() })),
        ]
    );
    assert_eq!(a.hb(7 + CLIENT_TIMEOUT), vec![SessionAction::Ping]);
    assert_eq!(a.hb(8 + CLIENT_TIMEOUT), vec![SessionAction::Stop]);
}

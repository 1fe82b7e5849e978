use transit_hub::lobby::{Lobby, SeatRanges};
use transit_hub::messages::{
    Connect, Disconnect, Outbound, PassengerInfo, PositionUpdate, ReserveSeat, UnreserveSeat,
};
use transit_hub::protocol::client_protocol::{GeoPosition, GeoPositionPoint};
use transit_hub::protocol::server_protocol::{
    ErrorOutput, ErrorType, PassengerInformationOutput, ServerOutput,
};

fn bus() -> String {
    "bus-1".to_string()
}

fn info(to: u128, capacity: i32, passengers: i32) -> Outbound {
    Outbound {
        to,
        message: ServerOutput::PassengerInformation(PassengerInformationOutput {
            capacity,
            passengers,
        }),
    }
}

fn refusal(to: u128, error_type: ErrorType, reason: &str) -> Outbound {
    Outbound {
        to,
        message: ServerOutput::Error(ErrorOutput {
            error_type,
            error_message: reason.to_string(),
        }),
    }
}

fn hub_with_bus(capacity: i32, passengers: i32, watcher: u128) -> Lobby {
    let mut hub = Lobby::new();
    hub.connect(Connect { self_id: watcher });
    let out = hub.passenger_info_with(
        PassengerInfo { self_id: watcher, descriptor_id: bus() },
        PassengerInformationOutput { capacity, passengers },
    );
    assert_eq!(out, vec![info(watcher, capacity, passengers)]);
    hub
}

fn by_recipient(mut out: Vec<Outbound>) -> Vec<Outbound> {
    out.sort_by_key(|o| o.to);
    out
}

#[test]
fn second_client_is_told_the_bus_is_full() {
    let mut hub = hub_with_bus(1, 0, 1);
    hub.connect(Connect { self_id: 2 });
    let out = hub.reserve_seat(ReserveSeat { self_id: 1, descriptor_id: bus() });
    assert_eq!(out, vec![info(1, 1, 1)]);
    let out = hub.reserve_seat(ReserveSeat { self_id: 2, descriptor_id: bus() });
    assert_eq!(
        out,
        vec![refusal(2, ErrorType::Reserve, "The bus with descriptor id 'bus-1' is full")]
    );
    assert_eq!(
        hub.passenger_information(&bus()),
        Some(PassengerInformationOutput { capacity: 1, passengers: 1 })
    );
}

#[test]
fn full_bus_leaves_the_state_as_it_was() {
    let mut hub = hub_with_bus(4, 4, 1);
    let out = hub.reserve_seat(ReserveSeat { self_id: 1, descriptor_id: bus() });
    assert_eq!(
        out,
        vec![refusal(1, ErrorType::Reserve, "The bus with descriptor id 'bus-1' is full")]
    );
    assert_eq!(
        hub.passenger_information(&bus()),
        Some(PassengerInformationOutput { capacity: 4, passengers: 4 })
    );
    // The session holds no seat: giving one back is refused.
    let out = hub.unreserve_seat(UnreserveSeat { self_id: 1 });
    assert_eq!(
        out,
        vec![refusal(
            1,
            ErrorType::Unreserve,
            "Cannot unreserve since there is no active reservation."
        )]
    );
}

#[test]
fn bus_without_any_seat_is_always_full() {
    let mut hub = hub_with_bus(0, 0, 1);
    let out = hub.reserve_seat(ReserveSeat { self_id: 1, descriptor_id: bus() });
    assert_eq!(
        out,
        vec![refusal(1, ErrorType::Reserve, "The bus with descriptor id 'bus-1' is full")]
    );
}

#[test]
fn unknown_bus_is_refused() {
    let mut hub = Lobby::new();
    hub.connect(Connect { self_id: 1 });
    let out = hub.reserve_seat(ReserveSeat { self_id: 1, descriptor_id: "ghost".to_string() });
    assert_eq!(
        out,
        vec![refusal(
            1,
            ErrorType::Reserve,
            "A bus with descriptor id 'ghost' does not exist."
        )]
    );
    assert_eq!(hub.passenger_information(&"ghost".to_string()), None);
}

#[test]
fn second_seat_for_one_session_is_refused() {
    let mut hub = hub_with_bus(5, 0, 1);
    assert_eq!(
        hub.reserve_seat(ReserveSeat { self_id: 1, descriptor_id: bus() }),
        vec![info(1, 5, 1)]
    );
    let out = hub.reserve_seat(ReserveSeat { self_id: 1, descriptor_id: bus() });
    assert_eq!(
        out,
        vec![refusal(
            1,
            ErrorType::Reserve,
            "Cannot reserve since there is already an active reservation."
        )]
    );
    assert_eq!(
        hub.passenger_information(&bus()),
        Some(PassengerInformationOutput { capacity: 5, passengers: 1 })
    );
}

#[test]
fn occupancy_stays_within_bounds() {
    let mut hub = hub_with_bus(2, 0, 1);
    hub.connect(Connect { self_id: 2 });
    hub.connect(Connect { self_id: 3 });
    let mut expected: i32 = 0;
    for round in 0..6u32 {
        for id in 1..=3u128 {
            if (round + id as u32) % 2 == 0 {
                let out = hub.reserve_seat(ReserveSeat { self_id: id, descriptor_id: bus() });
                if out.iter().all(|o| matches!(o.message, ServerOutput::PassengerInformation(_))) {
                    expected += 1;
                }
            } else {
                let out = hub.unreserve_seat(UnreserveSeat { self_id: id });
                if out.iter().all(|o| matches!(o.message, ServerOutput::PassengerInformation(_))) {
                    expected -= 1;
                }
            }
            let entry = hub.passenger_information(&bus()).unwrap();
            assert_eq!(entry.capacity, 2);
            assert_eq!(entry.passengers, expected);
            assert!(0 <= entry.passengers && entry.passengers <= entry.capacity);
        }
    }
}

#[test]
fn reserve_then_unreserve_tells_every_watcher() {
    let mut hub = hub_with_bus(3, 1, 7);
    hub.connect(Connect { self_id: 8 });
    hub.connect(Connect { self_id: 9 });
    assert_eq!(
        hub.passenger_info_with(
            PassengerInfo { self_id: 8, descriptor_id: bus() },
            PassengerInformationOutput { capacity: 99, passengers: 98 },
        ),
        vec![info(8, 3, 1)]
    );
    // Session 9 watches nothing and is told nothing.
    let out = hub.reserve_seat(ReserveSeat { self_id: 9, descriptor_id: bus() });
    assert_eq!(by_recipient(out), vec![info(7, 3, 2), info(8, 3, 2)]);
    let out = hub.unreserve_seat(UnreserveSeat { self_id: 9 });
    assert_eq!(by_recipient(out), vec![info(7, 3, 1), info(8, 3, 1)]);
}

#[test]
fn disconnect_gives_the_seat_back_once() {
    let mut hub = hub_with_bus(3, 1, 7);
    hub.connect(Connect { self_id: 8 });
    hub.reserve_seat(ReserveSeat { self_id: 8, descriptor_id: bus() });
    assert_eq!(
        hub.passenger_information(&bus()),
        Some(PassengerInformationOutput { capacity: 3, passengers: 2 })
    );
    let out = hub.disconnect(Disconnect { self_id: 8 });
    assert_eq!(out, vec![info(7, 3, 1)]);
    assert!(!hub.is_connected(8));
    let out = hub.disconnect(Disconnect { self_id: 8 });
    assert!(out.is_empty());
    assert_eq!(
        hub.passenger_information(&bus()),
        Some(PassengerInformationOutput { capacity: 3, passengers: 1 })
    );
}

#[test]
fn disconnect_without_a_seat_changes_no_bus() {
    let mut hub = hub_with_bus(3, 1, 7);
    let out = hub.disconnect(Disconnect { self_id: 7 });
    assert!(out.is_empty());
    assert!(!hub.has_clients());
    assert_eq!(
        hub.passenger_information(&bus()),
        Some(PassengerInformationOutput { capacity: 3, passengers: 1 })
    );
}

#[test]
fn requests_of_unknown_sessions_are_ignored() {
    let mut hub = hub_with_bus(3, 1, 7);
    assert!(hub.reserve_seat(ReserveSeat { self_id: 40, descriptor_id: bus() }).is_empty());
    assert!(hub.unreserve_seat(UnreserveSeat { self_id: 40 }).is_empty());
    assert!(hub
        .passenger_info_with(
            PassengerInfo { self_id: 40, descriptor_id: "other".to_string() },
            PassengerInformationOutput { capacity: 2, passengers: 1 },
        )
        .is_empty());
    assert_eq!(hub.passenger_information(&"other".to_string()), None);
    hub.update_position(PositionUpdate {
        self_id: 40,
        position: GeoPosition {
            max_distance: 1,
            position: GeoPositionPoint { position_type: "Point".to_string(), coordinates: vec![] },
        },
    });
    assert_eq!(hub.position_of(40), None);
    assert_eq!(hub.session_ids(), vec![7]);
}

#[test]
fn capacity_is_drawn_once() {
    let mut hub = Lobby::new();
    hub.connect(Connect { self_id: 1 });
    let first = hub.passenger_info(PassengerInfo { self_id: 1, descriptor_id: bus() });
    let entry = hub.passenger_information(&bus()).unwrap();
    assert_eq!(first, vec![info(1, entry.capacity, entry.passengers)]);
    assert!(0 <= entry.passengers && entry.passengers < 15);
    assert!(20 <= entry.capacity && entry.capacity < 35);
    for _ in 0..20 {
        let again = hub.passenger_info(PassengerInfo { self_id: 1, descriptor_id: bus() });
        assert_eq!(again, first);
    }
}

#[test]
fn draws_lie_in_the_ranges_and_vary() {
    let ranges = SeatRanges {
        passengers_low: 0,
        passengers_high: 1000,
        capacity_low: 1000,
        capacity_high: 2000,
    };
    let mut hub = Lobby::with_ranges(ranges).unwrap();
    hub.connect(Connect { self_id: 1 });
    let mut passengers = Vec::new();
    let mut capacities = Vec::new();
    for n in 0..200 {
        let descriptor = format!("bus-{}", n);
        hub.passenger_info(PassengerInfo { self_id: 1, descriptor_id: descriptor.clone() });
        let entry = hub.passenger_information(&descriptor).unwrap();
        assert!(0 <= entry.passengers && entry.passengers < 1000);
        assert!(1000 <= entry.capacity && entry.capacity < 2000);
        passengers.push(entry.passengers);
        capacities.push(entry.capacity);
    }
    assert!(passengers.iter().any(|p| *p != passengers[0]));
    assert!(capacities.iter().any(|c| *c != capacities[0]));
}

#[test]
fn a_range_of_one_value_gives_that_value() {
    let ranges =
        SeatRanges { passengers_low: 5, passengers_high: 6, capacity_low: 9, capacity_high: 10 };
    let mut hub = Lobby::with_ranges(ranges).unwrap();
    hub.connect(Connect { self_id: 1 });
    let out = hub.passenger_info(PassengerInfo { self_id: 1, descriptor_id: bus() });
    assert_eq!(out, vec![info(1, 9, 5)]);
}

#[test]
fn ranges_that_could_overfill_are_refused() {
    let ranges =
        SeatRanges { passengers_low: 0, passengers_high: 15, capacity_low: 10, capacity_high: 35 };
    assert!(Lobby::with_ranges(ranges).is_none());
    let empty =
        SeatRanges { passengers_low: 3, passengers_high: 3, capacity_low: 10, capacity_high: 35 };
    assert!(Lobby::with_ranges(empty).is_none());
    let negative =
        SeatRanges { passengers_low: -1, passengers_high: 3, capacity_low: 10, capacity_high: 35 };
    assert!(Lobby::with_ranges(negative).is_none());
}

#[test]
fn messages_reach_only_connected_sessions() {
    let mut hub = Lobby::new();
    hub.connect(Connect { self_id: 1 });
    hub.connect(Connect { self_id: 2 });
    hub.connect(Connect { self_id: 3 });
    let message = ServerOutput::error_message(ErrorType::ServerError, "down".to_string());
    assert_eq!(
        hub.send_message(message.clone(), 2),
        Some(Outbound { to: 2, message: message.clone() })
    );
    assert_eq!(hub.send_message(message.clone(), 9), None);
    assert_eq!(
        hub.send_error(3, ErrorType::BadData, "bad".to_string()),
        Some(refusal(3, ErrorType::BadData, "bad"))
    );
    assert_eq!(hub.send_error(9, ErrorType::BadData, "bad".to_string()), None);
    let all = by_recipient(hub.send_to_everyone(&message));
    assert_eq!(all.iter().map(|o| o.to).collect::<Vec<u128>>(), vec![1, 2, 3]);
    assert!(all.iter().all(|o| o.message == message));
    let others = by_recipient(hub.send_to_everyone_except_self(&message, 2));
    assert_eq!(others.iter().map(|o| o.to).collect::<Vec<u128>>(), vec![1, 3]);
    assert!(hub.send_passenger_update(&"nothing".to_string()).is_empty());
}

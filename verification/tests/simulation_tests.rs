use position_sync::{
    inbound_event, ClientConnectInfo, Delivery, MoveDirection, Position, RouterEvent,
    ServerMessage, Simulation,
};

fn update(outbound: u64, x: i64, y: i64, z: i64) -> Delivery {
    Delivery {
        outbound,
        message: ServerMessage::PlayerUpdate { translation: Position { x, y, z } },
    }
}

#[test]
fn connect_then_two_rights_sends_two_updates() {
    let mut sim = Simulation::new();
    let connect = RouterEvent::Connect(ClientConnectInfo::new(7, 1));
    assert_eq!(sim.process_event(connect), None);

    let first = sim.process_event(RouterEvent::Move(MoveDirection::Right, 7));
    assert_eq!(first, Some(update(1, 10, 0, 0)));

    let second = sim.process_event(RouterEvent::Move(MoveDirection::Right, 7));
    assert_eq!(second, Some(update(1, 20, 0, 0)));
}

#[test]
fn unrecognized_token_sends_nothing_and_moves_nothing() {
    let mut sim = Simulation::new();
    sim.process_event(RouterEvent::Connect(ClientConnectInfo::new(7, 1)));

    let event = inbound_event(7, "jump").expect("a non-empty frame produces an event");
    assert_eq!(event, RouterEvent::Move(MoveDirection::Noop, 7));
    assert_eq!(sim.process_event(event), None);

    let entry = sim.directory().lookup(7).expect("the client is connected");
    assert_eq!(entry.entity.translation, Position::origin());
}

#[test]
fn only_the_moving_client_receives_its_update() {
    let mut sim = Simulation::new();
    sim.process_event(RouterEvent::Connect(ClientConnectInfo::new(7, 1)));
    sim.process_event(RouterEvent::Connect(ClientConnectInfo::new(9, 2)));

    let delivery = sim.process_event(RouterEvent::Move(MoveDirection::Up, 7));
    assert_eq!(delivery, Some(update(1, 0, 10, 0)));

    let bystander = sim.directory().lookup(9).expect("the other client stays");
    assert_eq!(bystander.entity.translation, Position::origin());
    assert_eq!(bystander.outbound, 2);
}

#[test]
fn move_without_connect_is_dropped() {
    let mut sim = Simulation::new();
    assert_eq!(sim.process_event(RouterEvent::Move(MoveDirection::Up, 42)), None);
    assert!(sim.directory().lookup(42).is_none());
    assert_eq!(sim.directory().len(), 0);
}

#[test]
fn connect_registers_one_entry_at_the_origin() {
    let mut sim = Simulation::new();
    sim.process_event(RouterEvent::Connect(ClientConnectInfo::new(7, 1)));
    assert_eq!(sim.directory().len(), 1);
    let entry = sim.directory().lookup(7).expect("the client is registered");
    assert_eq!(entry.entity.identity, 7);
    assert_eq!(entry.entity.translation, Position::origin());
    assert_eq!(entry.outbound, 1);
}

#[test]
fn disconnect_removes_the_entry_and_later_moves_are_dropped() {
    let mut sim = Simulation::new();
    sim.process_event(RouterEvent::Connect(ClientConnectInfo::new(7, 1)));
    assert_eq!(sim.process_event(RouterEvent::Disconnect(7)), None);
    assert!(sim.directory().lookup(7).is_none());
    assert_eq!(sim.directory().len(), 0);
    assert_eq!(sim.process_event(RouterEvent::Move(MoveDirection::Right, 7)), None);
}

#[test]
fn an_event_stream_is_processed_in_order() {
    let mut sim = Simulation::new();
    let events = vec![
        RouterEvent::Connect(ClientConnectInfo::new(7, 1)),
        RouterEvent::Move(MoveDirection::Right, 7),
        RouterEvent::Move(MoveDirection::Up, 7),
        RouterEvent::Move(MoveDirection::Noop, 7),
        RouterEvent::Move(MoveDirection::Right, 7),
    ];
    let out = sim.process_events(&events);
    assert_eq!(
        out,
        vec![update(1, 10, 0, 0), update(1, 10, 10, 0), update(1, 20, 10, 0)]
    );
}

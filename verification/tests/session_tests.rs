use position_sync::{inbound_event, new_session, MoveDirection, RouterEvent};

#[test]
fn sessions_carry_their_outbound_handle() {
    let a = new_session(5);
    assert_eq!(a.outbound, 5);
    let b = new_session(6);
    assert_eq!(b.outbound, 6);
    assert_ne!(a.identity, b.identity);
}

#[test]
fn empty_frames_produce_no_event() {
    assert_eq!(inbound_event(7, ""), None);
    assert_eq!(inbound_event(7, "up"), Some(RouterEvent::Move(MoveDirection::Up, 7)));
}

#[test]
fn every_nonempty_frame_becomes_a_move_event() {
    assert_eq!(
        inbound_event(3, "jump"),
        Some(RouterEvent::Move(MoveDirection::Noop, 3))
    );
    assert_eq!(
        inbound_event(3, "left"),
        Some(RouterEvent::Move(MoveDirection::Left, 3))
    );
}

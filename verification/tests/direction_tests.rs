use position_sync::MoveDirection;

#[test]
fn recognizes_the_four_movement_tokens() {
    assert_eq!(MoveDirection::from_token("up"), MoveDirection::Up);
    assert_eq!(MoveDirection::from_token("down"), MoveDirection::Down);
    assert_eq!(MoveDirection::from_token("left"), MoveDirection::Left);
    assert_eq!(MoveDirection::from_token("right"), MoveDirection::Right);
}

#[test]
fn unrecognized_tokens_decode_to_noop() {
    assert_eq!(MoveDirection::from_token("jump"), MoveDirection::Noop);
    assert_eq!(MoveDirection::from_token(""), MoveDirection::Noop);
    assert_eq!(MoveDirection::from_token("UP"), MoveDirection::Noop);
    assert_eq!(MoveDirection::from_token("upp"), MoveDirection::Noop);
    assert_eq!(MoveDirection::from_token("righ"), MoveDirection::Noop);
    assert_eq!(MoveDirection::from_token("rights"), MoveDirection::Noop);
}

#[test]
fn tokens_round_trip_through_rendering() {
    for d in [
        MoveDirection::Up,
        MoveDirection::Down,
        MoveDirection::Left,
        MoveDirection::Right,
    ] {
        assert_eq!(MoveDirection::from_token(&d.to_string()), d);
    }
}

#[test]
fn rendered_tokens_are_the_wire_words() {
    assert_eq!(MoveDirection::Up.to_string(), "up");
    assert_eq!(MoveDirection::Down.to_string(), "down");
    assert_eq!(MoveDirection::Left.to_string(), "left");
    assert_eq!(MoveDirection::Right.to_string(), "right");
}

use position_sync::{MoveDirection, Position};

#[test]
fn each_direction_applies_its_fixed_delta() {
    let origin = Position::origin();
    assert_eq!(origin.apply(MoveDirection::Up), Position { x: 0, y: 10, z: 0 });
    assert_eq!(origin.apply(MoveDirection::Down), Position { x: 0, y: -10, z: 0 });
    assert_eq!(origin.apply(MoveDirection::Left), Position { x: -10, y: 0, z: 0 });
    assert_eq!(origin.apply(MoveDirection::Right), Position { x: 10, y: 0, z: 0 });
}

#[test]
fn noop_leaves_the_position_unchanged() {
    let p = Position { x: 30, y: -20, z: 0 };
    assert_eq!(p.apply(MoveDirection::Noop), p);
}

#[test]
fn deltas_compose_along_a_path() {
    let p = Position::origin()
        .apply(MoveDirection::Right)
        .apply(MoveDirection::Right)
        .apply(MoveDirection::Up)
        .apply(MoveDirection::Left);
    assert_eq!(p, Position { x: 10, y: 10, z: 0 });
}

#[test]
fn coordinates_saturate_at_the_ends_of_the_range() {
    let top = Position { x: i64::MAX, y: i64::MAX, z: 0 };
    assert_eq!(top.apply(MoveDirection::Right).x, i64::MAX);
    assert_eq!(top.apply(MoveDirection::Up).y, i64::MAX);
    let bottom = Position { x: i64::MIN, y: i64::MIN, z: 0 };
    assert_eq!(bottom.apply(MoveDirection::Left).x, i64::MIN);
    assert_eq!(bottom.apply(MoveDirection::Down).y, i64::MIN);
}

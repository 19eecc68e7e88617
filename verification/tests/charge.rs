use platformer::charge::{ChargeDirection, ChargeStraight};
use platformer::movement::OrthagonalDirection;
use platformer::stabber::sprite_turns;

const ALL: [OrthagonalDirection; 4] = [
    OrthagonalDirection::Up,
    OrthagonalDirection::Down,
    OrthagonalDirection::Left,
    OrthagonalDirection::Right,
];

#[test]
fn charge_task_takes_direction() {
    for d in ALL {
        let task = ChargeStraight::from(&ChargeDirection(d));
        assert_eq!(task.direction, d);
    }
}

#[test]
fn charge_velocity_signs() {
    let signs = |d| ChargeStraight { direction: d }.velocity_signs();
    assert_eq!(signs(OrthagonalDirection::Up), (0, 1));
    assert_eq!(signs(OrthagonalDirection::Down), (0, -1));
    assert_eq!(signs(OrthagonalDirection::Right), (1, 0));
    assert_eq!(signs(OrthagonalDirection::Left), (-1, 0));
}

#[test]
fn sprite_turns_per_direction() {
    assert_eq!(sprite_turns(&ChargeDirection(OrthagonalDirection::Up)), None);
    assert_eq!(sprite_turns(&ChargeDirection(OrthagonalDirection::Down)), Some(2));
    assert_eq!(sprite_turns(&ChargeDirection(OrthagonalDirection::Left)), Some(1));
    assert_eq!(sprite_turns(&ChargeDirection(OrthagonalDirection::Right)), Some(-1));
}

#[test]
fn sprite_faces_charge_velocity() {
    // Turning the up vector (0, 1) counterclockwise by the sprite's quarter
    // turns gives the charge velocity.
    for d in ALL {
        let (mut x, mut y): (i32, i32) = (0, 1);
        let turns = sprite_turns(&ChargeDirection(d)).unwrap_or(0);
        for _ in 0..turns.rem_euclid(4) {
            let (nx, ny) = (-y, x);
            x = nx;
            y = ny;
        }
        let (sx, sy) = ChargeStraight { direction: d }.velocity_signs();
        assert_eq!((x, y), (sx as i32, sy as i32));
    }
}

use dodger::player::{key_direction, player_movement, Player};
use dodger::units::{Position, PLAYER_SPEED, PLAYER_START_X, PLAYER_START_Y};

fn player_at(x: i64) -> Player {
    Player { pos: Position { x, y: PLAYER_START_Y }, speed: PLAYER_SPEED }
}

#[test]
fn key_direction_covers_all_combinations() {
    assert_eq!(key_direction(false, false), 0);
    assert_eq!(key_direction(true, false), -1);
    assert_eq!(key_direction(false, true), 1);
    assert_eq!(key_direction(true, true), 0);
}

#[test]
fn right_key_moves_right_by_speed_times_dt() {
    let mut p = player_at(0);
    // 16_666 microseconds at 300 px/s: 1000 * 300 * 16_666 position units.
    player_movement(&mut p, false, true, 16_666);
    assert_eq!(p.pos.x, 4_999_800_000);
    assert_eq!(p.pos.y, PLAYER_START_Y);
}

#[test]
fn left_key_moves_left_by_speed_times_dt() {
    let mut p = player_at(0);
    player_movement(&mut p, true, false, 16_666);
    assert_eq!(p.pos.x, -4_999_800_000);
}

#[test]
fn one_second_to_the_right_is_exactly_300_pixels() {
    let mut p = player_at(PLAYER_START_X);
    player_movement(&mut p, false, true, 1_000_000);
    assert_eq!(p.pos.x, 300 * 1_000_000_000);
}

#[test]
fn both_keys_cancel_and_no_keys_hold_still() {
    let mut p = player_at(7);
    player_movement(&mut p, true, true, 16_666);
    assert_eq!(p.pos.x, 7);
    player_movement(&mut p, false, false, 16_666);
    assert_eq!(p.pos.x, 7);
}

#[test]
fn zero_delta_time_moves_nothing() {
    let mut p = player_at(123);
    player_movement(&mut p, false, true, 0);
    assert_eq!(p.pos.x, 123);
}

use tank_battle::engine::game::{Game, Key};
use tank_battle::engine::settings::{render_origin, KeyStatus, RESOLUTION_HEIGHT, RESOLUTION_WIDTH, TITLE};

#[test]
fn new_game_is_centered_stationary_and_released() {
    let g = Game::new();
    assert_eq!(g.player.pos_x, 0);
    assert_eq!(g.player.pos_y, 0);
    assert_eq!(g.player.turret_angle, 0);
    assert!(!g.player.tank_sprite_set);
    assert!(!g.player.turret_sprite_set);
    assert_eq!(g.controller.up, KeyStatus::Released);
    assert_eq!(g.controller.down, KeyStatus::Released);
    assert_eq!(g.controller.left, KeyStatus::Released);
    assert_eq!(g.controller.right, KeyStatus::Released);
    assert_eq!(g.controller.turret_left, KeyStatus::Released);
    assert_eq!(g.controller.turret_right, KeyStatus::Released);
}

#[test]
fn single_key_up_moves_up_by_speed_times_dt() {
    let mut g = Game::new();
    g.input(Key::Up, KeyStatus::Pressed);
    g.update(2);
    assert_eq!(g.player.pos_x, 0);
    assert_eq!(g.player.pos_y, -300);
}

#[test]
fn single_key_down_moves_down_by_speed_times_dt() {
    let mut g = Game::new();
    g.input(Key::Down, KeyStatus::Pressed);
    g.update(4);
    assert_eq!(g.player.pos_x, 0);
    assert_eq!(g.player.pos_y, 600);
}

#[test]
fn single_key_left_moves_left_by_speed_times_dt() {
    let mut g = Game::new();
    g.input(Key::Left, KeyStatus::Pressed);
    g.update(1);
    assert_eq!(g.player.pos_x, -150);
    assert_eq!(g.player.pos_y, 0);
}

#[test]
fn single_key_right_moves_right_by_speed_times_dt() {
    let mut g = Game::new();
    g.input(Key::Right, KeyStatus::Pressed);
    g.update(3);
    assert_eq!(g.player.pos_x, 450);
    assert_eq!(g.player.pos_y, 0);
}

#[test]
fn zero_dt_moves_nothing_even_with_key_held() {
    let mut g = Game::new();
    g.input(Key::Right, KeyStatus::Pressed);
    g.update(0);
    assert_eq!(g.player.pos_x, 0);
    assert_eq!(g.player.pos_y, 0);
}

#[test]
fn opposite_horizontal_keys_cancel() {
    let mut g = Game::new();
    g.input(Key::Left, KeyStatus::Pressed);
    g.input(Key::Right, KeyStatus::Pressed);
    g.update(7);
    assert_eq!(g.player.pos_x, 0);
    assert_eq!(g.player.pos_y, 0);
}

#[test]
fn opposite_vertical_keys_cancel() {
    let mut g = Game::new();
    g.input(Key::Up, KeyStatus::Pressed);
    g.input(Key::Down, KeyStatus::Pressed);
    g.update(9);
    assert_eq!(g.player.pos_x, 0);
    assert_eq!(g.player.pos_y, 0);
}

#[test]
fn opposite_turret_keys_cancel() {
    let mut g = Game::new();
    g.input(Key::S, KeyStatus::Pressed);
    g.input(Key::D, KeyStatus::Pressed);
    g.update(5);
    assert_eq!(g.player.turret_angle, 0);
}

#[test]
fn all_released_no_displacement_for_any_dt() {
    let mut g = Game::new();
    g.update(1000);
    assert_eq!(g.player.pos_x, 0);
    assert_eq!(g.player.pos_y, 0);
    assert_eq!(g.player.turret_angle, 0);
}

#[test]
fn releasing_a_key_stops_its_motion() {
    let mut g = Game::new();
    g.input(Key::Up, KeyStatus::Pressed);
    g.update(2);
    g.input(Key::Up, KeyStatus::Released);
    g.update(10);
    assert_eq!(g.player.pos_y, -300);
}

#[test]
fn diagonal_motion_is_additive() {
    let mut g = Game::new();
    g.input(Key::Up, KeyStatus::Pressed);
    g.input(Key::Right, KeyStatus::Pressed);
    g.update(2);
    assert_eq!(g.player.pos_x, 300);
    assert_eq!(g.player.pos_y, -300);
}

#[test]
fn unrecognized_key_leaves_all_flags_unchanged() {
    let mut g = Game::new();
    g.input(Key::Up, KeyStatus::Pressed);
    g.input(Key::Other, KeyStatus::Pressed);
    assert_eq!(g.controller.up, KeyStatus::Pressed);
    assert_eq!(g.controller.down, KeyStatus::Released);
    assert_eq!(g.controller.left, KeyStatus::Released);
    assert_eq!(g.controller.right, KeyStatus::Released);
    assert_eq!(g.controller.turret_left, KeyStatus::Released);
    assert_eq!(g.controller.turret_right, KeyStatus::Released);
}

#[test]
fn key_mapping_sets_exactly_the_matching_flag() {
    let mut g = Game::new();
    g.input(Key::S, KeyStatus::Pressed);
    assert_eq!(g.controller.turret_left, KeyStatus::Pressed);
    assert_eq!(g.controller.turret_right, KeyStatus::Released);
    let mut g2 = Game::new();
    g2.input(Key::D, KeyStatus::Pressed);
    assert_eq!(g2.controller.turret_right, KeyStatus::Pressed);
    assert_eq!(g2.controller.turret_left, KeyStatus::Released);
}

#[test]
fn turret_rotates_left_with_s_held() {
    let mut g = Game::new();
    g.input(Key::S, KeyStatus::Pressed);
    g.update(3);
    assert_eq!(g.player.turret_angle, -450);
    assert_eq!(g.player.pos_x, 0);
    assert_eq!(g.player.pos_y, 0);
}

#[test]
fn turret_rotates_right_with_d_held() {
    let mut g = Game::new();
    g.input(Key::D, KeyStatus::Pressed);
    g.update(2);
    assert_eq!(g.player.turret_angle, 300);
}

#[test]
fn sprite_load_is_all_or_nothing() {
    let mut g = Game::new();
    g.load_sprites(true, false);
    assert!(!g.player.tank_sprite_set);
    assert!(!g.player.turret_sprite_set);
    g.load_sprites(false, true);
    assert!(!g.player.tank_sprite_set);
    assert!(!g.player.turret_sprite_set);
    g.load_sprites(false, false);
    assert!(!g.player.tank_sprite_set);
    assert!(!g.player.turret_sprite_set);
    g.load_sprites(true, true);
    assert!(g.player.tank_sprite_set);
    assert!(g.player.turret_sprite_set);
}

#[test]
fn failed_sprite_load_does_not_disturb_later_updates() {
    let mut g = Game::new();
    g.load_sprites(false, true);
    g.input(Key::Right, KeyStatus::Pressed);
    g.update(1);
    assert_eq!(g.player.pos_x, 150);
    assert!(!g.player.tank_sprite_set);
    assert!(!g.player.turret_sprite_set);
}

#[test]
fn render_origin_is_the_window_center() {
    assert_eq!(render_origin(), (400, 300));
    assert_eq!(RESOLUTION_WIDTH, 800);
    assert_eq!(RESOLUTION_HEIGHT, 600);
    assert_eq!(TITLE, "R_TankBattle");
}

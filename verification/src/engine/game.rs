//! Key-press state and the per-tick update that turns held keys into
//! motion.
//!
//! `Game::input` maps a fixed set of keys to six control flags; every other
//! key is a no-op. `Game::update` applies, for each pressed direction, a
//! delta of `SPEED` units per tick to the matching axis. The axes are
//! independent, so diagonal motion and simultaneous turret rotation are
//! additive, and opposite keys cancel exactly.

use vstd::prelude::*;

use crate::engine::settings::KeyStatus;
use crate::object::tank::Tank;
use crate::object::tank::TURRET_SPEED;

verus! {

/// Movement speed, in position units per tick of held key.
pub const SPEED: u64 = 150;

/// The keys the game reacts to. Every key outside this set is `Other`.
#[derive(Clone, Copy, Debug, PartialEq, Eq, Structural)]
pub enum Key {
    Up,
    Down,
    Left,
    Right,
    S,
    D,
    Other,
}

/// Pressed/released state of each mapped input direction.
#[derive(Clone, Copy, Debug, PartialEq, Eq, Structural)]
pub struct Control {
    pub up: KeyStatus,
    pub down: KeyStatus,
    pub left: KeyStatus,
    pub right: KeyStatus,
    pub turret_left: KeyStatus,
    pub turret_right: KeyStatus,
}

/// Whether every control flag is released.
pub open spec fn all_released(c: Control) -> bool {
    c.up == KeyStatus::Released && c.down == KeyStatus::Released && c.left == KeyStatus::Released
        && c.right == KeyStatus::Released && c.turret_left == KeyStatus::Released
        && c.turret_right == KeyStatus::Released
}

impl Control {
    /// All keys start released.
    pub fn new() -> (c: Control)
        ensures
            all_released(c),
    {
        Control {
            up: KeyStatus::Released,
            down: KeyStatus::Released,
            left: KeyStatus::Released,
            right: KeyStatus::Released,
            turret_left: KeyStatus::Released,
            turret_right: KeyStatus::Released,
        }
    }
}

/// The control state after one key event: the flag of a mapped key takes
/// the event's status, an unmapped key changes nothing.
pub open spec fn apply_input(c: Control, key: Key, status: KeyStatus) -> Control {
    match key {
        Key::Up => Control { up: status, ..c },
        Key::Down => Control { down: status, ..c },
        Key::Left => Control { left: status, ..c },
        Key::Right => Control { right: status, ..c },
        Key::S => Control { turret_left: status, ..c },
        Key::D => Control { turret_right: status, ..c },
        Key::Other => c,
    }
}

/// Net horizontal displacement of `dt` ticks under control state `c`.
pub open spec fn x_displacement(c: Control, dt: int) -> int {
    (if c.right == KeyStatus::Pressed { SPEED * dt } else { 0 })
        + (if c.left == KeyStatus::Pressed { -(SPEED * dt) } else { 0 })
}

/// Net vertical displacement of `dt` ticks under control state `c`.
/// The vertical axis grows downward, so the up key subtracts.
pub open spec fn y_displacement(c: Control, dt: int) -> int {
    (if c.down == KeyStatus::Pressed { SPEED * dt } else { 0 })
        + (if c.up == KeyStatus::Pressed { -(SPEED * dt) } else { 0 })
}

/// Net turret rotation of `dt` ticks under control state `c`.
pub open spec fn turret_displacement(c: Control, dt: int) -> int {
    (if c.turret_right == KeyStatus::Pressed { TURRET_SPEED * dt } else { 0 })
        + (if c.turret_left == KeyStatus::Pressed { -(TURRET_SPEED * dt) } else { 0 })
}

/// The game: one tank and the current key-press state.
pub struct Game {
    pub player: Tank,
    pub controller: Control,
}

impl Game {
    /// A fresh game: centered, stationary tank; all keys released; no
    /// sprites loaded.
    pub fn new() -> (g: Game)
        ensures
            g.player.pos_x == 0,
            g.player.pos_y == 0,
            g.player.turret_angle == 0,
            !g.player.tank_sprite_set,
            !g.player.turret_sprite_set,
            all_released(g.controller),
    {
        Game { player: Tank::new(), controller: Control::new() }
    }

    /// Records the outcome of loading the two sprite assets. Only when
    /// both loads succeeded are the sprites set; any failure leaves the
    /// tank exactly as it was, both sprites included.
    pub fn load_sprites(&mut self, tank_ok: bool, turret_ok: bool)
        ensures
            tank_ok && turret_ok ==> final(self).player == (Tank {
                tank_sprite_set: true,
                turret_sprite_set: true,
                ..old(self).player
            }),
            !(tank_ok && turret_ok) ==> final(self).player == old(self).player,
            final(self).controller == old(self).controller,
    {
        if tank_ok && turret_ok {
            self.player.set_tank_sprite();
            self.player.set_turret_sprite();
        }
    }

    /// Applies one key event to the control flags; the tank is untouched.
    pub fn input(&mut self, input: Key, keystatus: KeyStatus)
        ensures
            final(self).controller == apply_input(old(self).controller, input, keystatus),
            final(self).player == old(self).player,
    {
        match input {
            Key::Up => self.controller.up = keystatus,
            Key::Down => self.controller.down = keystatus,
            Key::Left => self.controller.left = keystatus,
            Key::Right => self.controller.right = keystatus,
            Key::S => self.controller.turret_left = keystatus,
            Key::D => self.controller.turret_right = keystatus,
            Key::Other => {},
        }
    }

    /// Advances the game by `dt` ticks: each pressed direction moves its
    /// axis by `SPEED * dt`, each pressed turret key turns the turret by
    /// `TURRET_SPEED * dt`. Control flags only change on input events,
    /// never with time.
    pub fn update(&mut self, delta_time: u64)
        requires
            SPEED * delta_time <= i64::MAX,
            i64::MIN <= old(self).player.pos_x - SPEED * delta_time,
            old(self).player.pos_x + SPEED * delta_time <= i64::MAX,
            i64::MIN <= old(self).player.pos_y - SPEED * delta_time,
            old(self).player.pos_y + SPEED * delta_time <= i64::MAX,
            i64::MIN <= old(self).player.turret_angle - TURRET_SPEED * delta_time,
            old(self).player.turret_angle + TURRET_SPEED * delta_time <= i64::MAX,
        ensures
            final(self).player.pos_x == old(self).player.pos_x + x_displacement(
                old(self).controller,
                delta_time as int,
            ),
            final(self).player.pos_y == old(self).player.pos_y + y_displacement(
                old(self).controller,
                delta_time as int,
            ),
            final(self).player.turret_angle == old(self).player.turret_angle
                + turret_displacement(old(self).controller, delta_time as int),
            final(self).player.tank_sprite_set == old(self).player.tank_sprite_set,
            final(self).player.turret_sprite_set == old(self).player.turret_sprite_set,
            final(self).controller == old(self).controller,
    {
        let step: i64 = (SPEED * delta_time) as i64;

        if self.controller.up == KeyStatus::Pressed {
            self.player.mov(0, -step);
        }
        if self.controller.down == KeyStatus::Pressed {
            self.player.mov(0, step);
        }
        if self.controller.left == KeyStatus::Pressed {
            self.player.mov(-step, 0);
        }
        if self.controller.right == KeyStatus::Pressed {
            self.player.mov(step, 0);
        }
        if self.controller.turret_left == KeyStatus::Pressed {
            self.player.rotate_turret_left(delta_time);
        }
        if self.controller.turret_right == KeyStatus::Pressed {
            self.player.rotate_turret_right(delta_time);
        }
    }
}

/// Law: with exactly one direction key held, `dt` ticks displace the tank
/// by exactly `SPEED * dt` along that key's axis, with the sign of the
/// key's direction, and not at all along the other axis.
pub proof fn lemma_single_key_displacement(c: Control, dt: int)
    requires
        dt >= 0,
    ensures
        c.up == KeyStatus::Pressed && c.down == KeyStatus::Released && c.left
            == KeyStatus::Released && c.right == KeyStatus::Released ==> x_displacement(c, dt) == 0
            && y_displacement(c, dt) == -(SPEED * dt),
        c.down == KeyStatus::Pressed && c.up == KeyStatus::Released && c.left
            == KeyStatus::Released && c.right == KeyStatus::Released ==> x_displacement(c, dt) == 0
            && y_displacement(c, dt) == SPEED * dt,
        c.left == KeyStatus::Pressed && c.up == KeyStatus::Released && c.down
            == KeyStatus::Released && c.right == KeyStatus::Released ==> x_displacement(c, dt)
            == -(SPEED * dt) && y_displacement(c, dt) == 0,
        c.right == KeyStatus::Pressed && c.up == KeyStatus::Released && c.down
            == KeyStatus::Released && c.left == KeyStatus::Released ==> x_displacement(c, dt)
            == SPEED * dt && y_displacement(c, dt) == 0,
{
}

/// Law: holding two opposite keys at once cancels exactly; the net
/// displacement on that axis is zero for every `dt`.
pub proof fn lemma_opposite_keys_cancel(c: Control, dt: int)
    ensures
        c.left == KeyStatus::Pressed && c.right == KeyStatus::Pressed ==> x_displacement(c, dt)
            == 0,
        c.up == KeyStatus::Pressed && c.down == KeyStatus::Pressed ==> y_displacement(c, dt) == 0,
        c.turret_left == KeyStatus::Pressed && c.turret_right == KeyStatus::Pressed
            ==> turret_displacement(c, dt) == 0,
{
}

/// Law: with every key released, no amount of elapsed time displaces the
/// tank or turns the turret.
pub proof fn lemma_all_released_no_displacement(c: Control, dt: int)
    requires
        all_released(c),
    ensures
        x_displacement(c, dt) == 0,
        y_displacement(c, dt) == 0,
        turret_displacement(c, dt) == 0,
{
}

/// Law: an unrecognized key event leaves every control flag unchanged.
pub proof fn lemma_unrecognized_key_is_noop(c: Control, status: KeyStatus)
    ensures
        apply_input(c, Key::Other, status) == c,
{
}

} // verus!

//! The player tank: a position, a turret angle, and two sprite slots.
//!
//! Coordinates are fixed-point: `pos_x` grows to the right, `pos_y` grows
//! downward (screen coordinates), and `turret_angle` grows clockwise. The
//! sprites themselves live with the renderer outside the library; the tank
//! records only whether each one has been set.

use vstd::prelude::*;

verus! {

/// Angular speed of the turret, in angle units per tick.
pub const TURRET_SPEED: u64 = 150;

/// The player-controlled tank.
pub struct Tank {
    pub pos_x: i64,
    pub pos_y: i64,
    pub turret_angle: i64,
    pub tank_sprite_set: bool,
    pub turret_sprite_set: bool,
}

impl Tank {
    /// A stationary tank at the drawing origin, turret straight ahead,
    /// with no sprites loaded yet.
    pub fn new() -> (t: Tank)
        ensures
            t.pos_x == 0,
            t.pos_y == 0,
            t.turret_angle == 0,
            !t.tank_sprite_set,
            !t.turret_sprite_set,
    {
        Tank {
            pos_x: 0,
            pos_y: 0,
            turret_angle: 0,
            tank_sprite_set: false,
            turret_sprite_set: false,
        }
    }

    /// Translates the tank by `(dx, dy)`.
    pub fn mov(&mut self, dx: i64, dy: i64)
        requires
            i64::MIN <= old(self).pos_x + dx <= i64::MAX,
            i64::MIN <= old(self).pos_y + dy <= i64::MAX,
        ensures
            final(self).pos_x == old(self).pos_x + dx,
            final(self).pos_y == old(self).pos_y + dy,
            final(self).turret_angle == old(self).turret_angle,
            final(self).tank_sprite_set == old(self).tank_sprite_set,
            final(self).turret_sprite_set == old(self).turret_sprite_set,
    {
        self.pos_x = self.pos_x + dx;
        self.pos_y = self.pos_y + dy;
    }

    /// Rotates the turret counter-clockwise for `dt` ticks.
    pub fn rotate_turret_left(&mut self, dt: u64)
        requires
            TURRET_SPEED * dt <= i64::MAX,
            i64::MIN <= old(self).turret_angle - TURRET_SPEED * dt,
        ensures
            final(self).turret_angle == old(self).turret_angle - TURRET_SPEED * dt,
            final(self).pos_x == old(self).pos_x,
            final(self).pos_y == old(self).pos_y,
            final(self).tank_sprite_set == old(self).tank_sprite_set,
            final(self).turret_sprite_set == old(self).turret_sprite_set,
    {
        let step: i64 = (TURRET_SPEED * dt) as i64;
        self.turret_angle = self.turret_angle - step;
    }

    /// Rotates the turret clockwise for `dt` ticks.
    pub fn rotate_turret_right(&mut self, dt: u64)
        requires
            TURRET_SPEED * dt <= i64::MAX,
            old(self).turret_angle + TURRET_SPEED * dt <= i64::MAX,
        ensures
            final(self).turret_angle == old(self).turret_angle + TURRET_SPEED * dt,
            final(self).pos_x == old(self).pos_x,
            final(self).pos_y == old(self).pos_y,
            final(self).tank_sprite_set == old(self).tank_sprite_set,
            final(self).turret_sprite_set == old(self).turret_sprite_set,
    {
        let step: i64 = (TURRET_SPEED * dt) as i64;
        self.turret_angle = self.turret_angle + step;
    }

    /// Marks the body sprite as loaded.
    pub fn set_tank_sprite(&mut self)
        ensures
            final(self).tank_sprite_set,
            final(self).turret_sprite_set == old(self).turret_sprite_set,
            final(self).pos_x == old(self).pos_x,
            final(self).pos_y == old(self).pos_y,
            final(self).turret_angle == old(self).turret_angle,
    {
        self.tank_sprite_set = true;
    }

    /// Marks the turret sprite as loaded.
    pub fn set_turret_sprite(&mut self)
        ensures
            final(self).turret_sprite_set,
            final(self).tank_sprite_set == old(self).tank_sprite_set,
            final(self).pos_x == old(self).pos_x,
            final(self).pos_y == old(self).pos_y,
            final(self).turret_angle == old(self).turret_angle,
    {
        self.turret_sprite_set = true;
    }
}

} // verus!

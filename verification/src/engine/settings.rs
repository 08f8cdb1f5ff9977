//! Fixed window configuration and the key-press status type.

use vstd::prelude::*;

verus! {

/// Window width in pixels.
pub const RESOLUTION_WIDTH: u32 = 800;

/// Window height in pixels.
pub const RESOLUTION_HEIGHT: u32 = 600;

/// Window title.
pub const TITLE: &'static str = "R_TankBattle";

/// Whether a mapped key is currently held down.
#[derive(Clone, Copy, Debug, PartialEq, Eq, Structural)]
pub enum KeyStatus {
    Pressed,
    Released,
}

/// The drawing origin: the center of the window.
pub fn render_origin() -> (r: (u32, u32))
    ensures
        r.0 == RESOLUTION_WIDTH / 2,
        r.1 == RESOLUTION_HEIGHT / 2,
{
    (RESOLUTION_WIDTH / 2, RESOLUTION_HEIGHT / 2)
}

} // verus!

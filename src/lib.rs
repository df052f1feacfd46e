//! A Wolfenstein 3D style raycasting engine core: map cells, ray casting,
//! the live map simulation and the game status bookkeeping, together with
//! the decoders of the game's data files (maps, walls, sprites, fonts, PICs).
//!
//! All positions, angles, distances and times are fixed-point integers,
//! where `UNIT` stands for 1.0 (one tile, one radian, one second).
use vstd::prelude::*;

pub mod assetloader;
pub mod assets;
pub mod decode;
pub mod livemap;
pub mod mapcell;
pub mod notifier;
pub mod palette;
pub mod picdict;
pub mod raycaster;
pub mod status;
pub mod text;
pub mod utils;

verus! {

/// Fixed-point scale: this value stands for 1.0.
pub const UNIT: i64 = 65536;

/// The screen mode the game is in.
#[derive(Clone, Copy, PartialEq, Eq, Structural)]
pub enum GameMode {
    Live,
    Automap,
}

/// Bounds a product of two bounded naturals.
pub proof fn lemma_mul_bound(a: int, b: int, ma: int, mb: int)
    requires
        0 <= a <= ma,
        0 <= b <= mb,
    ensures
        0 <= a * b <= ma * mb,
{
    assert(0 <= a * b <= ma * mb) by (nonlinear_arith)
        requires 0 <= a <= ma, 0 <= b <= mb;
}

} // verus!

use vstd::prelude::*;

use crate::fraction_num::{group_signed_fraction_num, SignedFractionNum};

verus! {

broadcast use group_signed_fraction_num;

/// Camera state: a position on the map, a facing direction, and the camera
/// plane whose length sets the width of the field of view.
#[derive(Clone, Copy, Debug, PartialEq, Eq, Structural)]
pub struct Player {
    pub pos_x: SignedFractionNum,
    pub pos_y: SignedFractionNum,
    pub dir_x: SignedFractionNum,
    pub dir_y: SignedFractionNum,
    pub cam_plane_x: SignedFractionNum,
    pub cam_plane_y: SignedFractionNum,
}

/// Raw value of 0.66 with 16 fraction bits, rounded to nearest.
pub const DEFAULT_PLANE_Y_RAW: i64 = 43254;

impl Player {
    /// At (2, 2), facing -x, with a camera plane of 0.66 along +y.
    pub open spec fn spec_default() -> Player {
        Player {
            pos_x: SignedFractionNum::spec_new(2),
            pos_y: SignedFractionNum::spec_new(2),
            dir_x: SignedFractionNum::spec_new(-1i64),
            dir_y: SignedFractionNum::spec_new(0),
            cam_plane_x: SignedFractionNum::spec_new(0),
            cam_plane_y: SignedFractionNum::spec_from_raw(DEFAULT_PLANE_Y_RAW),
        }
    }

    pub fn _new() -> (r: Player)
        ensures
            r == Player::spec_default(),
    {
        Self::default()
    }
}

impl Default for Player {
    fn default() -> (r: Player)
        ensures
            r == Player::spec_default(),
    {
        Player {
            pos_x: SignedFractionNum::new(2),
            pos_y: SignedFractionNum::new(2),
            dir_x: SignedFractionNum::new(-1),
            dir_y: SignedFractionNum::new(0),
            cam_plane_x: SignedFractionNum::new(0),
            cam_plane_y: SignedFractionNum::from_raw_i64(DEFAULT_PLANE_Y_RAW),
        }
    }
}

} // verus!

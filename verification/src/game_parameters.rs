//! The immutable configuration record the player is spawned from.

use vstd::prelude::*;

use crate::float_bits::BITS_ONE;
use crate::float_bits::BITS_ONE_HUNDRED;
use crate::float_bits::BITS_TWENTY;
use crate::float_bits::BITS_ZERO;
use crate::float_bits::Vec2Bits;
use crate::float_bits::Vec3Bits;

verus! {

/// What the player is spawned with: where it starts, how large it is drawn,
/// and how far it moves on each tick. Construction cannot fail, and any bit
/// pattern is accepted in any field.
#[derive(Clone, Copy, Debug, PartialEq, Eq, Structural)]
pub struct GameParameters {
    pub initial_player_position: Vec3Bits,
    pub initial_player_scale: Vec3Bits,
    pub initial_player_velocity: Vec2Bits,
}

/// The fixed default configuration: position at the origin, scale one hundred
/// by twenty by one, velocity zero.
pub open spec fn default_game_parameters() -> GameParameters {
    GameParameters {
        initial_player_position: Vec3Bits { x: BITS_ZERO, y: BITS_ZERO, z: BITS_ZERO },
        initial_player_scale: Vec3Bits { x: BITS_ONE_HUNDRED, y: BITS_TWENTY, z: BITS_ONE },
        initial_player_velocity: Vec2Bits { x: BITS_ZERO, y: BITS_ZERO },
    }
}

/// The default configuration.
pub fn create_default_game_parameters() -> (p: GameParameters)
    ensures
        p == default_game_parameters(),
{
    GameParameters {
        initial_player_position: Vec3Bits { x: BITS_ZERO, y: BITS_ZERO, z: BITS_ZERO },
        initial_player_scale: Vec3Bits { x: BITS_ONE_HUNDRED, y: BITS_TWENTY, z: BITS_ONE },
        initial_player_velocity: Vec2Bits { x: BITS_ZERO, y: BITS_ZERO },
    }
}

/// The default configuration with the one overridable field, the velocity,
/// replaced by the given value.
pub fn create_default_game_parameters_with_player_velocity(
    initial_player_velocity: Vec2Bits,
) -> (p: GameParameters)
    ensures
        p == (GameParameters {
            initial_player_velocity,
            ..default_game_parameters()
        }),
{
    let mut p = create_default_game_parameters();
    p.initial_player_velocity = initial_player_velocity;
    p
}

} // verus!

//! The collision layers of the game's world.
use vstd::prelude::*;

verus! {

/// A collision layer: the player's body is on `Default`, the level's
/// geometry on `Ground`.
#[derive(Clone, Copy, Debug, PartialEq, Eq, Structural)]
pub enum GameLayers {
    Default,
    Ground,
}

impl Default for GameLayers {
    fn default() -> (layer: GameLayers)
        ensures
            layer == GameLayers::Default,
    {
        GameLayers::Default
    }
}

} // verus!

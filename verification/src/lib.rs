//! Decision logic of a first-person climbing game: which hand hold a
//! climbing move goes to, how a grid of probes scans a wall for ledges, and
//! how the player's movement state changes from frame to frame.
pub mod climbing;
pub mod layers;
pub mod player;
pub mod scan;


//! Exhaustive search for the absolute placement of a recorded formation of
//! oriented block faces inside a procedurally generated voxel world.
//!
//! A deterministic hash assigns each absolute coordinate one of sixteen
//! classes; a fixed rule table says which (side, rotation) observations a
//! class admits. The search scans a bounding box for an origin at which
//! every face of the formation (or of one of its quarter-turn variants) is
//! admitted.

pub mod formation;
pub mod hash;
pub mod loader;
pub mod matcher;
pub mod search;

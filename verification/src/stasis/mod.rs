//! Stasis chambers: their definitions and occupants, detection of a chamber below a
//! thrown pearl, the order of a player's chambers and the steps of pulling one.

pub mod model;
pub mod column;
pub mod chambers;
pub mod throw;
pub mod pull;
pub mod occupants;
pub mod mass;
pub mod laws;
pub mod legacy;

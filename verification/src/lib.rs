//! Generation-I battle arithmetic: stat derivation, stage multipliers, the
//! type chart and move resolution, with every rule stated as a contract.

#![allow(unused_imports)]

pub mod battle;
pub mod moves;
pub mod pokemon;
pub mod ratio;
pub mod stats;
pub mod types;
pub mod utils;

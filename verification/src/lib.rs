//! The discrete rules engine of an incremental game: prestige layers, challenge
//! run states, one-time upgrades, celestial unlocks and glyph inventory.
//!
//! Every quantity that the rules compare against an integer threshold is held
//! here as an integer; amounts that only ever meet other big floating-point
//! amounts (antimatter, Infinity Points, costs, …) live outside this crate, and
//! the functions that depend on such a comparison take its outcome as a `bool`.
mod util;
pub mod state;
pub mod new_game;
pub mod challenges;
pub mod infinity_challenges;
pub mod infinity_upgrades;
pub mod infinity_dimensions;
pub mod crunch;
pub mod dimensions;
pub mod eternity;
pub mod eternity_challenges;
pub mod eternity_milestones;
pub mod eternity_upgrades;
pub mod dilation;
pub mod galaxy;
pub mod glyphs;
pub mod glyph_uniformity;
pub mod celestials;
pub mod laws;

pub use state::GameState;

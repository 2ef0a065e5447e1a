//! Game-side data model of a Source engine client: hit groups and armor, weapon
//! identifiers and their icon glyphs, networked-variable offsets, colors, fonts and
//! the small decisions the client features make over values read from the game.
pub mod config;
pub mod events;
pub mod features;
pub mod font;
pub mod memory;
pub mod netvar;
pub mod sdk;

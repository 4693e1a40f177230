//! Classification of spells into the variants that the HUD draws.
//!
//! A spell arrives as the data the game reports about it (its archetype, the
//! actor value its main effect touches, its damage type, its school) together
//! with the keyword strings attached to it. The library decides which
//! [`spell::SpellVariant`] the spell is, and from that which icon and color it
//! gets.

pub mod game;
pub mod icon;
pub mod keyword;
pub mod laws;
pub mod spell;

//! Attribute inheritance, stat rebalancing and equip validation for players and the
//! items they wear or consume.
//!
//! Class templates hand settings down to their children under an overridability policy,
//! integer stats are kept as a base value plus reversible temporary modifiers, and every
//! equip or unequip request is checked against slot capacity, pairing rules and the usage
//! that the item class commits to.

pub mod error;
pub mod inheritance;
pub mod stat;
pub mod class;
pub mod propagate;
pub mod item;
pub mod merkle;
pub mod player;
pub mod equip;
pub mod usage;
pub mod rebalance;
pub mod effect;
pub mod toggle;
pub mod reconcile;
pub mod recalculate;
pub mod validation;
pub mod reversal;
pub mod toggle_equip;

//! Combat between troops that share a territory.

pub mod combat_engager;
pub mod combat_stats;
pub mod combatting;
pub mod projectile;

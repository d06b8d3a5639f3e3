//! Gacha pull statistics: a verified engine that walks a player's
//! chronologically ordered pull history and derives luck averages and,
//! for banners with a 50/50 guarantee mechanic, win-rate and streak
//! statistics, together with the banner policy table and the import
//! cutoff rules that feed it.

pub mod engine;
pub mod import;
pub mod policy;
pub mod scores;
pub mod skills;

//! Intake of record submissions for a ranked list of demons: resolution of
//! submitters, players and demons, the eligibility rules, and reconciliation
//! with the records already stored.

pub mod demonlist;
pub mod error;
pub mod laws;
pub mod model;
pub mod reconcile;
pub mod rules;
pub mod text;

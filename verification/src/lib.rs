//! A commit-reveal random value per requester: two samples of host entropy
//! and an outside signature, bound to a secret fixed before any of them is
//! known.

pub mod candidate;
pub mod combine;
pub mod contract;
pub mod digest;
pub mod hexcode;
pub mod laws;
pub mod store;

//! Moderation-action lifecycle engine: duration parsing, action records,
//! permission resolution, strike escalation and expiry sweeping.

pub mod duration;
pub mod model;
pub mod store;
pub mod grants;
pub mod moderation;
pub mod policy;

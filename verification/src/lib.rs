//! A collaborative room hub: rooms keyed by path hold shared entities and
//! live sessions; inbound text frames are classified structurally (focal
//! update, entity upsert, or free text run through a pattern ruleset) and
//! fanned out to every session, pruning the ones whose send fails.

pub mod models;
pub mod json;
pub mod wire;
pub mod tables;
pub mod ruleset;
pub mod ids;
pub mod lifecycle;
pub mod decode;
pub mod honk;
pub mod bone;
pub mod laws;

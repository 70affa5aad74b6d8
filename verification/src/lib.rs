//! Verified catalog, readiness, capability-query, hydration-scheduling and
//! snapshot-retention rules of the Spaghetti engine.
#![allow(unused_imports)]

pub mod util;
pub mod error;
pub mod digest_map;
pub mod codec;
pub mod snapshot;
pub mod hydration;
pub mod identity;
pub mod capability;
pub mod catalog;
pub mod readiness;
pub mod discovery;
pub mod retention;
pub mod build_rules;
pub mod refresh;
pub mod artifact;
pub mod publication;
pub mod retained_query;

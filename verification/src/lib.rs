//! Outbound federation delivery engine: takes a locally produced activity,
//! signs it on behalf of a local actor, and queues one delivery task per
//! remote inbox, retrying failed deliveries with capped exponential backoff.

pub mod activity;
pub mod clock;
pub mod actors;
pub mod errors;
pub mod queue;
pub mod relay;
pub mod signer;
pub mod urls;

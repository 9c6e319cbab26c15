//! Proof-of-work search engine for a scavenger mining client: the challenge
//! model, the preimage encoding, the difficulty predicate and the nonce
//! search, each with a verified contract.

pub mod difficulty;
pub mod challenge;
pub mod preimage;
pub mod search;
pub mod laws;
pub mod progress;
pub mod session;

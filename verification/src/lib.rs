//! A single-writer, authenticated risk oracle protected by a commit-reveal
//! protocol. Registered assessors first commit a 32-byte digest of a
//! (score, bias, salt) triple, then reveal the triple; the oracle accepts the
//! reveal only when the recomputed digest matches the stored commitment, and
//! only then publishes the new score and bias.

pub mod bias;
pub mod codec;
pub mod error;
pub mod laws;
pub mod oracle;
pub mod state;

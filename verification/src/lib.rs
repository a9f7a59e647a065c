//! Core logic of a Nimbus-style parachain authorship scheme.
//!
//! Three tightly coupled pieces: a seal verifier that checks a candidate
//! block's author signature before handing the block to the inner executor
//! ([`seal`]), a deterministic pseudorandom author-eligibility filter that
//! reduces the candidate-author set to a rotating eligible subset
//! ([`filter`]), and the persisted governance-controlled ratio the filter
//! consumes ([`ratio`]). External collaborators — the randomness beacon, the
//! signature scheme, the header hasher and the inner executor — are narrow
//! capability traits whose spec members pin each implementation's behaviour,
//! so both verdicts are functions of their declared inputs alone and are
//! reproducible bit for bit across independent evaluators.

pub mod digest;
pub mod filter;
pub mod header;
pub mod ratio;
pub mod scheme;
pub mod seal;

//! Proof-of-balance badges for Zcash. A holder proves ownership of a
//! transparent or Orchard address and the balance tier it holds, bound to a
//! social identity by a challenge; a verifier checks the proof and issues the
//! badge of that tier.
//!
//! - `badge`: the badge tiers and their thresholds
//! - `challenge`: the signed message and the proof timestamps
//! - `transparent`, `orchard_proof`: making and checking proofs
//! - `scanner`: the Orchard balance found by trial decryption
//! - `server`, `cli`: the rules of the badge server and of the command line
//! - `digest`, `text`: hashes, encodings and text helpers

pub mod badge;
pub mod text;
pub mod digest;
pub mod challenge;
pub mod error;
pub mod types;
pub mod transparent;
pub mod orchard_proof;
pub mod scanner;
pub mod server;
pub mod cli;

pub use badge::BadgeTier;
pub use error::Error;
pub use types::{OwnershipProof, ProofData, VerificationResult};

//! A verification adapter for succinct proofs of a Poseidon hash circuit.
//!
//! The adapter accepts raw byte buffers — serialized commitment
//! parameters, a proof, and a 32-byte public output — together with a
//! typed verifying key, decodes them into the objects the proving
//! system expects, and invokes the cryptographic verifier exactly once.
//! Every stage fails fast with a rich error value; hosts flatten that
//! value to their own reporting convention (an exit code on the
//! constrained host, a diagnostic message on the native one).

pub mod engine;
pub mod errors;
pub mod output;
pub mod params;
pub mod session;

pub use engine::verify_poseidon;
pub use engine::CircuitVk;
pub use engine::VkHandle;
pub use session::Session;
pub use errors::exit_code;
pub use errors::VerifyError;
pub use params::read_params;
pub use params::CommitmentParams;
pub use output::decode_output;
pub use output::encode_output;
pub use output::PublicOutput;

//! Attestation-response core of a remote-attestation agent: quote request
//! checks and assembly, IMA log slicing, base64 framing of byte blobs, and
//! the revocation-action pipeline.

pub mod error;
pub mod ima;
pub mod json;
pub mod numbers;
pub mod quotes;
pub mod paths;
pub mod revocation;
pub mod serialization;
pub mod text;

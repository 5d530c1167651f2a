//! Attestation certificate builder for a NIST P-256 identity.
//!
//! The crate turns an elliptic-curve key pair and an opaque attestation
//! payload into a self-signed certificate, and exports the private key in
//! DER form for handing to a TLS stack.

pub mod byteorder;
pub mod cert;
pub mod der;
pub mod err;
pub mod key;
pub mod laws;
pub mod oids;
pub mod parse;
pub mod utctime;

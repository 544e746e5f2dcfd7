//! An algorithm-polymorphic key-management layer.
//!
//! One handle type, [`key::LocalKey`], stands for keys of several algorithm
//! families. Callers sign and verify through the capability traits of
//! [`sign`], encrypt and decrypt through the box operations of [`envelope`],
//! and derive keys through its key-agreement protocols, without knowing which
//! algorithm backs a handle. Secret bytes live in [`buffer::SecretBytes`].
//!
//! The modules, leaves first:
//!
//! - [`error`]: the failure values and their three classes.
//! - [`bytes`]: small operations on byte strings.
//! - [`primitives`]: the ciphers, hashes and curves that other crates
//!   supply, each behind one entry point.
//! - [`buffer`]: the secret buffer and the sinks that bytes are written to.
//! - [`alg`]: algorithm identifiers and their names.
//! - [`sign`]: signature types and the capabilities to sign and verify.
//! - [`key`]: the concrete keys and the handle.
//! - [`kdf`]: the two key-agreement derivations.
//! - [`nacl_box`]: the box cipher between X25519 keys.
//! - [`envelope`]: the operations on handles.

pub mod alg;
pub mod buffer;
pub mod bytes;
pub mod envelope;
pub mod error;
pub mod kdf;
pub mod key;
pub mod nacl_box;
pub mod primitives;
pub mod sign;

//! A small passphrase-based file safe.
//!
//! A safe couples a passphrase, a filesystem location and a plaintext
//! content buffer.  The passphrase is hashed to a fixed seed, the seed is
//! expanded to a deterministic keystream, and content is encrypted or
//! decrypted by XOR-ing it with that keystream.  The transform is
//! self-inverse and length-preserving, and the on-disk format is the raw
//! ciphertext bytes.  File and terminal handling live outside this crate;
//! the modules here hold the verified logic.

pub mod config;
pub mod crypto;
pub mod interface;
pub mod safe;

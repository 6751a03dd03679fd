//! Decoder for the offset table carried by an Ed25519 signature verification
//! instruction, and bounds-checked access to the byte ranges it describes.
//!
//! The table is a two-byte header followed by one fourteen-byte record per
//! declared signature. Every record locates a signature, a public key and a
//! message inside an instruction data buffer that the caller supplies.

pub mod error;
pub mod header;
pub mod key;
pub mod offsets;
pub mod table;
pub mod wire;

pub use error::DecodeError;
pub use header::Ed25519SignatureHeader;
pub use key::PublicKey;
pub use offsets::Ed25519SignatureOffsets;
pub use table::Ed25519Signature;

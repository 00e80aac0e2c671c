//! A cross-backend value bridging layer.
//!
//! Application code expresses typed query parameters and typed result
//! columns once; backend drivers exchange them through a closed,
//! canonical set of wire-level value kinds (`Blob`, `Text`, `Uuid`).
//! The logical type family carried through here is the 128-bit
//! identifier, in three representations — raw binary, hyphenated text,
//! compact text — each with its own encode/decode and compatibility
//! rules, proved never to put the wrong bytes on the wire.  A
//! connection lifecycle contract, generic over an abstract execution
//! model, rounds out the session side.

pub mod connection;
pub mod decode;
pub mod encode;
pub mod error;
pub mod hex;
pub mod text;
pub mod type_info;
pub mod uuid;
pub mod value;

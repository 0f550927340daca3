//! Bidirectional mapping between the in-memory model of a cutting-machine
//! file (pieces, paths, outlines, material parameters, thumbnail) and a
//! flat interchange form suited to a textual representation.
//!
//! The domain side mirrors the binary container's data model as plain
//! values; the interchange side is the set of `*Dto` types.  All mapping
//! rules (defaulting, flag encoding, filtering of shapeless paths, the
//! thumbnail codec) live here and are verified.

pub mod codec;
pub mod cut_data;
pub mod domain;
pub mod driver;
pub mod error;
pub mod file;
pub mod outline;
pub mod path;
pub mod path_flags;
pub mod piece;
pub mod piece_flags;
pub mod point;
pub mod segment_bezier;
pub mod segment_line;
pub mod util;

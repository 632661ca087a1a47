//! Remuxing engine that turns FLV stream metadata and codec side data into
//! the initialization segment (`ftyp` + `moov`) of a fragmented MP4 stream.
pub mod boxes;
pub mod codec;
pub mod encoder;
pub mod error;
pub mod remux_context;
pub mod remuxer;

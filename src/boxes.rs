//! The logical box tree of an initialization segment, ready for a binary
//! box writer.
use vstd::prelude::*;

verus! {

/// 1.0 in 16.16 fixed point.
pub const FIXED_ONE_16_16: u32 = 0x10000;

/// 1.0 in 8.8 fixed point.
pub const FIXED_ONE_8_8: u16 = 0x100;

/// A pixel count in 16.16 fixed point.
pub open spec fn fixed_16_16(v: u16) -> u32 {
    (v as u32 * 0x10000) as u32
}

/// `ftyp`.
#[derive(Clone, Debug)]
pub struct FileTypeBox {
    pub major_brand: Vec<u8>,
    pub minor_version: u32,
    pub compatible_brands: Vec<[u8; 4]>,
}

/// `mvhd`, version 0. Rate is 16.16 and volume 8.8 fixed point.
#[derive(Clone, Copy, Debug, PartialEq, Eq, Structural)]
pub struct MovieHeaderBox {
    pub creation_time: u32,
    pub modification_time: u32,
    pub timescale: u32,
    pub duration: u32,
    pub rate: u32,
    pub volume: u16,
    pub next_track_id: u32,
}

/// `tkhd`, version 0. Width and height are 16.16 fixed point.
#[derive(Clone, Copy, Debug, PartialEq, Eq, Structural)]
pub struct TrackHeaderBox {
    pub track_id: u32,
    pub creation_time: u32,
    pub modification_time: u32,
    pub duration: u32,
    pub width: u32,
    pub height: u32,
}

/// `mdhd`, version 0.
#[derive(Clone, Copy, Debug, PartialEq, Eq, Structural)]
pub struct MediaHeaderBox {
    pub creation_time: u32,
    pub modification_time: u32,
    pub timescale: u32,
    pub duration: u32,
}

/// The media type of a track, as named by its handler.
#[derive(Clone, Copy, Debug, PartialEq, Eq, Structural)]
pub enum HandlerType {
    Video,
    Audio,
}

impl HandlerType {
    pub open spec fn tag_spec(self) -> Seq<u8> {
        match self {
            HandlerType::Video => seq![0x76u8, 0x69u8, 0x64u8, 0x65u8],
            HandlerType::Audio => seq![0x73u8, 0x6fu8, 0x75u8, 0x6eu8],
        }
    }

    /// The handler type code: `vide` or `soun`.
    pub fn tag(&self) -> (r: [u8; 4])
        ensures
            r@ == self.tag_spec(),
    {
        let r: [u8; 4] = match self {
            HandlerType::Video => [0x76, 0x69, 0x64, 0x65],
            HandlerType::Audio => [0x73, 0x6f, 0x75, 0x6e],
        };
        assert(r@ =~= self.tag_spec());
        r
    }
}

/// `hdlr`.
#[derive(Clone, Copy, Debug, PartialEq, Eq, Structural)]
pub struct HandlerBox {
    pub handler_type: HandlerType,
}

/// The media-specific header of `minf`: `vmhd` or `smhd`.
#[derive(Clone, Copy, Debug, PartialEq, Eq, Structural)]
pub enum XMediaHandlerBox {
    Video,
    Audio,
}

/// `dinf` with its single self-contained data reference.
#[derive(Clone, Copy, Debug, PartialEq, Eq, Structural)]
pub struct DataInformationBox {}

/// One codec-specific sample entry of `stsd`.
#[derive(Clone, Debug)]
pub enum SampleEntry {
    /// `avc1` with its `avcC` decoder configuration record.
    Avc1 { width: u16, height: u16, avcc: Vec<u8> },
    /// `mp4a` with its AAC audio specific config.
    Mp4a { sample_rate: u32, channel_count: u16, spec_config: Vec<u8> },
    /// `.mp3`.
    Mp3 { sample_rate: u32, channel_count: u16 },
}

/// `stsd`.
#[derive(Clone, Debug)]
pub struct SampleDescriptionBox {
    pub entries: Vec<SampleEntry>,
}

/// `stbl`.
#[derive(Clone, Debug)]
pub struct SampleTableBox {
    pub stsd: SampleDescriptionBox,
}

/// `minf`: media header, then `dinf`, then `stbl`.
#[derive(Clone, Debug)]
pub struct MediaInfoBox {
    pub xmhd: XMediaHandlerBox,
    pub dinf: DataInformationBox,
    pub stbl: SampleTableBox,
}

/// `mdia`: `mdhd`, then `hdlr`, then `minf`.
#[derive(Clone, Debug)]
pub struct MediaBox {
    pub mdhd: MediaHeaderBox,
    pub hdlr: HandlerBox,
    pub minf: MediaInfoBox,
}

/// `trak`: `tkhd`, then `mdia`.
#[derive(Clone, Debug)]
pub struct TrackBox {
    pub tkhd: TrackHeaderBox,
    pub mdia: MediaBox,
}

/// `moov`: `mvhd`, then the tracks in order.
#[derive(Clone, Debug)]
pub struct MovieBox {
    pub mvhd: MovieHeaderBox,
    pub tracks: Vec<TrackBox>,
}

} // verus!

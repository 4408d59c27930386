//! Sequence parameter sets of H.264: what they say of the picture, and which ones are believed.
use crate::fmp4_bridge::sps_bits::{set_overflows, sps_overflows};
use vstd::prelude::*;
use h264::{Bitstream, Decode, NALUnit, SequenceParameterSet};

verus! {

/// Narrowest picture that a parameter set may announce.
pub const MIN_H264_WIDTH: u16 = 160;

/// Lowest picture that a parameter set may announce.
pub const MIN_H264_HEIGHT: u16 = 90;

/// Longest edge that a parameter set may announce.
pub const MAX_H264_DIMENSION: u16 = 8_192;

/// Why a sequence parameter set is not used.
#[derive(Clone, Copy, Debug, PartialEq, Eq, Structural)]
pub enum H264SpsValidationError {
    /// The NAL unit header is not one that can be decoded.
    UndecodableNalu,
    /// The parameter set inside the NAL unit cannot be decoded.
    UndecodableRbsp,
    /// Cropping leaves no picture that fits sixteen-bit dimensions.
    InvalidDimensions,
    /// The picture is smaller or larger than any real contribution.
    ImplausibleDimensions { width: u16, height: u16 },
}

/// The fields of a sequence parameter set that decide the picture's size and the decoder's profile.
#[derive(Clone, Copy, Debug, PartialEq, Eq, Structural)]
pub struct SpsFields {
    pub profile_idc: u8,
    pub constraint_set0_flag: u8,
    pub level_idc: u8,
    pub chroma_format_idc: u64,
    pub separate_colour_plane_flag: u8,
    pub pic_width_in_mbs_minus1: u64,
    pub pic_height_in_map_units_minus1: u64,
    pub frame_mbs_only_flag: u8,
    pub frame_crop_left_offset: u64,
    pub frame_crop_right_offset: u64,
    pub frame_crop_top_offset: u64,
    pub frame_crop_bottom_offset: u64,
}

impl SpsFields {
    /// Flags of one bit hold one bit.
    pub open spec fn wf(self) -> bool {
        self.frame_mbs_only_flag <= 1
    }

    /// Whether the picture has colour planes that are sampled with the luma plane.
    pub open spec fn has_chroma(self) -> bool {
        self.separate_colour_plane_flag == 0 && self.chroma_format_idc != 0
    }

    /// Luma columns that one horizontal cropping step removes.
    pub open spec fn crop_unit_x(self) -> int {
        if self.has_chroma() && self.chroma_format_idc != 3 {
            2
        } else {
            1
        }
    }

    /// Fields in one coded row of macroblocks.
    pub open spec fn rows_per_map_unit(self) -> int {
        2 - self.frame_mbs_only_flag
    }

    /// Luma rows that one vertical cropping step removes.
    pub open spec fn crop_unit_y(self) -> int {
        (if self.has_chroma() && self.chroma_format_idc == 1 {
            2int
        } else {
            1int
        }) * self.rows_per_map_unit()
    }

    /// Luma columns before cropping.
    pub open spec fn coded_width(self) -> int {
        (self.pic_width_in_mbs_minus1 + 1) * 16
    }

    /// Luma rows before cropping.
    pub open spec fn coded_height(self) -> int {
        self.rows_per_map_unit() * (self.pic_height_in_map_units_minus1 + 1) * 16
    }

    /// Luma columns that are shown.
    pub open spec fn display_width(self) -> int {
        self.coded_width() - (self.frame_crop_left_offset + self.frame_crop_right_offset)
            * self.crop_unit_x()
    }

    /// Luma rows that are shown.
    pub open spec fn display_height(self) -> int {
        self.coded_height() - (self.frame_crop_top_offset + self.frame_crop_bottom_offset)
            * self.crop_unit_y()
    }

    /// The shown dimensions, where they exist and fit sixteen bits.
    pub open spec fn dimensions(self) -> Option<(u16, u16)> {
        if self.coded_width() <= u64::MAX && self.coded_height() <= u64::MAX && 0
            <= self.display_width() <= u16::MAX && 0 <= self.display_height() <= u16::MAX {
            Some((self.display_width() as u16, self.display_height() as u16))
        } else {
            None
        }
    }

    /// The shown dimensions, or why they are not accepted.
    pub open spec fn verdict(self) -> Result<(u16, u16), H264SpsValidationError> {
        match self.dimensions() {
            None => Err(H264SpsValidationError::InvalidDimensions),
            Some((width, height)) => if MIN_H264_WIDTH <= width <= MAX_H264_DIMENSION
                && MIN_H264_HEIGHT <= height <= MAX_H264_DIMENSION {
                Ok((width, height))
            } else {
                Err(H264SpsValidationError::ImplausibleDimensions { width, height })
            },
        }
    }
}

/// A believed parameter set: what the decoder configuration needs of it.
#[derive(Clone, Copy, Debug, PartialEq, Eq, Structural)]
pub struct DecodedSps {
    pub profile_idc: u8,
    pub constraint_set_flag: u8,
    pub level_idc: u8,
    pub width: u16,
    pub height: u16,
}

/// What the H.264 reader makes of one coded unit taken as a sequence parameter set.
pub uninterp spec fn parsed_sps(nalu: Seq<u8>) -> Result<SpsFields, H264SpsValidationError>;

/// Calls `h264::NALUnit::decode` on the unit and, where it succeeds,
/// `h264::SequenceParameterSet::decode` on its payload.
///
/// Claimed of them: the outcome depends on the bytes alone, a failure of the first is told apart
/// from a failure of the second, and a flag read from one bit is at most one. The reader overflows
/// only behind sixty-four zero bits of an exponential-Golomb code: on the code itself or, where too
/// few bits follow, on the field that it still reads behind it. Behind any other field that fails,
/// fewer bits are left than a word has.
#[verifier::external_body]
fn parse_sps(nalu: &[u8]) -> (r: Result<SpsFields, H264SpsValidationError>)
    requires
        !set_overflows(nalu@),
    ensures
        r == parsed_sps(nalu@),
        r matches Ok(fields) ==> fields.wf(),
        r matches Err(error) ==> error == H264SpsValidationError::UndecodableNalu || error
            == H264SpsValidationError::UndecodableRbsp,
{
    let mut unit = NALUnit::decode(Bitstream::new(nalu.iter().copied()))
        .map_err(|_| H264SpsValidationError::UndecodableNalu)?;
    let sps = SequenceParameterSet::decode(&mut Bitstream::new(&mut unit.rbsp_byte))
        .map_err(|_| H264SpsValidationError::UndecodableRbsp)?;
    Ok(SpsFields { profile_idc: sps.profile_idc.0, constraint_set0_flag: sps.constraint_set0_flag.0,
        level_idc: sps.level_idc.0, chroma_format_idc: sps.chroma_format_idc.0,
        separate_colour_plane_flag: sps.separate_colour_plane_flag.0,
        pic_width_in_mbs_minus1: sps.pic_width_in_mbs_minus1.0,
        pic_height_in_map_units_minus1: sps.pic_height_in_map_units_minus1.0,
        frame_mbs_only_flag: sps.frame_mbs_only_flag.0, frame_crop_left_offset: sps.frame_crop_left_offset.0,
        frame_crop_right_offset: sps.frame_crop_right_offset.0, frame_crop_top_offset: sps.frame_crop_top_offset.0,
        frame_crop_bottom_offset: sps.frame_crop_bottom_offset.0 })
}

/// The shown part of a coded length: what `before + after` steps of `unit` leave of it.
fn cropped(coded: u64, before: u64, after: u64, unit: u64) -> (r: Option<u16>)
    requires
        1 <= unit <= 4,
    ensures
        ({
            let left = coded - (before + after) * unit;
            if 0 <= left <= u16::MAX {
                r == Some(left as u16)
            } else {
                r is None
            }
        }),
{
    let steps: u64 = match before.checked_add(after) {
        Some(steps) => steps,
        None => {
            assert((before + after) * unit >= before + after) by (nonlinear_arith)
                requires
                    unit >= 1,
                    before + after >= 0,
            ;
            return None;
        },
    };
    let crop: u64 = match steps.checked_mul(unit) {
        Some(crop) => crop,
        None => return None,
    };
    match coded.checked_sub(crop) {
        Some(left) => if left <= u16::MAX as u64 {
            Some(left as u16)
        } else {
            None
        },
        None => None,
    }
}

/// The shown dimensions of a parameter set, where they exist and fit sixteen bits.
pub fn h264_display_dimensions(sps: &SpsFields) -> (r: Option<(u16, u16)>)
    requires
        sps.wf(),
    ensures
        r == sps.dimensions(),
{
    let rows: u64 = 2 - sps.frame_mbs_only_flag as u64;
    let has_chroma = sps.separate_colour_plane_flag == 0 && sps.chroma_format_idc != 0;
    let unit_x: u64 = if has_chroma && sps.chroma_format_idc != 3 {
        2
    } else {
        1
    };
    let unit_y: u64 = if has_chroma && sps.chroma_format_idc == 1 {
        2 * rows
    } else {
        rows
    };
    let ghost mbs_wide = sps.pic_width_in_mbs_minus1 + 1;
    let ghost units_high = sps.pic_height_in_map_units_minus1 + 1;
    let wide = match sps.pic_width_in_mbs_minus1.checked_add(1) {
        Some(value) => value.checked_mul(16),
        None => None,
    };
    assert(match wide {
        Some(value) => value == sps.coded_width(),
        None => sps.coded_width() > u64::MAX,
    });
    let mbs_high = match sps.pic_height_in_map_units_minus1.checked_add(1) {
        Some(value) => value.checked_mul(rows),
        None => {
            assert(rows * units_high >= units_high) by (nonlinear_arith)
                requires
                    rows >= 1,
                    units_high >= 0,
            ;
            None
        },
    };
    assert(match mbs_high {
        Some(value) => value == rows * units_high,
        None => rows * units_high > u64::MAX,
    }) by {
        assert(rows * units_high == units_high * rows) by (nonlinear_arith);
    }
    let high = match mbs_high {
        Some(value) => value.checked_mul(16),
        None => None,
    };
    assert(match high {
        Some(value) => value == sps.coded_height(),
        None => sps.coded_height() > u64::MAX,
    });
    match (wide, high) {
        (Some(wide), Some(high)) => {
            let width = cropped(wide, sps.frame_crop_left_offset, sps.frame_crop_right_offset, unit_x);
            let height = cropped(high, sps.frame_crop_top_offset, sps.frame_crop_bottom_offset, unit_y);
            match (width, height) {
                (Some(width), Some(height)) => Some((width, height)),
                _ => None,
            }
        },
        _ => None,
    }
}

/// What a parameter set's fields say, or why they are not believed.
pub fn validate_h264_sps(sps: &SpsFields) -> (r: Result<DecodedSps, H264SpsValidationError>)
    requires
        sps.wf(),
    ensures
        r == believed_fields(*sps),
{
    match h264_display_dimensions(sps) {
        None => Err(H264SpsValidationError::InvalidDimensions),
        Some((width, height)) => if width < MIN_H264_WIDTH || height < MIN_H264_HEIGHT || width
            > MAX_H264_DIMENSION || height > MAX_H264_DIMENSION {
            Err(H264SpsValidationError::ImplausibleDimensions { width, height })
        } else {
            Ok(
                DecodedSps {
                    profile_idc: sps.profile_idc,
                    constraint_set_flag: sps.constraint_set0_flag,
                    level_idc: sps.level_idc,
                    width,
                    height,
                },
            )
        },
    }
}

/// What the decoder configuration takes from a parameter set whose fields are known.
pub open spec fn believed_fields(sps: SpsFields) -> Result<DecodedSps, H264SpsValidationError> {
    match sps.verdict() {
        Ok((width, height)) => Ok(
            DecodedSps {
                profile_idc: sps.profile_idc,
                constraint_set_flag: sps.constraint_set0_flag,
                level_idc: sps.level_idc,
                width,
                height,
            },
        ),
        Err(error) => Err(error),
    }
}

/// What the decoder configuration takes from a coded parameter set.
pub open spec fn believed_sps(nalu: Seq<u8>) -> Result<DecodedSps, H264SpsValidationError> {
    if set_overflows(nalu) {
        Err(H264SpsValidationError::UndecodableRbsp)
    } else {
        match parsed_sps(nalu) {
            Ok(sps) => believed_fields(sps),
            Err(error) => Err(error),
        }
    }
}

/// Decodes a sequence parameter set and accepts it where its picture is plausible.
pub fn decode_h264_sps(sps: &[u8]) -> (r: Result<DecodedSps, H264SpsValidationError>)
    ensures
        r == believed_sps(sps@),
{
    if sps_overflows(sps) {
        return Err(H264SpsValidationError::UndecodableRbsp);
    }
    match parse_sps(sps) {
        Ok(fields) => validate_h264_sps(&fields),
        Err(error) => Err(error),
    }
}

/// A picture is its macroblocks without what is cropped: a cropping step takes two columns where colour is
/// sampled at half the width, two rows where it is sampled at half the height, and twice the rows where
/// fields are coded. It is believed exactly where it is neither too small nor too large.
pub proof fn pictures_are_cropped_by_their_sampling(sps: SpsFields)
    requires
        sps.wf(),
        (sps.pic_width_in_mbs_minus1 + 1) * 16 <= u64::MAX,
        (sps.pic_height_in_map_units_minus1 + 1) * 32 <= u64::MAX,
    ensures
        ({
            let coloured = sps.separate_colour_plane_flag == 0;
            let half_width = coloured && (sps.chroma_format_idc != 0 && sps.chroma_format_idc != 3);
            let half_height = coloured && sps.chroma_format_idc == 1;
            let fields = sps.frame_mbs_only_flag == 0;
            let step_x = if half_width {
                2int
            } else {
                1
            };
            let step_y = if half_height && fields {
                4int
            } else if half_height || fields {
                2
            } else {
                1
            };
            let width = (sps.pic_width_in_mbs_minus1 + 1) * 16 - (sps.frame_crop_left_offset
                + sps.frame_crop_right_offset) * step_x;
            let height = (sps.pic_height_in_map_units_minus1 + 1) * (if fields {
                32int
            } else {
                16
            }) - (sps.frame_crop_top_offset + sps.frame_crop_bottom_offset) * step_y;
            let believed = believed_fields(sps);
            &&& believed is Ok <==> 160 <= width <= 8_192 && 90 <= height <= 8_192
            &&& believed is Ok ==> {
                &&& believed->Ok_0.width == width
                &&& believed->Ok_0.height == height
            }
        }),
{
    let units = (sps.pic_height_in_map_units_minus1 + 1) as int;
    assert(1 * units * 16 == units * 16) by (nonlinear_arith);
    assert(2 * units * 16 == units * 32) by (nonlinear_arith);
}

} // verus!

//! Sending from the command line: one media access unit, or a stream of bytes in chunks.
use crate::service::media_fec::{
    encode_media_frame, media_datagrams, new_media_encoder, MediaCodec, MediaFrameMetadata,
    MediaFrameView,
};
use crate::service::stream_fec::datagram_views;
use vstd::prelude::*;

verus! {

/// A codec as it is asked for.
#[derive(Debug, Clone, Copy, PartialEq, Eq, Structural)]
pub enum CodecArg {
    /// Whatever the access unit looks like.
    Auto,
    Unknown,
    H264,
    Opus,
    Aac,
    Data,
}

impl CodecArg {
    /// The codec that is named; data where none is.
    pub open spec fn named(self) -> MediaCodec {
        match self {
            CodecArg::Auto => MediaCodec::Data,
            CodecArg::Unknown => MediaCodec::Unknown,
            CodecArg::H264 => MediaCodec::H264,
            CodecArg::Opus => MediaCodec::Opus,
            CodecArg::Aac => MediaCodec::Aac,
            CodecArg::Data => MediaCodec::Data,
        }
    }

    /// The codec that is named; data where none is.
    pub fn codec(self) -> (r: MediaCodec)
        ensures
            r == self.named(),
    {
        match self {
            CodecArg::Auto => MediaCodec::Data,
            CodecArg::Unknown => MediaCodec::Unknown,
            CodecArg::H264 => MediaCodec::H264,
            CodecArg::Opus => MediaCodec::Opus,
            CodecArg::Aac => MediaCodec::Aac,
            CodecArg::Data => MediaCodec::Data,
        }
    }

    /// The codec of an access unit, given what it looks like.
    pub fn resolve(self, inferred: MediaCodec) -> (r: MediaCodec)
        ensures
            r == (if self == CodecArg::Auto {
                inferred
            } else {
                self.named()
            }),
    {
        match self {
            CodecArg::Auto => inferred,
            _ => self.codec(),
        }
    }
}

/// The bits of an access unit's flags.
pub fn frame_flags(
    keyframe: bool,
    codec_config: bool,
    discontinuity: bool,
    end_of_stream: bool,
) -> (r: u16)
    ensures
        r == (if keyframe {
            1int
        } else {
            0int
        }) + (if codec_config {
            2int
        } else {
            0int
        }) + (if discontinuity {
            4int
        } else {
            0int
        }) + (if end_of_stream {
            8int
        } else {
            0int
        }),
{
    let mut flags: u16 = 0;
    if keyframe {
        flags = flags + 1;
    }
    if codec_config {
        flags = flags + 2;
    }
    if discontinuity {
        flags = flags + 4;
    }
    if end_of_stream {
        flags = flags + 8;
    }
    flags
}

/// Why an access unit is not sent.
#[derive(Debug, Clone, Copy, PartialEq, Eq, Structural)]
pub enum SendError {
    /// It lasts longer than a header says.
    Duration,
    /// It cannot be coded.
    Encode,
}

impl SendError {
    /// What the error says.
    pub open spec fn words(self) -> Seq<char> {
        match self {
            SendError::Duration => "--duration-ms must fit in u16 for media-FEC headers"@,
            SendError::Encode => "failed to encode media access unit with RaptorQ-FEC"@,
        }
    }

    /// What the error says.
    pub fn message(self) -> (r: &'static str)
        ensures
            r@ == self.words(),
    {
        match self {
            SendError::Duration => "--duration-ms must fit in u16 for media-FEC headers",
            SendError::Encode => "failed to encode media access unit with RaptorQ-FEC",
        }
    }
}

/// The datagrams that carry one access unit.
pub fn encode_access_unit(metadata: MediaFrameMetadata, payload: &[u8]) -> (r: Result<
    Vec<Vec<u8>>,
    SendError,
>)
    ensures
        if metadata.duration_ms > u16::MAX {
            r matches Err(error) && error == SendError::Duration
        } else {
            match media_datagrams(
                Seq::empty(),
                MediaFrameView { metadata, payload: payload@ },
            ) {
                Some(datagrams) => r matches Ok(given) && datagram_views(given@) == datagrams,
                None => r matches Err(error) && error == SendError::Encode,
            }
        },
{
    if metadata.duration_ms > 0xffff {
        return Err(SendError::Duration);
    }
    let mut encoder = new_media_encoder();
    match encode_media_frame(&mut encoder, metadata, payload) {
        Some(datagrams) => Ok(datagrams),
        None => Err(SendError::Encode),
    }
}

/// The most answers that are looked at before more is sent.
pub const FEEDBACK_ROUNDS: usize = 32;

/// What came of looking for an answer.
#[derive(Debug, Clone, Copy, PartialEq, Eq, Structural)]
pub enum Feedback {
    /// There was one.
    Taken,
    /// There was none.
    Nothing,
    /// Looking failed.
    Failed,
}

/// What to do behind an answer.
#[derive(Debug, Clone, Copy, PartialEq, Eq, Structural)]
pub enum FeedbackStep {
    /// Look again.
    Again,
    /// Send on.
    Done,
    /// Give up.
    Fail,
}

/// Decides what to do behind an answer, when so many were looked for.
pub fn after_feedback(rounds: usize, feedback: Feedback) -> (r: FeedbackStep)
    ensures
        r == (match feedback {
            Feedback::Failed => FeedbackStep::Fail,
            Feedback::Nothing => FeedbackStep::Done,
            Feedback::Taken => if rounds >= FEEDBACK_ROUNDS {
                FeedbackStep::Done
            } else {
                FeedbackStep::Again
            },
        }),
{
    match feedback {
        Feedback::Failed => FeedbackStep::Fail,
        Feedback::Nothing => FeedbackStep::Done,
        Feedback::Taken => if rounds >= FEEDBACK_ROUNDS {
            FeedbackStep::Done
        } else {
            FeedbackStep::Again
        },
    }
}

/// The length of a chunk: as configured, and at least a byte.
pub fn chunk_length(configured: usize) -> (r: usize)
    ensures
        r == (if configured == 0 {
            1
        } else {
            configured
        }),
{
    if configured == 0 {
        1
    } else {
        configured
    }
}

/// Every codec can be asked for by its name, no two names but one ask for the same, and without a
/// name it is data.
pub proof fn every_codec_has_a_name(codec: MediaCodec, a: CodecArg, b: CodecArg)
    ensures
        exists|arg: CodecArg| arg != CodecArg::Auto && #[trigger] arg.named() == codec,
        a != CodecArg::Auto && b != CodecArg::Auto && a.named() == b.named() ==> a == b,
        CodecArg::Auto.named() == MediaCodec::Data,
        a.named() == MediaCodec::H264 <==> a == CodecArg::H264,
        a.named() == MediaCodec::Opus <==> a == CodecArg::Opus,
        a.named() == MediaCodec::Aac <==> a == CodecArg::Aac,
        a.named() == MediaCodec::Unknown <==> a == CodecArg::Unknown,
{
    let arg = match codec {
        MediaCodec::Unknown => CodecArg::Unknown,
        MediaCodec::H264 => CodecArg::H264,
        MediaCodec::Opus => CodecArg::Opus,
        MediaCodec::Aac => CodecArg::Aac,
        MediaCodec::Data => CodecArg::Data,
    };
    assert(arg.named() == codec);
}

} // verus!

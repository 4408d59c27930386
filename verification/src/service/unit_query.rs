//! What a request to forward a media access unit says of it.
use crate::formats::{audio_named, framing_named, infer_media_codec, inferred, UNIT_LENGTH_SIZE};
use crate::service::media_fec::{MediaCodec, MediaFrameMetadata};
use crate::service::router::{
    pairs_view, parse_query, query_pairs, stream_id_of_pairs, stream_named, MediaAccessUnitParams,
    QueryPair,
};
use crate::text::{characters, parse_number, read_number, text_equal, NumberError};
use vstd::prelude::*;
use vstd::string::*;

verus! {

/// The complaint about a value that is no number.
pub open spec fn bad_number(name: Seq<char>, value: Seq<char>, error: NumberError) -> Seq<char> {
    "invalid "@ + name + " `"@ + value + "`: "@ + error.words()
}

/// The number that keys and values give a name: the last, or `found` where none does; or the
/// complaint about the first that is no number up to `maximum`.
pub open spec fn number_named(
    pairs: Seq<(Seq<char>, Seq<char>)>,
    name: Seq<char>,
    maximum: nat,
    found: Option<u64>,
) -> Result<Option<u64>, Seq<char>>
    decreases pairs.len(),
{
    if pairs.len() == 0 {
        Ok(found)
    } else if pairs[0].0 == name {
        match read_number(pairs[0].1, 10, maximum) {
            Ok(number) => number_named(pairs.skip(1), name, maximum, Some(number as u64)),
            Err(error) => Err(bad_number(name, pairs[0].1, error)),
        }
    } else {
        number_named(pairs.skip(1), name, maximum, found)
    }
}

/// The number that keys and values give a name.
fn number_of_pairs(pairs: &Vec<QueryPair>, name: &str, maximum: u64) -> (r: Result<
    Option<u64>,
    String,
>)
    ensures
        match number_named(pairs_view(pairs@), name@, maximum as nat, None) {
            Ok(number) => r matches Ok(n) && n == number && (n matches Some(n) ==> n <= maximum),
            Err(message) => r matches Err(text) && text@ == message,
        },
{
    let ghost all = pairs_view(pairs@);
    let mut found: Option<u64> = None;
    let mut i: usize = 0;
    assert(all.skip(0) =~= all);
    while i < pairs.len()
        invariant
            i <= pairs@.len(),
            all == pairs_view(pairs@),
            found matches Some(n) ==> n <= maximum,
            number_named(all, name@, maximum as nat, None) == number_named(
                all.skip(i as int),
                name@,
                maximum as nat,
                found,
            ),
        decreases pairs@.len() - i,
    {
        assert(all.skip(i as int)[0] == (pairs@[i as int].key@, pairs@[i as int].value@));
        assert(all.skip(i as int).skip(1) =~= all.skip(i + 1));
        if text_equal(pairs[i].key.as_str(), name) {
            let value = pairs[i].value.as_str();
            let digits = characters(value);
            match parse_number(digits.as_slice(), 10, maximum) {
                Ok(number) => {
                    found = Some(number);
                },
                Err(error) => {
                    let mut message = "invalid ".to_owned();
                    message.append(name);
                    message.append(" `");
                    message.append(value);
                    message.append("`: ");
                    message.append(error.message());
                    return Err(message);
                },
            }
        }
        i = i + 1;
    }
    Ok(found)
}

/// What a codec is asked for by, and whether that names one.
pub open spec fn codec_asked(value: Seq<char>) -> Result<(MediaCodec, bool), Seq<char>> {
    if value == "auto"@ {
        Ok((MediaCodec::Data, false))
    } else if value == "unknown"@ {
        Ok((MediaCodec::Unknown, true))
    } else if value == "h264"@ {
        Ok((MediaCodec::H264, true))
    } else if value == "opus"@ {
        Ok((MediaCodec::Opus, true))
    } else if value == "aac"@ {
        Ok((MediaCodec::Aac, true))
    } else if value == "data"@ {
        Ok((MediaCodec::Data, true))
    } else {
        Err("invalid codec `"@ + value + "`"@)
    }
}

/// The codec that keys and values ask for: the last, or `found` where none does; or the complaint
/// about the first that is not known.
pub open spec fn codec_named(pairs: Seq<(Seq<char>, Seq<char>)>, found: (MediaCodec, bool)) -> Result<
    (MediaCodec, bool),
    Seq<char>,
>
    decreases pairs.len(),
{
    if pairs.len() == 0 {
        Ok(found)
    } else if pairs[0].0 == "codec"@ {
        match codec_asked(pairs[0].1) {
            Ok(codec) => codec_named(pairs.skip(1), codec),
            Err(message) => Err(message),
        }
    } else {
        codec_named(pairs.skip(1), found)
    }
}

/// What a codec is asked for by.
fn codec_of_value(value: &str) -> (r: Result<(MediaCodec, bool), String>)
    ensures
        match codec_asked(value@) {
            Ok(codec) => r matches Ok(c) && c == codec,
            Err(message) => r matches Err(text) && text@ == message,
        },
{
    if text_equal(value, "auto") {
        Ok((MediaCodec::Data, false))
    } else if text_equal(value, "unknown") {
        Ok((MediaCodec::Unknown, true))
    } else if text_equal(value, "h264") {
        Ok((MediaCodec::H264, true))
    } else if text_equal(value, "opus") {
        Ok((MediaCodec::Opus, true))
    } else if text_equal(value, "aac") {
        Ok((MediaCodec::Aac, true))
    } else if text_equal(value, "data") {
        Ok((MediaCodec::Data, true))
    } else {
        let mut message = "invalid codec `".to_owned();
        message.append(value);
        message.append("`");
        Err(message)
    }
}

/// The codec that keys and values ask for.
fn codec_of_pairs(pairs: &Vec<QueryPair>) -> (r: Result<(MediaCodec, bool), String>)
    ensures
        match codec_named(pairs_view(pairs@), (MediaCodec::Data, false)) {
            Ok(codec) => r matches Ok(c) && c == codec,
            Err(message) => r matches Err(text) && text@ == message,
        },
{
    let ghost all = pairs_view(pairs@);
    let mut found = (MediaCodec::Data, false);
    let mut i: usize = 0;
    assert(all.skip(0) =~= all);
    while i < pairs.len()
        invariant
            i <= pairs@.len(),
            all == pairs_view(pairs@),
            codec_named(all, (MediaCodec::Data, false)) == codec_named(all.skip(i as int), found),
        decreases pairs@.len() - i,
    {
        assert(all.skip(i as int)[0] == (pairs@[i as int].key@, pairs@[i as int].value@));
        assert(all.skip(i as int).skip(1) =~= all.skip(i + 1));
        if text_equal(pairs[i].key.as_str(), "codec") {
            match codec_of_value(pairs[i].value.as_str()) {
                Ok(codec) => {
                    found = codec;
                },
                Err(message) => {
                    return Err(message);
                },
            }
        }
        i = i + 1;
    }
    Ok(found)
}

/// What keys and values say of an access unit that came at `now_ms`, or the first complaint, in the
/// order of the fields.
pub open spec fn params_named(
    pairs: Seq<(Seq<char>, Seq<char>)>,
    default_stream_id: u64,
    now_ms: u64,
) -> Result<MediaAccessUnitParams, Seq<char>> {
    match (
        stream_named(pairs, default_stream_id),
        number_named(pairs, "sequence"@, u64::MAX as nat, None),
        number_named(pairs, "pts_ms"@, u64::MAX as nat, None),
        number_named(pairs, "dts_ms"@, u64::MAX as nat, None),
        number_named(pairs, "duration_ms"@, u32::MAX as nat, None),
        codec_named(pairs, (MediaCodec::Data, false)),
        number_named(pairs, "flags"@, u16::MAX as nat, None),
    ) {
        (Err(message), _, _, _, _, _, _) => Err(message),
        (_, Err(message), _, _, _, _, _) => Err(message),
        (_, _, Err(message), _, _, _, _) => Err(message),
        (_, _, _, Err(message), _, _, _) => Err(message),
        (_, _, _, _, Err(message), _, _) => Err(message),
        (_, _, _, _, _, Err(message), _) => Err(message),
        (_, _, _, _, _, _, Err(message)) => Err(message),
        (Ok(stream_id), Ok(sequence), Ok(pts), Ok(dts_ms), Ok(duration), Ok(codec), Ok(flags)) => Ok(
            MediaAccessUnitParams {
                stream_id,
                sequence,
                pts_ms: match pts {
                    Some(pts) => pts,
                    None => now_ms,
                },
                dts_ms,
                duration_ms: match duration {
                    Some(duration) => duration as u32,
                    None => 0,
                },
                codec: codec.0,
                codec_explicit: codec.1,
                flags: match flags {
                    Some(flags) => flags as u16,
                    None => 0,
                },
            },
        ),
    }
}

/// Whether a result is what is said of an access unit, or the complaint.
pub open spec fn same_params(
    r: Result<MediaAccessUnitParams, String>,
    wanted: Result<MediaAccessUnitParams, Seq<char>>,
) -> bool {
    match wanted {
        Ok(params) => r matches Ok(p) && p == params,
        Err(message) => r matches Err(text) && text@ == message,
    }
}

/// What keys and values say of an access unit that came at `now_ms`.
pub fn params_of_pairs(pairs: &Vec<QueryPair>, default_stream_id: u64, now_ms: u64) -> (r: Result<
    MediaAccessUnitParams,
    String,
>)
    ensures
        same_params(r, params_named(pairs_view(pairs@), default_stream_id, now_ms)),
{
    let stream_id: u64 = match stream_id_of_pairs(pairs, default_stream_id) {
        Ok(stream_id) => stream_id,
        Err(message) => return Err(message),
    };
    let sequence = match number_of_pairs(pairs, "sequence", u64::MAX) {
        Ok(sequence) => sequence,
        Err(message) => return Err(message),
    };
    let pts = match number_of_pairs(pairs, "pts_ms", u64::MAX) {
        Ok(pts) => pts,
        Err(message) => return Err(message),
    };
    let dts_ms = match number_of_pairs(pairs, "dts_ms", u64::MAX) {
        Ok(dts) => dts,
        Err(message) => return Err(message),
    };
    let duration = match number_of_pairs(pairs, "duration_ms", u32::MAX as u64) {
        Ok(duration) => duration,
        Err(message) => return Err(message),
    };
    let (codec, codec_explicit) = match codec_of_pairs(pairs) {
        Ok(codec) => codec,
        Err(message) => return Err(message),
    };
    let flags = match number_of_pairs(pairs, "flags", u16::MAX as u64) {
        Ok(flags) => flags,
        Err(message) => return Err(message),
    };
    Ok(
        MediaAccessUnitParams {
            stream_id,
            sequence,
            pts_ms: match pts {
                Some(pts) => pts,
                None => now_ms,
            },
            dts_ms,
            duration_ms: match duration {
                Some(duration) => duration as u32,
                None => 0,
            },
            codec,
            codec_explicit,
            flags: match flags {
                Some(flags) => flags as u16,
                None => 0,
            },
        },
    )
}

impl MediaAccessUnitParams {
    /// What a query says of an access unit that came at `now_ms`.
    pub fn parse(query: Option<&str>, default_stream_id: u64, now_ms: u64) -> (r: Result<
        MediaAccessUnitParams,
        String,
    >)
        ensures
            same_params(
                r,
                params_named(
                    query_pairs(
                        match query {
                            Some(query) => query@,
                            None => ""@,
                        },
                    ),
                    default_stream_id,
                    now_ms,
                ),
            ),
    {
        let pairs = parse_query(
            match query {
                Some(query) => query,
                None => "",
            },
        );
        params_of_pairs(&pairs, default_stream_id, now_ms)
    }

    /// What is sent along with an access unit: the codec that the request names, or the one that
    /// the access unit looks like.
    pub fn metadata_for_payload(&self, sequence: u64, payload: &[u8]) -> (r: MediaFrameMetadata)
        ensures
            r == (MediaFrameMetadata {
                stream_id: self.stream_id,
                sequence,
                pts_ms: self.pts_ms,
                dts_ms: self.dts_ms,
                duration_ms: self.duration_ms,
                codec: if self.codec_explicit {
                    self.codec
                } else {
                    inferred(framing_named(payload@, UNIT_LENGTH_SIZE), audio_named(payload@))
                },
                flags: self.flags,
            }),
    {
        MediaFrameMetadata {
            stream_id: self.stream_id,
            sequence,
            pts_ms: self.pts_ms,
            dts_ms: self.dts_ms,
            duration_ms: self.duration_ms,
            codec: if self.codec_explicit {
                self.codec
            } else {
                infer_media_codec(payload)
            },
            flags: self.flags,
        }
    }
}

/// A value counts for its name over those in front of it and for no other name, and a complaint stands
/// whatever comes behind it.
pub proof fn the_last_number_counts(
    pairs: Seq<(Seq<char>, Seq<char>)>,
    name: Seq<char>,
    maximum: nat,
    found: Option<u64>,
    key: Seq<char>,
    value: Seq<char>,
)
    ensures
        ({
            let before = number_named(pairs, name, maximum, found);
            let after = number_named(pairs.push((key, value)), name, maximum, found);
            let read = read_number(value, 10, maximum);
            &&& before is Err ==> after == before
            &&& before is Ok && key != name ==> after == before
            &&& before is Ok && key == name && read is Ok ==> after is Ok && after->Ok_0 == Some(
                read->Ok_0 as u64,
            )
            &&& before is Ok && key == name && read is Err ==> after is Err
        }),
        number_named(Seq::empty(), name, maximum, found) == Ok::<Option<u64>, Seq<char>>(found),
    decreases pairs.len(),
{
    reveal_with_fuel(number_named, 2);
    let more = pairs.push((key, value));
    if pairs.len() == 0 {
        assert(more[0] == (key, value));
        assert(more.skip(1) =~= Seq::empty());
    } else {
        assert(more.skip(1) =~= pairs.skip(1).push((key, value)));
        assert(more[0] == pairs[0]);
        if pairs[0].0 == name {
            match read_number(pairs[0].1, 10, maximum) {
                Ok(number) => {
                    the_last_number_counts(
                        pairs.skip(1),
                        name,
                        maximum,
                        Some(number as u64),
                        key,
                        value,
                    );
                },
                Err(_) => {},
            }
        } else {
            the_last_number_counts(pairs.skip(1), name, maximum, found, key, value);
        }
    }
}

/// What is said of an access unit is what its keys say: an access unit is understood exactly where each
/// of them is, and what is not said is the default, the time of arrival, or nothing.
pub proof fn access_units_are_what_is_said(
    pairs: Seq<(Seq<char>, Seq<char>)>,
    default_stream_id: u64,
    now_ms: u64,
)
    ensures
        ({
            let r = params_named(pairs, default_stream_id, now_ms);
            let stream = stream_named(pairs, default_stream_id);
            let sequence = number_named(pairs, "sequence"@, u64::MAX as nat, None);
            let pts = number_named(pairs, "pts_ms"@, u64::MAX as nat, None);
            let dts = number_named(pairs, "dts_ms"@, u64::MAX as nat, None);
            let duration = number_named(pairs, "duration_ms"@, u32::MAX as nat, None);
            let codec = codec_named(pairs, (MediaCodec::Data, false));
            let flags = number_named(pairs, "flags"@, u16::MAX as nat, None);
            &&& r is Ok <==> stream is Ok && sequence is Ok && pts is Ok && dts is Ok && duration
                is Ok && codec is Ok && flags is Ok
            &&& r matches Ok(params) ==> {
                &&& params.stream_id == stream->Ok_0
                &&& params.sequence == sequence->Ok_0
                &&& params.dts_ms == dts->Ok_0
                &&& params.pts_ms == (if pts->Ok_0 is Some {
                    pts->Ok_0->Some_0
                } else {
                    now_ms
                })
                &&& duration->Ok_0 is None ==> params.duration_ms == 0
                &&& duration->Ok_0 is Some ==> params.duration_ms == duration->Ok_0->Some_0 as u32
                &&& flags->Ok_0 is None ==> params.flags == 0
                &&& flags->Ok_0 is Some ==> params.flags == flags->Ok_0->Some_0 as u16
                &&& params.codec == codec->Ok_0.0 && params.codec_explicit == codec->Ok_0.1
            }
        }),
{
}

/// Every codec that can be asked for is the one of its name, and no other value names one; only the
/// value that leaves it open does.
pub proof fn codecs_are_asked_for_by_name(value: Seq<char>)
    ensures
        ({
            let r = codec_asked(value);
            &&& r is Ok <==> value == "auto"@ || value == "unknown"@ || value == "h264"@ || value
                == "opus"@ || value == "aac"@ || value == "data"@
            &&& r is Ok ==> (r->Ok_0.1 <==> value != "auto"@)
            &&& r is Ok ==> (r->Ok_0.0 == MediaCodec::H264 <==> value == "h264"@)
            &&& r is Ok ==> (r->Ok_0.0 == MediaCodec::Opus <==> value == "opus"@)
            &&& r is Ok ==> (r->Ok_0.0 == MediaCodec::Aac <==> value == "aac"@)
            &&& r is Ok ==> (r->Ok_0.0 == MediaCodec::Unknown <==> value == "unknown"@)
            &&& r is Ok ==> (r->Ok_0.0 == MediaCodec::Data <==> value == "data"@ || value
                == "auto"@)
        }),
{
    reveal_strlit("auto");
    reveal_strlit("unknown");
    reveal_strlit("h264");
    reveal_strlit("opus");
    reveal_strlit("aac");
    reveal_strlit("data");
    assert("unknown"@.len() == 7 && "aac"@.len() == 3);
    assert("auto"@[0] == 'a' && "h264"@[0] == 'h' && "opus"@[0] == 'o' && "data"@[0] == 'd');
}

} // verus!

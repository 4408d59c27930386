//! Responses over HTTP/1.1, and what is asked for.
use crate::bytes::{bytes_equal, copy_bytes, find_bytes, first_occurrence};
use crate::text::{
    append_decimal, characters, decimal, equal_ignoring_case, is_space, is_space_char, lowered,
    parse_number, read_number, text_of, trim_chars, trim_start, trimmed, utf8_text,
};
use vstd::prelude::*;
use vstd::slice::slice_subrange;
use vstd::string::*;
use vstd::utf8::{decode_utf8, valid_utf8};

verus! {

/// The path of something that belongs to a stream.
pub fn hls_path(prefix: &str, stream_id: u64, suffix: &str) -> (r: String)
    ensures
        r@ == prefix@ + "/"@ + decimal(stream_id as nat) + "/"@ + suffix@,
{
    let mut path = prefix.to_owned();
    path.append("/");
    append_decimal(&mut path, stream_id);
    path.append("/");
    path.append(suffix);
    path
}

/// What ends a line.
pub open spec fn line_end() -> Seq<u8> {
    seq![13, 10]
}

/// What ends the headers.
pub open spec fn headers_end() -> Seq<u8> {
    seq![13, 10, 13, 10]
}

/// Why a response cannot be read.
#[derive(Debug, Clone, Copy, PartialEq, Eq, Structural)]
pub enum HttpError {
    /// Its headers do not end.
    NoHeaderEnd,
    /// Its headers are no text.
    HeadersNotText,
    /// It has no status.
    NoStatus,
    /// Its status is no number.
    BadStatus,
    /// A chunk's size does not end.
    NoChunkSize,
    /// A chunk's size is no text.
    ChunkSizeNotText,
    /// A chunk's size is no number.
    BadChunkSize,
    /// A chunk is cut off.
    ChunkTruncated,
}

impl HttpError {
    /// What the error says.
    pub open spec fn words(self) -> Seq<char> {
        match self {
            HttpError::NoHeaderEnd => "HTTP response omitted the header terminator"@,
            HttpError::HeadersNotText => "HTTP headers were not UTF-8"@,
            HttpError::NoStatus => "HTTP response omitted a status code"@,
            HttpError::BadStatus => "HTTP response returned an invalid status code"@,
            HttpError::NoChunkSize => "chunked HTTP body omitted a size terminator"@,
            HttpError::ChunkSizeNotText => "chunked HTTP body size was not UTF-8"@,
            HttpError::BadChunkSize => "chunked HTTP body returned an invalid size"@,
            HttpError::ChunkTruncated => "chunked HTTP body was truncated"@,
        }
    }

    /// What the error says.
    pub fn message(self) -> (r: &'static str)
        ensures
            r@ == self.words(),
    {
        match self {
            HttpError::NoHeaderEnd => "HTTP response omitted the header terminator",
            HttpError::HeadersNotText => "HTTP headers were not UTF-8",
            HttpError::NoStatus => "HTTP response omitted a status code",
            HttpError::BadStatus => "HTTP response returned an invalid status code",
            HttpError::NoChunkSize => "chunked HTTP body omitted a size terminator",
            HttpError::ChunkSizeNotText => "chunked HTTP body size was not UTF-8",
            HttpError::BadChunkSize => "chunked HTTP body returned an invalid size",
            HttpError::ChunkTruncated => "chunked HTTP body was truncated",
        }
    }
}

/// The part of a text up to a character, or all of it.
pub open spec fn before(text: Seq<char>, c: char) -> Seq<char>
    decreases text.len(),
{
    if text.len() == 0 || text[0] == c {
        Seq::empty()
    } else {
        seq![text[0]] + before(text.skip(1), c)
    }
}

/// The first place of a character in a text, or its end.
fn place_of(text: &[char], c: char) -> (r: usize)
    ensures
        r <= text@.len(),
        text@.take(r as int) == before(text@, c),
        r < text@.len() ==> text@[r as int] == c,
        forall|k: int| 0 <= k < r ==> text@[k] != c,
{
    let mut at: usize = 0;
    while at < text.len() && text[at] != c
        invariant
            at <= text@.len(),
            forall|k: int| 0 <= k < at ==> text@[k] != c,
        decreases text@.len() - at,
    {
        at = at + 1;
    }
    proof {
        before_is_prefix(text@, c, at as int);
    }
    at
}

/// The part of a text up to a character ends where the character first stands.
proof fn before_is_prefix(text: Seq<char>, c: char, at: int)
    requires
        0 <= at <= text.len(),
        forall|k: int| 0 <= k < at ==> text[k] != c,
        at < text.len() ==> text[at] == c,
    ensures
        before(text, c) == text.take(at),
    decreases text.len(),
{
    if at == 0 {
        assert(text.take(0) =~= Seq::empty());
    } else {
        let rest = text.skip(1);
        before_is_prefix(rest, c, at - 1);
        assert(seq![text[0]] + rest.take(at - 1) =~= text.take(at));
    }
}

/// What the chunks of a body hold together, or why they cannot be read.
pub open spec fn chunks(wire: Seq<u8>) -> Result<Seq<u8>, HttpError>
    decreases wire.len(),
{
    match first_occurrence(wire, line_end(), 0) {
        None => Err(HttpError::NoChunkSize),
        Some(at) => if at < 0 || at + 2 > wire.len() {
            Err(HttpError::NoChunkSize)
        } else if !valid_utf8(wire.take(at)) {
            Err(HttpError::ChunkSizeNotText)
        } else {
            match read_number(
                trimmed(before(decode_utf8(wire.take(at)), ';')),
                16,
                usize::MAX as nat,
            ) {
                Err(_) => Err(HttpError::BadChunkSize),
                Ok(size) => {
                    let rest = wire.skip(at + 2);
                    if size == 0 {
                        Ok(Seq::empty())
                    } else if rest.len() < size + 2 || rest.subrange(size as int, size as int + 2)
                        != line_end() {
                        Err(HttpError::ChunkTruncated)
                    } else {
                        match chunks(rest.skip(size as int + 2)) {
                            Ok(more) => Ok(rest.take(size as int) + more),
                            Err(error) => Err(error),
                        }
                    }
                },
            }
        },
    }
}

/// Joins the chunks of a body.
pub fn decode_chunked_body(wire: &[u8]) -> (r: Result<Vec<u8>, HttpError>)
    ensures
        match chunks(wire@) {
            Ok(body) => r matches Ok(bytes) && bytes@ == body,
            Err(error) => r matches Err(e) && e == error,
        },
{
    let ending: [u8; 2] = [13, 10];
    assert(ending@ =~= line_end());
    let mut body: Vec<u8> = Vec::new();
    let mut at: usize = 0;
    assert(wire@.skip(0) =~= wire@);
    assert(forall|more: Seq<u8>| Seq::<u8>::empty() + more =~= more);
    loop
        invariant
            at <= wire@.len(),
            ending@ == line_end(),
            match chunks(wire@.skip(at as int)) {
                Ok(more) => chunks(wire@) == Ok::<Seq<u8>, HttpError>(body@ + more),
                Err(error) => chunks(wire@) == Err::<Seq<u8>, HttpError>(error),
            },
        decreases wire@.len() - at,
    {
        let rest = slice_subrange(wire, at, wire.len());
        assert(rest@ =~= wire@.skip(at as int));
        proof {
            crate::bytes::first_is_first(rest@, line_end(), 0);
        }
        let size_end: usize = match find_bytes(rest, ending.as_slice()) {
            Some(size_end) => size_end,
            None => {
                return Err(HttpError::NoChunkSize);
            },
        };
        let size_bytes = slice_subrange(rest, 0, size_end);
        assert(size_bytes@ =~= rest@.take(size_end as int));
        let size_text = match utf8_text(size_bytes) {
            Some(text) => characters(text),
            None => {
                return Err(HttpError::ChunkSizeNotText);
            },
        };
        let cut: usize = place_of(size_text.as_slice(), ';');
        let size_field = slice_subrange(size_text.as_slice(), 0, cut);
        assert(size_field@ =~= size_text@.take(cut as int));
        let size: u64 = match parse_number(trim_chars(size_field), 16, usize::MAX as u64) {
            Ok(size) => size,
            Err(_) => {
                return Err(HttpError::BadChunkSize);
            },
        };
        let payload = slice_subrange(rest, size_end + 2, rest.len());
        assert(payload@ =~= rest@.skip(size_end + 2));
        if size == 0 {
            assert(body@ + Seq::<u8>::empty() =~= body@);
            return Ok(body);
        }
        let size: usize = size as usize;
        if payload.len() < 2 || size > payload.len() - 2 {
            return Err(HttpError::ChunkTruncated);
        }
        let closing = slice_subrange(payload, size, size + 2);
        assert(closing@ =~= payload@.subrange(size as int, size + 2));
        if !bytes_equal(closing, ending.as_slice()) {
            return Err(HttpError::ChunkTruncated);
        }
        let chunk = slice_subrange(payload, 0, size);
        let ghost older = body@;
        body.extend_from_slice(chunk);
        proof {
            assert(chunk@ =~= payload@.take(size as int));
            assert(body@ =~= older + chunk@);
            let next = payload@.skip(size + 2);
            assert(wire@.skip(at + size_end + 2 + size + 2) =~= next);
            match chunks(next) {
                Ok(more) => {
                    assert(older + (chunk@ + more) =~= (older + chunk@) + more);
                },
                Err(_) => {},
            }
        }
        at = at + size_end + 2 + size + 2;
    }
}

/// What stands first in a byte string stands first in a longer one.
proof fn first_stays_first(data: Seq<u8>, more: Seq<u8>, needle: Seq<u8>, from: int)
    requires
        from >= 0,
        first_occurrence(data, needle, from) is Some,
    ensures
        first_occurrence(data + more, needle, from) == first_occurrence(data, needle, from),
    decreases data.len() - from + 1,
{
    let longer = data + more;
    assert(longer.subrange(from, from + needle.len()) =~= data.subrange(from, from + needle.len()));
    if !crate::bytes::occurs_at(data, needle, from) {
        first_stays_first(data, more, needle, from + 1);
    }
}

/// A chunk behind its size is read, and what follows it is read on.
pub proof fn chunks_read_on(size_text: Seq<u8>, chunk: Seq<u8>, rest: Seq<u8>)
    requires
        first_occurrence(size_text + line_end(), line_end(), 0) == Some(size_text.len() as int),
        valid_utf8(size_text),
        read_number(
            trimmed(before(decode_utf8(size_text), ';')),
            16,
            usize::MAX as nat,
        ) == Ok::<nat, crate::text::NumberError>(chunk.len()),
        chunk.len() > 0,
    ensures
        chunks(size_text + line_end() + chunk + line_end() + rest) == (match chunks(rest) {
            Ok(more) => Ok(chunk + more),
            Err(error) => Err(error),
        }),
{
    let wire = size_text + line_end() + chunk + line_end() + rest;
    let behind = chunk + line_end() + rest;
    let at = size_text.len() as int;
    let size = chunk.len() as int;
    assert(wire =~= size_text + line_end() + behind);
    first_stays_first(size_text + line_end(), behind, line_end(), 0);
    assert(wire.take(at) =~= size_text);
    assert(wire.skip(at + 2) =~= behind);
    assert(behind.subrange(size, size + 2) =~= line_end());
    assert(behind.take(size) =~= chunk);
    assert(behind.skip(size + 2) =~= rest);
}

/// A header of a response.
#[derive(Debug)]
pub struct HttpHeader {
    pub name: String,
    pub value: String,
}

/// What a list of headers holds.
pub open spec fn http_headers(headers: Seq<HttpHeader>) -> Seq<(Seq<char>, Seq<char>)> {
    headers.map_values(|header: HttpHeader| (header.name@, header.value@))
}

/// What headers say under a name, in any case: the last that bears it.
pub open spec fn header_value(headers: Seq<(Seq<char>, Seq<char>)>, name: Seq<char>) -> Option<
    Seq<char>,
>
    decreases headers.len(),
{
    if headers.len() == 0 {
        None
    } else if lowered(headers.last().0) == lowered(name) {
        Some(headers.last().1)
    } else {
        header_value(headers.drop_last(), name)
    }
}

/// What headers say under a name.
pub fn find_header<'a>(headers: &'a Vec<HttpHeader>, name: &str) -> (r: Option<&'a str>)
    ensures
        match header_value(http_headers(headers@), name@) {
            Some(value) => r matches Some(text) && text@ == value,
            None => r is None,
        },
{
    let ghost all = http_headers(headers@);
    let mut i: usize = headers.len();
    assert(all.take(i as int) =~= all);
    while i > 0
        invariant
            i <= headers@.len(),
            all == http_headers(headers@),
            header_value(all, name@) == header_value(all.take(i as int), name@),
        decreases i,
    {
        i = i - 1;
        let ghost head = all.take(i + 1);
        assert(head.drop_last() =~= all.take(i as int));
        assert(head.last() == (headers@[i as int].name@, headers@[i as int].value@));
        if equal_ignoring_case(headers[i].name.as_str(), name) {
            return Some(headers[i].value.as_str());
        }
    }
    None
}

/// A response.
#[derive(Debug)]
pub struct SimpleHttpResponse {
    pub status: u16,
    pub headers: Vec<HttpHeader>,
    pub body: Vec<u8>,
    pub wire_bytes: usize,
}

/// What a [`SimpleHttpResponse`] holds.
pub struct ResponseView {
    pub status: u16,
    pub headers: Seq<(Seq<char>, Seq<char>)>,
    pub body: Seq<u8>,
    pub wire_bytes: usize,
}

impl View for SimpleHttpResponse {
    type V = ResponseView;

    open spec fn view(&self) -> ResponseView {
        ResponseView {
            status: self.status,
            headers: http_headers(self.headers@),
            body: self.body@,
            wire_bytes: self.wire_bytes,
        }
    }
}

/// Whether a line ends at a place of a text.
pub open spec fn line_ends_at(text: Seq<char>, at: int) -> bool {
    at + 2 <= text.len() && text[at] == '\r' && text[at + 1] == '\n'
}

/// The length of a text's first line.
pub open spec fn first_line_len(text: Seq<char>, from: int) -> int
    decreases text.len() - from,
{
    if from >= text.len() {
        text.len() as int
    } else if line_ends_at(text, from) {
        from
    } else {
        first_line_len(text, from + 1)
    }
}

/// A first line is no longer than its text.
proof fn first_line_fits(text: Seq<char>, from: int)
    requires
        0 <= from <= text.len(),
    ensures
        from <= first_line_len(text, from) <= text.len(),
        first_line_len(text, from) < text.len() ==> line_ends_at(text, first_line_len(text, from)),
    decreases text.len() - from,
{
    if from < text.len() && !line_ends_at(text, from) {
        first_line_fits(text, from + 1);
    }
}

/// What stands behind a text's first line, if anything does.
pub open spec fn behind_first_line(text: Seq<char>) -> Option<Seq<char>> {
    let length = first_line_len(text, 0);
    if length < text.len() {
        Some(text.skip(length + 2))
    } else {
        None
    }
}

/// A text's first line.
pub open spec fn first_line(text: Seq<char>) -> Seq<char> {
    text.take(first_line_len(text, 0))
}

/// A text up to the first white space.
pub open spec fn first_word(text: Seq<char>) -> Seq<char>
    decreases text.len(),
{
    if text.len() == 0 || is_space(text[0]) {
        Seq::empty()
    } else {
        seq![text[0]] + first_word(text.skip(1))
    }
}

/// The second word of a line, if it has one.
pub open spec fn second_word(line: Seq<char>) -> Option<Seq<char>> {
    let opened = trim_start(line);
    let behind = trim_start(opened.skip(first_word(opened).len() as int));
    if behind.len() == 0 {
        None
    } else {
        Some(first_word(behind))
    }
}

/// The name and the value of a header's line, without the white space around them.
pub open spec fn header_of(line: Seq<char>) -> Option<(Seq<char>, Seq<char>)> {
    let name = before(line, ':');
    if name.len() < line.len() {
        Some((trimmed(name), trimmed(line.skip(name.len() as int + 1))))
    } else {
        None
    }
}

/// The headers of lines; a line without a colon is none.
pub open spec fn headers_of(text: Option<Seq<char>>) -> Seq<(Seq<char>, Seq<char>)>
    decreases
            (match text {
                Some(text) => text.len() + 1,
                None => 0,
            }),
{
    match text {
        None => Seq::empty(),
        Some(text) => {
            let more = match behind_first_line(text) {
                Some(rest) => if rest.len() < text.len() {
                    headers_of(Some(rest))
                } else {
                    Seq::empty()
                },
                None => Seq::empty(),
            };
            match header_of(first_line(text)) {
                Some(header) => seq![header] + more,
                None => more,
            }
        },
    }
}

/// What a response says, or why it cannot be read.
pub open spec fn response_of(wire: Seq<u8>) -> Result<ResponseView, HttpError> {
    match first_occurrence(wire, headers_end(), 0) {
        None => Err(HttpError::NoHeaderEnd),
        Some(at) => if !valid_utf8(wire.take(at)) {
            Err(HttpError::HeadersNotText)
        } else {
            let head = decode_utf8(wire.take(at));
            match second_word(first_line(head)) {
                None => Err(HttpError::NoStatus),
                Some(word) => match read_number(word, 10, u16::MAX as nat) {
                    Err(_) => Err(HttpError::BadStatus),
                    Ok(status) => {
                        let headers = headers_of(behind_first_line(head));
                        let encoded = wire.skip(at + 4);
                        let is_chunked = match header_value(headers, "transfer-encoding"@) {
                            Some(value) => lowered(value) == lowered("chunked"@),
                            None => false,
                        };
                        let body = if is_chunked {
                            chunks(encoded)
                        } else {
                            Ok(encoded)
                        };
                        match body {
                            Err(error) => Err(error),
                            Ok(body) => Ok(
                                ResponseView {
                                    status: status as u16,
                                    headers,
                                    body,
                                    wire_bytes: wire.len() as usize,
                                },
                            ),
                        }
                    },
                },
            }
        },
    }
}

/// Finds the end of a text's first line.
fn end_of_line(text: &[char]) -> (r: usize)
    ensures
        r == first_line_len(text@, 0),
        r <= text@.len(),
        r < text@.len() ==> r + 2 <= text@.len(),
{
    let mut at: usize = 0;
    proof {
        first_line_fits(text@, 0);
    }
    while at < text.len()
        invariant
            at <= text@.len(),
            first_line_len(text@, 0) == first_line_len(text@, at as int),
            first_line_len(text@, 0) < text@.len() ==> line_ends_at(
                text@,
                first_line_len(text@, 0),
            ),
        decreases text@.len() - at,
    {
        if text.len() - at >= 2 && text[at] == '\r' && text[at + 1] == '\n' {
            return at;
        }
        at = at + 1;
    }
    at
}

/// Takes the white space off the front of a text.
fn skip_spaces(text: &[char]) -> (r: &[char])
    ensures
        r@ == trim_start(text@),
{
    let mut at: usize = 0;
    assert(text@.skip(0) =~= text@);
    while at < text.len() && is_space_char(text[at])
        invariant
            at <= text@.len(),
            trim_start(text@) == trim_start(text@.skip(at as int)),
        decreases text@.len() - at,
    {
        assert(text@.skip(at as int).skip(1) =~= text@.skip(at + 1));
        at = at + 1;
    }
    let rest = slice_subrange(text, at, text.len());
    assert(rest@ =~= text@.skip(at as int));
    rest
}

/// The length of a text up to the first white space.
fn word_len(text: &[char]) -> (r: usize)
    ensures
        r <= text@.len(),
        text@.take(r as int) == first_word(text@),
{
    let mut at: usize = 0;
    while at < text.len() && !is_space_char(text[at])
        invariant
            at <= text@.len(),
            forall|k: int| 0 <= k < at ==> !is_space(text@[k]),
        decreases text@.len() - at,
    {
        at = at + 1;
    }
    proof {
        word_is_prefix(text@, at as int);
    }
    at
}

/// A text up to the first white space ends where the white space stands.
proof fn word_is_prefix(text: Seq<char>, at: int)
    requires
        0 <= at <= text.len(),
        forall|k: int| 0 <= k < at ==> !is_space(text[k]),
        at < text.len() ==> is_space(text[at]),
    ensures
        first_word(text) == text.take(at),
    decreases text.len(),
{
    if at == 0 {
        assert(text.take(0) =~= Seq::empty());
    } else {
        let rest = text.skip(1);
        word_is_prefix(rest, at - 1);
        assert(seq![text[0]] + rest.take(at - 1) =~= text.take(at));
    }
}

/// The second word of a line, if it has one.
fn find_second_word(line: &[char]) -> (r: Option<&[char]>)
    ensures
        match second_word(line@) {
            Some(word) => r matches Some(found) && found@ == word,
            None => r is None,
        },
{
    let opened = skip_spaces(line);
    let length: usize = word_len(opened);
    let rest = slice_subrange(opened, length, opened.len());
    assert(rest@ =~= opened@.skip(first_word(opened@).len() as int));
    let behind = skip_spaces(rest);
    if behind.len() == 0 {
        return None;
    }
    let second: usize = word_len(behind);
    let word = slice_subrange(behind, 0, second);
    assert(word@ =~= behind@.take(second as int));
    Some(word)
}

/// Reads the headers of lines.
fn read_headers(text: &[char]) -> (r: Vec<HttpHeader>)
    ensures
        http_headers(r@) == headers_of(Some(text@)),
{
    let ghost wanted = headers_of(Some(text@));
    let mut headers: Vec<HttpHeader> = Vec::new();
    let mut at: usize = 0;
    assert(text@.skip(0) =~= text@);
    assert(http_headers(headers@) =~= Seq::empty());
    assert(wanted =~= http_headers(headers@) + headers_of(Some(text@.skip(0))));
    loop
        invariant
            at <= text@.len(),
            wanted == headers_of(Some(text@)),
            wanted == http_headers(headers@) + headers_of(Some(text@.skip(at as int))),
        decreases text@.len() - at,
    {
        let rest = slice_subrange(text, at, text.len());
        assert(rest@ =~= text@.skip(at as int));
        let length: usize = end_of_line(rest);
        let line = slice_subrange(rest, 0, length);
        assert(line@ =~= first_line(rest@));
        let colon: usize = place_of(line, ':');
        let ghost older = http_headers(headers@);
        let ghost more = match behind_first_line(rest@) {
            Some(behind) => headers_of(Some(behind)),
            None => Seq::empty(),
        };
        if colon < line.len() {
            let name_chars = slice_subrange(line, 0, colon);
            let value_chars = slice_subrange(line, colon + 1, line.len());
            assert(name_chars@ =~= before(line@, ':'));
            assert(value_chars@ =~= line@.skip(colon + 1));
            let name = text_of(trim_chars(name_chars));
            let value = text_of(trim_chars(value_chars));
            let ghost header = (name@, value@);
            headers.push(HttpHeader { name, value });
            assert(header_of(line@) == Some(header));
            assert(http_headers(headers@) =~= older.push(header));
            assert(older + (seq![header] + more) =~= older.push(header) + more);
        }
        assert(wanted =~= http_headers(headers@) + more);
        if length == rest.len() {
            assert(http_headers(headers@) =~= wanted);
            return headers;
        }
        assert(rest@.skip(length + 2) =~= text@.skip(at + length + 2));
        at = at + length + 2;
    }
}

/// Reads a response.
pub fn parse_http_response(wire: Vec<u8>) -> (r: Result<SimpleHttpResponse, HttpError>)
    ensures
        match response_of(wire@) {
            Ok(response) => r matches Ok(read) && read@ == response,
            Err(error) => r matches Err(e) && e == error,
        },
{
    let ending: [u8; 4] = [13, 10, 13, 10];
    assert(ending@ =~= headers_end());
    let header_end: usize = match find_bytes(wire.as_slice(), ending.as_slice()) {
        Some(header_end) => header_end,
        None => {
            return Err(HttpError::NoHeaderEnd);
        },
    };
    let head_bytes = slice_subrange(wire.as_slice(), 0, header_end);
    assert(head_bytes@ =~= wire@.take(header_end as int));
    let head = match utf8_text(head_bytes) {
        Some(text) => characters(text),
        None => {
            return Err(HttpError::HeadersNotText);
        },
    };
    let line_length: usize = end_of_line(head.as_slice());
    let status_line = slice_subrange(head.as_slice(), 0, line_length);
    assert(status_line@ =~= first_line(head@));
    let status: u64 = match find_second_word(status_line) {
        None => {
            return Err(HttpError::NoStatus);
        },
        Some(word) => match parse_number(word, 10, 0xffff) {
            Ok(status) => status,
            Err(_) => {
                return Err(HttpError::BadStatus);
            },
        },
    };
    let headers = if line_length < head.len() {
        let rest = slice_subrange(head.as_slice(), line_length + 2, head.len());
        assert(rest@ =~= head@.skip(line_length + 2));
        read_headers(rest)
    } else {
        let none: Vec<HttpHeader> = Vec::new();
        assert(http_headers(none@) =~= Seq::empty());
        none
    };
    let encoded = slice_subrange(wire.as_slice(), header_end + 4, wire.len());
    assert(encoded@ =~= wire@.skip(header_end + 4));
    let is_chunked = match find_header(&headers, "transfer-encoding") {
        Some(value) => equal_ignoring_case(value, "chunked"),
        None => false,
    };
    let body = if is_chunked {
        match decode_chunked_body(encoded) {
            Ok(body) => body,
            Err(error) => {
                return Err(error);
            },
        }
    } else {
        copy_bytes(encoded)
    };
    Ok(SimpleHttpResponse { status: status as u16, headers, body, wire_bytes: wire.len() })
}

/// How long something took to reach the cache, and from there the reader, where the cache says when
/// it had it and the times are in order.
pub open spec fn cache_split(available_us: Option<Seq<char>>, published_ns: u64, received_ns: u64) -> Option<
    (u64, u64),
> {
    match available_us {
        None => None,
        Some(text) => match read_number(text, 10, u64::MAX as nat) {
            Err(_) => None,
            Ok(us) => {
                let available_ns = us * 1_000;
                if available_ns > u64::MAX || available_ns < published_ns || received_ns
                    < available_ns {
                    None
                } else {
                    Some(((available_ns - published_ns) as u64, (received_ns - available_ns) as u64))
                }
            },
        },
    }
}

/// How long something took to reach the cache, and from there the reader.
pub fn split_cache_latency_ns(headers: &Vec<HttpHeader>, published_ns: u64, received_ns: u64) -> (r:
    Option<(u64, u64)>)
    ensures
        r == cache_split(
            header_value(http_headers(headers@), "x-needletail-cache-available-unix-us"@),
            published_ns,
            received_ns,
        ),
{
    let text = match find_header(headers, "x-needletail-cache-available-unix-us") {
        Some(text) => text,
        None => {
            return None;
        },
    };
    let digits = characters(text);
    let available_us: u64 = match parse_number(digits.as_slice(), 10, u64::MAX) {
        Ok(us) => us,
        Err(_) => {
            return None;
        },
    };
    let available_ns: u64 = match available_us.checked_mul(1_000) {
        Some(ns) => ns,
        None => {
            return None;
        },
    };
    if available_ns < published_ns || received_ns < available_ns {
        return None;
    }
    Some((available_ns - published_ns, received_ns - available_ns))
}

/// The two parts of a latency add up to all of it.
pub proof fn split_latency_adds_up(
    available_us: Option<Seq<char>>,
    published_ns: u64,
    received_ns: u64,
)
    requires
        cache_split(available_us, published_ns, received_ns) is Some,
    ensures
        ({
            let (to_cache, to_reader) = cache_split(available_us, published_ns, received_ns)->0;
            to_cache + to_reader == received_ns - published_ns
        }),
{
}

/// What headers say under a name is what the last one says that bears it, however it is written.
pub proof fn the_last_header_counts(headers: Seq<(Seq<char>, Seq<char>)>, name: Seq<char>)
    ensures
        match header_value(headers, name) {
            Some(value) => exists|k: int|
                0 <= k < headers.len() && (#[trigger] headers[k]).1 == value && lowered(
                    headers[k].0,
                ) == lowered(name) && forall|j: int|
                    k < j < headers.len() ==> lowered((#[trigger] headers[j]).0) != lowered(name),
            None => forall|j: int|
                0 <= j < headers.len() ==> lowered((#[trigger] headers[j]).0) != lowered(name),
        },
    decreases headers.len(),
{
    if headers.len() > 0 {
        let older = headers.drop_last();
        let last = headers.len() - 1;
        assert(headers.last() == headers[last]);
        assert forall|j: int| 0 <= j < older.len() implies older[j] == #[trigger] headers[j] by {}
        if lowered(headers.last().0) != lowered(name) {
            the_last_header_counts(older, name);
            match header_value(older, name) {
                Some(value) => {
                    let k = choose|k: int|
                        0 <= k < older.len() && (#[trigger] older[k]).1 == value && lowered(
                            older[k].0,
                        ) == lowered(name) && forall|j: int|
                            k < j < older.len() ==> lowered((#[trigger] older[j]).0) != lowered(
                                name,
                            );
                    assert(headers[k] == older[k]);
                    assert forall|j: int| k < j < headers.len() implies lowered(
                        (#[trigger] headers[j]).0,
                    ) != lowered(name) by {
                        if j < older.len() {
                            assert(older[j] == headers[j]);
                        }
                    }
                },
                None => {
                    assert forall|j: int| 0 <= j < headers.len() implies lowered(
                        (#[trigger] headers[j]).0,
                    ) != lowered(name) by {
                        if j < older.len() {
                            assert(older[j] == headers[j]);
                        }
                    }
                },
            }
        }
    }
}

/// What stands before a character is the text up to where it first stands, or all of it.
pub proof fn texts_are_cut_at_the_first(head: Seq<char>, tail: Seq<char>, c: char)
    requires
        forall|i: int| 0 <= i < head.len() ==> #[trigger] head[i] != c,
        tail.len() == 0 || tail[0] == c,
    ensures
        before(head + tail, c) == head,
    decreases head.len(),
{
    let text = head + tail;
    if head.len() == 0 {
        assert(text =~= tail);
        assert(before(text, c) =~= head);
    } else {
        let rest = head.skip(1);
        assert forall|i: int| 0 <= i < rest.len() implies #[trigger] rest[i] != c by {
            assert(rest[i] == head[i + 1]);
        }
        texts_are_cut_at_the_first(rest, tail, c);
        assert(text.skip(1) =~= rest + tail);
        assert(text[0] == head[0] && head[0] != c);
        assert(seq![head[0]] + rest =~= head);
    }
}

/// A header's line is a name, a colon and a value, without the white space around each; a line without a
/// colon is no header.
pub proof fn header_lines_are_names_and_values(name: Seq<char>, value: Seq<char>)
    requires
        forall|i: int| 0 <= i < name.len() ==> #[trigger] name[i] != ':',
    ensures
        header_of(name + seq![':'] + value) == Some((trimmed(name), trimmed(value))),
        header_of(name) is None,
{
    let tail = seq![':'] + value;
    texts_are_cut_at_the_first(name, tail, ':');
    assert(name + seq![':'] + value =~= name + tail);
    assert((name + tail).skip(name.len() as int + 1) =~= value);
    texts_are_cut_at_the_first(name, Seq::empty(), ':');
    assert(name + Seq::<char>::empty() =~= name);
}

/// A response that is read has the status that its first line gives, the headers behind it, and either the
/// bytes behind them or, where it comes in chunks, what the chunks hold.
pub proof fn responses_hold_what_came(wire: Seq<u8>)
    requires
        wire.len() <= usize::MAX,
    ensures
        response_of(wire) matches Ok(response) ==> {
            let at = first_occurrence(wire, headers_end(), 0);
            let encoding = header_value(response.headers, "transfer-encoding"@);
            let chunked = encoding is Some && lowered(encoding->Some_0) == lowered("chunked"@);
            &&& at is Some
            &&& !chunked ==> response.body == wire.skip(at->Some_0 + 4)
            &&& chunked ==> chunks(wire.skip(at->Some_0 + 4)) == Ok::<Seq<u8>, HttpError>(
                response.body,
            )
            &&& response.wire_bytes == wire.len()
        },
        first_occurrence(wire, headers_end(), 0) is None ==> response_of(wire) is Err,
{
}

} // verus!

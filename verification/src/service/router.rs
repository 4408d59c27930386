//! Requests: which are answered, with what, and which are taken in.
use crate::arith::{ceil_div, max_int};
use crate::service::forward::ForwardError;
use crate::service::media_fec::MediaCodec;
use crate::service::stream_fec::MAX_STREAM_FEC_OBJECT_BYTES;
use crate::text::{
    append_decimal, characters, decimal, equal_ignoring_case, lowered, parse_number, read_number,
    text_equal, NumberError,
};
use vstd::prelude::*;
use vstd::string::*;

verus! {

/// Where media access units are sent to.
pub const MEDIA_ACCESS_UNIT_PATH: &'static str = "/media/access-unit";

/// Where the status is asked for.
pub const CONTRIB_STATUS_PATH: &'static str = "/api/status";

/// Where the status is followed.
pub const CONTRIB_STATUS_EVENTS_PATH: &'static str = "/api/status/events";

/// Where the metrics are asked for.
pub const CONTRIB_METRICS_PATH: &'static str = "/metrics";

/// What the metrics are written in.
pub const PROMETHEUS_CONTENT_TYPE: &'static str = "text/plain; version=0.0.4; charset=utf-8";

/// The most bytes that a media access unit may hold.
pub const MAX_MEDIA_ACCESS_UNIT_BYTES: usize = 8_388_608;

/// What the service says of itself.
pub const FRONT_PAGE: &'static str =
    "av-contrib\n\nPOST /ingest?stream_id=... publishes arbitrary stream bytes\nPOST /media/access-unit forwards detected media access units\nGET /<stream_id>/stream.m3u8 serves local LL-HLS\nGET /api/status returns service status for Needletail Mission Control\nGET /api/status/events streams service status as SSE\nGET /metrics returns Prometheus metrics\nGET /up checks health\n";

/// How something is asked for.
#[derive(Debug, Clone, Copy, PartialEq, Eq, Structural)]
pub enum HttpMethod {
    Options,
    Get,
    Head,
    Post,
    Put,
    Other,
}

/// An answer that is the same every time.
#[derive(Debug, Clone, Copy)]
pub struct RouteReply {
    pub status: u16,
    pub body: Option<&'static str>,
    pub content_type: Option<&'static str>,
}

/// What a [`RouteReply`] says.
pub struct ReplyView {
    pub status: u16,
    pub body: Option<Seq<char>>,
    pub content_type: Option<Seq<char>>,
}

impl View for RouteReply {
    type V = ReplyView;

    open spec fn view(&self) -> ReplyView {
        ReplyView {
            status: self.status,
            body: crate::service::events::name_view(self.body),
            content_type: crate::service::events::name_view(self.content_type),
        }
    }
}

/// What becomes of a request without a body.
#[derive(Debug, Clone, Copy)]
pub enum Route {
    /// It is answered at once.
    Reply(RouteReply),
    /// It is answered with the status.
    Status,
    /// It is answered with the metrics.
    Metrics,
    /// It is left to the playlists.
    Hls,
}

/// What a [`Route`] says.
pub enum RouteView {
    Reply(ReplyView),
    Status,
    Metrics,
    Hls,
}

impl View for Route {
    type V = RouteView;

    open spec fn view(&self) -> RouteView {
        match *self {
            Route::Reply(reply) => RouteView::Reply(reply@),
            Route::Status => RouteView::Status,
            Route::Metrics => RouteView::Metrics,
            Route::Hls => RouteView::Hls,
        }
    }
}

/// An answer without a body.
pub open spec fn bare(status: u16) -> ReplyView {
    ReplyView { status, body: None, content_type: None }
}

/// An answer in words.
pub open spec fn said(status: u16, body: Seq<char>, content_type: Seq<char>) -> ReplyView {
    ReplyView { status, body: Some(body), content_type: Some(content_type) }
}

/// What becomes of a request without a body.
pub open spec fn routed(method: HttpMethod, path: Seq<char>) -> RouteView {
    if method == HttpMethod::Options {
        RouteView::Reply(bare(204))
    } else if method != HttpMethod::Get && method != HttpMethod::Head {
        RouteView::Reply(bare(405))
    } else if path == "/"@ {
        RouteView::Reply(said(200, FRONT_PAGE@, "text/plain; charset=utf-8"@))
    } else if path == CONTRIB_STATUS_PATH@ {
        RouteView::Status
    } else if path == CONTRIB_METRICS_PATH@ {
        RouteView::Metrics
    } else if path == "/up"@ {
        RouteView::Reply(said(200, "OK"@, "text/plain"@))
    } else if path == "/ingest"@ {
        RouteView::Reply(said(405, "use POST or PUT /ingest?stream_id=...\n"@, "text/plain"@))
    } else if path == MEDIA_ACCESS_UNIT_PATH@ {
        RouteView::Reply(
            said(
                405,
                "use POST or PUT /media/access-unit?stream_id=...&codec=auto\n"@,
                "text/plain"@,
            ),
        )
    } else {
        RouteView::Hls
    }
}

/// An answer in words.
fn say(status: u16, body: &'static str, content_type: &'static str) -> (r: Route)
    ensures
        r@ == RouteView::Reply(said(status, body@, content_type@)),
{
    Route::Reply(RouteReply { status, body: Some(body), content_type: Some(content_type) })
}

/// Decides what becomes of a request without a body.
pub fn route(method: HttpMethod, path: &str) -> (r: Route)
    ensures
        r@ == routed(method, path@),
{
    if method == HttpMethod::Options {
        return Route::Reply(RouteReply { status: 204, body: None, content_type: None });
    }
    if method != HttpMethod::Get && method != HttpMethod::Head {
        return Route::Reply(RouteReply { status: 405, body: None, content_type: None });
    }
    if text_equal(path, "/") {
        say(200, FRONT_PAGE, "text/plain; charset=utf-8")
    } else if text_equal(path, CONTRIB_STATUS_PATH) {
        Route::Status
    } else if text_equal(path, CONTRIB_METRICS_PATH) {
        Route::Metrics
    } else if text_equal(path, "/up") {
        say(200, "OK", "text/plain")
    } else if text_equal(path, "/ingest") {
        say(405, "use POST or PUT /ingest?stream_id=...\n", "text/plain")
    } else if text_equal(path, MEDIA_ACCESS_UNIT_PATH) {
        say(
            405,
            "use POST or PUT /media/access-unit?stream_id=...&codec=auto\n",
            "text/plain",
        )
    } else {
        Route::Hls
    }
}

/// What becomes of a request with a body.
#[derive(Debug, Clone, Copy)]
pub enum BodyRoute {
    /// It is answered at once.
    Reply(RouteReply),
    /// It is asked whether a stream of bytes may be sent without a lease, before any is read.
    AuthorizeIngest,
    /// It is refused.
    Reject(PublishRejection),
    /// Its bytes are taken in as a stream.
    Ingest,
    /// It is taken in as a media access unit.
    AccessUnit,
    /// It is left to the playlists.
    Hls,
}

/// What a [`BodyRoute`] says.
pub enum BodyRouteView {
    Reply(ReplyView),
    AuthorizeIngest,
    Reject(PublishRejectionCode, Seq<char>),
    Ingest,
    AccessUnit,
    Hls,
}

impl View for BodyRoute {
    type V = BodyRouteView;

    open spec fn view(&self) -> BodyRouteView {
        match *self {
            BodyRoute::Reply(reply) => BodyRouteView::Reply(reply@),
            BodyRoute::AuthorizeIngest => BodyRouteView::AuthorizeIngest,
            BodyRoute::Reject(rejection) => BodyRouteView::Reject(rejection.code, rejection.field@),
            BodyRoute::Ingest => BodyRouteView::Ingest,
            BodyRoute::AccessUnit => BodyRouteView::AccessUnit,
            BodyRoute::Hls => BodyRouteView::Hls,
        }
    }
}

/// What becomes of a request with a body, under a mode of authorization.
pub open spec fn body_routed(
    mode: PublishAuthorizationMode,
    method: HttpMethod,
    path: Seq<char>,
) -> BodyRouteView {
    let publishes = method == HttpMethod::Post || method == HttpMethod::Put;
    if path == "/ingest"@ {
        if publishes && mode != PublishAuthorizationMode::Off {
            BodyRouteView::AuthorizeIngest
        } else if publishes {
            BodyRouteView::Ingest
        } else {
            BodyRouteView::Reply(said(405, "use POST or PUT /ingest\n"@, "text/plain"@))
        }
    } else if path == MEDIA_ACCESS_UNIT_PATH@ {
        if publishes {
            BodyRouteView::AccessUnit
        } else {
            BodyRouteView::Reply(
                said(
                    405,
                    "use POST or PUT /media/access-unit?stream_id=...&codec=auto\n"@,
                    "text/plain"@,
                ),
            )
        }
    } else {
        BodyRouteView::Hls
    }
}

/// What becomes of a stream of bytes, given why it may not be sent without a lease, if it may not.
pub open spec fn ingest_answered(refusal: Option<PublishRejection>) -> BodyRouteView {
    match refusal {
        Some(rejection) => BodyRouteView::Reject(rejection.code, rejection.field@),
        None => BodyRouteView::Ingest,
    }
}

/// Decides what becomes of a stream of bytes once it was asked whether it may be sent.
pub fn answer_ingest(refusal: Option<PublishRejection>) -> (r: BodyRoute)
    ensures
        r@ == ingest_answered(refusal),
{
    match refusal {
        Some(rejection) => BodyRoute::Reject(rejection),
        None => BodyRoute::Ingest,
    }
}

/// Decides what becomes of a request with a body, under a mode of authorization.
pub fn route_body(mode: PublishAuthorizationMode, method: HttpMethod, path: &str) -> (r: BodyRoute)
    ensures
        r@ == body_routed(mode, method, path@),
{
    let publishes = method == HttpMethod::Post || method == HttpMethod::Put;
    if text_equal(path, "/ingest") {
        if publishes && mode != PublishAuthorizationMode::Off {
            BodyRoute::AuthorizeIngest
        } else if publishes {
            BodyRoute::Ingest
        } else {
            BodyRoute::Reply(
                RouteReply {
                    status: 405,
                    body: Some("use POST or PUT /ingest\n"),
                    content_type: Some("text/plain"),
                },
            )
        }
    } else if text_equal(path, MEDIA_ACCESS_UNIT_PATH) {
        if publishes {
            BodyRoute::AccessUnit
        } else {
            BodyRoute::Reply(
                RouteReply {
                    status: 405,
                    body: Some("use POST or PUT /media/access-unit?stream_id=...&codec=auto\n"),
                    content_type: Some("text/plain"),
                },
            )
        }
    } else {
        BodyRoute::Hls
    }
}

/// Decides whether requests to a path may have a body.
pub fn has_body_handler(path: &str) -> (r: bool)
    ensures
        r == (path@ == "/ingest"@ || path@ == MEDIA_ACCESS_UNIT_PATH@),
{
    text_equal(path, "/ingest") || text_equal(path, MEDIA_ACCESS_UNIT_PATH)
}

/// Decides whether what is at a path is followed, given whether the playlists say so.
pub fn is_streaming(path: &str, playlists_stream: bool) -> (r: bool)
    ensures
        r == (path@ == CONTRIB_STATUS_EVENTS_PATH@ || playlists_stream),
{
    text_equal(path, CONTRIB_STATUS_EVENTS_PATH) || playlists_stream
}

/// Where publishing is authorized in any way, no stream of bytes is taken in before it was asked
/// whether it may be, nor after it was refused.
pub proof fn streams_of_bytes_ask_first(
    mode: PublishAuthorizationMode,
    method: HttpMethod,
    path: Seq<char>,
    rejection: PublishRejection,
)
    ensures
        mode != PublishAuthorizationMode::Off ==> !(body_routed(mode, method, path)
            is Ingest),
        !(ingest_answered(Some(rejection)) is Ingest),
{
}

/// A path that takes bodies in answers a request without one with how to send one.
pub proof fn body_paths_say_how(method: HttpMethod, path: Seq<char>)
    requires
        method == HttpMethod::Get || method == HttpMethod::Head,
        path == "/ingest"@ || path == MEDIA_ACCESS_UNIT_PATH@,
    ensures
        routed(method, path) matches RouteView::Reply(reply) && reply.status == 405,
{
    reveal_strlit("/");
    reveal_strlit("/up");
    reveal_strlit("/ingest");
    reveal_strlit("/media/access-unit");
    reveal_strlit("/api/status");
    reveal_strlit("/metrics");
    assert("/ingest"@.len() == 7 && "/media/access-unit"@.len() == 18);
}

/// What was taken in of a stream of bytes.
#[derive(Debug, Clone, Copy, PartialEq, Eq, Structural)]
pub struct IngestTotals {
    pub chunks: u64,
    pub bytes: u64,
    pub datagrams: u64,
}

/// A sum, or the most that a counter holds.
pub open spec fn summed(a: u64, b: int) -> u64 {
    if a + b > u64::MAX {
        u64::MAX
    } else {
        (a + b) as u64
    }
}

impl IngestTotals {
    /// Nothing was taken in.
    pub fn none() -> (r: Self)
        ensures
            r == (IngestTotals { chunks: 0, bytes: 0, datagrams: 0 }),
    {
        IngestTotals { chunks: 0, bytes: 0, datagrams: 0 }
    }

    /// Counts a chunk and decides whether it is forwarded: an empty one is passed over.
    pub fn take_chunk(&mut self, len: usize) -> (r: bool)
        ensures
            r == (len > 0),
            *final(self) == (if len > 0 {
                IngestTotals {
                    chunks: summed(old(self).chunks, 1),
                    bytes: summed(old(self).bytes, len as int),
                    ..*old(self)
                }
            } else {
                *old(self)
            }),
    {
        if len == 0 {
            return false;
        }
        self.bytes = self.bytes.saturating_add(len as u64);
        self.chunks = self.chunks.saturating_add(1);
        true
    }

    /// Counts the datagrams that a chunk was forwarded in.
    pub fn forwarded(&mut self, datagrams: usize)
        ensures
            *final(self) == (IngestTotals {
                datagrams: summed(old(self).datagrams, datagrams as int),
                ..*old(self)
            }),
    {
        self.datagrams = self.datagrams.saturating_add(datagrams as u64);
    }
}

/// What a key and a value that a query holds say.
#[derive(Debug)]
pub struct QueryPair {
    pub key: String,
    pub value: String,
}

/// What a list of keys and values holds.
pub open spec fn pairs_view(pairs: Seq<QueryPair>) -> Seq<(Seq<char>, Seq<char>)> {
    pairs.map_values(|pair: QueryPair| (pair.key@, pair.value@))
}

/// The keys and values that a query holds, in order.
pub uninterp spec fn query_pairs(query: Seq<char>) -> Seq<(Seq<char>, Seq<char>)>;

/// Calls `form_urlencoded::parse`.
///
/// Claimed of it: the keys and values depend on the query alone.
#[verifier::external_body]
pub(crate) fn parse_query(query: &str) -> (r: Vec<QueryPair>)
    ensures
        pairs_view(r@) == query_pairs(query@),
{
    form_urlencoded::parse(query.as_bytes())
        .map(|(key, value)| QueryPair { key: key.into_owned(), value: value.into_owned() })
        .collect()
}

/// Whether a key names the stream.
pub open spec fn names_stream(key: Seq<char>) -> bool {
    key == "stream_id"@ || key == "stream"@
}

/// The complaint about a value that is no stream's number.
pub open spec fn bad_stream_id(value: Seq<char>, error: NumberError) -> Seq<char> {
    "invalid stream_id `"@ + value + "`: "@ + error.words()
}

/// The stream that keys and values name: the last that does, or the default one; or the complaint
/// about the first that names it badly.
pub open spec fn stream_named(pairs: Seq<(Seq<char>, Seq<char>)>, default_stream_id: u64) -> Result<
    u64,
    Seq<char>,
>
    decreases pairs.len(),
{
    if pairs.len() == 0 {
        Ok(default_stream_id)
    } else if names_stream(pairs[0].0) {
        match read_number(pairs[0].1, 10, u64::MAX as nat) {
            Ok(stream_id) => stream_named(pairs.skip(1), stream_id as u64),
            Err(error) => Err(bad_stream_id(pairs[0].1, error)),
        }
    } else {
        stream_named(pairs.skip(1), default_stream_id)
    }
}

/// Whether a result is a stream or a complaint.
pub open spec fn same_stream(r: Result<u64, String>, wanted: Result<u64, Seq<char>>) -> bool {
    match wanted {
        Ok(stream_id) => r matches Ok(id) && id == stream_id,
        Err(message) => r matches Err(text) && text@ == message,
    }
}

/// The stream that keys and values name.
pub fn stream_id_of_pairs(pairs: &Vec<QueryPair>, default_stream_id: u64) -> (r: Result<u64, String>)
    ensures
        same_stream(r, stream_named(pairs_view(pairs@), default_stream_id)),
{
    let ghost all = pairs_view(pairs@);
    let mut stream_id: u64 = default_stream_id;
    let mut i: usize = 0;
    assert(all.skip(0) =~= all);
    while i < pairs.len()
        invariant
            i <= pairs@.len(),
            all == pairs_view(pairs@),
            stream_named(all, default_stream_id) == stream_named(all.skip(i as int), stream_id),
        decreases pairs@.len() - i,
    {
        assert(all.skip(i as int)[0] == (pairs@[i as int].key@, pairs@[i as int].value@));
        assert(all.skip(i as int).skip(1) =~= all.skip(i + 1));
        let key = pairs[i].key.as_str();
        if text_equal(key, "stream_id") || text_equal(key, "stream") {
            let value = pairs[i].value.as_str();
            let digits = characters(value);
            match parse_number(digits.as_slice(), 10, u64::MAX) {
                Ok(number) => {
                    stream_id = number;
                },
                Err(error) => {
                    let mut message = "invalid stream_id `".to_owned();
                    message.append(value);
                    message.append("`: ");
                    message.append(error.message());
                    return Err(message);
                },
            }
        }
        i = i + 1;
    }
    Ok(stream_id)
}

/// The stream that a query names; the default one where there is no query.
pub fn parse_stream_id_query(query: Option<&str>, default_stream_id: u64) -> (r: Result<u64, String>)
    ensures
        same_stream(
            r,
            stream_named(
                query_pairs(
                    match query {
                        Some(query) => query@,
                        None => ""@,
                    },
                ),
                default_stream_id,
            ),
        ),
{
    let pairs = parse_query(
        match query {
            Some(query) => query,
            None => "",
        },
    );
    stream_id_of_pairs(&pairs, default_stream_id)
}

/// Decides whether a body is announced to be longer than is allowed. What is no number announces
/// nothing.
pub fn content_length_exceeds(content_length: Option<&str>, maximum: usize) -> (r: bool)
    ensures
        r == (match content_length {
            Some(text) => read_number(text@, 10, u64::MAX as nat) matches Ok(length) && length
                > maximum,
            None => false,
        }),
{
    match content_length {
        None => false,
        Some(text) => {
            let digits = characters(text);
            match parse_number(digits.as_slice(), 10, u64::MAX) {
                Ok(length) => length > maximum as u64,
                Err(_) => false,
            }
        },
    }
}

/// What is answered to a body that is too long.
pub fn payload_too_large_text(maximum: usize) -> (r: String)
    ensures
        r@ == "media access unit exceeds "@ + decimal(maximum as nat) + " bytes\n"@,
{
    let mut text = "media access unit exceeds ".to_owned();
    append_decimal(&mut text, maximum as u64);
    text.append(" bytes\n");
    text
}

/// A body that is taken in up to a length.
#[derive(Debug)]
pub struct LimitedBody {
    pub bytes: Vec<u8>,
    pub maximum: usize,
}

impl LimitedBody {
    /// Nothing was taken in.
    pub fn new(maximum: usize) -> (r: Self)
        ensures
            r.bytes@.len() == 0,
            r.maximum == maximum,
    {
        LimitedBody { bytes: Vec::new(), maximum }
    }

    /// Takes a chunk in, unless the body would become too long.
    pub fn push(&mut self, chunk: &[u8]) -> (r: bool)
        ensures
            final(self).maximum == old(self).maximum,
            r == (old(self).bytes@.len() + chunk@.len() <= old(self).maximum),
            final(self).bytes@ == (if r {
                old(self).bytes@ + chunk@
            } else {
                old(self).bytes@
            }),
    {
        match self.bytes.len().checked_add(chunk.len()) {
            None => false,
            Some(length) => {
                if length > self.maximum {
                    return false;
                }
                self.bytes.extend_from_slice(chunk);
                assert(self.bytes@ =~= old(self).bytes@ + chunk@);
                true
            },
        }
    }
}

/// How publishing is authorized.
#[derive(Debug, Clone, Copy, PartialEq, Eq, Structural)]
pub enum PublishAuthorizationMode {
    /// It is not.
    Off,
    /// It is looked at and never refused.
    Observe,
    /// What is not authorized is refused.
    Enforce,
}

/// Why publishing cannot be authorized as configured.
#[derive(Debug, Clone, Copy, PartialEq, Eq, Structural)]
pub enum GateConfigError {
    /// The mode is none.
    UnknownMode,
    /// The service was built without enforcement.
    NotBuilt,
    /// Nothing says who may publish.
    NoBundle,
}

impl GateConfigError {
    /// What the error says.
    pub open spec fn words(self) -> Seq<char> {
        match self {
            GateConfigError::UnknownMode =>
                "AV_MEDIA_CAPABILITY_PUBLISH_MODE must be off, observe, or enforce"@,
            GateConfigError::NotBuilt =>
                "publish enforcement requires the media_capability_enforce_publish_v1 Cargo feature"@,
            GateConfigError::NoBundle =>
                "AV_MEDIA_CAPABILITY_PUBLISH_BUNDLE is required when publish authorization is enabled"@,
        }
    }

    /// What the error says.
    pub fn message(self) -> (r: &'static str)
        ensures
            r@ == self.words(),
    {
        match self {
            GateConfigError::UnknownMode =>
                "AV_MEDIA_CAPABILITY_PUBLISH_MODE must be off, observe, or enforce",
            GateConfigError::NotBuilt =>
                "publish enforcement requires the media_capability_enforce_publish_v1 Cargo feature",
            GateConfigError::NoBundle =>
                "AV_MEDIA_CAPABILITY_PUBLISH_BUNDLE is required when publish authorization is enabled",
        }
    }
}

/// The mode that a text names, in any case.
pub open spec fn mode_named(text: Seq<char>) -> Option<PublishAuthorizationMode> {
    let name = lowered(text);
    if name == lowered("off"@) {
        Some(PublishAuthorizationMode::Off)
    } else if name == lowered("observe"@) || name == lowered("dark"@) {
        Some(PublishAuthorizationMode::Observe)
    } else if name == lowered("enforce"@) {
        Some(PublishAuthorizationMode::Enforce)
    } else {
        None
    }
}

/// How publishing is authorized: off where nothing is configured.
pub open spec fn gate_of(mode: Option<Seq<char>>, enforcement_built: bool, has_bundle: bool) -> Result<
    PublishAuthorizationMode,
    GateConfigError,
> {
    match mode_named(
        match mode {
            Some(text) => text,
            None => "off"@,
        },
    ) {
        None => Err(GateConfigError::UnknownMode),
        Some(PublishAuthorizationMode::Off) => Ok(PublishAuthorizationMode::Off),
        Some(mode) => if mode == PublishAuthorizationMode::Enforce && !enforcement_built {
            Err(GateConfigError::NotBuilt)
        } else if !has_bundle {
            Err(GateConfigError::NoBundle)
        } else {
            Ok(mode)
        },
    }
}

/// Decides how publishing is authorized.
pub fn load_publish_ingress_gate(mode: Option<&str>, enforcement_built: bool, has_bundle: bool) -> (r:
    Result<PublishAuthorizationMode, GateConfigError>)
    ensures
        r == gate_of(
            match mode {
                Some(text) => Some(text@),
                None => None,
            },
            enforcement_built,
            has_bundle,
        ),
{
    let text = match mode {
        Some(text) => text,
        None => "off",
    };
    let mode = if equal_ignoring_case(text, "off") {
        return Ok(PublishAuthorizationMode::Off);
    } else if equal_ignoring_case(text, "observe") || equal_ignoring_case(text, "dark") {
        PublishAuthorizationMode::Observe
    } else if equal_ignoring_case(text, "enforce") {
        PublishAuthorizationMode::Enforce
    } else {
        return Err(GateConfigError::UnknownMode);
    };
    if mode == PublishAuthorizationMode::Enforce && !enforcement_built {
        return Err(GateConfigError::NotBuilt);
    }
    if !has_bundle {
        return Err(GateConfigError::NoBundle);
    }
    Ok(mode)
}

/// The listeners that take anyone's media in.
#[derive(Debug, Clone, Copy, PartialEq, Eq, Structural)]
pub struct LegacyAdapters {
    pub daw: bool,
    pub rist: bool,
    pub srt: bool,
    pub rtmp: bool,
}

/// Text with another behind it, and a comma between the two.
pub open spec fn listed(list: Seq<char>, present: bool, name: Seq<char>) -> Seq<char> {
    if !present {
        list
    } else if list.len() == 0 {
        name
    } else {
        list + ", "@ + name
    }
}

impl LegacyAdapters {
    /// The names of those that are there.
    pub open spec fn names(self) -> Seq<char> {
        listed(
            listed(
                listed(listed(Seq::empty(), self.daw, "DAW UDP"@), self.rist, "RIST"@),
                self.srt,
                "SRT"@,
            ),
            self.rtmp,
            "RTMP"@,
        )
    }
}

/// Puts a name behind others.
fn list_name(list: &mut String, empty: bool, present: bool, name: &str) -> (r: bool)
    requires
        empty == (old(list)@.len() == 0),
        name@.len() > 0,
    ensures
        final(list)@ == listed(old(list)@, present, name@),
        r == (final(list)@.len() == 0),
{
    if !present {
        return empty;
    }
    if !empty {
        list.append(", ");
    }
    list.append(name);
    assert(list@ =~= listed(old(list)@, present, name@));
    false
}

/// Refuses to take anyone's media in where publishing is authorized.
pub fn validate_enforced_ingress_adapters(
    mode: PublishAuthorizationMode,
    adapters: LegacyAdapters,
) -> (r: Result<(), String>)
    ensures
        r is Ok <==> mode != PublishAuthorizationMode::Enforce || adapters == (LegacyAdapters {
            daw: false,
            rist: false,
            srt: false,
            rtmp: false,
        }),
        r matches Err(message) ==> message@
            == "publish enforcement cannot start unauthenticated legacy adapters: "@
            + adapters.names(),
{
    if mode != PublishAuthorizationMode::Enforce {
        return Ok(());
    }
    if !adapters.daw && !adapters.rist && !adapters.srt && !adapters.rtmp {
        return Ok(());
    }
    proof {
        reveal_strlit("DAW UDP");
        reveal_strlit("RIST");
        reveal_strlit("SRT");
        reveal_strlit("RTMP");
    }
    let mut names = String::new();
    assert(names@ =~= Seq::<char>::empty());
    let mut empty = true;
    empty = list_name(&mut names, empty, adapters.daw, "DAW UDP");
    empty = list_name(&mut names, empty, adapters.rist, "RIST");
    empty = list_name(&mut names, empty, adapters.srt, "SRT");
    let _ = list_name(&mut names, empty, adapters.rtmp, "RTMP");
    let mut message =
        "publish enforcement cannot start unauthenticated legacy adapters: ".to_owned();
    message.append(names.as_str());
    Err(message)
}

/// Why publishing was refused.
#[derive(Debug, Clone, Copy, PartialEq, Eq, Structural)]
pub enum PublishRejectionCode {
    MissingCapability,
    MalformedAuthorization,
    InvalidSignature,
    CapabilityRejected,
    CapabilityExpired,
    RevokedBinding,
    CapabilityReplay,
    FrameReplay,
    WrongScope,
    StreamMismatch,
    LegacyPath,
    TalkbackIsolation,
    EnvelopeTooLarge,
    CapabilityTooLarge,
    DatagramLimit,
    MalformedEnvelope,
    InvalidContentLength,
    ConfigurationMismatch,
}

/// The status that a refusal is answered with.
pub open spec fn rejection_status(code: PublishRejectionCode) -> u16 {
    match code {
        PublishRejectionCode::MissingCapability
        | PublishRejectionCode::MalformedAuthorization
        | PublishRejectionCode::InvalidSignature
        | PublishRejectionCode::CapabilityRejected => 401,
        PublishRejectionCode::CapabilityExpired | PublishRejectionCode::RevokedBinding => 410,
        PublishRejectionCode::CapabilityReplay | PublishRejectionCode::FrameReplay => 409,
        PublishRejectionCode::WrongScope
        | PublishRejectionCode::StreamMismatch
        | PublishRejectionCode::LegacyPath
        | PublishRejectionCode::TalkbackIsolation => 403,
        PublishRejectionCode::EnvelopeTooLarge
        | PublishRejectionCode::CapabilityTooLarge
        | PublishRejectionCode::DatagramLimit => 413,
        _ => 400,
    }
}

/// The status that a refusal is answered with.
pub fn publish_authorization_status(code: PublishRejectionCode) -> (r: u16)
    ensures
        r == rejection_status(code),
{
    match code {
        PublishRejectionCode::MissingCapability
        | PublishRejectionCode::MalformedAuthorization
        | PublishRejectionCode::InvalidSignature
        | PublishRejectionCode::CapabilityRejected => 401,
        PublishRejectionCode::CapabilityExpired | PublishRejectionCode::RevokedBinding => 410,
        PublishRejectionCode::CapabilityReplay | PublishRejectionCode::FrameReplay => 409,
        PublishRejectionCode::WrongScope
        | PublishRejectionCode::StreamMismatch
        | PublishRejectionCode::LegacyPath
        | PublishRejectionCode::TalkbackIsolation => 403,
        PublishRejectionCode::EnvelopeTooLarge
        | PublishRejectionCode::CapabilityTooLarge
        | PublishRejectionCode::DatagramLimit => 413,
        PublishRejectionCode::MalformedEnvelope
        | PublishRejectionCode::InvalidContentLength
        | PublishRejectionCode::ConfigurationMismatch => 400,
    }
}

/// A refusal, and what it is about.
#[derive(Debug, Clone, Copy)]
pub struct PublishRejection {
    pub code: PublishRejectionCode,
    pub field: &'static str,
}

impl PublishRejection {
    /// Whether the refusal is this one.
    pub open spec fn is(self, code: PublishRejectionCode, field: Seq<char>) -> bool {
        self.code == code && self.field@ == field
    }
}

/// Refuses a request that bears a header twice which decides on it.
pub fn refuse_repeated_headers(
    authorizations: usize,
    envelopes: usize,
    content_lengths: usize,
) -> (r: Option<PublishRejection>)
    ensures
        if authorizations > 1 {
            r matches Some(rejection) && rejection.is(
                PublishRejectionCode::MalformedAuthorization,
                "authorization"@,
            )
        } else if envelopes > 1 {
            r matches Some(rejection) && rejection.is(
                PublishRejectionCode::MalformedEnvelope,
                "frame_envelope"@,
            )
        } else if content_lengths > 1 {
            r matches Some(rejection) && rejection.is(
                PublishRejectionCode::InvalidContentLength,
                "content_length"@,
            )
        } else {
            r is None
        },
{
    if authorizations > 1 {
        return Some(
            PublishRejection {
                code: PublishRejectionCode::MalformedAuthorization,
                field: "authorization",
            },
        );
    }
    if envelopes > 1 {
        return Some(
            PublishRejection {
                code: PublishRejectionCode::MalformedEnvelope,
                field: "frame_envelope",
            },
        );
    }
    if content_lengths > 1 {
        return Some(
            PublishRejection {
                code: PublishRejectionCode::InvalidContentLength,
                field: "content_length",
            },
        );
    }
    None
}

/// What a payload is coded in, as a lease says it.
#[derive(Debug, Clone, Copy, PartialEq, Eq, Structural)]
pub enum PayloadFormat {
    Opus,
    PcmS24le,
    Flac,
    Json,
    Opaque,
}

/// What a lease to publish says of a frame.
#[derive(Debug, Clone, Copy, PartialEq, Eq, Structural)]
pub struct LeaseFacts {
    pub sequence: u64,
    pub payload_format: PayloadFormat,
    pub capture_pts: i64,
    pub capture_timebase_hz: u32,
    pub duration_ticks: u32,
    pub payload_bytes: u32,
    pub max_datagram_bytes: u32,
}

/// What a request says of a media access unit.
#[derive(Debug, Clone, Copy, PartialEq, Eq, Structural)]
pub struct MediaAccessUnitParams {
    pub stream_id: u64,
    pub sequence: Option<u64>,
    pub pts_ms: u64,
    pub dts_ms: Option<u64>,
    pub duration_ms: u32,
    pub codec: MediaCodec,
    /// Whether the request names the codec.
    pub codec_explicit: bool,
    pub flags: u16,
}

/// The codec of a lease's payload.
pub open spec fn leased_codec(format: PayloadFormat) -> MediaCodec {
    match format {
        PayloadFormat::Opus => MediaCodec::Opus,
        _ => MediaCodec::Data,
    }
}

/// The milliseconds of a number of ticks, rounded down.
pub open spec fn ticks_down(ticks: int, timebase: int) -> int {
    ticks * 1_000 / timebase
}

/// The milliseconds of a number of ticks, rounded up, and at least one.
pub open spec fn ticks_up(ticks: int, timebase: int) -> int {
    max_int(ceil_div(ticks * 1_000, timebase), 1)
}

/// What is acknowledged of a leased frame, or the field in which request and lease disagree.
pub open spec fn leased_params(params: MediaAccessUnitParams, lease: LeaseFacts) -> Result<
    MediaAccessUnitParams,
    Seq<char>,
> {
    let codec = leased_codec(lease.payload_format);
    let timebase = lease.capture_timebase_hz as int;
    let pts_ms = ticks_down(lease.capture_pts as int, timebase);
    let duration_ms = ticks_up(lease.duration_ticks as int, timebase);
    if params.sequence is Some && params.sequence != Some(lease.sequence) {
        Err("sequence"@)
    } else if params.codec_explicit && params.codec != codec {
        Err("payload_format"@)
    } else if lease.capture_pts < 0 || pts_ms > u64::MAX {
        Err("capture_pts"@)
    } else if duration_ms > u16::MAX {
        Err("duration_ticks"@)
    } else {
        Ok(
            MediaAccessUnitParams {
                sequence: Some(lease.sequence),
                pts_ms: pts_ms as u64,
                dts_ms: None,
                duration_ms: duration_ms as u32,
                codec,
                codec_explicit: true,
                ..params
            },
        )
    }
}

/// A refusal because request and lease disagree.
fn mismatch(field: &'static str) -> (r: PublishRejection)
    ensures
        r.is(PublishRejectionCode::ConfigurationMismatch, field@),
{
    PublishRejection { code: PublishRejectionCode::ConfigurationMismatch, field }
}

/// What is acknowledged of a leased frame, or why it is refused.
pub fn legacy_ack_metadata_for_publish_lease(params: MediaAccessUnitParams, lease: LeaseFacts) -> (r:
    Result<MediaAccessUnitParams, PublishRejection>)
    requires
        lease.capture_timebase_hz > 0,
    ensures
        match leased_params(params, lease) {
            Ok(secure) => r matches Ok(given) && given == secure,
            Err(field) => r matches Err(rejection) && rejection.is(
                PublishRejectionCode::ConfigurationMismatch,
                field,
            ),
        },
{
    if let Some(sequence) = params.sequence {
        if sequence != lease.sequence {
            return Err(mismatch("sequence"));
        }
    }
    let codec = match lease.payload_format {
        PayloadFormat::Opus => MediaCodec::Opus,
        PayloadFormat::PcmS24le
        | PayloadFormat::Flac
        | PayloadFormat::Json
        | PayloadFormat::Opaque => MediaCodec::Data,
    };
    if params.codec_explicit && params.codec != codec {
        return Err(mismatch("payload_format"));
    }
    if lease.capture_pts < 0 {
        return Err(mismatch("capture_pts"));
    }
    let timebase: u128 = lease.capture_timebase_hz as u128;
    let pts: u128 = (lease.capture_pts as u128) * 1_000 / timebase;
    if pts > 0xffff_ffff_ffff_ffff {
        return Err(mismatch("capture_pts"));
    }
    let ticks: u128 = (lease.duration_ticks as u128) * 1_000;
    let whole: u128 = ticks / timebase;
    let rounded: u128 = if ticks % timebase == 0 {
        whole
    } else {
        proof {
            assert(whole <= ticks) by (nonlinear_arith)
                requires
                    whole == ticks / timebase,
                    timebase >= 1,
            ;
        }
        whole + 1
    };
    assert(rounded == ceil_div(ticks as int, timebase as int));
    let duration: u128 = if rounded == 0 {
        1
    } else {
        rounded
    };
    if duration > 0xffff {
        return Err(mismatch("duration_ticks"));
    }
    Ok(
        MediaAccessUnitParams {
            stream_id: params.stream_id,
            sequence: Some(lease.sequence),
            pts_ms: pts as u64,
            dts_ms: None,
            duration_ms: duration as u32,
            codec,
            codec_explicit: true,
            flags: params.flags,
        },
    )
}

/// How a media access unit is taken in.
#[derive(Debug, Clone, Copy, PartialEq, Eq, Structural)]
pub struct AccessUnitPlan {
    /// The most bytes that are read of it.
    pub body_limit: usize,
    /// Whether the lease is looked at again before the frame goes on.
    pub revalidates: bool,
    /// Whether it goes on as the object that the lease describes.
    pub as_leased_object: bool,
    /// The most bytes of a datagram that carries it.
    pub max_datagram_bytes: Option<u32>,
}

/// How a media access unit is taken in under a mode, with the lease that it was given, if any.
pub fn plan_access_unit(mode: PublishAuthorizationMode, lease: Option<LeaseFacts>) -> (r:
    AccessUnitPlan)
    ensures
        match lease {
            Some(lease) => if mode == PublishAuthorizationMode::Enforce {
                &&& r.body_limit == (if lease.payload_bytes <= MAX_MEDIA_ACCESS_UNIT_BYTES {
                    lease.payload_bytes as usize
                } else {
                    MAX_MEDIA_ACCESS_UNIT_BYTES
                })
                &&& r.as_leased_object
                &&& r.max_datagram_bytes == Some(lease.max_datagram_bytes)
                &&& r.revalidates
            } else {
                &&& r.body_limit == MAX_MEDIA_ACCESS_UNIT_BYTES
                &&& !r.as_leased_object
                &&& r.max_datagram_bytes is None
                &&& r.revalidates
            },
            None => r == (AccessUnitPlan {
                body_limit: MAX_MEDIA_ACCESS_UNIT_BYTES,
                revalidates: false,
                as_leased_object: false,
                max_datagram_bytes: None,
            }),
        },
{
    let enforced = match lease {
        Some(lease) => if mode == PublishAuthorizationMode::Enforce {
            Some(lease)
        } else {
            None
        },
        None => None,
    };
    let body_limit: usize = match enforced {
        Some(lease) => if lease.payload_bytes as usize <= MAX_MEDIA_ACCESS_UNIT_BYTES {
            lease.payload_bytes as usize
        } else {
            MAX_MEDIA_ACCESS_UNIT_BYTES
        },
        None => MAX_MEDIA_ACCESS_UNIT_BYTES,
    };
    AccessUnitPlan {
        body_limit,
        revalidates: lease.is_some(),
        as_leased_object: enforced.is_some(),
        max_datagram_bytes: match enforced {
            Some(lease) => Some(lease.max_datagram_bytes),
            None => None,
        },
    }
}

/// Refuses the object of a lease where it is too long for a slot.
pub fn refuse_long_object(encoded_len: usize) -> (r: Option<PublishRejection>)
    ensures
        if encoded_len > MAX_STREAM_FEC_OBJECT_BYTES {
            r matches Some(rejection) && rejection.is(
                PublishRejectionCode::EnvelopeTooLarge,
                "canonical_media_object"@,
            )
        } else {
            r is None
        },
{
    if encoded_len as u64 > MAX_STREAM_FEC_OBJECT_BYTES {
        Some(
            PublishRejection {
                code: PublishRejectionCode::EnvelopeTooLarge,
                field: "canonical_media_object",
            },
        )
    } else {
        None
    }
}

/// What a request is answered whose media access unit was not forwarded: a refusal, or what went
/// wrong.
pub fn forward_failure(error: ForwardError) -> (r: Result<PublishRejection, String>)
    ensures
        if error == ForwardError::LimitExceeded {
            r matches Ok(rejection) && rejection.is(
                PublishRejectionCode::DatagramLimit,
                "max_datagram_bytes"@,
            )
        } else {
            r matches Err(message) && message@ == error.words()
        },
{
    match error {
        ForwardError::LimitExceeded => Ok(
            PublishRejection {
                code: PublishRejectionCode::DatagramLimit,
                field: "max_datagram_bytes",
            },
        ),
        _ => Err(error.message()),
    }
}

/// Where the service's certificate comes from.
#[derive(Debug, Clone, Copy, PartialEq, Eq, Structural)]
pub enum TlsSource {
    /// From the files that are named.
    Files,
    /// From where it is by default.
    Default,
}

/// Decides where the service's certificate comes from: its two files are named together or not at
/// all.
pub fn tls_source(has_cert: bool, has_key: bool) -> (r: Result<TlsSource, &'static str>)
    ensures
        match (has_cert, has_key) {
            (true, true) => r == Ok::<TlsSource, &'static str>(TlsSource::Files),
            (false, false) => r == Ok::<TlsSource, &'static str>(TlsSource::Default),
            _ => r matches Err(message) && message@ == "--cert and --key must be provided together"@,
        },
{
    match (has_cert, has_key) {
        (true, true) => Ok(TlsSource::Files),
        (false, false) => Ok(TlsSource::Default),
        _ => Err("--cert and --key must be provided together"),
    }
}

/// A request without a body is answered at once where its method is none that reads, and alike for those
/// that read; what is at no path of the service is left to the playlists.
pub proof fn reading_methods_are_routed_alike(method: HttpMethod, path: Seq<char>)
    ensures
        method == HttpMethod::Options ==> (routed(method, path) matches RouteView::Reply(reply)
            && reply.status == 204 && reply.body is None),
        method != HttpMethod::Options && method != HttpMethod::Get && method != HttpMethod::Head ==> (
        routed(method, path) matches RouteView::Reply(reply) && reply.status == 405 && reply.body
            is None),
        routed(HttpMethod::Get, path) == routed(HttpMethod::Head, path),
        (method == HttpMethod::Get || method == HttpMethod::Head) ==> {
            let own = path == "/"@ || path == "/up"@ || path == "/ingest"@ || path
                == CONTRIB_STATUS_PATH@ || path == CONTRIB_METRICS_PATH@ || path
                == MEDIA_ACCESS_UNIT_PATH@;
            &&& routed(method, path) is Hls <==> !own
            &&& routed(method, path) is Status ==> path == CONTRIB_STATUS_PATH@
            &&& routed(method, path) is Metrics ==> path == CONTRIB_METRICS_PATH@
            &&& routed(method, path) is Reply ==> {
                let reply = routed(method, path)->Reply_0;
                &&& reply.body is Some && reply.content_type is Some
                &&& reply.status == 405 <==> path == "/ingest"@ || path == MEDIA_ACCESS_UNIT_PATH@
                &&& reply.status == 200 <==> path == "/"@ || path == "/up"@
            }
        },
{
    paths_differ();
}

proof fn paths_differ()
    ensures
        "/"@ != "/up"@,
        "/"@ != "/ingest"@,
        "/"@ != MEDIA_ACCESS_UNIT_PATH@,
        "/up"@ != "/ingest"@,
        "/up"@ != MEDIA_ACCESS_UNIT_PATH@,
        "/ingest"@ != MEDIA_ACCESS_UNIT_PATH@,
        "/"@ != CONTRIB_STATUS_PATH@,
        "/"@ != CONTRIB_METRICS_PATH@,
        "/up"@ != CONTRIB_STATUS_PATH@,
        "/up"@ != CONTRIB_METRICS_PATH@,
        "/ingest"@ != CONTRIB_STATUS_PATH@,
        "/ingest"@ != CONTRIB_METRICS_PATH@,
        MEDIA_ACCESS_UNIT_PATH@ != CONTRIB_STATUS_PATH@,
        MEDIA_ACCESS_UNIT_PATH@ != CONTRIB_METRICS_PATH@,
        CONTRIB_STATUS_PATH@ != CONTRIB_METRICS_PATH@,
{
    reveal_strlit("/");
    reveal_strlit("/up");
    reveal_strlit("/ingest");
    reveal_strlit("/media/access-unit");
    reveal_strlit("/api/status");
    reveal_strlit("/metrics");
    assert("/"@.len() == 1 && "/up"@.len() == 3 && "/ingest"@.len() == 7 && "/metrics"@.len() == 8);
    assert("/api/status"@.len() == 11 && "/media/access-unit"@.len() == 18);
}

/// Bodies are taken alike from both methods that publish, and from no other; where publishing is not
/// authorized in any way they are taken at once; what is at no path for bodies is left to the playlists.
pub proof fn publishing_methods_are_routed_alike(
    mode: PublishAuthorizationMode,
    method: HttpMethod,
    path: Seq<char>,
)
    ensures
        body_routed(mode, HttpMethod::Post, path) == body_routed(mode, HttpMethod::Put, path),
        ({
            let r = body_routed(mode, method, path);
            let publishes = method == HttpMethod::Post || method == HttpMethod::Put;
            &&& r is Hls <==> path != "/ingest"@ && path != MEDIA_ACCESS_UNIT_PATH@
            &&& r is AccessUnit <==> publishes && path == MEDIA_ACCESS_UNIT_PATH@
            &&& r is Ingest <==> publishes && path == "/ingest"@ && mode
                == PublishAuthorizationMode::Off
            &&& r is AuthorizeIngest <==> publishes && path == "/ingest"@ && mode
                != PublishAuthorizationMode::Off
            &&& r is Reply ==> !publishes && r->Reply_0.status == 405
            &&& !(r is Reject)
        }),
{
    paths_differ();
}

/// A key that names the stream counts over those in front of it, any other key changes nothing, and a
/// complaint stands whatever comes behind it.
pub proof fn the_last_stream_named_counts(
    pairs: Seq<(Seq<char>, Seq<char>)>,
    key: Seq<char>,
    value: Seq<char>,
    default_stream_id: u64,
)
    ensures
        ({
            let before = stream_named(pairs, default_stream_id);
            let after = stream_named(pairs.push((key, value)), default_stream_id);
            let names = key == "stream_id"@ || key == "stream"@;
            &&& before is Err ==> after == before
            &&& before is Ok && !names ==> after == before
            &&& before is Ok && names && read_number(value, 10, u64::MAX as nat) is Ok ==> after
                is Ok && after->Ok_0 == read_number(value, 10, u64::MAX as nat)->Ok_0 as u64
            &&& before is Ok && names && read_number(value, 10, u64::MAX as nat) is Err ==> after
                is Err
        }),
        stream_named(Seq::empty(), default_stream_id) == Ok::<u64, Seq<char>>(default_stream_id),
    decreases pairs.len(),
{
    reveal_with_fuel(stream_named, 2);
    let more = pairs.push((key, value));
    if pairs.len() == 0 {
        assert(more[0] == (key, value));
        assert(more.skip(1) =~= Seq::empty());
    } else {
        assert(more.skip(1) =~= pairs.skip(1).push((key, value)));
        assert(more[0] == pairs[0]);
        if names_stream(pairs[0].0) {
            match read_number(pairs[0].1, 10, u64::MAX as nat) {
                Ok(stream_id) => {
                    the_last_stream_named_counts(pairs.skip(1), key, value, stream_id as u64);
                },
                Err(_) => {},
            }
        } else {
            the_last_stream_named_counts(pairs.skip(1), key, value, default_stream_id);
        }
    }
}

/// What is acknowledged of a leased frame is what the lease says of it: its number, its codec, when it
/// was captured, cut to whole milliseconds, and how long it lasts, filled up to whole ones; the rest is
/// the request's. It is refused exactly where request and lease disagree or a time cannot be told.
pub proof fn leases_are_acknowledged_as_they_are(params: MediaAccessUnitParams, lease: LeaseFacts)
    requires
        lease.capture_timebase_hz > 0,
    ensures
        ({
            let r = leased_params(params, lease);
            let codec = if lease.payload_format == PayloadFormat::Opus {
                MediaCodec::Opus
            } else {
                MediaCodec::Data
            };
            let hz = lease.capture_timebase_hz;
            &&& r matches Ok(given) ==> {
                &&& given.sequence == Some(lease.sequence)
                &&& given.codec == codec && given.codec_explicit
                &&& given.stream_id == params.stream_id && given.flags == params.flags
                &&& given.dts_ms is None
                &&& given.pts_ms * hz <= lease.capture_pts * 1_000 < (given.pts_ms + 1) * hz
                &&& given.duration_ms >= 1
                &&& given.duration_ms * hz >= lease.duration_ticks * 1_000
                &&& given.duration_ms == 1 || (given.duration_ms - 1) * hz < lease.duration_ticks
                    * 1_000
                &&& params.sequence is None || params.sequence == Some(lease.sequence)
                &&& !params.codec_explicit || params.codec == codec
            }
        }),
        ({
            let r = leased_params(params, lease);
            let codec = if lease.payload_format == PayloadFormat::Opus {
                MediaCodec::Opus
            } else {
                MediaCodec::Data
            };
            let hz = lease.capture_timebase_hz;
            r is Ok <==> (params.sequence is None || params.sequence == Some(lease.sequence)) && (
            !params.codec_explicit || params.codec == codec) && lease.capture_pts >= 0
                && lease.capture_pts * 1_000 < (u64::MAX + 1) * hz && lease.duration_ticks * 1_000
                <= u16::MAX * hz
        }),
{
    let hz = lease.capture_timebase_hz as int;
    let pts = lease.capture_pts * 1_000;
    let ticks = lease.duration_ticks * 1_000;
    vstd::arithmetic::div_mod::lemma_fundamental_div_mod(pts, hz);
    vstd::arithmetic::div_mod::lemma_mod_bound(pts, hz);
    let ms = pts / hz;
    assert((ms + 1) * hz == ms * hz + hz && hz * ms == ms * hz) by (nonlinear_arith);
    crate::arith::ceil_div_is_least_cover(ticks, hz);
    let whole = ceil_div(ticks, hz);
    assert(ms > u64::MAX ==> ms * hz >= (u64::MAX + 1) * hz) by (nonlinear_arith)
        requires
            hz > 0,
    ;
    assert(ms <= u64::MAX ==> (ms + 1) * hz <= (u64::MAX + 1) * hz) by (nonlinear_arith)
        requires
            hz > 0,
    ;
    assert(whole <= u16::MAX ==> whole * hz <= u16::MAX * hz) by (nonlinear_arith)
        requires
            hz > 0,
    ;
    assert(whole > u16::MAX ==> (whole - 1) * hz >= u16::MAX * hz) by (nonlinear_arith)
        requires
            hz > 0,
    ;
    if whole < 1 {
        assert(whole * hz <= 0) by (nonlinear_arith)
            requires
                whole < 1,
                hz > 0,
        ;
    }
    if ticks == 0 {
        assert(whole == 0) by {
            assert(0int / hz == 0 && 0int % hz == 0) by (nonlinear_arith)
                requires
                    hz > 0,
            ;
        }
    }
}

/// Publishing is authorized as it is configured, off where nothing is, and never without what it is
/// authorized by; it is enforced only where that was built in.
pub proof fn gates_are_as_configured(mode: Option<Seq<char>>, built: bool, has_bundle: bool)
    ensures
        gate_of(None, built, has_bundle) == Ok::<PublishAuthorizationMode, GateConfigError>(
            PublishAuthorizationMode::Off,
        ),
        gate_of(mode, built, has_bundle) matches Ok(gate) ==> (gate == PublishAuthorizationMode::Off
            || has_bundle) && (gate == PublishAuthorizationMode::Enforce ==> built),
        mode matches Some(text) ==> {
            let name = lowered(text);
            let off = name == lowered("off"@);
            let observe = !off && (name == lowered("observe"@) || name == lowered("dark"@));
            let enforce = !off && !observe && name == lowered("enforce"@);
            let r = gate_of(mode, built, has_bundle);
            &&& off ==> r == Ok::<PublishAuthorizationMode, GateConfigError>(
                PublishAuthorizationMode::Off,
            )
            &&& observe && has_bundle ==> r == Ok::<PublishAuthorizationMode, GateConfigError>(
                PublishAuthorizationMode::Observe,
            )
            &&& enforce && has_bundle && built ==> r == Ok::<
                PublishAuthorizationMode,
                GateConfigError,
            >(PublishAuthorizationMode::Enforce)
            &&& !off && !observe && !enforce ==> r is Err && r->Err_0 is UnknownMode
            &&& enforce && !built ==> r is Err && r->Err_0 is NotBuilt
            &&& (observe || (enforce && built)) && !has_bundle ==> r is Err && r->Err_0 is NoBundle
        },
{
}

/// A refusal is answered by what it is about: who asks, what may be done, what was done before, what
/// is over, what is too large, and what is not understood.
pub proof fn refusals_are_answered_by_their_reason(code: PublishRejectionCode)
    ensures
        ({
            let status = rejection_status(code);
            &&& status == 401 <==> code is MissingCapability || code is MalformedAuthorization
                || code is InvalidSignature || code is CapabilityRejected
            &&& status == 403 <==> code is WrongScope || code is StreamMismatch || code
                is LegacyPath || code is TalkbackIsolation
            &&& status == 409 <==> code is CapabilityReplay || code is FrameReplay
            &&& status == 410 <==> code is CapabilityExpired || code is RevokedBinding
            &&& status == 413 <==> code is EnvelopeTooLarge || code is CapabilityTooLarge || code
                is DatagramLimit
            &&& status == 400 <==> code is MalformedEnvelope || code is InvalidContentLength || code
                is ConfigurationMismatch
        }),
{
}

} // verus!

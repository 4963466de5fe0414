//! What the tracing middleware records and where traces and metrics are
//! sent. The spans, the exporters and the runtime are the caller's; this
//! module holds the values that they are given.

use crate::decimal::{digits_of, push_digits};
use crate::settings::{Settings, COLON};
use http::HeaderValue;
use tonic::metadata::AsciiMetadataValue;
use url::Url;
use uuid::Uuid;
use vstd::prelude::*;
use vstd::utf8::encode_utf8;

verus! {

/// The name of the span of a request.
pub const SPAN_NAME: &'static str = "http-request";

/// The header that carries the identifier of a request.
pub const REQUEST_ID_HEADER: &'static str = "x-request-id";

/// The unit in which a latency is recorded, after the number.
pub const MICROSECONDS: &'static str = " μs";

/// What is logged when a request fails.
pub const FAILURE_MESSAGE: &'static str = "something went wrong";

/// The metadata entry that carries the API key.
pub const TEAM_HEADER: &'static str = "x-honeycomb-team";

/// The metadata entry that carries the dataset.
pub const DATASET_HEADER: &'static str = "x-honeycomb-dataset";

/// The name under which the service reports.
pub const SERVICE_NAME: &'static str = "proximity-service";

/// How long the trace exporter waits for the collector, in seconds.
pub const TRACER_TIMEOUT_SECS: u64 = 2;

/// What is recorded on the span of a request when its response is ready.
#[derive(Debug, Clone, PartialEq, Eq)]
pub struct ResponseRecord {
    pub status_code: u16,
    pub latency: String,
}

/// Records the outcome of a request on its span.
#[derive(Debug, Clone)]
pub struct OnResponseTrace;

impl OnResponseTrace {
    /// The status code as it is, and the latency as its number of
    /// microseconds followed by the unit.
    pub fn on_response(self, status_code: u16, latency_micros: u128) -> (record: ResponseRecord)
        ensures
            record.status_code == status_code,
            record.latency@ == digits_of(latency_micros as nat) + MICROSECONDS@,
    {
        let mut latency = String::new();
        push_digits(&mut latency, latency_micros);
        latency.append(MICROSECONDS);
        ResponseRecord { status_code, latency }
    }
}

/// Logs the failure of a request.
#[derive(Debug, Clone)]
pub struct OnFailureTrace;

impl OnFailureTrace {
    /// The line to log, whatever the failure was.
    pub fn on_failure(&mut self) -> (message: &'static str)
        ensures
            message@ == FAILURE_MESSAGE@,
            *final(self) == *old(self),
    {
        FAILURE_MESSAGE
    }
}

/// How weighty a span or an event is.
#[derive(Debug, Clone, Copy, PartialEq, Eq, Structural)]
pub enum Level {
    Trace,
    Debug,
    Info,
    Warn,
    Error,
}

/// What the middleware hands in of a request. `method`, `uri`, `version`
/// and `headers` are the request's own values in their debug form, and so
/// is `request_id`, the value of the request-identifier header, where the
/// request has that header.
#[derive(Debug, Clone, PartialEq, Eq)]
pub struct RequestParts {
    pub method: String,
    pub uri: String,
    pub version: String,
    pub headers: String,
    pub request_id: Option<String>,
}

/// What the span of a request starts with. `status_code` is `None` for a
/// field that is declared and left empty until the response is ready.
#[derive(Debug, Clone, PartialEq, Eq)]
pub struct SpanFields {
    pub name: &'static str,
    pub level: Level,
    pub status_code: Option<u16>,
    pub method: String,
    pub uri: String,
    pub version: String,
    pub headers: String,
    pub request_id: String,
}

/// Opens the span of a request.
#[derive(Debug, Clone)]
pub struct InitialSpan {}

impl InitialSpan {
    pub fn new() -> (span: Self)
        ensures
            span == (InitialSpan {  }),
    {
        Self {  }
    }

    /// The span of a request: named [`SPAN_NAME`], at the level of
    /// information, with the request's method, URI, version, headers and
    /// request identifier as they were handed in, and with a status code
    /// that is still empty.
    ///
    /// The request must carry the request-identifier header: a span is only
    /// made once the identifier has been stamped on the request.
    pub fn make_span(&mut self, request: RequestParts) -> (fields: SpanFields)
        requires
            request.request_id is Some,
        ensures
            *final(self) == *old(self),
            fields.name@ == SPAN_NAME@,
            fields.level == Level::Info,
            fields.status_code is None,
            fields.method@ == request.method@,
            fields.uri@ == request.uri@,
            fields.version@ == request.version@,
            fields.headers@ == request.headers@,
            fields.request_id@ == request.request_id->0@,
    {
        let request_id = request.request_id.unwrap();
        SpanFields {
            name: SPAN_NAME,
            level: Level::Info,
            status_code: None,
            method: request.method,
            uri: request.uri,
            version: request.version,
            headers: request.headers,
            request_id,
        }
    }
}

/// `c` is a digit or one of `a` to `f`.
pub open spec fn is_lower_hex(c: char) -> bool {
    ('0' <= c && c <= '9') || ('a' <= c && c <= 'f')
}

/// `s` is a UUID in its hyphenated form: 36 characters, hyphens after the
/// 8th, 12th, 16th and 20th digit, lower-case hexadecimal digits elsewhere.
pub open spec fn is_hyphenated_uuid(s: Seq<char>) -> bool {
    &&& s.len() == 36
    &&& forall|i: int|
        0 <= i < 36 ==> if i == 8 || i == 13 || i == 18 || i == 23 {
            #[trigger] s[i] == '-'
        } else {
            is_lower_hex(s[i])
        }
}

/// `s` is a random UUID, of version 4, in its hyphenated form: the digit that
/// tells the version is `4`, and the digit that tells the variant is one of
/// `8`, `9`, `a` and `b`.
pub open spec fn is_random_uuid(s: Seq<char>) -> bool {
    &&& is_hyphenated_uuid(s)
    &&& s[14] == '4'
    &&& s[19] == '8' || s[19] == '9' || s[19] == 'a' || s[19] == 'b'
}

/// A byte that may stand in the value of a header: a tab, or anything from
/// the space on but the delete character.
pub open spec fn is_header_byte(b: u8) -> bool {
    b >= 32 && b != 127 || b == 9
}

/// Every byte of the UTF-8 encoding of `text` may stand in the value of a
/// header.
pub open spec fn is_header_text(text: Seq<char>) -> bool {
    forall|i: int|
        0 <= i < encode_utf8(text).len() ==> is_header_byte(#[trigger] encode_utf8(text)[i])
}

/// A random UUID as text: `uuid::Uuid::new_v4`, written by its `Display`.
///
/// Claimed of them: whatever the random bits, the text is in the hyphenated
/// lower-case form, with the version digit `4` and a variant digit from `8`
/// to `b`. `new_v4` panics where the operating system hands out no random
/// bytes.
#[verifier::external_body]
fn random_uuid_text() -> (text: String)
    ensures
        is_random_uuid(text@),
{
    Uuid::new_v4().to_string()
}

/// Whether `http::HeaderValue::from_str` accepts `text`.
///
/// Claimed of it: it accepts a text if and only if each byte of its UTF-8
/// encoding is a tab or at least 32 and not 127.
#[verifier::external_body]
fn is_header_value(text: &str) -> (ok: bool)
    ensures
        ok == is_header_text(text@),
{
    HeaderValue::from_str(text).is_ok()
}

/// Whether `text` parses as a `tonic::metadata::AsciiMetadataValue`.
///
/// Claimed of the parse: it accepts what `http::HeaderValue::from_str`
/// accepts, a text each byte of which is a tab or at least 32 and not 127.
#[verifier::external_body]
fn is_metadata_value(text: &str) -> (ok: bool)
    ensures
        ok == is_header_text(text@),
{
    text.parse::<AsciiMetadataValue>().is_ok()
}

/// A hyphenated UUID may stand in the value of a header.
proof fn lemma_uuid_is_header_text(chars: Seq<char>)
    requires
        is_hyphenated_uuid(chars),
    ensures
        is_header_text(chars),
{
    assert forall|i: int| 0 <= i < chars.len() implies '\0' <= #[trigger] chars[i]
        <= '\u{7f}' by {
        if i == 8 || i == 13 || i == 18 || i == 23 {
            assert(chars[i] == '-');
        } else {
            assert(is_lower_hex(chars[i]));
        }
    }
    vstd::utf8::is_ascii_chars_encode_utf8(chars);
    let bytes = encode_utf8(chars);
    assert forall|i: int| 0 <= i < bytes.len() implies is_header_byte(#[trigger] bytes[i]) by {
        assert(chars[i] as u8 == bytes[i]);
        if i == 8 || i == 13 || i == 18 || i == 23 {
            assert(chars[i] == '-');
        } else {
            assert(is_lower_hex(chars[i]));
        }
    }
}

/// Makes the identifier of a request.
#[derive(Debug, Clone)]
pub struct HTTPRequestId {}

impl Default for HTTPRequestId {
    fn default() -> (maker: Self)
        ensures
            maker == (HTTPRequestId {  }),
    {
        HTTPRequestId {  }
    }
}

impl HTTPRequestId {
    /// A fresh identifier: a random UUID of version 4 in hyphenated form.
    /// Such a text is always fit for a header, so there is always an
    /// identifier.
    pub fn make_request_id(&mut self) -> (id: Option<String>)
        ensures
            *final(self) == *old(self),
            id matches Some(text) && is_random_uuid(text@),
    {
        let text = random_uuid_text();
        proof {
            lemma_uuid_is_header_text(text@);
        }
        if is_header_value(text.as_str()) {
            Some(text)
        } else {
            None
        }
    }
}

/// Why a configured exporter cannot be used.
#[derive(Debug, Clone, Copy, PartialEq, Eq, Structural)]
pub enum TelemetryError {
    /// The API key cannot stand in a metadata entry.
    InvalidApiKey,
    /// The dataset cannot stand in a metadata entry.
    InvalidDataset,
    /// The collector's address is no URL.
    InvalidEndpoint,
    /// The collector's address is a URL that names no host.
    MissingHost,
}

/// A URL as its parser left it: its text, and its host where it has one.
#[derive(Debug, Clone, PartialEq, Eq)]
pub struct ParsedUrl {
    pub text: String,
    pub host: Option<String>,
}

impl View for ParsedUrl {
    type V = (Seq<char>, Option<Seq<char>>);

    open spec fn view(&self) -> (Seq<char>, Option<Seq<char>>) {
        (
            self.text@,
            match self.host {
                Some(host) => Some(host@),
                None => None,
            },
        )
    }
}

/// What `url::Url::parse` makes of `input`: nothing where it is no absolute
/// URL, else the text of the URL and, where it has one, its host.
pub uninterp spec fn parsed_url(input: Seq<char>) -> Option<(Seq<char>, Option<Seq<char>>)>;

/// Parses `input` with `url::Url::parse` and takes the URL's text (`as_str`)
/// and host (`host_str`).
///
/// Claimed of them: the outcome is a function of `input` alone.
#[verifier::external_body]
fn parse_url(input: &str) -> (parsed: Option<ParsedUrl>)
    ensures
        match parsed {
            Some(url) => parsed_url(input@) == Some(url@),
            None => parsed_url(input@) is None,
        },
{
    match Url::parse(input) {
        Ok(url) => Some(
            ParsedUrl { text: url.as_str().to_string(), host: url.host_str().map(String::from) },
        ),
        Err(_) => None,
    }
}

/// One entry of the metadata that goes with every export.
#[derive(Debug, Clone, PartialEq, Eq)]
pub struct MetadataEntry {
    pub key: &'static str,
    pub value: String,
}

impl View for MetadataEntry {
    type V = (Seq<char>, Seq<char>);

    open spec fn view(&self) -> (Seq<char>, Seq<char>) {
        (self.key@, self.value@)
    }
}

/// Where traces go and what goes with them.
#[derive(Debug, Clone, PartialEq, Eq)]
pub struct TracerExport {
    pub endpoint: String,
    pub tls_domain: String,
    pub metadata: Vec<MetadataEntry>,
    pub timeout_secs: u64,
    pub service_name: &'static str,
}

/// What [`TracerExport`] is in contracts.
pub struct TracerExportView {
    pub endpoint: Seq<char>,
    pub tls_domain: Seq<char>,
    pub metadata: Seq<(Seq<char>, Seq<char>)>,
    pub timeout_secs: int,
    pub service_name: Seq<char>,
}

impl View for TracerExport {
    type V = TracerExportView;

    open spec fn view(&self) -> TracerExportView {
        TracerExportView {
            endpoint: self.endpoint@,
            tls_domain: self.tls_domain@,
            metadata: self.metadata@.map_values(|e: MetadataEntry| e@),
            timeout_secs: self.timeout_secs as int,
            service_name: self.service_name@,
        }
    }
}

/// Where metrics go.
#[derive(Debug, Clone, PartialEq, Eq)]
pub struct MetricsExport {
    pub endpoint: String,
}

impl View for MetricsExport {
    type V = Seq<char>;

    open spec fn view(&self) -> Seq<char> {
        self.endpoint@
    }
}

/// The view of what an export settles on: an error, no exporter, or the
/// exporter's settings.
pub open spec fn export_view<T: View>(result: Result<Option<T>, TelemetryError>) -> Result<
    Option<T::V>,
    TelemetryError,
> {
    match result {
        Ok(Some(export)) => Ok(Some(export@)),
        Ok(None) => Ok(None),
        Err(error) => Err(error),
    }
}

/// The collector as the configuration names it: nothing where no host is
/// configured, the host alone where no port is, else host, colon, port.
pub open spec fn collector_text(config: Settings) -> Option<Seq<char>> {
    match config.honeycomb_host {
        None => None,
        Some(host) => match config.honeycomb_port {
            Some(port) => Some(host@ + COLON@ + port@),
            None => Some(host@),
        },
    }
}

/// What the URL parser makes of the collector's address, where one is
/// configured.
pub open spec fn parsed_collector(config: Settings) -> Option<(Seq<char>, Option<Seq<char>>)> {
    match collector_text(config) {
        Some(text) => parsed_url(text),
        None => None,
    }
}

/// The metadata that goes with every export: the API key and the dataset,
/// each where it is configured, in that order.
pub open spec fn metadata_of(config: Settings) -> Seq<(Seq<char>, Seq<char>)> {
    let team = match config.honeycomb_api_key {
        Some(key) => seq![(TEAM_HEADER@, key@)],
        None => seq![],
    };
    let dataset = match config.honeycomb_dataset {
        Some(dataset) => seq![(DATASET_HEADER@, dataset@)],
        None => seq![],
    };
    team + dataset
}

/// Where traces go, given what the URL parser made of the collector's
/// address.
///
/// Without a configured host there is no exporter, and that is no error.
/// With one, the API key and the dataset, where configured, must be fit for
/// a metadata entry, the address must be a URL, and the URL must name a
/// host; the first of these that fails is the error. Otherwise traces go to
/// the URL as the parser wrote it, over TLS for its host, with the key and
/// the dataset as metadata.
pub open spec fn tracer_export_of(
    config: Settings,
    parsed: Option<(Seq<char>, Option<Seq<char>>)>,
) -> Result<Option<TracerExportView>, TelemetryError> {
    if config.honeycomb_host is None {
        Ok(None)
    } else if config.honeycomb_api_key matches Some(key) && !is_header_text(key@) {
        Err(TelemetryError::InvalidApiKey)
    } else if config.honeycomb_dataset matches Some(dataset) && !is_header_text(dataset@) {
        Err(TelemetryError::InvalidDataset)
    } else {
        match parsed {
            None => Err(TelemetryError::InvalidEndpoint),
            Some((_, None)) => Err(TelemetryError::MissingHost),
            Some((text, Some(host))) => Ok(
                Some(
                    TracerExportView {
                        endpoint: text,
                        tls_domain: host,
                        metadata: metadata_of(config),
                        timeout_secs: 2,
                        service_name: SERVICE_NAME@,
                    },
                ),
            ),
        }
    }
}

/// Where metrics go, given what the URL parser made of the collector's
/// address: nowhere, and that is no error, without a configured host; else
/// to the URL as the parser wrote it, and the address must be a URL.
pub open spec fn metrics_export_of(
    config: Settings,
    parsed: Option<(Seq<char>, Option<Seq<char>>)>,
) -> Result<Option<Seq<char>>, TelemetryError> {
    if config.honeycomb_host is None {
        Ok(None)
    } else {
        match parsed {
            None => Err(TelemetryError::InvalidEndpoint),
            Some((text, _)) => Ok(Some(text)),
        }
    }
}

/// The address of the collector, where a host is configured.
pub fn collector_address(config: &Settings) -> (address: Option<String>)
    ensures
        match address {
            Some(text) => collector_text(*config) == Some(text@),
            None => collector_text(*config) is None,
        },
{
    match &config.honeycomb_host {
        None => None,
        Some(host) => {
            let mut address = host.clone();
            match &config.honeycomb_port {
                Some(port) => {
                    address.append(COLON);
                    address.append(port.as_str());
                },
                None => {},
            }
            Some(address)
        },
    }
}

/// Where traces go, once the collector's address has been parsed.
pub fn tracer_export_from(config: &Settings, parsed: Option<ParsedUrl>) -> (result: Result<
    Option<TracerExport>,
    TelemetryError,
>)
    ensures
        export_view(result) == tracer_export_of(
            *config,
            match parsed {
                Some(url) => Some(url@),
                None => None,
            },
        ),
{
    if config.honeycomb_host.is_none() {
        return Ok(None);
    }
    let mut metadata: Vec<MetadataEntry> = Vec::new();
    match &config.honeycomb_api_key {
        Some(key) => {
            if !is_metadata_value(key.as_str()) {
                return Err(TelemetryError::InvalidApiKey);
            }
            metadata.push(MetadataEntry { key: TEAM_HEADER, value: key.clone() });
        },
        None => {},
    }
    match &config.honeycomb_dataset {
        Some(dataset) => {
            if !is_metadata_value(dataset.as_str()) {
                return Err(TelemetryError::InvalidDataset);
            }
            metadata.push(MetadataEntry { key: DATASET_HEADER, value: dataset.clone() });
        },
        None => {},
    }
    let url = match parsed {
        Some(url) => url,
        None => {
            return Err(TelemetryError::InvalidEndpoint);
        },
    };
    let tls_domain = match url.host {
        Some(host) => host,
        None => {
            return Err(TelemetryError::MissingHost);
        },
    };
    let export = TracerExport {
        endpoint: url.text,
        tls_domain,
        metadata,
        timeout_secs: TRACER_TIMEOUT_SECS,
        service_name: SERVICE_NAME,
    };
    assert(export@.metadata =~= metadata_of(*config));
    Ok(Some(export))
}

/// Where traces go: the collector's address, where there is one, is parsed
/// as a URL, and [`tracer_export_from`] does the rest.
pub fn tracer_export(config: &Settings) -> (result: Result<Option<TracerExport>, TelemetryError>)
    ensures
        export_view(result) == tracer_export_of(*config, parsed_collector(*config)),
{
    let parsed = match collector_address(config) {
        Some(address) => parse_url(address.as_str()),
        None => None,
    };
    tracer_export_from(config, parsed)
}

/// Where metrics go, once the collector's address has been parsed.
pub fn metrics_export_from(config: &Settings, parsed: Option<ParsedUrl>) -> (result: Result<
    Option<MetricsExport>,
    TelemetryError,
>)
    ensures
        export_view(result) == metrics_export_of(
            *config,
            match parsed {
                Some(url) => Some(url@),
                None => None,
            },
        ),
{
    if config.honeycomb_host.is_none() {
        return Ok(None);
    }
    match parsed {
        Some(url) => Ok(Some(MetricsExport { endpoint: url.text })),
        None => Err(TelemetryError::InvalidEndpoint),
    }
}

/// Where metrics go: the collector's address, where there is one, is parsed
/// as a URL, and [`metrics_export_from`] does the rest.
pub fn metrics_export(config: &Settings) -> (result: Result<
    Option<MetricsExport>,
    TelemetryError,
>)
    ensures
        export_view(result) == metrics_export_of(*config, parsed_collector(*config)),
{
    let parsed = match collector_address(config) {
        Some(address) => parse_url(address.as_str()),
        None => None,
    };
    metrics_export_from(config, parsed)
}

} // verus!

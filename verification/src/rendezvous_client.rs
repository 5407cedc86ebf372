//! Talking to the rendezvous, over HTTP or through an MQTT broker.
//!
//! [`RvClient`] picks the way from the scheme of its base URL and says what to send; whoever holds
//! the network sends it and hands back what was answered. Over HTTP only the ticket and the
//! nameplate ever leave the client. The broker sees a topic that nameplate and words are folded
//! into, and never the words themselves.
use argon2::Argon2;
use url::Url;
use vstd::prelude::*;

use crate::pairing::handshake::{hex_encode, hex_text};
use crate::pairing::wordcode::random_below;
use crate::rendezvous::mailbox::MAX_TICKET_LENGTH;
use crate::rendezvous::ticket_fault;
use crate::text::{
    all_digits, ascii_lowercase, chars_of, decimal, decimal_string, digits_value, find_char,
    lowercase, parse_digits, quote, quoted, same_text, split_first, text_of, trim, trimmed,
    white_space,
};

verus! {

broadcast use vstd::string::group_string_axioms;

/// Upper bound for one exchange with the rendezvous, in seconds.
pub const REQUEST_TIMEOUT: u64 = 15;

/// Upper bound for one exchange with a broker, in seconds.
pub const MQTT_TIMEOUT: u64 = 15;

/// Upper bound for taking leave of a broker, in seconds.
pub const CLOSE_TIMEOUT: u64 = 3;

/// The salt of every mailbox topic (`worddrop-mailbox-v1`).
pub const TOPIC_SALT: [u8; 19] = [
    0x77, 0x6f, 0x72, 0x64, 0x64, 0x72, 0x6f, 0x70, 0x2d, 0x6d, 0x61, 0x69, 0x6c, 0x62, 0x6f, 0x78,
    0x2d, 0x76, 0x31,
];

/// What every mailbox topic starts with.
pub const TOPIC_PREFIX: &'static str = "worddrop/v1/";

/// The lifetime that is shown for a nameplate on a broker, in seconds.
pub const RENDEZVOUS_TTL_SECS: u64 = 600;

/// The allocated nameplate and its expiry.
#[derive(Debug, Clone, Copy, PartialEq, Eq, Structural)]
pub struct Allocation {
    pub nameplate: u32,
    /// Seconds since the epoch.
    pub expires_at: u64,
}

/// Lifecycle of an allocated nameplate.
#[derive(Debug, Clone, Copy, PartialEq, Eq, Structural)]
pub enum PairState {
    /// Not claimed yet.
    Pending,
    /// Claimed: the ticket is gone.
    Claimed,
    /// Not claimed in time.
    Expired,
}

/// The state that a name stands for.
pub open spec fn state_named(name: Seq<char>) -> Option<PairState> {
    if name == "pending"@ {
        Some(PairState::Pending)
    } else if name == "claimed"@ {
        Some(PairState::Claimed)
    } else if name == "expired"@ {
        Some(PairState::Expired)
    } else {
        None
    }
}

impl PairState {
    /// The state that a name stands for.
    pub fn from_str(value: &str) -> (state: Option<PairState>)
        ensures
            state == state_named(value@),
    {
        if same_text(value, "pending") {
            Some(PairState::Pending)
        } else if same_text(value, "claimed") {
            Some(PairState::Claimed)
        } else if same_text(value, "expired") {
            Some(PairState::Expired)
        } else {
            None
        }
    }
}

/// Errors from talking to the rendezvous.
#[derive(Debug, Clone, PartialEq, Eq)]
pub enum RvError {
    /// The server answered with another status than it should.
    Http { status: u16, body: String },
    /// The connection failed.
    Io(String),
    /// The URL cannot be used.
    BadUrl { url: String, reason: String },
    /// The TLS handshake failed.
    Tls { detail: String },
    /// The broker or the connection to it failed.
    Mqtt { detail: String },
    /// The ticket is not worth sending.
    InvalidTicket { detail: String },
    /// No answer in time.
    Timeout,
    /// The answer is not what it should be.
    Parse { kind: &'static str, body: String },
    /// The way of talking is not available.
    Unimplemented { detail: String },
}

/// The sentence that reports an error, in two languages.
pub open spec fn rv_error_text(error: RvError) -> Seq<char> {
    match error {
        RvError::Http { status, body } => "服务器返回 "@ + decimal(status as nat) + ": "@ + body@
            + " / rendezvous HTTP "@ + decimal(status as nat) + ": "@ + body@,
        RvError::Io(reason) => "服务器连接错误 / rendezvous io error: "@ + reason@,
        RvError::BadUrl { url, reason } => "服务器地址无效 "@ + url@ + ": "@ + reason@
            + " / invalid rendezvous URL "@ + url@ + ": "@ + reason@,
        RvError::Tls { detail } => "TLS 握手失败: "@ + detail@
            + " / rendezvous TLS handshake failed: "@ + detail@,
        RvError::Mqtt { detail } => "MQTT 错误: "@ + detail@ + " / MQTT error: "@ + detail@,
        RvError::InvalidTicket { detail } => "配对凭证无效: "@ + detail@ + " / invalid ticket: "@ + detail@,
        RvError::Timeout => "服务器请求超时（15 秒） / rendezvous request timed out after 15s"@,
        RvError::Parse { kind, body } => "解析 "@ + kind@ + " 响应失败 / failed to parse "@ + kind@
            + " response: "@ + body@,
        RvError::Unimplemented { detail } => "该后端暂未实现: "@ + detail@
            + " / this backend is not implemented yet: "@ + detail@,
    }
}

fn said_twice(chinese: &str, english: &str, detail: &str) -> (text: String)
    ensures
        text@ == chinese@ + detail@ + english@ + detail@,
{
    chinese.to_owned().concat(detail).concat(english).concat(detail)
}

impl RvError {
    /// The sentence that reports the error, in two languages.
    pub fn to_string(&self) -> (text: String)
        ensures
            text@ == rv_error_text(*self),
    {
        match self {
            RvError::Http { status, body } => {
                let code = decimal_string(*status as u64);
                "服务器返回 ".to_owned().concat(code.as_str()).concat(": ").concat(
                    body.as_str(),
                ).concat(" / rendezvous HTTP ").concat(code.as_str()).concat(": ").concat(
                    body.as_str(),
                )
            },
            RvError::Io(reason) => {
                "服务器连接错误 / rendezvous io error: ".to_owned().concat(reason.as_str())
            },
            RvError::BadUrl { url, reason } => {
                "服务器地址无效 ".to_owned().concat(url.as_str()).concat(": ").concat(
                    reason.as_str(),
                ).concat(" / invalid rendezvous URL ").concat(url.as_str()).concat(": ").concat(
                    reason.as_str(),
                )
            },
            RvError::Tls { detail } => said_twice(
                "TLS 握手失败: ",
                " / rendezvous TLS handshake failed: ",
                detail.as_str(),
            ),
            RvError::Mqtt { detail } => said_twice(
                "MQTT 错误: ",
                " / MQTT error: ",
                detail.as_str(),
            ),
            RvError::InvalidTicket { detail } => said_twice(
                "配对凭证无效: ",
                " / invalid ticket: ",
                detail.as_str(),
            ),
            RvError::Timeout => {
                "服务器请求超时（15 秒） / rendezvous request timed out after 15s".to_owned()
            },
            RvError::Parse { kind, body } => {
                "解析 ".to_owned().concat(kind).concat(" 响应失败 / failed to parse ").concat(
                    kind,
                ).concat(" response: ").concat(body.as_str())
            },
            RvError::Unimplemented { detail } => said_twice(
                "该后端暂未实现: ",
                " / this backend is not implemented yet: ",
                detail.as_str(),
            ),
        }
    }
}

/// What the library reads of a URL.
#[derive(Debug, Clone, PartialEq, Eq)]
pub struct UrlParts {
    pub scheme: String,
    pub host: Option<String>,
    /// The port that the URL gives, unless it is the scheme's default.
    pub port: Option<u16>,
    /// The port that the URL gives, or the scheme's default where it is known.
    pub known_port: Option<u16>,
}

/// The parts of a URL, as texts and numbers.
#[verifier::ext_equal]
pub struct UrlView {
    pub scheme: Seq<char>,
    pub host: Option<Seq<char>>,
    pub port: Option<u16>,
    pub known_port: Option<u16>,
}

impl View for UrlParts {
    type V = UrlView;

    open spec fn view(&self) -> UrlView {
        UrlView {
            scheme: self.scheme@,
            host: match self.host {
                Some(host) => Some(host@),
                None => None,
            },
            port: self.port,
            known_port: self.known_port,
        }
    }
}

/// A parsed URL, or the parser's words, with the texts taken by their views.
pub open spec fn url_result(parsed: Result<UrlParts, String>) -> Result<UrlView, Seq<char>> {
    match parsed {
        Ok(parts) => Ok(parts@),
        Err(reason) => Err(reason@),
    }
}

/// What the URL parser makes of a text: the parts, or the words in which it refuses.
pub uninterp spec fn url_parse(text: Seq<char>) -> Result<UrlView, Seq<char>>;

/// `Url::parse` of the `url` crate, and of its result `scheme`, `host_str`, `port` and
/// `port_or_known_default`, or the text of its error. The parser is deterministic; of its grammar
/// nothing is claimed.
#[verifier::external_body]
fn parse_url(text: &str) -> (parsed: Result<UrlParts, String>)
    ensures
        url_result(parsed) == url_parse(text@),
{
    match Url::parse(text) {
        Ok(url) => Ok(
            UrlParts {
                scheme: url.scheme().to_owned(),
                host: url.host_str().map(str::to_owned),
                port: url.port(),
                known_port: url.port_or_known_default(),
            },
        ),
        Err(error) => Err(error.to_string()),
    }
}

/// Where an HTTP request goes.
#[derive(Debug, Clone, PartialEq, Eq)]
pub struct HttpEndpoint {
    pub hostname: String,
    pub port: u16,
    /// The value of the `Host` header.
    pub host: String,
    pub use_tls: bool,
}

/// Where a broker is.
#[derive(Debug, Clone, PartialEq, Eq)]
pub struct BrokerEndpoint {
    pub hostname: String,
    pub port: u16,
    pub use_tls: bool,
}

/// Why a URL is no HTTP origin, if it is none.
pub open spec fn http_fault(parsed: Result<UrlView, Seq<char>>) -> Option<Seq<char>> {
    match parsed {
        Err(reason) => Some(reason),
        Ok(url) => if url.scheme != "http"@ && url.scheme != "https"@ {
            Some("unsupported scheme "@ + quoted(url.scheme) + " (http or https only)"@)
        } else if url.host is None {
            Some("missing host"@)
        } else if url.known_port is None {
            Some("missing port"@)
        } else {
            None
        },
    }
}

/// Why a URL is no broker, if it is none.
pub open spec fn broker_fault(parsed: Result<UrlView, Seq<char>>) -> Option<Seq<char>> {
    match parsed {
        Err(reason) => Some(reason),
        Ok(url) => if url.scheme != "mqtt"@ && url.scheme != "mqtts"@ {
            Some("unsupported scheme "@ + quoted(url.scheme) + " (mqtt or mqtts only)"@)
        } else if url.host is None {
            Some("missing host"@)
        } else {
            None
        },
    }
}

/// The value of the `Host` header: the port is named where the URL names one.
pub open spec fn host_header(url: UrlView) -> Seq<char> {
    match url.port {
        Some(port) => url.host->0 + ":"@ + decimal(port as nat),
        None => url.host->0,
    }
}

fn bad_scheme(scheme: &str, allowed: &str) -> (reason: String)
    ensures
        reason@ == "unsupported scheme "@ + quoted(scheme@) + allowed@,
{
    "unsupported scheme ".to_owned().concat(quote(scheme).as_str()).concat(allowed)
}

/// Where requests to an HTTP origin go, given its parsed URL. The port defaults to that of the
/// scheme.
pub fn http_endpoint(base: &str, parsed: Result<UrlParts, String>) -> (endpoint: Result<
    HttpEndpoint,
    RvError,
>)
    ensures
        match endpoint {
            Ok(endpoint) => http_fault(url_result(parsed)) is None && is_http_endpoint(
                endpoint,
                url_result(parsed)->Ok_0,
            ),
            Err(RvError::BadUrl { url, reason }) => url@ == base@ && http_fault(url_result(parsed))
                == Some(reason@),
            Err(_) => false,
        },
{
    let parts: UrlParts = match parsed {
        Ok(parts) => parts,
        Err(reason) => {
            return Err(RvError::BadUrl { url: base.to_owned(), reason });
        },
    };
    let use_tls: bool = if same_text(parts.scheme.as_str(), "http") {
        false
    } else if same_text(parts.scheme.as_str(), "https") {
        true
    } else {
        return Err(
            RvError::BadUrl {
                url: base.to_owned(),
                reason: bad_scheme(parts.scheme.as_str(), " (http or https only)"),
            },
        );
    };
    proof {
        reveal_strlit("http");
        reveal_strlit("https");
        assert("http"@.len() == 4 && "https"@.len() == 5);
    }
    let hostname: String = match parts.host {
        Some(host) => host,
        None => {
            return Err(
                RvError::BadUrl { url: base.to_owned(), reason: "missing host".to_owned() },
            );
        },
    };
    let port: u16 = match parts.known_port {
        Some(port) => port,
        None => {
            return Err(
                RvError::BadUrl { url: base.to_owned(), reason: "missing port".to_owned() },
            );
        },
    };
    let host: String = match parts.port {
        Some(given) => hostname.clone().concat(":").concat(decimal_string(given as u64).as_str()),
        None => hostname.clone(),
    };
    Ok(HttpEndpoint { hostname, port, host, use_tls })
}

/// Whether an endpoint is that of an HTTP origin.
pub open spec fn is_http_endpoint(endpoint: HttpEndpoint, url: UrlView) -> bool {
    &&& endpoint.hostname@ == url.host->0
    &&& endpoint.port == url.known_port->0
    &&& endpoint.host@ == host_header(url)
    &&& endpoint.use_tls == (url.scheme == "https"@)
}

/// Where a broker is, given its parsed URL. The port defaults to 8883 with TLS and 1883 without.
pub fn broker_endpoint(base: &str, parsed: Result<UrlParts, String>) -> (endpoint: Result<
    BrokerEndpoint,
    RvError,
>)
    ensures
        match endpoint {
            Ok(endpoint) => broker_fault(url_result(parsed)) is None && is_broker_endpoint(
                endpoint,
                url_result(parsed)->Ok_0,
            ),
            Err(RvError::BadUrl { url, reason }) => url@ == base@ && broker_fault(
                url_result(parsed),
            ) == Some(reason@),
            Err(_) => false,
        },
{
    let parts: UrlParts = match parsed {
        Ok(parts) => parts,
        Err(reason) => {
            return Err(RvError::BadUrl { url: base.to_owned(), reason });
        },
    };
    let use_tls: bool = if same_text(parts.scheme.as_str(), "mqtts") {
        true
    } else if same_text(parts.scheme.as_str(), "mqtt") {
        false
    } else {
        return Err(
            RvError::BadUrl {
                url: base.to_owned(),
                reason: bad_scheme(parts.scheme.as_str(), " (mqtt or mqtts only)"),
            },
        );
    };
    proof {
        reveal_strlit("mqtt");
        reveal_strlit("mqtts");
        assert("mqtt"@.len() == 4 && "mqtts"@.len() == 5);
    }
    let hostname: String = match parts.host {
        Some(host) => host,
        None => {
            return Err(
                RvError::BadUrl { url: base.to_owned(), reason: "missing host".to_owned() },
            );
        },
    };
    let port: u16 = match parts.port {
        Some(port) => port,
        None => {
            if use_tls {
                8883
            } else {
                1883
            }
        },
    };
    Ok(BrokerEndpoint { hostname, port, use_tls })
}

/// Whether an endpoint is that of a broker.
pub open spec fn is_broker_endpoint(endpoint: BrokerEndpoint, url: UrlView) -> bool {
    &&& endpoint.hostname@ == url.host->0
    &&& endpoint.use_tls == (url.scheme == "mqtts"@)
    &&& endpoint.port == match url.port {
        Some(port) => port,
        None => if url.scheme == "mqtts"@ {
            8883
        } else {
            1883
        },
    }
}

/// The text of an HTTP request on a connection of its own.
pub open spec fn request_text(
    method: Seq<char>,
    path: Seq<char>,
    host: Seq<char>,
    body: Option<Seq<char>>,
) -> Seq<char> {
    let head = method + " "@ + path + " HTTP/1.1\r\nHost: "@ + host + "\r\nConnection: close\r\n"@;
    match body {
        Some(body) => head + "Content-Type: application/json\r\nContent-Length: "@ + decimal(
            vstd::utf8::encode_utf8(body).len(),
        ) + "\r\n"@ + "\r\n"@ + body,
        None => head + "\r\n"@,
    }
}

/// The text of an HTTP request on a connection of its own.
pub fn http_request(method: &str, path: &str, host: &str, body: Option<&str>) -> (text: String)
    ensures
        text@ == request_text(
            method@,
            path@,
            host@,
            match body {
                Some(body) => Some(body@),
                None => None,
            },
        ),
{
    let mut text = method.to_owned();
    text.append(" ");
    text.append(path);
    text.append(" HTTP/1.1\r\nHost: ");
    text.append(host);
    text.append("\r\nConnection: close\r\n");
    match body {
        Some(body) => {
            text.append("Content-Type: application/json\r\nContent-Length: ");
            text.append(decimal_string(body.as_bytes().len() as u64).as_str());
            text.append("\r\n");
            text.append("\r\n");
            text.append(body);
        },
        None => {
            text.append("\r\n");
        },
    }
    text
}

/// What `String::from_utf8_lossy` makes of bytes.
pub uninterp spec fn lossy_text(bytes: Seq<u8>) -> Seq<char>;

/// `String::from_utf8_lossy`: the text that bytes encode; what is not UTF-8 is replaced, in a way
/// of which nothing but determinism is claimed.
#[verifier::external_body]
pub(crate) fn decode_lossy(bytes: &[u8]) -> (text: String)
    ensures
        text@ == lossy_text(bytes@),
        vstd::utf8::valid_utf8(bytes@) ==> text@ == vstd::utf8::decode_utf8(bytes@),
{
    String::from_utf8_lossy(bytes).into_owned()
}

/// `String::from_utf8`: the text that bytes encode, if they are UTF-8.
#[verifier::external_body]
fn decode_strict(bytes: Vec<u8>) -> (text: Option<String>)
    ensures
        text is Some == vstd::utf8::valid_utf8(bytes@),
        text is Some ==> text->0@ == vstd::utf8::decode_utf8(bytes@),
{
    String::from_utf8(bytes).ok()
}

/// Whether a blank line, as HTTP ends its lines, stands at a position.
pub open spec fn blank_line_at(text: Seq<char>, i: int) -> bool {
    &&& 0 <= i <= text.len() - 4
    &&& text[i] == '\r' && text[i + 1] == '\n' && text[i + 2] == '\r' && text[i + 3] == '\n'
}

/// Whether the first blank line stands at a position.
pub open spec fn first_blank_line(text: Seq<char>, i: int) -> bool {
    blank_line_at(text, i) && forall|j: int| 0 <= j < i ==> !#[trigger] blank_line_at(text, j)
}

/// The words of a line from position `i` on: runs of characters between white space.
pub open spec fn word_from(line: Seq<char>, i: int) -> Seq<char>
    decreases line.len() - i,
{
    if i < 0 || i >= line.len() || white_space(line[i]) {
        Seq::empty()
    } else {
        seq![line[i]] + word_from(line, i + 1)
    }
}

/// The first position from `i` on that is not white space, or the end.
pub open spec fn skip_white(line: Seq<char>, i: int) -> int
    decreases line.len() - i,
{
    if 0 <= i < line.len() && white_space(line[i]) {
        skip_white(line, i + 1)
    } else {
        i
    }
}

/// The second word of a line; empty if there is none.
pub open spec fn second_word(line: Seq<char>) -> Seq<char> {
    let first = skip_white(line, 0);
    let behind = first + word_from(line, first).len();
    word_from(line, skip_white(line, behind))
}

/// The number that a word denotes, if it is one of 16 bits; a plus sign may stand before it.
pub open spec fn small_number(word: Seq<char>) -> Option<int> {
    let digits = if word.len() > 0 && word[0] == '+' {
        word.drop_first()
    } else {
        word
    };
    if all_digits(digits) && digits_value(digits) <= u16::MAX {
        Some(digits_value(digits) as int)
    } else {
        None
    }
}

/// The first line of a text.
pub open spec fn first_line(text: Seq<char>) -> Seq<char> {
    text.take(find_char(text, '\n'))
}

/// The status that the head of a response gives.
pub open spec fn status_of(head: Seq<char>) -> Option<int> {
    small_number(second_word(first_line(head)))
}

/// What a response says: its status and its body; or what cannot be made out of it.
pub open spec fn response_read(text: Seq<char>, out: Result<(u16, String), RvError>) -> bool {
    match out {
        Ok((status, body)) => exists|i: int| #[trigger]
            first_blank_line(text, i) && status_of(text.take(i)) == Some(status as int) && body@
                == text.skip(i + 4),
        Err(RvError::Parse { kind, body }) => {
            ||| kind@ == "response head"@ && body@ == text && forall|i: int|
                !#[trigger] blank_line_at(text, i)
            ||| kind@ == "status line"@ && exists|i: int| #[trigger]
                first_blank_line(text, i) && status_of(text.take(i)) is None && body@ == text.take(i)
        },
        Err(_) => false,
    }
}

fn end_of_word(chars: &Vec<char>, start: usize) -> (end: usize)
    requires
        start <= chars@.len(),
    ensures
        start <= end <= chars@.len(),
        chars@.subrange(start as int, end as int) == word_from(chars@, start as int),
{
    let mut end: usize = start;
    assert(chars@.subrange(start as int, end as int) =~= Seq::empty());
    while end < chars.len() && !chars[end].is_whitespace()
        invariant
            start <= end <= chars@.len(),
            word_from(chars@, start as int) == chars@.subrange(start as int, end as int)
                + word_from(chars@, end as int),
        decreases chars@.len() - end,
    {
        assert(chars@.subrange(start as int, end + 1) =~= chars@.subrange(start as int, end as int)
            + seq![chars@[end as int]]);
        assert(word_from(chars@, start as int) =~= chars@.subrange(start as int, end + 1)
            + word_from(chars@, end + 1));
        end += 1;
    }
    assert(word_from(chars@, end as int) =~= Seq::empty());
    assert(word_from(chars@, start as int) =~= chars@.subrange(start as int, end as int));
    end
}

fn end_of_white(chars: &Vec<char>, start: usize) -> (end: usize)
    requires
        start <= chars@.len(),
    ensures
        start <= end <= chars@.len(),
        end == skip_white(chars@, start as int),
{
    let mut end: usize = start;
    while end < chars.len() && chars[end].is_whitespace()
        invariant
            start <= end <= chars@.len(),
            skip_white(chars@, start as int) == skip_white(chars@, end as int),
        decreases chars@.len() - end,
    {
        end += 1;
    }
    end
}

fn parse_small(word: &str) -> (number: Option<u16>)
    ensures
        match number {
            Some(n) => small_number(word@) == Some(n as int),
            None => small_number(word@) is None,
        },
{
    let chars = chars_of(word);
    let digits: String = if chars.len() > 0 && chars[0] == '+' {
        assert(chars@.subrange(1, chars@.len() as int) =~= word@.drop_first());
        text_of(&chars, 1, chars.len())
    } else {
        assert(chars@.subrange(0, chars@.len() as int) =~= word@);
        text_of(&chars, 0, chars.len())
    };
    match parse_digits(digits.as_str()) {
        Some(n) => {
            if n <= 65535 {
                Some(n as u16)
            } else {
                None
            }
        },
        None => None,
    }
}

fn parse_status(head: &str) -> (status: Option<u16>)
    ensures
        match status {
            Some(n) => status_of(head@) == Some(n as int),
            None => status_of(head@) is None,
        },
{
    let line: String = match split_first(head, '\n') {
        Some((line, _)) => line,
        None => {
            assert(head@.take(head@.len() as int) =~= head@);
            head.to_owned()
        },
    };
    let chars = chars_of(line.as_str());
    let first: usize = end_of_white(&chars, 0);
    let behind: usize = end_of_word(&chars, first);
    let second: usize = end_of_white(&chars, behind);
    let end: usize = end_of_word(&chars, second);
    parse_small(text_of(&chars, second, end).as_str())
}

/// Takes a response apart into status and body.
pub fn parse_response(text: &str) -> (out: Result<(u16, String), RvError>)
    ensures
        response_read(text@, out),
{
    let chars = chars_of(text);
    let mut i: usize = 0;
    while chars.len() - i >= 4
        invariant
            i <= chars@.len(),
            chars@ == text@,
            forall|j: int| 0 <= j < i ==> !#[trigger] blank_line_at(text@, j),
        decreases chars@.len() - i,
    {
        if chars[i] == '\r' && chars[i + 1] == '\n' && chars[i + 2] == '\r' && chars[i + 3]
            == '\n' {
            assert(first_blank_line(text@, i as int));
            let head = text_of(&chars, 0, i);
            let body = text_of(&chars, i + 4, chars.len());
            assert(head@ =~= text@.take(i as int));
            assert(body@ =~= text@.skip(i + 4));
            return match parse_status(head.as_str()) {
                Some(status) => Ok((status, body)),
                None => Err(RvError::Parse { kind: "status line", body: head }),
            };
        }
        i += 1;
    }
    Err(RvError::Parse { kind: "response head", body: text.to_owned() })
}

/// How a character stands in a JSON string.
pub open spec fn json_char(c: char) -> Seq<char> {
    if c == '"' {
        seq!['\\', '"']
    } else if c == '\\' {
        seq!['\\', '\\']
    } else if c == '\x08' {
        seq!['\\', 'b']
    } else if c == '\t' {
        seq!['\\', 't']
    } else if c == '\n' {
        seq!['\\', 'n']
    } else if c == '\x0c' {
        seq!['\\', 'f']
    } else if c == '\r' {
        seq!['\\', 'r']
    } else if (c as u32) < 32 {
        seq!['\\', 'u', '0', '0'] + hex_text(seq![c as u8])
    } else {
        seq![c]
    }
}

/// A text as the inside of a JSON string.
pub open spec fn json_inside(text: Seq<char>) -> Seq<char>
    decreases text.len(),
{
    if text.len() == 0 {
        Seq::empty()
    } else {
        json_inside(text.drop_last()) + json_char(text.last())
    }
}

/// `serde_json::to_string` on a text: a JSON string, in which quotes, backslashes and control
/// characters are escaped and everything else stands as it is.
#[verifier::external_body]
fn json_string(text: &str) -> (out: String)
    ensures
        out@ == seq!['"'] + json_inside(text@) + seq!['"'],
{
    serde_json::to_string(text).expect("a text can be serialized")
}

/// The body of an allocation request.
pub open spec fn ticket_body(ticket: Seq<char>) -> Seq<char> {
    "{\"ticket\":"@ + (seq!['"'] + json_inside(ticket) + seq!['"']) + "}"@
}

/// A request over HTTP: where it goes, and its text.
#[derive(Debug, Clone, PartialEq, Eq)]
pub struct HttpRequest {
    pub endpoint: HttpEndpoint,
    pub text: String,
}

/// Whether a request is the one with this method, path and body to an origin.
pub open spec fn is_request(
    request: HttpRequest,
    url: UrlView,
    method: Seq<char>,
    path: Seq<char>,
    body: Option<Seq<char>>,
) -> bool {
    &&& is_http_endpoint(request.endpoint, url)
    &&& request.text@ == request_text(method, path, host_header(url), body)
}

/// The way to the rendezvous.
#[derive(Debug, Clone, PartialEq, Eq)]
enum Backend {
    /// An HTTP origin.
    Http,
    /// An MQTT broker.
    Mqtt,
    /// Neither, and why.
    Invalid(String),
}

/// The way to the rendezvous, as the scheme of its URL tells.
pub enum Way {
    Http,
    Mqtt,
    Invalid(Seq<char>),
}

/// The way that the scheme of a parsed URL tells.
pub open spec fn way_of(parsed: Result<UrlView, Seq<char>>) -> Way {
    match parsed {
        Err(reason) => Way::Invalid("cannot parse as a URL: "@ + reason),
        Ok(url) => if url.scheme == "http"@ || url.scheme == "https"@ {
            Way::Http
        } else if url.scheme == "mqtt"@ || url.scheme == "mqtts"@ {
            Way::Mqtt
        } else {
            Way::Invalid(
                "unsupported scheme "@ + quoted(url.scheme)
                    + " (http, https, mqtt or mqtts only)"@,
            )
        },
    }
}

/// What to send to allocate a nameplate.
#[derive(Debug)]
pub enum AllocateStep {
    /// Ask the server.
    Ask(HttpRequest),
    /// Pick one: a broker does not allocate.
    Pick,
}

/// What to send to leave a ticket, or to take it away again.
#[derive(Debug)]
pub enum RetainStep {
    /// Nothing.
    Nothing,
    /// A retained message.
    Retain { broker: BrokerEndpoint, topic: String, payload: String },
}

/// What to send to claim a ticket.
#[derive(Debug)]
pub enum ClaimStep {
    /// Ask the server.
    Ask(HttpRequest),
    /// Subscribe to the mailbox of the code.
    Subscribe { broker: BrokerEndpoint, topic: String },
}

/// What to send to learn the state of a nameplate.
#[derive(Debug)]
pub enum StatusStep {
    /// Ask the server.
    Ask(HttpRequest),
    /// Nothing: the state is known.
    Known(PairState),
}

/// What to send to see whether the rendezvous is there.
#[derive(Debug)]
pub enum HealthStep {
    /// Ask the server.
    Ask(HttpRequest),
    /// Connect to the broker.
    Connect(BrokerEndpoint),
}

/// What is hashed into the topic of a code: the nameplate, and the words without surrounding white
/// space and in lower case.
pub open spec fn topic_password(nameplate: u32, words: Seq<char>) -> Seq<char> {
    decimal(nameplate as nat) + "-"@ + lowercase(trimmed(words))
}

/// What Argon2id makes of a password and a salt: 32 bytes.
pub uninterp spec fn argon2id(password: Seq<u8>, salt: Seq<u8>) -> Seq<u8>;

/// `Argon2::default` and `hash_password_into`: the 32 bytes that Argon2id with the crate's default
/// parameters derives. It fails only for passwords over 4 GiB and for short salts.
#[verifier::external_body]
fn hash_password(password: &[u8], salt: &[u8; 19]) -> (digest: [u8; 32])
    requires
        password@.len() <= 0xffff_ffff,
    ensures
        digest@ == argon2id(password@, salt@),
{
    let mut digest = [0u8; 32];
    Argon2::default().hash_password_into(password, salt, &mut digest).expect("inputs in range");
    digest
}

/// The topic of a code.
pub open spec fn topic_of(nameplate: u32, words: Seq<char>) -> Seq<char> {
    TOPIC_PREFIX@ + hex_text(
        argon2id(vstd::utf8::encode_utf8(topic_password(nameplate, words)), TOPIC_SALT@),
    )
}

/// The topic of a code with words of ASCII characters: only the letters' case and the white space
/// around the words make no difference.
pub open spec fn ascii_topic_of(nameplate: u32, words: Seq<char>) -> Seq<char> {
    TOPIC_PREFIX@ + hex_text(
        argon2id(
            vstd::utf8::encode_utf8(
                decimal(nameplate as nat) + "-"@ + ascii_lowercase(trimmed(words)),
            ),
            TOPIC_SALT@,
        ),
    )
}

/// Whether what is hashed into the topic of a code is short enough to be hashed.
pub open spec fn hashable(nameplate: u32, words: Seq<char>) -> bool {
    vstd::utf8::encode_utf8(topic_password(nameplate, words)).len() <= 0xffff_ffff
}

fn password_text(nameplate: u32, words: &str) -> (password: String)
    ensures
        password@ == topic_password(nameplate, words@),
        vstd::utf8::is_ascii_chars(trimmed(words@)) ==> password@ == decimal(nameplate as nat)
            + "-"@ + ascii_lowercase(trimmed(words@)),
{
    decimal_string(nameplate as u64).concat("-").concat(
        trim(words).as_str().to_lowercase().as_str(),
    )
}

/// Whether what is hashed into the topic of a code is short enough to be hashed.
fn fits_topic(nameplate: u32, words: &str) -> (fits: bool)
    ensures
        fits == hashable(nameplate, words@),
{
    password_text(nameplate, words).as_str().as_bytes().len() as u64 <= 0xffff_ffff
}

/// The topic of a code: nameplate and words are hashed together, so that neither can be searched
/// for alone. Words that differ in case or surrounding white space share a topic.
pub fn derive_topic(nameplate: u32, words: &str) -> (topic: String)
    requires
        hashable(nameplate, words@),
    ensures
        topic@ == topic_of(nameplate, words@),
        vstd::utf8::is_ascii_chars(trimmed(words@)) ==> topic@ == ascii_topic_of(
            nameplate,
            words@,
        ),
{
    let password = password_text(nameplate, words);
    let salt: [u8; 19] = TOPIC_SALT;
    let digest: [u8; 32] = hash_password(password.as_str().as_bytes(), &salt);
    TOPIC_PREFIX.to_owned().concat(hex_encode(digest.as_slice()).as_str())
}

/// The topic of a code, or nothing where the words are too long to be hashed.
pub fn mailbox_topic(nameplate: u32, words: &str) -> (topic: Option<String>)
    ensures
        match topic {
            Some(topic) => hashable(nameplate, words@) && topic@ == topic_of(nameplate, words@),
            None => !hashable(nameplate, words@),
        },
{
    if fits_topic(nameplate, words) {
        Some(derive_topic(nameplate, words))
    } else {
        None
    }
}

/// The path of a nameplate's resource.
pub open spec fn pair_path(nameplate: u32, end: Seq<char>) -> Seq<char> {
    "/v1/pairs/"@ + decimal(nameplate as nat) + end
}

/// Client for the rendezvous.
#[derive(Debug, Clone)]
pub struct RvClient {
    base: String,
    backend: Backend,
}

/// Whether an error is that of a base URL which is of no use.
pub open spec fn bad_url(error: RvError, base: Seq<char>, reason: Seq<char>) -> bool {
    error matches RvError::BadUrl { url, reason: r } && url@ == base && r@ == reason
}

impl RvClient {
    /// The base URL.
    pub closed spec fn origin(self) -> Seq<char> {
        self.base@
    }

    /// The way to the rendezvous.
    pub closed spec fn way(self) -> Way {
        match self.backend {
            Backend::Http => Way::Http,
            Backend::Mqtt => Way::Mqtt,
            Backend::Invalid(reason) => Way::Invalid(reason@),
        }
    }

    /// A client for the rendezvous at `base`. A URL that is of no use is reported by the first
    /// request.
    pub fn new(base: &str) -> (client: Self)
        ensures
            client.origin() == base@,
            client.way() == way_of(url_parse(base@)),
    {
        Self::with_url(base, parse_url(base))
    }

    /// A client for the rendezvous at `base`, given its parsed URL.
    pub fn with_url(base: &str, parsed: Result<UrlParts, String>) -> (client: Self)
        ensures
            client.origin() == base@,
            client.way() == way_of(url_result(parsed)),
    {
        let backend = match parsed {
            Err(reason) => Backend::Invalid(
                "cannot parse as a URL: ".to_owned().concat(reason.as_str()),
            ),
            Ok(parts) => {
                let scheme: &str = parts.scheme.as_str();
                if same_text(scheme, "http") || same_text(scheme, "https") {
                    Backend::Http
                } else if same_text(scheme, "mqtt") || same_text(scheme, "mqtts") {
                    Backend::Mqtt
                } else {
                    Backend::Invalid(bad_scheme(scheme, " (http, https, mqtt or mqtts only)"))
                }
            },
        };
        RvClient { base: base.to_owned(), backend }
    }

    /// A request to an HTTP origin.
    fn request(&self, method: &str, path: &str, body: Option<&str>) -> (request: Result<
        HttpRequest,
        RvError,
    >)
        ensures
            match request {
                Ok(request) => http_fault(url_parse(self.origin())) is None && is_request(
                    request,
                    url_parse(self.origin())->Ok_0,
                    method@,
                    path@,
                    match body {
                        Some(body) => Some(body@),
                        None => None,
                    },
                ),
                Err(error) => http_fault(url_parse(self.origin())) is Some && bad_url(
                    error,
                    self.origin(),
                    http_fault(url_parse(self.origin()))->0,
                ),
            },
    {
        match http_endpoint(self.base.as_str(), parse_url(self.base.as_str())) {
            Ok(endpoint) => {
                let text = http_request(method, path, endpoint.host.as_str(), body);
                Ok(HttpRequest { endpoint, text })
            },
            Err(error) => Err(error),
        }
    }

    /// The broker.
    fn broker(&self) -> (endpoint: Result<BrokerEndpoint, RvError>)
        ensures
            match endpoint {
                Ok(endpoint) => broker_fault(url_parse(self.origin())) is None
                    && is_broker_endpoint(endpoint, url_parse(self.origin())->Ok_0),
                Err(error) => broker_fault(url_parse(self.origin())) is Some && bad_url(
                    error,
                    self.origin(),
                    broker_fault(url_parse(self.origin()))->0,
                ),
            },
    {
        broker_endpoint(self.base.as_str(), parse_url(self.base.as_str()))
    }

    /// What to send to allocate a nameplate for `ticket`.
    pub fn allocate(&self, ticket: &str) -> (step: Result<AllocateStep, RvError>)
        ensures
            match (self.way(), step) {
                (Way::Http, Ok(AllocateStep::Ask(request))) => http_fault(
                    url_parse(self.origin()),
                ) is None && is_request(
                    request,
                    url_parse(self.origin())->Ok_0,
                    "POST"@,
                    "/v1/pairs"@,
                    Some(ticket_body(ticket@)),
                ),
                (Way::Http, Err(error)) => http_fault(url_parse(self.origin())) is Some && bad_url(
                    error,
                    self.origin(),
                    http_fault(url_parse(self.origin()))->0,
                ),
                (Way::Mqtt, Ok(AllocateStep::Pick)) => true,
                (Way::Invalid(reason), Err(error)) => bad_url(error, self.origin(), reason),
                _ => false,
            },
    {
        match &self.backend {
            Backend::Http => {
                let body = "{\"ticket\":".to_owned().concat(json_string(ticket).as_str()).concat(
                    "}",
                );
                match self.request("POST", "/v1/pairs", Some(body.as_str())) {
                    Ok(request) => Ok(AllocateStep::Ask(request)),
                    Err(error) => Err(error),
                }
            },
            Backend::Mqtt => Ok(AllocateStep::Pick),
            Backend::Invalid(reason) => Err(
                RvError::BadUrl { url: self.base.clone(), reason: reason.clone() },
            ),
        }
    }

    /// What `publish` promises of its result.
    pub open spec fn publish_says(
        self,
        ticket: Seq<char>,
        nameplate: u32,
        words: Seq<char>,
        step: Result<RetainStep, RvError>,
    ) -> bool {
        match (self.way(), step) {
            (Way::Http, Ok(RetainStep::Nothing)) => true,
            (Way::Mqtt, Ok(RetainStep::Retain { broker, topic, payload })) => {
                &&& ticket_fault(ticket) is None
                &&& broker_fault(url_parse(self.origin())) is None
                &&& is_broker_endpoint(broker, url_parse(self.origin())->Ok_0)
                &&& topic@ == topic_of(nameplate, words)
                &&& payload@ == ticket
            },
            (Way::Mqtt, Err(RvError::InvalidTicket { detail })) => ticket_fault(ticket)
                == Some(detail@),
            (Way::Mqtt, Err(error)) => ticket_fault(ticket) is None && broker_fault(
                url_parse(self.origin()),
            ) is Some && bad_url(
                error,
                self.origin(),
                broker_fault(url_parse(self.origin()))->0,
            ),
            (Way::Invalid(reason), Err(error)) => bad_url(error, self.origin(), reason),
            _ => false,
        }
    }

    /// What to send so that the receiver can claim the ticket with the code. Over HTTP there is
    /// nothing to send: the allocation has stored the ticket, and the words stay here.
    pub fn publish(&self, ticket: &str, nameplate: u32, words: &str) -> (step: Result<
        RetainStep,
        RvError,
    >)
        requires
            self.way() is Mqtt && ticket_fault(ticket@) is None ==> hashable(nameplate, words@),
        ensures
            self.publish_says(ticket@, nameplate, words@, step),
    {
        match &self.backend {
            Backend::Http => Ok(RetainStep::Nothing),
            Backend::Mqtt => {
                match check_ticket(ticket) {
                    Ok(()) => {},
                    Err(error) => {
                        return Err(error);
                    },
                }
                let topic = derive_topic(nameplate, words);
                match self.broker() {
                    Ok(broker) => Ok(
                        RetainStep::Retain { broker, topic, payload: ticket.to_owned() },
                    ),
                    Err(error) => Err(error),
                }
            },
            Backend::Invalid(reason) => Err(
                RvError::BadUrl { url: self.base.clone(), reason: reason.clone() },
            ),
        }
    }

    /// What `claim` promises of its result.
    pub open spec fn claim_says(
        self,
        nameplate: u32,
        words: Seq<char>,
        step: Result<ClaimStep, RvError>,
    ) -> bool {
        match (self.way(), step) {
            (Way::Http, Ok(ClaimStep::Ask(request))) => http_fault(
                url_parse(self.origin()),
            ) is None && is_request(
                request,
                url_parse(self.origin())->Ok_0,
                "POST"@,
                pair_path(nameplate, "/claim"@),
                None,
            ),
            (Way::Http, Err(error)) => http_fault(url_parse(self.origin())) is Some && bad_url(
                error,
                self.origin(),
                http_fault(url_parse(self.origin()))->0,
            ),
            (Way::Mqtt, Ok(ClaimStep::Subscribe { broker, topic })) => {
                &&& broker_fault(url_parse(self.origin())) is None
                &&& is_broker_endpoint(broker, url_parse(self.origin())->Ok_0)
                &&& topic@ == topic_of(nameplate, words)
            },
            (Way::Mqtt, Err(error)) => broker_fault(url_parse(self.origin())) is Some
                && bad_url(error, self.origin(), broker_fault(url_parse(self.origin()))->0),
            (Way::Invalid(reason), Err(error)) => bad_url(error, self.origin(), reason),
            _ => false,
        }
    }

    /// What to send to claim the ticket of a code. Over HTTP the request names the nameplate
    /// alone, whatever the words are.
    pub fn claim(&self, nameplate: u32, words: &str) -> (step: Result<ClaimStep, RvError>)
        requires
            self.way() is Mqtt ==> hashable(nameplate, words@),
        ensures
            self.claim_says(nameplate, words@, step),
    {
        match &self.backend {
            Backend::Http => {
                let path = "/v1/pairs/".to_owned().concat(
                    decimal_string(nameplate as u64).as_str(),
                ).concat("/claim");
                match self.request("POST", path.as_str(), None) {
                    Ok(request) => Ok(ClaimStep::Ask(request)),
                    Err(error) => Err(error),
                }
            },
            Backend::Mqtt => {
                let topic = derive_topic(nameplate, words);
                match self.broker() {
                    Ok(broker) => Ok(ClaimStep::Subscribe { broker, topic }),
                    Err(error) => Err(error),
                }
            },
            Backend::Invalid(reason) => Err(
                RvError::BadUrl { url: self.base.clone(), reason: reason.clone() },
            ),
        }
    }

    /// What `cleanup` promises of its result.
    pub open spec fn cleanup_says(
        self,
        nameplate: u32,
        words: Seq<char>,
        step: Result<RetainStep, RvError>,
    ) -> bool {
        match (self.way(), step) {
            (Way::Http, Ok(RetainStep::Nothing)) => true,
            (Way::Mqtt, Ok(RetainStep::Retain { broker, topic, payload })) => {
                &&& broker_fault(url_parse(self.origin())) is None
                &&& is_broker_endpoint(broker, url_parse(self.origin())->Ok_0)
                &&& topic@ == topic_of(nameplate, words)
                &&& payload@.len() == 0
            },
            (Way::Mqtt, Err(error)) => broker_fault(url_parse(self.origin())) is Some
                && bad_url(error, self.origin(), broker_fault(url_parse(self.origin()))->0),
            (Way::Invalid(reason), Err(error)) => bad_url(error, self.origin(), reason),
            _ => false,
        }
    }

    /// What to send to take a ticket away again. Over HTTP there is nothing to send.
    pub fn cleanup(&self, nameplate: u32, words: &str) -> (step: Result<RetainStep, RvError>)
        requires
            self.way() is Mqtt ==> hashable(nameplate, words@),
        ensures
            self.cleanup_says(nameplate, words@, step),
    {
        match &self.backend {
            Backend::Http => Ok(RetainStep::Nothing),
            Backend::Mqtt => {
                let topic = derive_topic(nameplate, words);
                match self.broker() {
                    Ok(broker) => Ok(RetainStep::Retain { broker, topic, payload: String::new() }),
                    Err(error) => Err(error),
                }
            },
            Backend::Invalid(reason) => Err(
                RvError::BadUrl { url: self.base.clone(), reason: reason.clone() },
            ),
        }
    }

    fn is_broker(&self) -> (yes: bool)
        ensures
            yes == (self.way() is Mqtt),
    {
        match &self.backend {
            Backend::Mqtt => true,
            _ => false,
        }
    }

    /// [`RvClient::publish`], or nothing where the words are too long for a topic.
    pub fn publish_checked(&self, ticket: &str, nameplate: u32, words: &str) -> (step: Option<
        Result<RetainStep, RvError>,
    >)
        ensures
            match step {
                Some(step) => self.publish_says(ticket@, nameplate, words@, step) && (self.way()
                    is Mqtt ==> hashable(nameplate, words@)),
                None => self.way() is Mqtt && !hashable(nameplate, words@),
            },
    {
        if !self.is_broker() || fits_topic(nameplate, words) {
            Some(self.publish(ticket, nameplate, words))
        } else {
            None
        }
    }

    /// [`RvClient::claim`], or nothing where the words are too long for a topic.
    pub fn claim_checked(&self, nameplate: u32, words: &str) -> (step: Option<
        Result<ClaimStep, RvError>,
    >)
        ensures
            match step {
                Some(step) => self.claim_says(nameplate, words@, step) && (self.way()
                    is Mqtt ==> hashable(nameplate, words@)),
                None => self.way() is Mqtt && !hashable(nameplate, words@),
            },
    {
        if !self.is_broker() || fits_topic(nameplate, words) {
            Some(self.claim(nameplate, words))
        } else {
            None
        }
    }

    /// [`RvClient::cleanup`], or nothing where the words are too long for a topic.
    pub fn cleanup_checked(&self, nameplate: u32, words: &str) -> (step: Option<
        Result<RetainStep, RvError>,
    >)
        ensures
            match step {
                Some(step) => self.cleanup_says(nameplate, words@, step) && (self.way()
                    is Mqtt ==> hashable(nameplate, words@)),
                None => self.way() is Mqtt && !hashable(nameplate, words@),
            },
    {
        if !self.is_broker() || fits_topic(nameplate, words) {
            Some(self.cleanup(nameplate, words))
        } else {
            None
        }
    }

    /// What to send to learn the state of a nameplate. On a broker it counts as pending.
    pub fn status(&self, nameplate: u32) -> (step: Result<StatusStep, RvError>)
        ensures
            match (self.way(), step) {
                (Way::Http, Ok(StatusStep::Ask(request))) => http_fault(
                    url_parse(self.origin()),
                ) is None && is_request(
                    request,
                    url_parse(self.origin())->Ok_0,
                    "GET"@,
                    pair_path(nameplate, "/status"@),
                    None,
                ),
                (Way::Http, Err(error)) => http_fault(url_parse(self.origin())) is Some && bad_url(
                    error,
                    self.origin(),
                    http_fault(url_parse(self.origin()))->0,
                ),
                (Way::Mqtt, Ok(StatusStep::Known(state))) => state == PairState::Pending,
                (Way::Invalid(reason), Err(error)) => bad_url(error, self.origin(), reason),
                _ => false,
            },
    {
        match &self.backend {
            Backend::Http => {
                let path = "/v1/pairs/".to_owned().concat(
                    decimal_string(nameplate as u64).as_str(),
                ).concat("/status");
                match self.request("GET", path.as_str(), None) {
                    Ok(request) => Ok(StatusStep::Ask(request)),
                    Err(error) => Err(error),
                }
            },
            Backend::Mqtt => Ok(StatusStep::Known(PairState::Pending)),
            Backend::Invalid(reason) => Err(
                RvError::BadUrl { url: self.base.clone(), reason: reason.clone() },
            ),
        }
    }

    /// What to send to see whether the rendezvous is there.
    pub fn health(&self) -> (step: Result<HealthStep, RvError>)
        ensures
            match (self.way(), step) {
                (Way::Http, Ok(HealthStep::Ask(request))) => http_fault(
                    url_parse(self.origin()),
                ) is None && is_request(
                    request,
                    url_parse(self.origin())->Ok_0,
                    "GET"@,
                    "/health"@,
                    None,
                ),
                (Way::Http, Err(error)) => http_fault(url_parse(self.origin())) is Some && bad_url(
                    error,
                    self.origin(),
                    http_fault(url_parse(self.origin()))->0,
                ),
                (Way::Mqtt, Ok(HealthStep::Connect(broker))) => broker_fault(
                    url_parse(self.origin()),
                ) is None && is_broker_endpoint(broker, url_parse(self.origin())->Ok_0),
                (Way::Mqtt, Err(error)) => broker_fault(url_parse(self.origin())) is Some
                    && bad_url(error, self.origin(), broker_fault(url_parse(self.origin()))->0),
                (Way::Invalid(reason), Err(error)) => bad_url(error, self.origin(), reason),
                _ => false,
            },
    {
        match &self.backend {
            Backend::Http => match self.request("GET", "/health", None) {
                Ok(request) => Ok(HealthStep::Ask(request)),
                Err(error) => Err(error),
            },
            Backend::Mqtt => match self.broker() {
                Ok(broker) => Ok(HealthStep::Connect(broker)),
                Err(error) => Err(error),
            },
            Backend::Invalid(reason) => Err(
                RvError::BadUrl { url: self.base.clone(), reason: reason.clone() },
            ),
        }
    }
}

/// Whether a ticket is worth sending: the checks that the server makes too.
pub fn check_ticket(ticket: &str) -> (outcome: Result<(), RvError>)
    ensures
        match outcome {
            Ok(()) => ticket_fault(ticket@) is None,
            Err(RvError::InvalidTicket { detail }) => ticket_fault(ticket@) == Some(detail@),
            Err(_) => false,
        },
{
    if trim(ticket).as_str().is_empty() {
        return Err(RvError::InvalidTicket { detail: "ticket must not be empty".to_owned() });
    }
    if ticket.as_bytes().len() > MAX_TICKET_LENGTH {
        return Err(RvError::InvalidTicket { detail: "ticket is too large".to_owned() });
    }
    Ok(())
}

/// The allocation that a choice from 0 to 9998 stands for, with the expiry that is shown for it.
pub fn picked_nameplate(choice: usize, now: u64) -> (allocation: Allocation)
    requires
        choice < 9999,
        now + RENDEZVOUS_TTL_SECS <= u64::MAX,
    ensures
        allocation.nameplate == choice + 1,
        allocation.expires_at == now + RENDEZVOUS_TTL_SECS,
{
    Allocation { nameplate: choice as u32 + 1, expires_at: now + RENDEZVOUS_TTL_SECS }
}

/// A nameplate that the client picks itself, where the rendezvous is a broker.
pub fn pick_nameplate(now: u64, rng: &mut rand::rngs::StdRng) -> (allocation: Allocation)
    requires
        now + RENDEZVOUS_TTL_SECS <= u64::MAX,
    ensures
        1 <= allocation.nameplate <= 9999,
        allocation.expires_at == now + RENDEZVOUS_TTL_SECS,
{
    picked_nameplate(random_below(rng, 9999), now)
}

/// Whether an outcome is an answer that is not what it should be.
pub open spec fn parse_error<T>(out: Result<T, RvError>, kind: Seq<char>, body: Seq<char>) -> bool {
    out matches Err(RvError::Parse { kind: k, body: b }) && k@ == kind && b@ == body
}

/// Whether an outcome is a refusal by the server.
pub open spec fn http_error<T>(out: Result<T, RvError>, status: u16, body: Seq<char>) -> bool {
    out matches Err(RvError::Http { status: s, body: b }) && s == status && b@ == body
}

/// The outcome of an allocation, given the answer and what its body says, if it parses.
pub fn allocation_answer(status: u16, body: String, parsed: Option<Allocation>) -> (out: Result<
    Allocation,
    RvError,
>)
    ensures
        if status != 201 {
            http_error(out, status, body@)
        } else {
            match parsed {
                Some(allocation) => out == Ok::<_, RvError>(allocation),
                None => parse_error(out, "allocate"@, body@),
            }
        },
{
    if status != 201 {
        return Err(RvError::Http { status, body });
    }
    match parsed {
        Some(allocation) => Ok(allocation),
        None => Err(RvError::Parse { kind: "allocate", body }),
    }
}

/// The outcome of a claim, given the answer and the ticket in its body, if it parses.
pub fn claim_answer(status: u16, body: String, parsed: Option<String>) -> (out: Result<
    String,
    RvError,
>)
    ensures
        if status != 200 {
            http_error(out, status, body@)
        } else {
            match parsed {
                Some(ticket) => out == Ok::<_, RvError>(ticket),
                None => parse_error(out, "claim"@, body@),
            }
        },
{
    if status != 200 {
        return Err(RvError::Http { status, body });
    }
    match parsed {
        Some(ticket) => Ok(ticket),
        None => Err(RvError::Parse { kind: "claim", body }),
    }
}

/// The outcome of a status check, given the answer and the name in its body, if it parses.
pub fn status_answer(status: u16, body: String, parsed: Option<String>) -> (out: Result<
    PairState,
    RvError,
>)
    ensures
        if status != 200 {
            http_error(out, status, body@)
        } else {
            match parsed {
                Some(name) => match state_named(name@) {
                    Some(state) => out == Ok::<_, RvError>(state),
                    None => parse_error(out, "status state"@, body@),
                },
                None => parse_error(out, "status"@, body@),
            }
        },
{
    if status != 200 {
        return Err(RvError::Http { status, body });
    }
    match parsed {
        Some(name) => match PairState::from_str(name.as_str()) {
            Some(state) => Ok(state),
            None => Err(RvError::Parse { kind: "status state", body }),
        },
        None => Err(RvError::Parse { kind: "status", body }),
    }
}

/// The outcome of a health check: the server must answer `ok`, give or take white space.
pub fn health_answer(status: u16, body: String) -> (out: Result<(), RvError>)
    ensures
        if status == 200 && trimmed(body@) == "ok"@ {
            out is Ok
        } else {
            http_error(out, status, body@)
        },
{
    if status == 200 && same_text(trim(body.as_str()).as_str(), "ok") {
        Ok(())
    } else {
        Err(RvError::Http { status, body })
    }
}

/// The outcome of an exchange over HTTP: the response, taken apart.
pub fn response_outcome(bytes: &Vec<u8>) -> (out: Result<(u16, String), RvError>)
    ensures
        response_read(lossy_text(bytes@), out),
{
    parse_response(decode_lossy(bytes.as_slice()).as_str())
}

/// What a broker may send while a claim waits for its ticket.
#[derive(Debug)]
pub enum BrokerEvent {
    /// A message on the subscribed topic.
    Message(Vec<u8>),
    /// The connection was acknowledged; whether the broker knew the session.
    Connected { session_present: bool },
    /// Something else.
    Other,
    /// The connection failed, and why.
    Failed(String),
}

/// What a claim does next.
#[derive(Debug)]
pub enum ClaimWait {
    /// Wait for the next event.
    Wait,
    /// Subscribe again: the broker has forgotten the subscription.
    Subscribe,
    /// The ticket; the mailbox is to be cleared.
    Ticket(String),
}

/// What a claim does on an event. An empty message means that there is no ticket yet; a
/// connection without a session has lost its subscription.
pub open spec fn claim_goes_on(event: BrokerEvent, next: Result<ClaimWait, RvError>) -> bool {
    match event {
        BrokerEvent::Message(payload) => if payload@.len() == 0 {
            next matches Ok(ClaimWait::Wait)
        } else if vstd::utf8::valid_utf8(payload@) {
            next matches Ok(ClaimWait::Ticket(ticket)) && ticket@ == vstd::utf8::decode_utf8(
                payload@,
            )
        } else {
            parse_error(next, "ticket"@, lossy_text(payload@))
        },
        BrokerEvent::Connected { session_present } => if session_present {
            next matches Ok(ClaimWait::Wait)
        } else {
            next matches Ok(ClaimWait::Subscribe)
        },
        BrokerEvent::Other => next matches Ok(ClaimWait::Wait),
        BrokerEvent::Failed(reason) => next matches Err(RvError::Mqtt { detail }) && detail
            == reason,
    }
}

/// What a claim does on an event.
pub fn claim_event(event: BrokerEvent) -> (next: Result<ClaimWait, RvError>)
    ensures
        claim_goes_on(event, next),
{
    match event {
        BrokerEvent::Message(payload) => {
            if payload.len() == 0 {
                return Ok(ClaimWait::Wait);
            }
            let shown = decode_lossy(payload.as_slice());
            match decode_strict(payload) {
                Some(ticket) => Ok(ClaimWait::Ticket(ticket)),
                None => Err(RvError::Parse { kind: "ticket", body: shown }),
            }
        },
        BrokerEvent::Connected { session_present } => {
            if session_present {
                Ok(ClaimWait::Wait)
            } else {
                Ok(ClaimWait::Subscribe)
            }
        },
        BrokerEvent::Other => Ok(ClaimWait::Wait),
        BrokerEvent::Failed(detail) => Err(RvError::Mqtt { detail }),
    }
}

/// What the sender leaves at a broker under a code is what the receiver gets with that code: both
/// go to the same topic of the same broker, and the message that was left is the ticket.
pub proof fn published_ticket_is_claimed(
    sender: RvClient,
    receiver: RvClient,
    ticket: Seq<char>,
    nameplate: u32,
    words: Seq<char>,
    retained: RetainStep,
    claimed: ClaimStep,
    message: Vec<u8>,
    next: Result<ClaimWait, RvError>,
)
    requires
        sender.way() is Mqtt,
        receiver.way() is Mqtt,
        sender.origin() == receiver.origin(),
        sender.publish_says(ticket, nameplate, words, Ok(retained)),
        receiver.claim_says(nameplate, words, Ok(claimed)),
        retained matches RetainStep::Retain { payload, .. } && message@ == vstd::utf8::encode_utf8(
            payload@,
        ),
        claim_goes_on(BrokerEvent::Message(message), next),
    ensures
        match (retained, claimed) {
            (
                RetainStep::Retain { broker: left_at, topic: left_under, .. },
                ClaimStep::Subscribe { broker, topic },
            ) => {
                &&& left_under@ == topic@
                &&& left_at.hostname@ == broker.hostname@
                &&& left_at.port == broker.port
                &&& left_at.use_tls == broker.use_tls
            },
            _ => false,
        },
        next matches Ok(ClaimWait::Ticket(got)) && got@ == ticket,
{
    vstd::utf8::encode_utf8_valid_utf8(ticket);
    vstd::utf8::encode_utf8_decode_utf8(ticket);
    if ticket.len() == 0 {
        assert(ticket =~= Seq::empty());
        assert(trimmed(ticket).len() == 0);
    }
    if message@.len() == 0 {
        assert(vstd::utf8::decode_utf8(message@).len() == 0);
    }
}

/// Over HTTP the words of a code never leave the client: two claims of one nameplate send the same
/// request, whatever the words.
pub proof fn words_never_reach_the_server(
    client: RvClient,
    nameplate: u32,
    words: Seq<char>,
    other: Seq<char>,
    a: HttpRequest,
    b: HttpRequest,
)
    requires
        client.way() is Http,
        client.claim_says(nameplate, words, Ok(ClaimStep::Ask(a))),
        client.claim_says(nameplate, other, Ok(ClaimStep::Ask(b))),
    ensures
        a.text@ == b.text@,
        a.endpoint.hostname@ == b.endpoint.hostname@,
        a.endpoint.port == b.endpoint.port,
        a.endpoint.host@ == b.endpoint.host@,
        a.endpoint.use_tls == b.endpoint.use_tls,
{
}

} // verus!

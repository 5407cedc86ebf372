//! Laws of talking to the rendezvous: requests, answers and topics.
use vstd::prelude::*;

use crate::laws::server::{blank, blanks};
use crate::laws::text::{first_is_first, trim_cuts};
use crate::pairing::handshake::hex_text;
use crate::rendezvous_client::{
    allocation_answer, argon2id, blank_line_at, broker_endpoint, check_ticket, claim_answer,
    claim_event, derive_topic, first_blank_line, first_line, health_answer, http_endpoint,
    http_request, json_inside, lossy_text, mailbox_topic, parse_response, picked_nameplate,
    second_word, skip_white, status_answer, status_of, url_parse, url_result, word_from,
    AllocateStep, Allocation, BrokerEndpoint, BrokerEvent, ClaimStep, ClaimWait, HealthStep,
    HttpEndpoint, HttpRequest, PairState, RetainStep, RvClient, RvError, StatusStep, UrlParts,
    TOPIC_SALT,
};
use crate::text::{
    ascii_lowercase, decimal, decimal_digits, decimal_string, digits_value, find_char, is_digit,
    lowercase, padding_is_trimmed, quoted, trimmed, white_space,
};

verus! {

broadcast use vstd::string::group_string_axioms;

/// Whether the first blank line of a text, as HTTP ends its lines, stands at a position.
pub open spec fn head_ends_at(text: Seq<char>, i: int) -> bool {
    &&& 0 <= i <= text.len() - 4
    &&& text.subrange(i, i + 4) == seq!['\r', '\n', '\r', '\n']
    &&& forall|j: int|
        0 <= j < i ==> #[trigger] text.subrange(j, j + 4) != seq!['\r', '\n', '\r', '\n']
}

proof fn heads(text: Seq<char>, i: int)
    requires
        0 <= i <= text.len() - 4,
    ensures
        text.subrange(i, i + 4) == seq!['\r', '\n', '\r', '\n'] <==> blank_line_at(text, i),
{
    let four = text.subrange(i, i + 4);
    if blank_line_at(text, i) {
        assert(four =~= seq!['\r', '\n', '\r', '\n']);
    }
    if four == seq!['\r', '\n', '\r', '\n'] {
        assert(four[0] == '\r' && four[1] == '\n' && four[2] == '\r' && four[3] == '\n');
    }
}

/// No blank line stands before position `i`: where a carriage return stands there, the two
/// characters behind it are not a line end and another one.
proof fn no_blank_before(text: Seq<char>, i: int)
    requires
        0 <= i <= text.len() - 4,
        blank_line_at(text, i),
        forall|j: int|
            0 <= j < i && #[trigger] text[j] == '\r' ==> text[j + 1] == '\n' && (j + 2 < text.len())
                && (j + 2 < i ==> text[j + 2] != '\r') && j + 2 != i && j + 1 != i,
    ensures
        head_ends_at(text, i),
{
    heads(text, i);
    assert forall|j: int| 0 <= j < i implies #[trigger] text.subrange(j, j + 4) != seq![
        '\r',
        '\n',
        '\r',
        '\n',
    ] by {
        heads(text, j);
        if blank_line_at(text, j) {
            assert(text[j] == '\r');
            assert(text[j + 2] == '\r');
            assert(j + 2 > i);
            assert(j + 1 == i);
        }
    }
}

/// Every request, with a body or without, ends its head with a blank line, which is the first that
/// it holds, and behind it stands exactly the body, or nothing where there is none. That holds
/// wherever neither the method nor the path nor the host holds a carriage return.
pub proof fn a_request_ends_its_head(
    method: &str,
    path: &str,
    host: &str,
    body: Option<&str>,
    text: String,
) -> (i: int)
    requires
        call_ensures(http_request, (method, path, host, body), text),
        !method@.contains('\r'),
        !path@.contains('\r'),
        !host@.contains('\r'),
    ensures
        head_ends_at(text@, i),
        text@.skip(i + 4) == match body {
            Some(body) => body@,
            None => Seq::empty(),
        },
{
    reveal_strlit(" ");
    reveal_strlit(" HTTP/1.1\r\nHost: ");
    reveal_strlit("\r\nConnection: close\r\n");
    reveal_strlit("Content-Type: application/json\r\nContent-Length: ");
    reveal_strlit("\r\n");
    let line = method@ + " "@ + path@ + " HTTP/1.1"@;
    let p0 = (method@ + " "@ + path@).len() as int;
    let host_from = p0 + 17;
    let q0 = host_from + host@.len();
    let head = method@ + " "@ + path@ + " HTTP/1.1\r\nHost: "@ + host@
        + "\r\nConnection: close\r\n"@;
    let whole = text@;
    assert(head.len() == q0 + 21);
    match body {
        None => {
            assert(whole == head + "\r\n"@);
            let i = q0 + 19;
            assert(blank_line_at(whole, i));
            assert forall|j: int| 0 <= j < i && #[trigger] whole[j] == '\r' implies whole[j + 1]
                == '\n' && (j + 2 < whole.len()) && (j + 2 < i ==> whole[j + 2] != '\r') && j + 2
                != i && j + 1 != i by {
                returns_in_head(method@, path@, host@, whole, j);
            }
            no_blank_before(whole, i);
            assert(whole.skip(i + 4) =~= Seq::empty());
            i
        },
        Some(body) => {
            let digits = decimal(vstd::utf8::encode_utf8(body@).len());
            decimal_digits(vstd::utf8::encode_utf8(body@).len());
            let more = "Content-Type: application/json\r\nContent-Length: "@;
            let front = head + more + digits;
            assert(whole == front + "\r\n"@ + "\r\n"@ + body@);
            let i = front.len() as int;
            assert(blank_line_at(whole, i));
            assert(more.len() == 48);
            assert forall|j: int| 0 <= j < i && #[trigger] whole[j] == '\r' implies whole[j + 1]
                == '\n' && (j + 2 < whole.len()) && (j + 2 < i ==> whole[j + 2] != '\r') && j + 2
                != i && j + 1 != i by {
                if j < q0 + 19 {
                    assert(whole[q0 + 21] == more[0]);
                    returns_in_head(method@, path@, host@, whole, j);
                } else if j < head.len() {
                    assert(whole[j] == head[j]);
                    assert(j == q0 + 19);
                    assert(whole[j + 2] == more[0]);
                } else if j < head.len() + more.len() {
                    assert(whole[j] == more[j - head.len()]);
                    assert(j - head.len() == 30);
                } else {
                    assert(whole[j] == digits[j - head.len() - more.len()]);
                    assert(is_digit(digits[j - head.len() - more.len()]));
                }
            }
            no_blank_before(whole, i);
            assert(whole.skip(i + 4) =~= body@);
            i
        },
    }
}

proof fn returns_in_head(method: Seq<char>, path: Seq<char>, host: Seq<char>, whole: Seq<char>, j: int)
    requires
        !method.contains('\r'),
        !path.contains('\r'),
        !host.contains('\r'),
        ({
            let head = method + " "@ + path + " HTTP/1.1\r\nHost: "@ + host
                + "\r\nConnection: close\r\n"@;
            &&& whole.len() > head.len() + 1
            &&& forall|k: int| 0 <= k < head.len() ==> #[trigger] whole[k] == head[k]
            &&& 0 <= j < head.len() - 2
            &&& whole[j] == '\r'
        }),
    ensures
        whole[j + 1] == '\n',
        whole[j + 2] != '\r',
        j + 2 < method.len() + path.len() + host.len() + 37,
{
    reveal_strlit(" ");
    reveal_strlit(" HTTP/1.1\r\nHost: ");
    reveal_strlit("\r\nConnection: close\r\n");
    let a = method.len() as int;
    let b = a + 1 + path.len();
    let c = b + 17;
    let d = c + host.len();
    let head = method + " "@ + path + " HTTP/1.1\r\nHost: "@ + host + "\r\nConnection: close\r\n"@;
    assert(head.len() == d + 21);
    let mid = " HTTP/1.1\r\nHost: "@;
    let end = "\r\nConnection: close\r\n"@;
    if j < a {
        assert(head[j] == method[j]);
        assert(method.contains('\r'));
    } else if j == a {
        assert(head[j] == ' ');
    } else if j < b {
        assert(head[j] == path[j - a - 1]);
        assert(path.contains('\r'));
    } else if j < c {
        assert(head[j] == mid[j - b]);
        assert(j - b == 9);
        assert(head[j + 1] == mid[10] && head[j + 2] == mid[11]);
    } else if j < d {
        assert(head[j] == host[j - c]);
        assert(host.contains('\r'));
    } else {
        assert(head[j] == end[j - d]);
        assert(j - d == 0);
        assert(head[j + 1] == end[1] && head[j + 2] == end[2]);
    }
}

/// A request names its method, its path and the host, and says that the connection is not kept. A
/// body is announced as JSON and by the number of its bytes; nothing else stands in the head.
pub proof fn a_request_says_what_it_asks(
    method: &str,
    path: &str,
    host: &str,
    body: Option<&str>,
    text: String,
)
    requires
        call_ensures(http_request, (method, path, host, body), text),
    ensures
        ({
            let head = method@ + " "@ + path@ + " HTTP/1.1\r\nHost: "@ + host@
                + "\r\nConnection: close\r\n"@;
            match body {
                Some(body) => text@ == head + "Content-Type: application/json\r\nContent-Length: "@
                    + decimal(vstd::utf8::encode_utf8(body@).len()) + "\r\n"@ + "\r\n"@ + body@,
                None => text@ == head + "\r\n"@,
            }
        }),
{
}

/// Whether a request asks for something without a body: it names the method, the path and the
/// host, says that the connection is not kept, and ends.
pub open spec fn asks(request: HttpRequest, method: Seq<char>, path: Seq<char>) -> bool {
    request.text@ == method + " "@ + path + " HTTP/1.1\r\nHost: "@ + request.endpoint.host@
        + "\r\nConnection: close\r\n"@ + "\r\n"@
}

/// Over HTTP a claim posts to the nameplate's claim, a question gets its status, and a check gets
/// the health, each as a request without a body.
pub proof fn each_request_goes_to_its_path(
    client: &RvClient,
    nameplate: u32,
    words: &str,
    claim: HttpRequest,
    status: HttpRequest,
    health: HttpRequest,
    number: String,
)
    requires
        call_ensures(
            RvClient::claim,
            (client, nameplate, words),
            Ok::<_, RvError>(ClaimStep::Ask(claim)),
        ),
        call_ensures(
            RvClient::status,
            (client, nameplate),
            Ok::<_, RvError>(StatusStep::Ask(status)),
        ),
        call_ensures(RvClient::health, (client,), Ok::<_, RvError>(HealthStep::Ask(health))),
        call_ensures(decimal_string, (nameplate as u64,), number),
    ensures
        asks(claim, "POST"@, "/v1/pairs/"@ + number@ + "/claim"@),
        asks(status, "GET"@, "/v1/pairs/"@ + number@ + "/status"@),
        asks(health, "GET"@, "/health"@),
{
}

/// A character that stands in a JSON string as it is.
pub open spec fn plain_json(c: char) -> bool {
    c as u32 >= 32 && c != '"' && c != '\\'
}

proof fn plain_inside(text: Seq<char>)
    requires
        forall|i: int| 0 <= i < text.len() ==> plain_json(#[trigger] text[i]),
    ensures
        json_inside(text) == text,
    decreases text.len(),
{
    if text.len() > 0 {
        let front = text.drop_last();
        assert(forall|i: int| 0 <= i < front.len() ==> front[i] == text[i]);
        plain_inside(front);
        assert(plain_json(text[text.len() - 1]));
        assert(front + seq![text.last()] =~= text);
    } else {
        assert(json_inside(text) =~= text);
    }
}

/// Over HTTP an allocation posts the ticket as JSON, with the length of exactly that body. A ticket
/// of plain characters stands in it as it is.
pub proof fn an_allocation_posts_the_ticket(client: &RvClient, ticket: &str, request: HttpRequest)
    requires
        call_ensures(
            RvClient::allocate,
            (client, ticket),
            Ok::<_, RvError>(AllocateStep::Ask(request)),
        ),
    ensures
        ({
            let body = "{\"ticket\":\""@ + json_inside(ticket@) + "\"}"@;
            request.text@ == "POST"@ + " "@ + "/v1/pairs"@ + " HTTP/1.1\r\nHost: "@
                + request.endpoint.host@ + "\r\nConnection: close\r\n"@
                + "Content-Type: application/json\r\nContent-Length: "@ + decimal(
                vstd::utf8::encode_utf8(body).len(),
            ) + "\r\n"@ + "\r\n"@ + body
        }),
        (forall|i: int| 0 <= i < ticket@.len() ==> plain_json(#[trigger] ticket@[i]))
            ==> json_inside(ticket@) == ticket@,
{
    reveal_strlit("{\"ticket\":\"");
    reveal_strlit("{\"ticket\":");
    reveal_strlit("\"}");
    reveal_strlit("}");
    let body = "{\"ticket\":\""@ + json_inside(ticket@) + "\"}"@;
    assert(body =~= crate::rendezvous_client::ticket_body(ticket@));
    if forall|i: int| 0 <= i < ticket@.len() ==> plain_json(#[trigger] ticket@[i]) {
        plain_inside(ticket@);
    }
}

/// Two descriptions of where a request goes that say the same.
pub open spec fn same_origin(a: HttpEndpoint, b: HttpEndpoint) -> bool {
    &&& a.hostname@ == b.hostname@
    &&& a.port == b.port
    &&& a.host@ == b.host@
    &&& a.use_tls == b.use_tls
}

/// Two descriptions of where a broker is that say the same.
pub open spec fn same_broker(a: BrokerEndpoint, b: BrokerEndpoint) -> bool {
    &&& a.hostname@ == b.hostname@
    &&& a.port == b.port
    &&& a.use_tls == b.use_tls
}

/// Two refusals of a URL that say the same.
pub open spec fn same_refusal(a: RvError, b: RvError) -> bool {
    match (a, b) {
        (RvError::BadUrl { url: x, reason: r }, RvError::BadUrl { url: y, reason: s }) => x@ == y@
            && r@ == s@,
        _ => false,
    }
}

/// Over HTTP every request goes to the origin that the base URL names, and is refused exactly if
/// the base URL names none, for the same reason.
pub proof fn requests_go_to_the_origin(
    client: &RvClient,
    base: &str,
    parsed: Result<UrlParts, String>,
    endpoint: Result<HttpEndpoint, RvError>,
    ticket: &str,
    nameplate: u32,
    words: &str,
    allocate: Result<AllocateStep, RvError>,
    claim: Result<ClaimStep, RvError>,
    status: Result<StatusStep, RvError>,
    health: Result<HealthStep, RvError>,
)
    requires
        client.way() is Http,
        base@ == client.origin(),
        url_result(parsed) == url_parse(base@),
        call_ensures(http_endpoint, (base, parsed), endpoint),
        call_ensures(RvClient::allocate, (client, ticket), allocate),
        call_ensures(RvClient::claim, (client, nameplate, words), claim),
        call_ensures(RvClient::status, (client, nameplate), status),
        call_ensures(RvClient::health, (client,), health),
    ensures
        match endpoint {
            Ok(origin) => {
                &&& allocate matches Ok(AllocateStep::Ask(r)) && same_origin(r.endpoint, origin)
                &&& claim matches Ok(ClaimStep::Ask(r)) && same_origin(r.endpoint, origin)
                &&& status matches Ok(StatusStep::Ask(r)) && same_origin(r.endpoint, origin)
                &&& health matches Ok(HealthStep::Ask(r)) && same_origin(r.endpoint, origin)
            },
            Err(why) => {
                &&& allocate matches Err(e) && same_refusal(e, why)
                &&& claim matches Err(e) && same_refusal(e, why)
                &&& status matches Err(e) && same_refusal(e, why)
                &&& health matches Err(e) && same_refusal(e, why)
            },
        },
{
}

/// With a broker, leaving, claiming and taking away a ticket goes to the broker that the base URL
/// names, and is refused exactly if it names none, or if the ticket is not fit to be left; a
/// nameplate is picked, and its state counts as pending.
pub proof fn messages_go_to_the_broker(
    client: &RvClient,
    base: &str,
    parsed: Result<UrlParts, String>,
    endpoint: Result<BrokerEndpoint, RvError>,
    ticket: &str,
    fit: Result<(), RvError>,
    nameplate: u32,
    words: &str,
    allocate: Result<AllocateStep, RvError>,
    publish: Result<RetainStep, RvError>,
    claim: Result<ClaimStep, RvError>,
    cleanup: Result<RetainStep, RvError>,
    status: Result<StatusStep, RvError>,
    health: Result<HealthStep, RvError>,
)
    requires
        client.way() is Mqtt,
        base@ == client.origin(),
        url_result(parsed) == url_parse(base@),
        call_ensures(broker_endpoint, (base, parsed), endpoint),
        call_ensures(check_ticket, (ticket,), fit),
        call_ensures(RvClient::allocate, (client, ticket), allocate),
        call_ensures(RvClient::publish, (client, ticket, nameplate, words), publish),
        call_ensures(RvClient::claim, (client, nameplate, words), claim),
        call_ensures(RvClient::cleanup, (client, nameplate, words), cleanup),
        call_ensures(RvClient::status, (client, nameplate), status),
        call_ensures(RvClient::health, (client,), health),
    ensures
        allocate matches Ok(AllocateStep::Pick),
        status matches Ok(StatusStep::Known(PairState::Pending)),
        fit matches Err(RvError::InvalidTicket { detail: why }) ==> (publish matches Err(
            RvError::InvalidTicket { detail },
        ) && detail@ == why@),
        match endpoint {
            Ok(broker) => {
                &&& fit is Ok ==> (publish matches Ok(RetainStep::Retain { broker: b, .. })
                    && same_broker(b, broker))
                &&& claim matches Ok(ClaimStep::Subscribe { broker: b, .. }) && same_broker(
                    b,
                    broker,
                )
                &&& cleanup matches Ok(RetainStep::Retain { broker: b, .. }) && same_broker(
                    b,
                    broker,
                )
                &&& health matches Ok(HealthStep::Connect(b)) && same_broker(b, broker)
            },
            Err(why) => {
                &&& fit is Ok ==> (publish matches Err(e) && same_refusal(e, why))
                &&& claim matches Err(e) && same_refusal(e, why)
                &&& cleanup matches Err(e) && same_refusal(e, why)
                &&& health matches Err(e) && same_refusal(e, why)
            },
        },
{
}

/// A client whose base URL is of no use refuses everything, with that URL and what is wrong with
/// it.
pub proof fn no_way_refuses_everything(
    base: &str,
    parsed: Result<UrlParts, String>,
    client: RvClient,
    ticket: &str,
    nameplate: u32,
    words: &str,
    allocate: Result<AllocateStep, RvError>,
    publish: Result<RetainStep, RvError>,
    claim: Result<ClaimStep, RvError>,
    cleanup: Result<RetainStep, RvError>,
    status: Result<StatusStep, RvError>,
    health: Result<HealthStep, RvError>,
) -> (why: RvError)
    requires
        call_ensures(RvClient::with_url, (base, parsed), client),
        client.way() is Invalid,
        call_ensures(RvClient::allocate, (&client, ticket), allocate),
        call_ensures(RvClient::publish, (&client, ticket, nameplate, words), publish),
        call_ensures(RvClient::claim, (&client, nameplate, words), claim),
        call_ensures(RvClient::cleanup, (&client, nameplate, words), cleanup),
        call_ensures(RvClient::status, (&client, nameplate), status),
        call_ensures(RvClient::health, (&client,), health),
    ensures
        why matches RvError::BadUrl { url, reason } && url@ == base@ && reason@ == match parsed {
            Err(reason) => "cannot parse as a URL: "@ + reason@,
            Ok(parts) => "unsupported scheme "@ + quoted(parts.scheme@)
                + " (http, https, mqtt or mqtts only)"@,
        },
        allocate matches Err(e) && same_refusal(e, why),
        publish matches Err(e) && same_refusal(e, why),
        claim matches Err(e) && same_refusal(e, why),
        cleanup matches Err(e) && same_refusal(e, why),
        status matches Err(e) && same_refusal(e, why),
        health matches Err(e) && same_refusal(e, why),
{
    allocate->Err_0
}

/// Words can be hashed into a topic as long as nameplate, hyphen and words take no more than
/// 4294967295 bytes. Where they can, the checked operations do what the others do; where they
/// cannot, nothing is sent to a broker, and over HTTP the words make no difference.
pub proof fn only_words_that_are_too_long_are_left_out(
    client: &RvClient,
    ticket: &str,
    nameplate: u32,
    words: &str,
    number: String,
    topic: Option<String>,
    publish: Option<Result<RetainStep, RvError>>,
    claim: Option<Result<ClaimStep, RvError>>,
    cleanup: Option<Result<RetainStep, RvError>>,
)
    requires
        call_ensures(mailbox_topic, (nameplate, words), topic),
        call_ensures(decimal_string, (nameplate as u64,), number),
        call_ensures(RvClient::publish_checked, (client, ticket, nameplate, words), publish),
        call_ensures(RvClient::claim_checked, (client, nameplate, words), claim),
        call_ensures(RvClient::cleanup_checked, (client, nameplate, words), cleanup),
    ensures
        topic is Some <==> vstd::utf8::encode_utf8(
            number@ + "-"@ + lowercase(trimmed(words@)),
        ).len() <= 4294967295,
        publish is None <==> claim is None,
        claim is None <==> client.way() is Mqtt && topic is None,
        cleanup is None <==> client.way() is Mqtt && topic is None,
        publish matches Some(Ok(step)) ==> match step {
            RetainStep::Nothing => client.way() is Http,
            RetainStep::Retain { topic: t, payload, .. } => client.way() is Mqtt && topic->0@ == t@
                && payload@ == ticket@,
        },
        claim matches Some(Ok(step)) ==> match step {
            ClaimStep::Ask(request) => client.way() is Http && asks(
                request,
                "POST"@,
                "/v1/pairs/"@ + number@ + "/claim"@,
            ),
            ClaimStep::Subscribe { topic: t, .. } => client.way() is Mqtt && topic->0@ == t@,
        },
        cleanup matches Some(Ok(step)) ==> match step {
            RetainStep::Nothing => client.way() is Http,
            RetainStep::Retain { topic: t, payload, .. } => client.way() is Mqtt && topic->0@ == t@
                && payload@.len() == 0,
        },
{
}

/// The words of a code stay with the client over HTTP: a request is the same whatever they are,
/// and there is nothing to publish or to take away.
pub proof fn words_stay_with_the_client(
    client: &RvClient,
    nameplate: u32,
    words: &str,
    other: &str,
    ticket: &str,
    a: ClaimStep,
    b: ClaimStep,
    publish: Result<RetainStep, RvError>,
    cleanup: Result<RetainStep, RvError>,
)
    requires
        client.way() is Http,
        call_ensures(RvClient::claim, (client, nameplate, words), Ok::<_, RvError>(a)),
        call_ensures(RvClient::claim, (client, nameplate, other), Ok::<_, RvError>(b)),
        call_ensures(RvClient::publish, (client, ticket, nameplate, words), publish),
        call_ensures(RvClient::cleanup, (client, nameplate, words), cleanup),
    ensures
        match (a, b) {
            (ClaimStep::Ask(x), ClaimStep::Ask(y)) => x.text@ == y.text@ && x.endpoint.hostname@
                == y.endpoint.hostname@ && x.endpoint.port == y.endpoint.port,
            _ => false,
        },
        publish matches Ok(RetainStep::Nothing),
        cleanup matches Ok(RetainStep::Nothing),
{
}

/// Through a broker the ticket is left, claimed and taken away under one topic: what is left there
/// is the ticket, and taking it away leaves an empty message.
pub proof fn one_topic_for_one_code(
    client: &RvClient,
    nameplate: u32,
    words: &str,
    ticket: &str,
    publish: RetainStep,
    claim: ClaimStep,
    cleanup: RetainStep,
)
    requires
        client.way() is Mqtt,
        call_ensures(
            RvClient::publish,
            (client, ticket, nameplate, words),
            Ok::<_, RvError>(publish),
        ),
        call_ensures(RvClient::claim, (client, nameplate, words), Ok::<_, RvError>(claim)),
        call_ensures(RvClient::cleanup, (client, nameplate, words), Ok::<_, RvError>(cleanup)),
    ensures
        match (publish, claim, cleanup) {
            (
                RetainStep::Retain { broker: x, topic: a, payload },
                ClaimStep::Subscribe { broker: y, topic: b },
                RetainStep::Retain { broker: z, topic: c, payload: nothing },
            ) => {
                &&& a@ == b@ && b@ == c@
                &&& x.hostname@ == y.hostname@ && y.hostname@ == z.hostname@
                &&& x.port == y.port && y.port == z.port
                &&& x.use_tls == y.use_tls && y.use_tls == z.use_tls
                &&& payload@ == ticket@
                &&& nothing@.len() == 0
            },
            _ => false,
        },
{
}

proof fn lowered(text: Seq<char>)
    requires
        forall|i: int| 0 <= i < text.len() ==> !('A' <= #[trigger] text[i] <= 'Z'),
    ensures
        ascii_lowercase(text) == text,
{
    assert(ascii_lowercase(text) =~= text);
}

/// The topic of a code is the prefix and the hexadecimal digits of what Argon2id makes of the
/// nameplate, a hyphen and the words in lower case, with the salt of this protocol.
pub proof fn a_topic_is_hashed_from_nameplate_and_words(
    nameplate: u32,
    words: &str,
    topic: String,
    number: String,
)
    requires
        call_ensures(derive_topic, (nameplate, words), topic),
        call_ensures(decimal_string, (nameplate as u64,), number),
        words@.len() > 0,
        vstd::utf8::is_ascii_chars(words@),
        !white_space(words@[0]),
        !white_space(words@.last()),
        forall|i: int| 0 <= i < words@.len() ==> !('A' <= #[trigger] words@[i] <= 'Z'),
    ensures
        topic@ == "worddrop/v1/"@ + hex_text(
            argon2id(vstd::utf8::encode_utf8(number@ + "-"@ + words@), TOPIC_SALT@),
        ),
        TOPIC_SALT@ == seq![
            0x77u8, 0x6f, 0x72, 0x64, 0x64, 0x72, 0x6f, 0x70, 0x2d, 0x6d, 0x61, 0x69, 0x6c, 0x62,
            0x6f, 0x78, 0x2d, 0x76, 0x31,
        ],
{
    let none = Seq::<char>::empty();
    padding_is_trimmed(none, words@, none);
    assert(none + words@ + none =~= words@);
    lowered(words@);
    assert(TOPIC_SALT@ =~= seq![
        0x77u8, 0x6f, 0x72, 0x64, 0x64, 0x72, 0x6f, 0x70, 0x2d, 0x6d, 0x61, 0x69, 0x6c, 0x62, 0x6f,
        0x78, 0x2d, 0x76, 0x31,
    ]);
}

/// Words that differ only in the case of their letters and in the white space around them share a
/// topic.
pub proof fn case_and_white_space_share_a_topic(
    nameplate: u32,
    words: &str,
    topic: String,
    other: &str,
    shared: String,
    before: Seq<char>,
    core: Seq<char>,
    after: Seq<char>,
)
    requires
        call_ensures(derive_topic, (nameplate, words), topic),
        call_ensures(derive_topic, (nameplate, other), shared),
        words@.len() > 0,
        vstd::utf8::is_ascii_chars(words@),
        !white_space(words@[0]),
        !white_space(words@.last()),
        vstd::utf8::is_ascii_chars(core),
        other@ == before + core + after,
        core.len() == words@.len(),
        forall|i: int|
            0 <= i < core.len() ==> #[trigger] core[i] == words@[i] || ('A' <= core[i] <= 'Z'
                && words@[i] as u32 == core[i] as u32 + 32),
        forall|i: int| 0 <= i < before.len() ==> white_space(#[trigger] before[i]),
        forall|i: int| 0 <= i < after.len() ==> white_space(#[trigger] after[i]),
    ensures
        topic@ == shared@,
{
    let none = Seq::<char>::empty();
    padding_is_trimmed(none, words@, none);
    assert(none + words@ + none =~= words@);
    assert(core[0] == words@[0] || 'A' <= core[0] <= 'Z');
    assert(core[core.len() - 1] == words@[core.len() - 1] || 'A' <= core[core.len() - 1] <= 'Z');
    padding_is_trimmed(before, core, after);
    assert(ascii_lowercase(core) =~= ascii_lowercase(words@));
}

/// A ticket is worth sending exactly if the server would take it.
pub proof fn only_a_fit_ticket_is_sent(ticket: &str, outcome: Result<(), RvError>)
    requires
        call_ensures(check_ticket, (ticket,), outcome),
    ensures
        outcome is Ok <==> !blank(ticket@) && vstd::utf8::encode_utf8(ticket@).len() <= 4096,
        outcome matches Err(error) ==> (error matches RvError::InvalidTicket { detail } && detail@
            == if blank(ticket@) {
            "ticket must not be empty"@
        } else {
            "ticket is too large"@
        }),
{
    blanks(ticket@);
}

/// The scheme of the base URL decides about the way: HTTP, a broker, or none.
pub proof fn the_scheme_decides_about_the_way(
    base: &str,
    parsed: Result<UrlParts, String>,
    client: RvClient,
)
    requires
        call_ensures(RvClient::with_url, (base, parsed), client),
    ensures
        client.origin() == base@,
        client.way() is Http <==> (parsed matches Ok(parts) && (parts.scheme@ == "http"@
            || parts.scheme@ == "https"@)),
        client.way() is Mqtt <==> (parsed matches Ok(parts) && (parts.scheme@ == "mqtt"@
            || parts.scheme@ == "mqtts"@)),
{
    reveal_strlit("http");
    reveal_strlit("https");
    reveal_strlit("mqtt");
    reveal_strlit("mqtts");
    assert("http"@[0] == 'h' && "mqtt"@[0] == 'm');
    assert("https"@[0] == 'h' && "mqtts"@[0] == 'm');
}

/// A request goes to the host and the port of its URL, encrypted exactly for `https`, and names
/// the host as the URL does: with a port where the URL gives one.
pub proof fn a_request_goes_where_its_url_says(
    base: &str,
    parts: UrlParts,
    endpoint: Result<HttpEndpoint, RvError>,
    port: u16,
    text: String,
)
    requires
        call_ensures(http_endpoint, (base, Ok::<_, String>(parts)), endpoint),
        call_ensures(decimal_string, (port as u64,), text),
    ensures
        endpoint is Ok <==> (parts.scheme@ == "http"@ || parts.scheme@ == "https"@) && parts.host
            is Some && parts.known_port is Some,
        endpoint matches Ok(e) ==> {
            &&& e.hostname@ == parts.host->0@
            &&& e.port == parts.known_port->0
            &&& e.use_tls <==> parts.scheme@ == "https"@
            &&& parts.port is None ==> e.host@ == parts.host->0@
            &&& parts.port == Some(port) ==> e.host@ == parts.host->0@ + ":"@ + text@
        },
        endpoint matches Err(error) ==> (error matches RvError::BadUrl { url, reason } && url@
            == base@ && reason@ == if parts.scheme@ != "http"@ && parts.scheme@ != "https"@ {
            "unsupported scheme "@ + quoted(parts.scheme@) + " (http or https only)"@
        } else if parts.host is None {
            "missing host"@
        } else {
            "missing port"@
        }),
{
}

/// A broker is where its URL says, encrypted exactly for `mqtts`; where the URL gives no port it
/// is the usual one.
pub proof fn a_broker_is_where_its_url_says(
    base: &str,
    parts: UrlParts,
    endpoint: Result<BrokerEndpoint, RvError>,
)
    requires
        call_ensures(broker_endpoint, (base, Ok::<_, String>(parts)), endpoint),
    ensures
        endpoint is Ok <==> (parts.scheme@ == "mqtt"@ || parts.scheme@ == "mqtts"@) && parts.host
            is Some,
        endpoint matches Ok(e) ==> {
            &&& e.hostname@ == parts.host->0@
            &&& e.use_tls <==> parts.scheme@ == "mqtts"@
            &&& parts.port matches Some(port) ==> e.port == port
            &&& parts.port is None ==> e.port == if e.use_tls {
                8883u16
            } else {
                1883u16
            }
        },
        endpoint matches Err(error) ==> (error matches RvError::BadUrl { url, reason } && url@
            == base@ && reason@ == if parts.scheme@ != "mqtt"@ && parts.scheme@ != "mqtts"@ {
            "unsupported scheme "@ + quoted(parts.scheme@) + " (mqtt or mqtts only)"@
        } else {
            "missing host"@
        }),
{
}

/// A URL that does not parse leads nowhere, for the reason that the parser gives.
pub proof fn a_bad_url_leads_nowhere(
    base: &str,
    why: String,
    origin: Result<HttpEndpoint, RvError>,
    broker: Result<BrokerEndpoint, RvError>,
)
    requires
        call_ensures(http_endpoint, (base, Err::<UrlParts, _>(why)), origin),
        call_ensures(broker_endpoint, (base, Err::<UrlParts, _>(why)), broker),
    ensures
        origin matches Err(RvError::BadUrl { url, reason }) && url@ == base@ && reason@ == why@,
        broker matches Err(RvError::BadUrl { url, reason }) && url@ == base@ && reason@ == why@,
{
}

proof fn word_is(line: Seq<char>, i: int, word: Seq<char>)
    requires
        0 <= i,
        i + word.len() <= line.len(),
        line.subrange(i, i + word.len()) == word,
        forall|k: int| 0 <= k < word.len() ==> !white_space(#[trigger] word[k]),
        i + word.len() == line.len() || white_space(line[i + word.len()]),
    ensures
        word_from(line, i) == word,
    decreases word.len(),
{
    if word.len() == 0 {
        assert(word_from(line, i) =~= word);
    } else {
        let rest = word.drop_first();
        assert(line[i] == line.subrange(i, i + word.len())[0]);
        assert(line.subrange(i + 1, i + 1 + rest.len()) =~= line.subrange(
            i,
            i + word.len(),
        ).drop_first());
        assert(forall|k: int| 0 <= k < rest.len() ==> rest[k] == word[k + 1]);
        assert(!white_space(word[0]));
        word_is(line, i + 1, rest);
        assert(word_from(line, i) =~= word);
    }
}

/// A response is taken apart at its first blank line: the number behind the protocol is the
/// status, and what follows the blank line is the body.
pub proof fn a_response_is_status_and_body(
    text: &str,
    out: Result<(u16, String), RvError>,
    protocol: Seq<char>,
    status: u16,
    number: String,
    tail: Seq<char>,
    body: Seq<char>,
)
    requires
        call_ensures(parse_response, (text,), out),
        call_ensures(decimal_string, (status as u64,), number),
        protocol.len() > 0,
        forall|i: int| 0 <= i < protocol.len() ==> !white_space(#[trigger] protocol[i]),
        tail.len() == 0 || white_space(tail[0]),
        text@ == protocol + seq![' '] + number@ + tail + seq!['\r', '\n', '\r', '\n'] + body,
        head_ends_at(text@, (protocol + seq![' '] + number@ + tail).len() as int),
    ensures
        out matches Ok((got, rest)) && got == status && rest@ == body,
{
    let head = protocol + seq![' '] + number@ + tail;
    let i = head.len() as int;
    heads(text@, i);
    assert forall|j: int| 0 <= j < i implies !#[trigger] blank_line_at(text@, j) by {
        if blank_line_at(text@, j) {
            heads(text@, j);
        }
    }
    assert(first_blank_line(text@, i));
    assert(text@.take(i) =~= head);
    assert(text@.skip(i + 4) =~= body);
    decimal_digits(status as nat);
    let digits = number@;
    let line = first_line(head);
    let cut = find_char(head, '\n');
    first_is_first(head, '\n');
    let start = protocol.len() + 1 + digits.len();
    assert forall|k: int| 0 <= k < start implies head[k] != '\n' by {
        if k < protocol.len() {
            assert(head[k] == protocol[k]);
            assert(!white_space(protocol[k]));
        } else if k > protocol.len() {
            assert(head[k] == digits[k - protocol.len() - 1]);
            assert(is_digit(digits[k - protocol.len() - 1]));
        }
    }
    assert(cut >= start);
    assert(forall|k: int| 0 <= k < cut ==> line[k] == head[k]);
    assert(line.subrange(0, protocol.len() as int) =~= protocol);
    assert(line[protocol.len() as int] == ' ');
    assert(line[0] == protocol[0] && !white_space(protocol[0]));
    assert(skip_white(line, 0) == 0);
    word_is(line, 0, protocol);
    let p = protocol.len() as int;
    assert(line[p + 1] == digits[0]);
    assert(is_digit(digits[0]));
    assert(skip_white(line, p + 1) == p + 1);
    assert(skip_white(line, p) == p + 1);
    assert(line.subrange(p + 1, p + 1 + digits.len()) =~= digits);
    assert forall|k: int| 0 <= k < digits.len() implies !white_space(#[trigger] digits[k]) by {
        assert(is_digit(digits[k]));
    }
    if p + 1 + digits.len() < line.len() {
        assert(line[p + 1 + digits.len()] == tail[0]);
    }
    word_is(line, p + 1, digits);
    assert(second_word(line) == digits);
    assert(is_digit(digits[0]) && digits[0] != '+');
    assert(status_of(head) == Some(status as int));
    match out {
        Ok((got, rest)) => {
            let at = choose|at: int| #[trigger]
                first_blank_line(text@, at) && status_of(text@.take(at)) == Some(got as int)
                    && rest@ == text@.skip(at + 4);
            assert(at == i) by {
                if at < i {
                    assert(!blank_line_at(text@, at));
                }
                if at > i {
                    assert(!blank_line_at(text@, i));
                }
            }
        },
        Err(error) => {
            assert(blank_line_at(text@, i));
            if let RvError::Parse { kind, body: shown } = error {
                let at = choose|at: int| #[trigger]
                    first_blank_line(text@, at) && status_of(text@.take(at)) is None && shown@
                        == text@.take(at);
                assert(at == i) by {
                    if at < i {
                        assert(!blank_line_at(text@, at));
                    }
                    if at > i {
                        assert(!blank_line_at(text@, i));
                    }
                }
            }
        },
    }
}

/// What has no blank line is no response, and is reported as it is.
pub proof fn a_response_needs_a_blank_line(text: &str, out: Result<(u16, String), RvError>)
    requires
        call_ensures(parse_response, (text,), out),
        forall|j: int|
            0 <= j <= text@.len() - 4 ==> #[trigger] text@.subrange(j, j + 4) != seq![
                '\r',
                '\n',
                '\r',
                '\n',
            ],
    ensures
        out matches Err(RvError::Parse { kind, body }) && kind@ == "response head"@ && body@
            == text@,
{
    assert forall|at: int| !#[trigger] blank_line_at(text@, at) by {
        if blank_line_at(text@, at) {
            heads(text@, at);
        }
    }
}

proof fn word_extends(line: Seq<char>, i: int)
    requires
        0 <= i <= line.len(),
    ensures
        ({
            let to = i + word_from(line, i).len();
            &&& to <= line.len()
            &&& word_from(line, i) == line.subrange(i, to)
            &&& forall|k: int| i <= k < to ==> !white_space(#[trigger] line[k])
            &&& to == line.len() || white_space(line[to])
        }),
    decreases line.len() - i,
{
    if i < line.len() && !white_space(line[i]) {
        word_extends(line, i + 1);
        let to = i + word_from(line, i).len();
        assert(line.subrange(i, to) =~= seq![line[i]] + line.subrange(i + 1, to));
    } else {
        assert(line.subrange(i, i) =~= Seq::empty());
    }
}

proof fn white_is_skipped(line: Seq<char>, i: int)
    requires
        0 <= i <= line.len(),
    ensures
        ({
            let to = skip_white(line, i);
            &&& i <= to <= line.len()
            &&& forall|k: int| i <= k < to ==> white_space(#[trigger] line[k])
            &&& to == line.len() || !white_space(line[to])
        }),
    decreases line.len() - i,
{
    if i < line.len() && white_space(line[i]) {
        white_is_skipped(line, i + 1);
    }
}

/// The digits of a word that may start with a plus sign.
pub open spec fn without_plus(word: Seq<char>) -> Seq<char> {
    if word.len() > 0 && word[0] == '+' {
        word.drop_first()
    } else {
        word
    }
}

/// Whether a word is a number of 16 bits: digits, with a plus sign in front or not.
pub open spec fn is_status(word: Seq<char>) -> bool {
    let digits = without_plus(word);
    &&& digits.len() > 0
    &&& forall|k: int| 0 <= k < digits.len() ==> '0' <= #[trigger] digits[k] <= '9'
    &&& digits_value(digits) <= 65535
}

/// The first two words of the first line of a text, which ends at a line feed or at `end`: each
/// from where the white space before it ends to where white space or the end of the line follows.
pub open spec fn first_words(
    text: Seq<char>,
    end: int,
    first: int,
    behind: int,
    from: int,
    to: int,
) -> bool {
    &&& 0 <= first <= behind <= from <= to <= end
    &&& forall|k: int| 0 <= k < to ==> #[trigger] text[k] != '\n'
    &&& forall|k: int| 0 <= k < first ==> white_space(#[trigger] text[k])
    &&& forall|k: int| first <= k < behind ==> !white_space(#[trigger] text[k])
    &&& forall|k: int| behind <= k < from ==> white_space(#[trigger] text[k])
    &&& forall|k: int| from <= k < to ==> !white_space(#[trigger] text[k])
    &&& to == end || white_space(text[to])
    &&& first == behind ==> first == end || text[first] == '\n'
    &&& from == to ==> to == end || text[to] == '\n'
}

/// The status of a response is the second word of its first line, and there is one exactly if this
/// word is a number. A head without such a number is reported as it is.
pub proof fn a_status_is_the_second_word(
    text: &str,
    out: Result<(u16, String), RvError>,
    at: int,
) -> (words: (int, int, int, int))
    requires
        call_ensures(parse_response, (text,), out),
        head_ends_at(text@, at),
    ensures
        first_words(text@, at, words.0, words.1, words.2, words.3),
        ({
            let word = text@.subrange(words.2, words.3);
            if is_status(word) {
                out matches Ok((status, body)) && status == digits_value(without_plus(word))
                    && body@ == text@.skip(at + 4)
            } else {
                out matches Err(RvError::Parse { kind, body }) && kind@ == "status line"@ && body@
                    == text@.take(at)
            }
        }),
{
    heads(text@, at);
    assert forall|j: int| 0 <= j < at implies !#[trigger] blank_line_at(text@, j) by {
        if blank_line_at(text@, j) {
            heads(text@, j);
        }
    }
    assert(first_blank_line(text@, at));
    assert forall|i: int| #[trigger] first_blank_line(text@, i) implies i == at by {
        if i < at {
            assert(!blank_line_at(text@, i));
        }
        if at < i {
            assert(!blank_line_at(text@, at));
        }
    }
    let head = text@.take(at);
    let line = first_line(head);
    first_is_first(head, '\n');
    assert forall|k: int| 0 <= k < line.len() implies line[k] == #[trigger] text@[k] by {}
    let first = skip_white(line, 0);
    white_is_skipped(line, 0);
    word_extends(line, first);
    let behind = first + word_from(line, first).len();
    white_is_skipped(line, behind);
    let from = skip_white(line, behind);
    word_extends(line, from);
    let to = from + word_from(line, from).len();
    if line.len() < at {
        assert(head[line.len() as int] == '\n');
        assert(text@[line.len() as int] == '\n');
        assert(white_space('\n'));
    }
    if from == to && from < line.len() {
        assert(!white_space(line[from]));
    }
    if first == behind && first < line.len() {
        assert(!white_space(line[first]));
    }
    let word = text@.subrange(from, to);
    assert(second_word(line) =~= word);
    let digits = without_plus(word);
    if is_status(word) {
        assert forall|k: int| 0 <= k < digits.len() implies is_digit(#[trigger] digits[k]) by {
            assert('0' <= digits[k] <= '9');
        }
        assert(status_of(head) == Some(digits_value(digits) as int));
    } else if status_of(head) is Some {
        assert forall|k: int| 0 <= k < digits.len() implies '0' <= #[trigger] digits[k] <= '9' by {
            assert(is_digit(digits[k]));
        }
    }
    (first, behind, from, to)
}

/// An answer counts only with the status that it should have: 201 for an allocation, 200 for a
/// claim, a question and a check; any other comes out with its status and its body.
pub proof fn answers_count_by_their_status(
    status: u16,
    body: String,
    allocation: Option<Allocation>,
    allocated: Result<Allocation, RvError>,
    ticket: Option<String>,
    claimed: Result<String, RvError>,
    name: Option<String>,
    state: Result<PairState, RvError>,
    health: Result<(), RvError>,
)
    requires
        call_ensures(allocation_answer, (status, body, allocation), allocated),
        call_ensures(claim_answer, (status, body, ticket), claimed),
        call_ensures(status_answer, (status, body, name), state),
        call_ensures(health_answer, (status, body), health),
    ensures
        allocated is Ok <==> status == 201 && allocation is Some,
        allocated matches Ok(a) ==> allocation == Some(a),
        status != 201 ==> (allocated matches Err(RvError::Http { status: s, body: b }) && s == status
            && b@ == body@),
        status == 201 && allocation is None ==> (allocated matches Err(
            RvError::Parse { kind, body: b },
        ) && kind@ == "allocate"@ && b@ == body@),
        claimed is Ok <==> status == 200 && ticket is Some,
        status == 200 && ticket is None ==> (claimed matches Err(
            RvError::Parse { kind, body: b },
        ) && kind@ == "claim"@ && b@ == body@),
        claimed matches Ok(t) ==> ticket == Some(t),
        status != 200 ==> (claimed matches Err(RvError::Http { status: s, body: b }) && s == status
            && b@ == body@),
        state is Ok <==> status == 200 && (name matches Some(n) && (n@ == "pending"@ || n@
            == "claimed"@ || n@ == "expired"@)),
        state matches Ok(s) ==> match s {
            PairState::Pending => name->0@ == "pending"@,
            PairState::Claimed => name->0@ == "claimed"@,
            PairState::Expired => name->0@ == "expired"@,
        },
        state is Err && status == 200 ==> (state matches Err(RvError::Parse { kind, body: b })
            && kind@ == (if name is Some {
            "status state"@
        } else {
            "status"@
        }) && b@ == body@),
        status != 200 ==> (state matches Err(RvError::Http { status: s, body: b }) && s == status
            && b@ == body@),
        health is Err ==> (health matches Err(RvError::Http { status: s, body: b }) && s == status
            && b@ == body@),
        health is Ok ==> status == 200,
        status == 200 && body@ == "ok"@ ==> health is Ok,
{
    reveal_strlit("ok");
    let none = Seq::<char>::empty();
    assert("ok"@[0] == 'o' && "ok"@[1] == 'k' && "ok"@.len() == 2);
    padding_is_trimmed(none, "ok"@, none);
    assert(none + "ok"@ + none =~= "ok"@);
    reveal_strlit("pending");
    reveal_strlit("claimed");
    reveal_strlit("expired");
    assert("pending"@[0] == 'p' && "claimed"@[0] == 'c' && "expired"@[0] == 'e');
}

/// A server is healthy exactly if it answers `ok`, with white space around it or not.
pub proof fn healthy_means_ok(status: u16, body: String, health: Result<(), RvError>)
    requires
        call_ensures(health_answer, (status, body), health),
    ensures
        health is Ok <==> status == 200 && exists|from: int, to: int|
            {
                &&& 0 <= from <= to <= body@.len()
                &&& #[trigger] body@.subrange(from, to) == seq!['o', 'k']
                &&& forall|i: int|
                    0 <= i < from || to <= i < body@.len() ==> white_space(#[trigger] body@[i])
            },
{
    reveal_strlit("ok");
    assert("ok"@ =~= seq!['o', 'k']);
    let ends = trim_cuts(body@);
    if trimmed(body@) == "ok"@ {
        assert(body@.subrange(ends.0, ends.1) == seq!['o', 'k']);
    }
    if exists|from: int, to: int|
        {
            &&& 0 <= from <= to <= body@.len()
            &&& #[trigger] body@.subrange(from, to) == seq!['o', 'k']
            &&& forall|i: int|
                0 <= i < from || to <= i < body@.len() ==> white_space(#[trigger] body@[i])
        } {
        let (from, to) = choose|from: int, to: int|
            {
                &&& 0 <= from <= to <= body@.len()
                &&& #[trigger] body@.subrange(from, to) == seq!['o', 'k']
                &&& forall|i: int|
                    0 <= i < from || to <= i < body@.len() ==> white_space(#[trigger] body@[i])
            };
        let word = body@.subrange(from, to);
        let before = body@.take(from);
        let after = body@.skip(to);
        assert(body@ =~= before + word + after);
        assert(word[0] == 'o' && word[1] == 'k');
        assert forall|i: int| 0 <= i < before.len() implies white_space(#[trigger] before[i]) by {
            assert(white_space(body@[i]));
        }
        assert forall|i: int| 0 <= i < after.len() implies white_space(#[trigger] after[i]) by {
            assert(white_space(body@[i + to]));
        }
        padding_is_trimmed(before, word, after);
    }
}

/// While a claim waits at a broker, a message that is not empty is the ticket, an empty one means
/// that there is none yet, a lost session is subscribed to again, and a failure ends the claim.
pub proof fn a_message_is_the_ticket(
    event: BrokerEvent,
    next: Result<ClaimWait, RvError>,
    ticket: Seq<char>,
)
    requires
        call_ensures(claim_event, (event,), next),
    ensures
        event matches BrokerEvent::Message(payload) ==> (payload@ == vstd::utf8::encode_utf8(ticket)
            && ticket.len() > 0 ==> (next matches Ok(ClaimWait::Ticket(got)) && got@ == ticket)),
        event matches BrokerEvent::Message(payload) ==> (payload@.len() == 0 ==> (next matches Ok(
            ClaimWait::Wait,
        ))),
        event matches BrokerEvent::Message(payload) ==> (payload@.len() > 0
            && !vstd::utf8::valid_utf8(payload@) ==> (next matches Err(
            RvError::Parse { kind, body },
        ) && kind@ == "ticket"@ && body@ == lossy_text(payload@))),
        event matches BrokerEvent::Connected { session_present } ==> if session_present {
            next matches Ok(ClaimWait::Wait)
        } else {
            next matches Ok(ClaimWait::Subscribe)
        },
        event is Other ==> (next matches Ok(ClaimWait::Wait)),
        event matches BrokerEvent::Failed(reason) ==> (next matches Err(
            RvError::Mqtt { detail },
        ) && detail@ == reason@),
{
    vstd::utf8::encode_utf8_valid_utf8(ticket);
    vstd::utf8::encode_utf8_decode_utf8(ticket);
    if let BrokerEvent::Message(payload) = event {
        if payload@.len() == 0 {
            assert(vstd::utf8::decode_utf8(payload@).len() == 0);
        }
    }
}

/// A nameplate that the client picks is from 1 to 9999 and different for different choices, and
/// is shown for ten minutes.
pub proof fn a_picked_nameplate_is_in_range(
    choice: usize,
    other: usize,
    now: u64,
    a: Allocation,
    b: Allocation,
)
    requires
        call_ensures(picked_nameplate, (choice, now), a),
        call_ensures(picked_nameplate, (other, now), b),
        choice < other < 9999,
    ensures
        1 <= a.nameplate < b.nameplate <= 9999,
        a.expires_at == now + 600,
{
}

} // verus!

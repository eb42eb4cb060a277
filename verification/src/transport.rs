//! The HTTP side of a write, as plain values: which headers every request
//! carries, where a write is addressed, and what an answer amounts to.
//!
//! Nothing here opens a connection. A request is described, the caller sends
//! it, and the caller's account of what came back is turned into a result.

use vstd::prelude::*;
use vstd::string::StringExecFns;
use vstd::utf8::{encode_utf8, is_ascii_chars_encode_utf8};

use crate::error::InfError;
use crate::precision::Precision;

verus! {

/// The agent that every request names.
pub const USER_AGENT: &'static str = "LibRS 0.1.0";

/// Whether a header value may hold this byte: anything from the space up,
/// but for the delete character, and the tab.
pub open spec fn header_byte_ok(byte: u8) -> bool {
    (byte >= 32 && byte != 127) || byte == 9
}

/// Whether a text can stand as a header value: each byte of its UTF-8 form
/// has to be one that a header value may hold.
pub open spec fn header_text_ok(text: Seq<char>) -> bool {
    let bytes = encode_utf8(text);
    forall|i: int| 0 <= i < bytes.len() ==> header_byte_ok(#[trigger] bytes[i])
}

/// Trusted: `reqwest::header::HeaderValue::from_str` goes through the bytes of
/// the text and accepts it exactly when every byte is at least 32 and not 127,
/// or is the tab. This says whether it accepted.
#[verifier::external_body]
fn header_value_accepts(text: &str) -> (accepted: bool)
    ensures
        accepted == header_text_ok(text@),
{
    reqwest::header::HeaderValue::from_str(text).is_ok()
}

/// One header of a request.
pub struct Header {
    /// The header's name.
    pub name: String,
    /// The header's value.
    pub value: String,
    /// Whether the value is a secret, to be kept out of logs and caches.
    pub sensitive: bool,
}

/// A header as mathematical text.
pub struct HeaderView {
    /// The header's name.
    pub name: Seq<char>,
    /// The header's value.
    pub value: Seq<char>,
    /// Whether the value is a secret.
    pub sensitive: bool,
}

impl View for Header {
    type V = HeaderView;

    open spec fn view(&self) -> HeaderView {
        HeaderView { name: self.name@, value: self.value@, sensitive: self.sensitive }
    }
}

/// The value of the authorization header for an API token.
pub open spec fn authorization_text(token: Seq<char>) -> Seq<char> {
    "Token "@ + token
}

/// The headers that every request of a transport carries: the authorization,
/// marked as a secret, and the agent.
pub open spec fn default_headers(authorization: Seq<char>) -> Seq<HeaderView> {
    seq![
        HeaderView { name: "authorization"@, value: authorization, sensitive: true },
        HeaderView { name: "user-agent"@, value: USER_AGENT@, sensitive: false },
    ]
}

/// Whether every one of the headers has a value that a header can carry.
pub open spec fn headers_ok(headers: Seq<HeaderView>) -> bool {
    forall|i: int| 0 <= i < headers.len() ==> header_text_ok(#[trigger] headers[i].value)
}

/// The agent's name can stand as a header value.
pub proof fn lemma_agent_is_header_text()
    ensures
        header_text_ok(USER_AGENT@),
{
    reveal_strlit("LibRS 0.1.0");
    is_ascii_chars_encode_utf8(USER_AGENT@);
}

/// What a client needs to know to talk to the database: the authorization it
/// presents. The value is always one that a header can carry. The type has no
/// `Debug`, so that the token cannot reach a log that way.
pub struct HTTPTransport {
    authorization: String,
}

impl Clone for HTTPTransport {
    fn clone(&self) -> (copy: Self)
        ensures
            copy == *self,
    {
        proof {
            use_type_invariant(self);
        }
        HTTPTransport { authorization: self.authorization.clone() }
    }
}

impl HTTPTransport {
    #[verifier::type_invariant]
    spec fn well_formed(self) -> bool {
        header_text_ok(self.authorization@)
    }

    /// The value of the authorization header.
    pub closed spec fn authorization(self) -> Seq<char> {
        self.authorization@
    }

    /// Whether a transport can be made for this token: whether the
    /// authorization built from it can stand as a header value.
    pub fn accepts(auth_token: &str) -> (accepted: bool)
        ensures
            accepted == header_text_ok(authorization_text(auth_token@)),
    {
        let authorization = String::from_str("Token ").concat(auth_token);
        header_value_accepts(authorization.as_str())
    }

    /// A transport that presents the given API token.
    pub fn new(auth_token: String) -> (transport: Self)
        requires
            header_text_ok(authorization_text(auth_token@)),
        ensures
            transport.authorization() == authorization_text(auth_token@),
    {
        HTTPTransport { authorization: String::from_str("Token ").concat(auth_token.as_str()) }
    }

    /// The headers that every request of this transport carries.
    pub fn headers(&self) -> (headers: Vec<Header>)
        ensures
            headers@.map_values(|h: Header| h@) == default_headers(self.authorization()),
            headers_ok(headers@.map_values(|h: Header| h@)),
    {
        proof {
            use_type_invariant(self);
            lemma_agent_is_header_text();
        }
        let mut headers: Vec<Header> = Vec::new();
        headers.push(
            Header {
                name: String::from_str("authorization"),
                value: self.authorization.clone(),
                sensitive: true,
            },
        );
        headers.push(
            Header {
                name: String::from_str("user-agent"),
                value: String::from_str(USER_AGENT),
                sensitive: false,
            },
        );
        assert(headers@.map_values(|h: Header| h@) =~= default_headers(self.authorization()));
        headers
    }
}

/// The query of a request as mathematical text: names and values in order.
pub open spec fn pairs_view(query: Seq<(String, String)>) -> Seq<(Seq<char>, Seq<char>)> {
    Seq::new(query.len(), |i: int| (query[i].0@, query[i].1@))
}

/// The query of a write: the bucket, then the organization, then the
/// precision's code unless the precision is the one the database assumes.
pub open spec fn write_query_spec(bucket: Seq<char>, org: Seq<char>, precision: Precision) -> Seq<
    (Seq<char>, Seq<char>),
> {
    let named = seq![("bucket"@, bucket), ("org"@, org)];
    if precision.is_default() {
        named
    } else {
        named.push(("precision"@, precision.code()))
    }
}

/// Builds the query of a write.
pub fn write_query(bucket: String, org: String, precision: Precision) -> (query: Vec<
    (String, String),
>)
    ensures
        pairs_view(query@) == write_query_spec(bucket@, org@, precision),
{
    let mut query: Vec<(String, String)> = Vec::new();
    query.push((String::from_str("bucket"), bucket));
    query.push((String::from_str("org"), org));
    match precision {
        Precision::NS => {},
        other => {
            query.push((String::from_str("precision"), other.to_string()));
        },
    }
    assert(pairs_view(query@) =~= write_query_spec(bucket@, org@, precision));
    query
}

/// What `reqwest::Url::parse_with_params` makes of an address and a query:
/// the full address of the request, or the reason why the address is no URL.
pub uninterp spec fn request_target(url: Seq<char>, query: Seq<(Seq<char>, Seq<char>)>) -> Result<
    Seq<char>,
    Seq<char>,
>;

/// A result of texts as mathematical text.
pub open spec fn text_result(result: Result<String, String>) -> Result<Seq<char>, Seq<char>> {
    match result {
        Ok(text) => Ok(text@),
        Err(text) => Err(text@),
    }
}

/// The number of bytes of a text in UTF-8.
pub open spec fn text_bytes(text: Seq<char>) -> nat {
    encode_utf8(text).len()
}

/// The room that a query needs before it is encoded: the bytes of every name
/// and value, and two more for each pair, for what stands between them.
pub open spec fn query_bytes(query: Seq<(Seq<char>, Seq<char>)>) -> nat
    decreases query.len(),
{
    if query.len() == 0 {
        0
    } else {
        query_bytes(query.drop_last()) + text_bytes(query.last().0) + text_bytes(query.last().1)
            + 2
    }
}

/// Whether an address and a query are short enough for the URL parser, which
/// counts the bytes of what it writes in 32 bits. Encoding triples a byte of
/// the query at most. For the address 256 bytes are allowed for each byte
/// given, since the host may grow as it is mapped and encoded label by label,
/// while every other part triples at most.
pub open spec fn address_fits(url: Seq<char>, query: Seq<(Seq<char>, Seq<char>)>) -> bool {
    256 * text_bytes(url) + 3 * query_bytes(query) <= u32::MAX
}

/// What a write fails with where the address and the query are too long.
pub const TOO_LONG: &'static str = "the address and its query are too long";

/// A query needs no less room than any of its beginnings, and each further
/// pair adds its own bytes and two.
pub proof fn lemma_query_bytes_grow(query: Seq<(Seq<char>, Seq<char>)>, i: int)
    requires
        0 <= i <= query.len(),
    ensures
        query_bytes(query.take(i)) <= query_bytes(query),
        i < query.len() ==> query_bytes(query.take(i + 1)) == query_bytes(query.take(i))
            + text_bytes(query[i].0) + text_bytes(query[i].1) + 2,
    decreases query.len() - i,
{
    if i < query.len() {
        assert(query.take(i + 1).drop_last() =~= query.take(i));
        assert(query.take(i + 1).last() == query[i]);
        lemma_query_bytes_grow(query, i + 1);
    } else {
        assert(query.take(i) =~= query);
    }
}

/// Decides whether an address and a query are short enough for the parser.
pub fn fits(url: &str, query: &Vec<(String, String)>) -> (fits: bool)
    ensures
        fits == address_fits(url@, pairs_view(query@)),
{
    let ghost pairs = pairs_view(query@);
    let address = url.as_bytes().len();
    if address > 0x00ff_ffff {
        return false;
    }
    let mut total: u64 = 0;
    let mut i: usize = 0;
    while i < query.len()
        invariant
            i <= query.len(),
            pairs == pairs_view(query@),
            total == query_bytes(pairs.take(i as int)),
            total <= u32::MAX,
        decreases query.len() - i,
    {
        let name = query[i].0.as_str().as_bytes().len();
        let value = query[i].1.as_str().as_bytes().len();
        proof {
            lemma_query_bytes_grow(pairs, i as int);
            lemma_query_bytes_grow(pairs, i + 1);
        }
        if name > 0xffff_ffff || value > 0xffff_ffff {
            return false;
        }
        total = total + name as u64 + value as u64 + 2;
        if total > 0xffff_ffff {
            return false;
        }
        i += 1;
    }
    assert(pairs.take(i as int) =~= pairs);
    256 * (address as u64) + 3 * total <= 0xffff_ffff
}

/// Trusted: calls `reqwest::Url::parse_with_params`, which parses the address
/// and appends the pairs to its query, each percent-encoded. The contract only
/// names what comes back, as a function of the address and the pairs: the
/// URL written out, or the parser's own words for its refusal. The parser
/// panics where what it has written no longer fits 32 bits as it turns to
/// the query; the bound on the lengths keeps every call clear of that.
#[verifier::external_body]
fn address(url: &str, query: &Vec<(String, String)>) -> (addressed: Result<String, String>)
    requires
        address_fits(url@, pairs_view(query@)),
    ensures
        text_result(addressed) == request_target(url@, pairs_view(query@)),
{
    match reqwest::Url::parse_with_params(url, query) {
        Ok(target) => Ok(String::from(target)),
        Err(refusal) => Err(refusal.to_string()),
    }
}

/// One request, ready to be sent with the method POST.
pub struct PostRequest {
    /// The full address, query included.
    pub target: String,
    /// The headers to send.
    pub headers: Vec<Header>,
    /// The body, sent as it is.
    pub body: String,
}

/// A request as mathematical text.
pub struct PostRequestView {
    /// The full address, query included.
    pub target: Seq<char>,
    /// The headers to send.
    pub headers: Seq<HeaderView>,
    /// The body.
    pub body: Seq<char>,
}

impl View for PostRequest {
    type V = PostRequestView;

    open spec fn view(&self) -> PostRequestView {
        PostRequestView {
            target: self.target@,
            headers: self.headers@.map_values(|h: Header| h@),
            body: self.body@,
        }
    }
}

/// What a write comes to once its address has been looked at: the request
/// with that address, or the failure that carries the refusal.
pub open spec fn assembled(
    addressed: Result<Seq<char>, Seq<char>>,
    headers: Seq<HeaderView>,
    body: Seq<char>,
) -> Result<PostRequestView, Seq<char>> {
    match addressed {
        Ok(target) => Ok(PostRequestView { target, headers, body }),
        Err(refusal) => Err(refusal),
    }
}

/// A request or a failure as mathematical text.
pub open spec fn request_result(result: Result<PostRequest, InfError>) -> Result<
    PostRequestView,
    Seq<char>,
> {
    match result {
        Ok(request) => Ok(request@),
        Err(error) => Err(error.message()),
    }
}

impl PostRequest {
    /// Puts a request together from an address that has been looked at. A
    /// refused address gives the failure with the refusal as its text.
    pub fn assemble(addressed: Result<String, String>, headers: Vec<Header>, body: String) -> (request:
        Result<PostRequest, InfError>)
        ensures
            request_result(request) == assembled(
                text_result(addressed),
                headers@.map_values(|h: Header| h@),
                body@,
            ),
    {
        match addressed {
            Ok(target) => Ok(PostRequest { target, headers, body }),
            Err(refusal) => Err(InfError::HttpError(refusal)),
        }
    }
}

/// The caller's account of what became of a request that it sent.
#[derive(Debug, PartialEq, Eq)]
pub enum Reply {
    /// No response came: the connection failed, timed out, or was refused.
    SendFailed(String),
    /// A response with this status came, but its body could not be read.
    BodyFailed(u16, String),
    /// A response with this status came, and this is its body.
    Body(u16, String),
}

impl Reply {
    /// What a reply amounts to: the body where one was read, whatever the
    /// status; else the failure with the transport's words.
    pub open spec fn outcome(self) -> Result<Seq<char>, Seq<char>> {
        match self {
            Reply::SendFailed(text) => Err(text@),
            Reply::BodyFailed(_, text) => Err(text@),
            Reply::Body(_, text) => Ok(text@),
        }
    }

    /// Turns the reply into the result of the write. The status is not looked
    /// at: a body that was read is the result, from whatever response.
    pub fn into_result(self) -> (result: Result<String, InfError>)
        ensures
            reply_result(result) == self.outcome(),
    {
        match self {
            Reply::SendFailed(text) => Err(InfError::HttpError(text)),
            Reply::BodyFailed(_, text) => Err(InfError::HttpError(text)),
            Reply::Body(_, text) => Ok(text),
        }
    }
}

/// The result of a write as mathematical text.
pub open spec fn reply_result(result: Result<String, InfError>) -> Result<Seq<char>, Seq<char>> {
    match result {
        Ok(text) => Ok(text@),
        Err(error) => Err(error.message()),
    }
}

/// The request that a write to `url` comes to.
pub open spec fn post_spec(
    authorization: Seq<char>,
    url: Seq<char>,
    bucket: Seq<char>,
    org: Seq<char>,
    precision: Precision,
    data: Seq<char>,
) -> Result<PostRequestView, Seq<char>> {
    let query = write_query_spec(bucket, org, precision);
    if address_fits(url, query) {
        assembled(request_target(url, query), default_headers(authorization), data)
    } else {
        Err(TOO_LONG@)
    }
}

/// What a write fails with does not depend on the token: with another
/// authorization the same write fails with the same words, or else gives a
/// request to the same address with the same body.
pub proof fn lemma_failure_is_blind_to_the_token(
    authorization: Seq<char>,
    other: Seq<char>,
    url: Seq<char>,
    bucket: Seq<char>,
    org: Seq<char>,
    precision: Precision,
    data: Seq<char>,
)
    ensures
        match post_spec(authorization, url, bucket, org, precision, data) {
            Ok(request) => post_spec(other, url, bucket, org, precision, data) == Ok::<
                PostRequestView,
                Seq<char>,
            >(
                PostRequestView {
                    target: request.target,
                    headers: default_headers(other),
                    body: request.body,
                },
            ),
            Err(reason) => post_spec(other, url, bucket, org, precision, data) == Err::<
                PostRequestView,
                Seq<char>,
            >(reason),
        },
{
}

impl HTTPTransport {
    /// Describes the one request that writes `data`: a POST to `url` with the
    /// bucket, the organization and, unless it is the assumed one, the
    /// precision in its query, this transport's headers, and `data` as the
    /// body. Where `url` is no URL, the failure carries the refusal; where
    /// `url` and the query are too long for the parser, the failure says so
    /// and the parser is not asked. Every header of the request has a value
    /// that a header can carry.
    pub fn make_post(
        &self,
        url: String,
        bucket: String,
        org: String,
        precision: Precision,
        data: String,
    ) -> (request: Result<PostRequest, InfError>)
        ensures
            request_result(request) == post_spec(
                self.authorization(),
                url@,
                bucket@,
                org@,
                precision,
                data@,
            ),
            request matches Ok(made) ==> headers_ok(made@.headers),
    {
        let query = write_query(bucket, org, precision);
        if !fits(url.as_str(), &query) {
            return Err(InfError::HttpError(String::from_str(TOO_LONG)));
        }
        let addressed = address(url.as_str(), &query);
        PostRequest::assemble(addressed, self.headers(), data)
    }
}


} // verus!

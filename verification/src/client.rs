//! The client of the database's write endpoint.

use vstd::prelude::*;
use vstd::string::StringExecFns;

use crate::error::InfError;
use crate::precision::Precision;
use crate::transport::{
    authorization_text, header_text_ok, headers_ok, post_spec, request_result, HTTPTransport,
    PostRequest, PostRequestView,
};

verus! {

/// The path of the write endpoint, below the server's address.
pub const WRITE_API: &'static str = "/api/v2/write";

/// A client of one database server, for one organization. It is set up once
/// and never changes afterwards. The type has no `Debug`, so that the token
/// cannot reach a log that way.
pub struct InfClient {
    server_url: String,
    org: String,
    precision: Precision,
    http_client: HTTPTransport,
}

impl Clone for InfClient {
    fn clone(&self) -> (copy: Self)
        ensures
            copy == *self,
    {
        InfClient {
            server_url: self.server_url.clone(),
            org: self.org.clone(),
            precision: self.precision,
            http_client: self.http_client.clone(),
        }
    }
}

impl InfClient {
    /// The address of the server.
    pub closed spec fn server_url(self) -> Seq<char> {
        self.server_url@
    }

    /// The organization that the writes are made for.
    pub closed spec fn org(self) -> Seq<char> {
        self.org@
    }

    /// The precision that the writes announce.
    pub closed spec fn write_precision(self) -> Precision {
        self.precision
    }

    /// The value of the authorization header that the writes carry.
    pub closed spec fn authorization(self) -> Seq<char> {
        self.http_client.authorization()
    }

    /// The address of an endpoint: the server's address, then the path.
    pub open spec fn url_of(self, endpoint: Seq<char>) -> Seq<char> {
        self.server_url() + endpoint
    }

    /// The request that a write of `point` to `bucket` comes to.
    pub open spec fn write_spec(self, bucket: Seq<char>, point: Seq<char>) -> Result<
        PostRequestView,
        Seq<char>,
    > {
        post_spec(
            self.authorization(),
            self.url_of(WRITE_API@),
            bucket,
            self.org(),
            self.write_precision(),
            point,
        )
    }

    /// Whether a client can be made with this API token.
    pub fn accepts(api_token: &str) -> (accepted: bool)
        ensures
            accepted == header_text_ok(authorization_text(api_token@)),
    {
        HTTPTransport::accepts(api_token)
    }

    /// A client of the server at `server_url` that presents `api_token` and
    /// writes for `org`, with the precision that the database assumes.
    pub fn new(server_url: String, api_token: String, org: String) -> (client: Self)
        requires
            header_text_ok(authorization_text(api_token@)),
        ensures
            client.server_url() == server_url@,
            client.org() == org@,
            client.write_precision() == Precision::NS,
            client.authorization() == authorization_text(api_token@),
    {
        InfClient {
            server_url,
            org,
            precision: Precision::default(),
            http_client: HTTPTransport::new(api_token),
        }
    }

    /// The same client with another precision.
    pub fn precision(self, precision: Precision) -> (client: Self)
        ensures
            client.write_precision() == precision,
            client.server_url() == self.server_url(),
            client.org() == self.org(),
            client.authorization() == self.authorization(),
    {
        let mut client = self;
        client.precision = precision;
        client
    }

    /// Ends the setting up: the client as it stands.
    pub fn build(self) -> (client: InfClient)
        ensures
            client.write_precision() == self.write_precision(),
            client.server_url() == self.server_url(),
            client.org() == self.org(),
            client.authorization() == self.authorization(),
    {
        InfClient {
            server_url: self.server_url,
            org: self.org,
            precision: self.precision,
            http_client: self.http_client,
        }
    }

    /// Describes the one request that writes `point` to `bucket`. Nothing is
    /// sent here and nothing is tried twice: the caller sends the request
    /// once and reads the answer with [`crate::transport::Reply::into_result`].
    pub fn write_point(&self, bucket: String, point: String) -> (request: Result<
        PostRequest,
        InfError,
    >)
        ensures
            request_result(request) == self.write_spec(bucket@, point@),
            request matches Ok(made) ==> headers_ok(made@.headers),
    {
        let url = self.get_url(WRITE_API);
        self.http_client.make_post(url, bucket, self.org.clone(), self.precision, point)
    }

    fn get_url(&self, endpoint: &str) -> (url: String)
        ensures
            url@ == self.url_of(endpoint@),
    {
        self.server_url.clone().concat(endpoint)
    }
}

} // verus!

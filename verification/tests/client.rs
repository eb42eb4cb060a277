use infapi::transport::{fits, HTTPTransport, Header, PostRequest, Reply, TOO_LONG, USER_AGENT};
use infapi::{InfClient, InfError, Precision};

fn client() -> InfClient {
    InfClient::new(
        String::from("http://db:8086"),
        String::from("tok123"),
        String::from("acme"),
    )
}

fn write(client: &InfClient, bucket: &str, point: &str) -> PostRequest {
    match client.write_point(bucket.to_string(), point.to_string()) {
        Ok(request) => request,
        Err(error) => panic!("no request: {}", error.to_string()),
    }
}

fn header<'a>(request: &'a PostRequest, name: &str) -> &'a Header {
    let found: Vec<&Header> = request.headers.iter().filter(|h| h.name == name).collect();
    assert_eq!(found.len(), 1);
    found[0]
}

#[test]
fn precision_codes() {
    assert_eq!(Precision::MS.to_string(), "ms");
    assert_eq!(Precision::S.to_string(), "s");
    assert_eq!(Precision::US.to_string(), "us");
    assert_eq!(Precision::NS.to_string(), "ns");
}

#[test]
fn precision_defaults_to_nanoseconds() {
    assert_eq!(Precision::default(), Precision::NS);
}

#[test]
fn error_line_has_prefix_and_message() {
    let error = InfError::HttpError(String::from("connection refused"));
    assert_eq!(error.to_string(), "http client error: connection refused");
}

#[test]
fn write_target_for_default_precision() {
    let request = write(&client(), "metrics", "cpu,host=a value=1 100");
    assert_eq!(request.target, "http://db:8086/api/v2/write?bucket=metrics&org=acme");
    assert_eq!(request.body, "cpu,host=a value=1 100");
}

#[test]
fn write_target_after_build_is_the_same() {
    let built = client().precision(Precision::NS).build();
    let request = write(&built, "metrics", "m v=1");
    assert_eq!(request.target, "http://db:8086/api/v2/write?bucket=metrics&org=acme");
}

#[test]
fn write_target_names_other_precisions() {
    let cases = [(Precision::MS, "ms"), (Precision::S, "s"), (Precision::US, "us")];
    for (precision, code) in cases {
        let request = write(&client().precision(precision).build(), "metrics", "m v=1");
        assert_eq!(
            request.target,
            format!("http://db:8086/api/v2/write?bucket=metrics&org=acme&precision={}", code)
        );
    }
}

#[test]
fn write_target_encodes_the_query() {
    let client = InfClient::new(
        String::from("http://db:8086"),
        String::from("tok123"),
        String::from("a&b=c"),
    );
    let request = write(&client, "my bucket", "m v=1");
    assert_eq!(
        request.target,
        "http://db:8086/api/v2/write?bucket=my+bucket&org=a%26b%3Dc"
    );
}

#[test]
fn write_target_is_normalised_by_the_parser() {
    let client = InfClient::new(
        String::from("HTTP://DB:8086"),
        String::from("tok123"),
        String::from("acme"),
    );
    let request = write(&client, "metrics", "m v=1");
    assert_eq!(request.target, "http://db:8086/api/v2/write?bucket=metrics&org=acme");
}

#[test]
fn body_is_sent_verbatim() {
    let point = "airSensors,sensor_id=TLM0201 temperature=73.97038159354763,humidity=35.23103248356096,co=0.48445310567793615 1724611938000000000";
    let request = write(&client(), "test", point);
    assert_eq!(request.body, point);
    let odd = "m,t=\u{e9} v=\"a b&c\" 1\n\nm v=2";
    assert_eq!(write(&client(), "test", odd).body, odd);
    assert_eq!(write(&client(), "test", "").body, "");
}

#[test]
fn request_carries_the_token_as_authorization() {
    let request = write(&client(), "metrics", "m v=1");
    let authorization = header(&request, "authorization");
    assert_eq!(authorization.value, "Token tok123");
    assert!(authorization.sensitive);
}

#[test]
fn request_names_the_agent() {
    let request = write(&client(), "metrics", "m v=1");
    let agent = header(&request, "user-agent");
    assert_eq!(agent.value, "LibRS 0.1.0");
    assert_eq!(agent.value, USER_AGENT);
    assert!(!agent.sensitive);
    assert_eq!(request.headers.len(), 2);
}

#[test]
fn transport_headers_are_those_of_its_requests() {
    let transport = HTTPTransport::new(String::from("tok123"));
    let headers = transport.headers();
    assert_eq!(headers.len(), 2);
    assert_eq!(headers[0].name, "authorization");
    assert_eq!(headers[0].value, "Token tok123");
    assert!(headers[0].sensitive);
    assert_eq!(headers[1].name, "user-agent");
}

#[test]
fn make_post_takes_the_address_as_given() {
    let transport = HTTPTransport::new(String::from("tok123"));
    let made = transport.make_post(
        String::from("http://db:8086/api/v2/write"),
        String::from("metrics"),
        String::from("acme"),
        Precision::US,
        String::from("m v=1"),
    );
    match made {
        Ok(request) => {
            assert_eq!(
                request.target,
                "http://db:8086/api/v2/write?bucket=metrics&org=acme&precision=us"
            );
            assert_eq!(request.body, "m v=1");
        }
        Err(error) => panic!("no request: {}", error.to_string()),
    }
}

#[test]
fn empty_token_is_accepted() {
    assert!(InfClient::accepts(""));
    let client = InfClient::new(
        String::from("https://eu-central-1-1.aws.cloud2.influxdata.com"),
        String::from(""),
        "8abb847537d8fb7c".to_string(),
    );
    let request = write(&client, "test", "m v=1");
    assert_eq!(
        request.target,
        "https://eu-central-1-1.aws.cloud2.influxdata.com/api/v2/write?bucket=test&org=8abb847537d8fb7c"
    );
    assert_eq!(header(&request, "authorization").value, "Token ");
}

#[test]
fn tokens_that_a_header_can_carry() {
    assert!(HTTPTransport::accepts("tok123"));
    assert!(HTTPTransport::accepts("with space and\ttab"));
    assert!(HTTPTransport::accepts("caf\u{e9}"));
    assert!(HTTPTransport::accepts("~"));
    assert!(InfClient::accepts("tok123"));
}

#[test]
fn tokens_that_a_header_cannot_carry() {
    assert!(!HTTPTransport::accepts("line\nbreak"));
    assert!(!HTTPTransport::accepts("carriage\rreturn"));
    assert!(!HTTPTransport::accepts("nul\0"));
    assert!(!HTTPTransport::accepts("del\u{7f}"));
    assert!(!HTTPTransport::accepts("\u{1f}"));
    assert!(!InfClient::accepts("line\nbreak"));
}

#[test]
fn address_that_is_no_url_fails_the_write() {
    let client = InfClient::new(
        String::from("db:8086/x y"),
        String::from("tok123"),
        String::from("acme"),
    );
    let relative = InfClient::new(
        String::from("not a url"),
        String::from("tok123"),
        String::from("acme"),
    );
    match relative.write_point(String::from("metrics"), String::from("m v=1")) {
        Ok(_) => panic!("a request was made"),
        Err(error) => {
            assert_eq!(error, InfError::HttpError(String::from("relative URL without a base")));
        }
    }
    match client.write_point(String::from("metrics"), String::from("m v=1")) {
        Ok(request) => assert!(request.target.starts_with("db:8086/x")),
        Err(_) => panic!("the address has a scheme"),
    }
    let no_port = InfClient::new(
        String::from("http://db:99999"),
        String::from("tok123"),
        String::from("acme"),
    );
    match no_port.write_point(String::from("metrics"), String::from("m v=1")) {
        Ok(_) => panic!("a request was made"),
        Err(error) => assert_eq!(error, InfError::HttpError(String::from("invalid port number"))),
    }
}

#[test]
fn reply_with_a_body_is_the_result_whatever_the_status() {
    for status in [200u16, 204, 400, 401, 404, 500, 503] {
        let result = Reply::Body(status, String::from("answer")).into_result();
        assert_eq!(result, Ok(String::from("answer")));
    }
    assert_eq!(Reply::Body(204, String::new()).into_result(), Ok(String::new()));
}

#[test]
fn reply_without_a_response_is_a_transport_failure() {
    let result = Reply::SendFailed(String::from("error sending request")).into_result();
    assert_eq!(result, Err(InfError::HttpError(String::from("error sending request"))));
}

#[test]
fn reply_whose_body_could_not_be_read_is_a_transport_failure() {
    let result = Reply::BodyFailed(200, String::from("error decoding response body")).into_result();
    assert_eq!(result, Err(InfError::HttpError(String::from("error decoding response body"))));
}

#[test]
fn token_stays_out_of_what_is_reported() {
    let token = "tok123";
    let failures = [
        Reply::SendFailed(String::from("error sending request for url (http://db:8086/api/v2/write?bucket=metrics&org=acme)")),
        Reply::BodyFailed(502, String::from("request or response body error")),
    ];
    for reply in failures {
        match reply.into_result() {
            Ok(_) => panic!("a failure went through"),
            Err(error) => {
                assert!(!error.to_string().contains(token));
                assert!(!format!("{:?}", error).contains(token));
            }
        }
    }
    let request = write(&client(), "metrics", "m v=1");
    assert!(!request.target.contains(token));
    assert!(!request.body.contains(token));
    let open: Vec<&Header> = request.headers.iter().filter(|h| !h.sensitive).collect();
    assert!(open.iter().all(|h| !h.value.contains(token)));
}

fn client_at(server_url: String) -> InfClient {
    InfClient::new(server_url, String::from("tok123"), String::from("o"))
}

#[test]
fn longest_address_that_fits_is_written() {
    let server_url = format!("http://db/{}", "a".repeat(16_777_192));
    assert_eq!(server_url.len() + "/api/v2/write".len(), 16_777_215);
    match client_at(server_url.clone()).write_point(String::from("b"), String::from("m v=1")) {
        Ok(request) => {
            assert_eq!(request.target.len(), server_url.len() + "/api/v2/write?bucket=b&org=o".len());
            assert!(request.target.starts_with("http://db/aaaa"));
            assert!(request.target.ends_with("aaaa/api/v2/write?bucket=b&org=o"));
            assert_eq!(request.body, "m v=1");
        }
        Err(error) => panic!("no request: {}", error.to_string()),
    }
}

#[test]
fn address_too_long_for_the_parser_fails_the_write() {
    let server_url = format!("http://db/{}", "a".repeat(16_777_193));
    match client_at(server_url).write_point(String::from("b"), String::from("m v=1")) {
        Ok(_) => panic!("a request was made"),
        Err(error) => {
            assert_eq!(error, InfError::HttpError(String::from(TOO_LONG)));
            assert_eq!(
                error.to_string(),
                "http client error: the address and its query are too long"
            );
        }
    }
}

#[test]
fn length_of_the_body_does_not_count() {
    let point = "m v=1\n".repeat(4_000_000);
    match client().write_point(String::from("metrics"), point.clone()) {
        Ok(request) => assert_eq!(request.body, point),
        Err(error) => panic!("no request: {}", error.to_string()),
    }
}

#[test]
fn fits_weighs_the_address_and_the_query() {
    let none: Vec<(String, String)> = Vec::new();
    let pair = vec![(String::from("bucket"), "\u{e9}".repeat(3))];
    assert!(fits("", &none));
    assert!(fits("http://db:8086/api/v2/write", &pair));
    assert!(fits(&"a".repeat(16_777_215), &none));
    assert!(!fits(&"a".repeat(16_777_216), &none));
    // 256 * 16_777_215 leaves room for 85 bytes of query, three times over:
    // a pair of 6 and 6 bytes and its two more is 14, and six of them are 84.
    let mut query: Vec<(String, String)> = Vec::new();
    for _ in 0..6 {
        query.push(pair[0].clone());
    }
    assert!(fits(&"a".repeat(16_777_215), &query));
    query[0].1.push('x');
    assert!(fits(&"a".repeat(16_777_215), &query));
    query[0].1.push('y');
    assert!(!fits(&"a".repeat(16_777_215), &query));
}

use forwarder::header::NODE_HEADER;
use forwarder::respond::{augment, reject, NODE_NAME};
use forwarder::{ForwardError, Header, Response};

#[test]
fn status_of_each_failure() {
    assert_eq!(ForwardError::HeaderMissing.status(), 400);
    assert_eq!(ForwardError::RouteNotFound.status(), 502);
    assert_eq!(ForwardError::PoolEmpty.status(), 502);
    assert_eq!(ForwardError::UpstreamUnreachable.status(), 502);
    assert_eq!(ForwardError::UpstreamTimeout.status(), 504);
}

#[test]
fn augment_appends_the_node_field_only() {
    let upstream = Response {
        status: 201,
        headers: vec![
            Header::new("set-cookie", b"a=1"),
            Header::new("set-cookie", b"b=\xff\x00"),
            Header::new(NODE_HEADER, b"someone-else"),
        ],
        body: Some(vec![0u8, 1, 2, 255]),
    };
    let relayed = augment(upstream.clone());
    assert_eq!(relayed.status, 201);
    assert_eq!(relayed.body, upstream.body);
    assert_eq!(relayed.headers.len(), 4);
    assert_eq!(relayed.headers[..3], upstream.headers[..]);
    assert_eq!(relayed.headers[3], Header::new("X-MOLNETT-WORKER", b"localhost"));
    assert_eq!(NODE_NAME, "localhost");
}

#[test]
fn augment_of_a_bare_response() {
    let relayed = augment(Response::<()> { status: 204, headers: vec![], body: None });
    assert_eq!(
        relayed,
        Response { status: 204, headers: vec![Header::new(NODE_HEADER, b"localhost")], body: None }
    );
}

#[test]
fn reject_reports_each_failure() {
    for (error, status) in [
        (ForwardError::HeaderMissing, 400),
        (ForwardError::RouteNotFound, 502),
        (ForwardError::PoolEmpty, 502),
        (ForwardError::UpstreamUnreachable, 502),
        (ForwardError::UpstreamTimeout, 504),
    ] {
        let response: Response<Vec<u8>> = reject(error);
        assert_eq!(
            response,
            Response { status, headers: vec![Header::new(NODE_HEADER, b"localhost")], body: None }
        );
    }
}

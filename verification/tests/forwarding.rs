use forwarder::header::{find_header, APPLICATION_HEADER, NODE_HEADER};
use forwarder::{
    step, Action, Event, Exchange, ForwardError, ForwardMode, Header, Outbound, Phase, Protocol,
    Request, Response, RoutingTables,
};

fn get(path: &str, headers: Vec<Header>) -> Request<Vec<u8>> {
    Request {
        method: "GET".to_string(),
        path_and_query: Some(path.to_string()),
        headers,
        body: Vec::new(),
    }
}

fn upstream_ok() -> Response<Vec<u8>> {
    Response {
        status: 200,
        headers: vec![Header::new("content-type", b"text/plain")],
        body: Some(b"ok".to_vec()),
    }
}

/// Drives one request to its end against a destination that always answers
/// 200, and hands back what was sent, what the caller got and the last state.
fn drive(
    tables: &RoutingTables,
    mode: ForwardMode,
    client: &str,
    request: Request<Vec<u8>>,
) -> (Option<Outbound<Vec<u8>>>, Response<Vec<u8>>, Exchange<Vec<u8>>) {
    let mut state = Exchange::receive(client.to_string(), request);
    let mut event = Event::Proceed;
    let mut sent = None;
    for _ in 0..8 {
        let (next, action) = step(tables, mode, state, event);
        state = next;
        match action {
            Action::Continue => event = Event::Proceed,
            Action::Send(outbound) => {
                sent = Some(outbound);
                event = Event::Answered(upstream_ok());
            }
            Action::Reply(response) => return (sent, response, state),
            Action::Nothing => panic!("the machine had nothing to do"),
        }
    }
    panic!("the machine did not come to an end");
}

fn edge_tables() -> RoutingTables {
    let mut tables = RoutingTables::new();
    tables.bind_endpoint("127.0.0.1".to_string(), "localhost:8081".to_string());
    tables.bind_application("127.0.0.1".to_string(), "app1".to_string());
    tables
}

#[test]
fn edge_forwards_bound_client() {
    let tables = edge_tables();
    let (sent, reply, state) = drive(&tables, ForwardMode::Edge, "127.0.0.1", get("/healthz", vec![]));
    let sent = sent.expect("a request was sent");
    assert_eq!(sent.target, "http://localhost:8081/healthz");
    assert_eq!(sent.method, "GET");
    assert_eq!(sent.protocol, Protocol::Http2);
    assert_eq!(sent.headers, vec![Header::new(APPLICATION_HEADER, b"app1")]);
    assert_eq!(reply.status, 200);
    assert_eq!(reply.body, Some(b"ok".to_vec()));
    assert_eq!(
        reply.headers,
        vec![Header::new("content-type", b"text/plain"), Header::new(NODE_HEADER, b"localhost")]
    );
    assert_eq!(state.phase(), Phase::Responded);
}

#[test]
fn worker_forwards_to_one_of_the_pool() {
    let mut tables = RoutingTables::new();
    tables.bind_pool("app1".to_string(), vec!["w1".to_string(), "w2".to_string()]);
    let inbound = vec![Header::new(APPLICATION_HEADER, b"app1")];
    let (sent, reply, state) =
        drive(&tables, ForwardMode::Worker, "10.1.1.1", get("/api", inbound.clone()));
    let sent = sent.expect("a request was sent");
    assert!(sent.target == "http://w1/api" || sent.target == "http://w2/api");
    assert_eq!(sent.protocol, Protocol::Http11);
    assert_eq!(sent.headers, inbound);
    assert_eq!(reply.status, 200);
    assert_eq!(find_header(&reply.headers, NODE_HEADER), Some(&b"localhost".to_vec()));
    assert_eq!(state.phase(), Phase::Responded);
}

#[test]
fn worker_rejects_unbound_application() {
    let mut tables = RoutingTables::new();
    tables.bind_pool("app1".to_string(), vec!["w1".to_string(), "w2".to_string()]);
    let (sent, reply, state) = drive(
        &tables,
        ForwardMode::Worker,
        "10.1.1.1",
        get("/api", vec![Header::new(APPLICATION_HEADER, b"unknown")]),
    );
    assert_eq!(sent, None);
    assert_eq!(reply.status, 502);
    assert_eq!(reply.body, None);
    assert_eq!(state, Exchange::Failed(ForwardError::RouteNotFound));

    // The tables still serve the next request.
    let (sent, reply, _) = drive(
        &tables,
        ForwardMode::Worker,
        "10.1.1.1",
        get("/api", vec![Header::new(APPLICATION_HEADER, b"app1")]),
    );
    assert!(sent.is_some());
    assert_eq!(reply.status, 200);
}

#[test]
fn edge_rejects_unbound_client() {
    let tables = edge_tables();
    let (sent, reply, state) = drive(&tables, ForwardMode::Edge, "192.0.2.7", get("/healthz", vec![]));
    assert_eq!(sent, None);
    assert_eq!(reply.status, 502);
    assert_eq!(reply.headers, vec![Header::new(NODE_HEADER, b"localhost")]);
    assert_eq!(reply.body, None);
    assert_eq!(state, Exchange::Failed(ForwardError::RouteNotFound));
}

#[test]
fn worker_rejects_empty_pool() {
    let mut tables = RoutingTables::new();
    tables.bind_pool("app1".to_string(), Vec::new());
    let (sent, reply, state) = drive(
        &tables,
        ForwardMode::Worker,
        "10.1.1.1",
        get("/api", vec![Header::new(APPLICATION_HEADER, b"app1")]),
    );
    assert_eq!(sent, None);
    assert_eq!(reply.status, 502);
    assert_eq!(state, Exchange::Failed(ForwardError::PoolEmpty));
}

#[test]
fn worker_without_application_header_is_a_bad_request() {
    let mut tables = RoutingTables::new();
    tables.bind_pool("app1".to_string(), vec!["w1".to_string()]);
    let (sent, reply, state) = drive(&tables, ForwardMode::Worker, "10.1.1.1", get("/api", vec![]));
    assert_eq!(sent, None);
    assert_eq!(reply.status, 400);
    assert_eq!(state, Exchange::Failed(ForwardError::HeaderMissing));
}

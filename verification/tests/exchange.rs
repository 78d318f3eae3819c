use forwarder::header::NODE_HEADER;
use forwarder::{
    step, Action, Event, Exchange, ForwardError, ForwardMode, Header, Outbound, Phase, Protocol,
    Request, Response, Route, RoutingTables,
};

fn request() -> Request<u32> {
    Request { method: "POST".to_string(), path_and_query: Some("/a?b=c".to_string()), headers: vec![], body: 7 }
}

fn tables() -> RoutingTables {
    let mut tables = RoutingTables::new();
    tables.bind_endpoint("c".to_string(), "e:1".to_string());
    tables.bind_application("c".to_string(), "app".to_string());
    tables
}

#[test]
fn received_resolves_then_asks_to_continue() {
    let state = Exchange::receive("c".to_string(), request());
    assert_eq!(state.phase(), Phase::Received);
    let (next, action) = step(&tables(), ForwardMode::Edge, state, Event::Proceed);
    assert_eq!(action, Action::Continue);
    assert_eq!(
        next,
        Exchange::Resolved {
            route: Route { endpoint: "e:1".to_string(), application: Some("app".to_string()) },
            request: request(),
        }
    );
    assert_eq!(next.phase(), Phase::Resolved);
}

#[test]
fn resolved_rewrites_then_asks_to_send() {
    let state = Exchange::Resolved {
        route: Route { endpoint: "e:1".to_string(), application: Some("app".to_string()) },
        request: request(),
    };
    let (next, action) = step(&tables(), ForwardMode::Edge, state, Event::Proceed);
    assert_eq!(next, Exchange::Forwarded);
    assert_eq!(
        action,
        Action::Send(Outbound {
            method: "POST".to_string(),
            target: "http://e:1/a?b=c".to_string(),
            protocol: Protocol::Http2,
            headers: vec![Header::new("X-MOLNETT-APPLICATION", b"app")],
            body: 7,
        })
    );
}

#[test]
fn forwarded_relays_the_answer() {
    let answer = Response { status: 404, headers: vec![Header::new("a", b"\xff\x80")], body: Some(9u32) };
    let (next, action) =
        step(&tables(), ForwardMode::Worker, Exchange::<u32>::Forwarded, Event::Answered(answer));
    assert_eq!(next, Exchange::Responded);
    assert_eq!(
        action,
        Action::Reply(Response {
            status: 404,
            headers: vec![Header::new("a", b"\xff\x80"), Header::new(NODE_HEADER, b"localhost")],
            body: Some(9u32),
        })
    );
}

#[test]
fn forwarded_reports_unreachable_destination() {
    let (next, action) =
        step(&tables(), ForwardMode::Edge, Exchange::<u32>::Forwarded, Event::Unreachable);
    assert_eq!(next, Exchange::Failed(ForwardError::UpstreamUnreachable));
    assert_eq!(
        action,
        Action::Reply(Response {
            status: 502,
            headers: vec![Header::new(NODE_HEADER, b"localhost")],
            body: None,
        })
    );
}

#[test]
fn forwarded_reports_timeout() {
    let (next, action) =
        step(&tables(), ForwardMode::Edge, Exchange::<u32>::Forwarded, Event::TimedOut);
    assert_eq!(next, Exchange::Failed(ForwardError::UpstreamTimeout));
    match action {
        Action::Reply(response) => assert_eq!(response.status, 504),
        other => panic!("unexpected action {:?}", other),
    }
    assert_eq!(next.phase(), Phase::Failed);
}

#[test]
fn terminal_states_stay() {
    let answer = Response { status: 200, headers: vec![], body: Some(1u32) };
    for event in [Event::Proceed, Event::Answered(answer), Event::Unreachable, Event::TimedOut] {
        let (next, action) = step(
            &tables(),
            ForwardMode::Edge,
            Exchange::Failed(ForwardError::PoolEmpty),
            event,
        );
        assert_eq!(next, Exchange::Failed(ForwardError::PoolEmpty));
        assert_eq!(action, Action::Nothing);
    }
    let (next, action) =
        step(&tables(), ForwardMode::Edge, Exchange::<u32>::Responded, Event::Unreachable);
    assert_eq!(next, Exchange::Responded);
    assert_eq!(action, Action::Nothing);
    assert_eq!(next.phase(), Phase::Responded);
}

#[test]
fn events_out_of_turn_change_nothing() {
    let state = Exchange::receive("c".to_string(), request());
    let (next, action) = step(&tables(), ForwardMode::Edge, state, Event::TimedOut);
    assert_eq!(next, Exchange::receive("c".to_string(), request()));
    assert_eq!(action, Action::Nothing);

    let (next, action) =
        step(&tables(), ForwardMode::Edge, Exchange::<u32>::Forwarded, Event::Proceed);
    assert_eq!(next, Exchange::Forwarded);
    assert_eq!(action, Action::Nothing);
    assert_eq!(next.phase(), Phase::Forwarded);
}

#[test]
fn resolved_with_unusable_endpoint_fails_as_unreachable() {
    let state = Exchange::Resolved {
        route: Route { endpoint: "no such host".to_string(), application: None },
        request: request(),
    };
    let (next, action) = step(&tables(), ForwardMode::Worker, state, Event::Proceed);
    assert_eq!(next, Exchange::Failed(ForwardError::UpstreamUnreachable));
    match action {
        Action::Reply(response) => assert_eq!(response.status, 502),
        other => panic!("unexpected action {:?}", other),
    }
}

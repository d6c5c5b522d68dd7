use zero2prod::http::{Method, Request, StatusCode};
use zero2prod::routes::subscriptions::Subscriber;
use zero2prod::lifecycle::{complete, Progress, Reply};
use zero2prod::startup::{get_app, App};
use zero2prod::telemetry::{SpanKind, TraceEvent};

/// Runs one request to its end against a store that takes every row, and
/// hands back the last reply with the whole trace.
fn run(app: &App, request: Request, table: &mut Vec<Subscriber>) -> Reply {
    match app.receive(&request) {
        Progress::Done(reply) => reply,
        Progress::Pending(pending) => {
            table.push(pending.row);
            let reply = complete(pending.context, Ok(()));
            let mut trace = pending.trace;
            trace.extend(reply.trace);
            Reply { response: reply.response, trace }
        }
    }
}

fn request(method: Method, path: &str, body: &str) -> Request {
    Request {
        method,
        uri: path.to_string(),
        path: path.to_string(),
        content_type: Some("application/x-www-form-urlencoded".to_string()),
        body: body.as_bytes().to_vec(),
    }
}

/// The kinds of the spans that are open after the trace, or `None` where the
/// trace closes a span that is not the innermost open one.
fn open_spans(trace: &[TraceEvent]) -> Option<Vec<SpanKind>> {
    let mut open = Vec::new();
    for event in trace {
        match event {
            TraceEvent::Enter(span) => open.push(span.kind),
            TraceEvent::Exit(kind) => {
                if open.pop() != Some(*kind) {
                    return None;
                }
            }
            _ => {}
        }
    }
    Some(open)
}

fn header<'a>(reply: &'a Reply, name: &str) -> Vec<&'a str> {
    reply
        .response
        .headers
        .iter()
        .filter(|(n, _)| n == name)
        .map(|(_, v)| v.as_str())
        .collect()
}

#[test]
fn health_check_200_success() {
    let app = get_app();
    let mut table = Vec::new();
    let reply = run(&app, request(Method::Get, "/health_check", ""), &mut table);

    assert_eq!(StatusCode::Success, reply.response.status);
    assert!(reply.response.body.is_empty());
    assert!(table.is_empty());
}

#[test]
fn valid_form_data_subscribe_200_success() {
    let app = get_app();
    let mut table = Vec::new();
    let body = "name=tiny%20cat&email=tiny_cat%40gmail.com";
    let reply = run(&app, request(Method::Post, "/subscriptions", body), &mut table);

    assert_eq!(StatusCode::Success, reply.response.status);

    assert_eq!(table.len(), 1);
    let saved = &table[0];
    assert_eq!(saved.email, "tiny_cat@gmail.com");
    assert_eq!(saved.name, "tiny cat");
}

#[test]
fn missing_form_data_400_bad_request() {
    let app = get_app();
    let test_cases = vec![
        ("name=tiny%20cat", "missing email"),
        ("email=tiny_cat@gmail.com", "missing name"),
        ("", "missing name and email"),
    ];

    for (invalid_body, error_msg) in test_cases {
        let mut table = Vec::new();
        let reply = run(&app, request(Method::Post, "/subscriptions", invalid_body), &mut table);
        assert_eq!(
            StatusCode::BadRequest,
            reply.response.status,
            "API did not fail with 400 when payload was {}",
            error_msg
        );
        assert!(table.is_empty());
    }
}

#[test]
fn unknown_route_is_404() {
    let app = get_app();
    let mut table = Vec::new();
    for (method, path) in [
        (Method::Get, "/"),
        (Method::Get, "/subscriptions"),
        (Method::Post, "/health_check"),
        (Method::Get, "/health_check/"),
        (Method::Delete, "/subscriptions"),
        (Method::Other("PROPFIND".to_string()), "/health_check"),
    ] {
        let reply = run(&app, request(method, path, ""), &mut table);
        assert_eq!(StatusCode::NotFound, reply.response.status);
        assert_eq!(404, reply.response.status.as_u16());
        assert!(reply.response.body.is_empty());
    }
    assert!(table.is_empty());
}

#[test]
fn health_check_ignores_the_rest_of_the_request() {
    let app = get_app();
    let mut table = Vec::new();
    let mut probe = request(Method::Get, "/health_check", "email=a%40b.c&name=d");
    probe.uri = "/health_check?verbose=1".to_string();
    let reply = run(&app, probe, &mut table);
    assert_eq!(StatusCode::Success, reply.response.status);
    assert!(reply.response.body.is_empty());
    assert!(table.is_empty());
}

#[test]
fn every_response_carries_the_request_id_of_its_root_span() {
    let app = get_app();
    let requests = vec![
        request(Method::Get, "/health_check", ""),
        request(Method::Get, "/nowhere", ""),
        request(Method::Post, "/subscriptions", "name=tiny%20cat"),
        request(Method::Post, "/subscriptions", "name=tiny%20cat&email=tiny_cat%40gmail.com"),
    ];
    for request in requests {
        let mut table = Vec::new();
        let method = request.method.clone();
        let uri = request.uri.clone();
        let reply = run(&app, request, &mut table);

        let sent = header(&reply, "x-request-id");
        assert_eq!(sent.len(), 1);
        assert_eq!(reply.response.headers.len(), 1);

        let root = match &reply.trace[0] {
            TraceEvent::Enter(span) => span,
            other => panic!("the trace starts with {:?}", other),
        };
        assert_eq!(root.kind, SpanKind::Http);
        assert_eq!(root.kind.as_str(), "HTTP");
        assert_eq!(
            root.fields,
            vec![
                ("http.method".to_string(), method.as_str().to_string()),
                ("http.url".to_string(), uri),
                ("request_id".to_string(), sent[0].to_string()),
            ]
        );
    }
}

#[test]
fn each_request_gets_a_request_id_of_its_own() {
    let app = get_app();
    let mut seen = std::collections::HashSet::new();
    for _ in 0..100 {
        let mut table = Vec::new();
        let reply = run(&app, request(Method::Get, "/health_check", ""), &mut table);
        let sent = header(&reply, "x-request-id");
        assert_eq!(sent[0].len(), 36);
        assert_eq!(sent[0].as_bytes()[14], b'4');
        assert!(seen.insert(sent[0].to_string()));
    }
}

#[test]
fn traces_are_balanced() {
    let app = get_app();
    let requests = vec![
        request(Method::Get, "/health_check", ""),
        request(Method::Get, "/nowhere", ""),
        request(Method::Post, "/subscriptions", ""),
        request(Method::Post, "/subscriptions", "name=tiny%20cat&email=tiny_cat%40gmail.com"),
    ];
    for request in requests {
        let mut table = Vec::new();
        let reply = run(&app, request, &mut table);
        assert_eq!(open_spans(&reply.trace), Some(Vec::new()));
        assert_eq!(reply.trace.last(), Some(&TraceEvent::Exit(SpanKind::Http)));
    }
}

#[test]
fn health_check_trace() {
    let app = get_app();
    let mut table = Vec::new();
    let reply = run(&app, request(Method::Get, "/health_check", ""), &mut table);
    assert_eq!(reply.trace.len(), 3);
    assert_eq!(reply.trace[1], TraceEvent::Info("health check OK".to_string()));
    assert_eq!(reply.trace[2], TraceEvent::Exit(SpanKind::Http));
}

#[test]
fn submission_waits_with_three_open_spans() {
    let app = get_app();
    let body = "name=tiny%20cat&email=tiny_cat%40gmail.com";
    let pending = match app.receive(&request(Method::Post, "/subscriptions", body)) {
        Progress::Pending(pending) => pending,
        Progress::Done(reply) => panic!("answered at once with {:?}", reply.response.status),
    };
    assert_eq!(
        open_spans(&pending.trace),
        Some(vec![SpanKind::Http, SpanKind::AddSubscriber, SpanKind::SaveSubscriber])
    );
    let kinds: Vec<SpanKind> = pending.context.spans.iter().map(|s| s.kind).collect();
    assert_eq!(kinds, vec![SpanKind::Http, SpanKind::AddSubscriber, SpanKind::SaveSubscriber]);
    assert_eq!(pending.context.spans[1].kind.as_str(), "Adding a new subscriber");
    assert_eq!(
        pending.context.spans[1].fields,
        vec![
            ("subscriber_email".to_string(), "tiny_cat@gmail.com".to_string()),
            ("subscriber_name".to_string(), "tiny cat".to_string()),
        ]
    );
    assert_eq!(
        pending.context.spans[2].kind.as_str(),
        "Saving new subscriber details in the database"
    );
    assert!(pending.context.spans[2].fields.is_empty());
    assert_eq!(
        pending.context.spans[0].fields[2].1,
        pending.context.correlation_id.header_value()
    );
    assert_eq!(pending.row.email, "tiny_cat@gmail.com");
    assert_eq!(pending.row.name, "tiny cat");
}

#[test]
fn many_submissions_give_as_many_rows_with_ids_of_their_own() {
    let app = get_app();
    let mut table = Vec::new();
    let n = 64;
    for i in 0..n {
        let body = format!("name=cat%20{i}&email=cat{i}%40example.com");
        let reply = run(&app, request(Method::Post, "/subscriptions", &body), &mut table);
        assert_eq!(StatusCode::Success, reply.response.status);
    }
    assert_eq!(table.len(), n);
    let ids: std::collections::HashSet<u128> = table.iter().map(|row| row.id.bits).collect();
    assert_eq!(ids.len(), n);
    for (i, row) in table.iter().enumerate() {
        assert_eq!(row.email, format!("cat{i}@example.com"));
        assert_eq!(row.name, format!("cat {i}"));
    }
}

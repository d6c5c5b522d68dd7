use zero2prod::http::{Method, StatusCode};
use zero2prod::startup::{get_app, pool_options, App, Handler, PoolOptions};

#[test]
fn registered_routes() {
    let app = get_app();
    assert_eq!(app.dispatch(&Method::Get, "/health_check"), Some(Handler::HealthCheck));
    assert_eq!(app.dispatch(&Method::Post, "/subscriptions"), Some(Handler::Subscribe));
}

#[test]
fn everything_else_has_no_handler() {
    let app = get_app();
    assert_eq!(app.dispatch(&Method::Get, "/subscriptions"), None);
    assert_eq!(app.dispatch(&Method::Post, "/health_check"), None);
    assert_eq!(app.dispatch(&Method::Head, "/health_check"), None);
    assert_eq!(app.dispatch(&Method::Get, "/"), None);
    assert_eq!(app.dispatch(&Method::Get, ""), None);
    assert_eq!(app.dispatch(&Method::Get, "/health_check/"), None);
    assert_eq!(app.dispatch(&Method::Get, "/Health_Check"), None);
    assert_eq!(app.dispatch(&Method::Get, "/tiny"), None);
}

#[test]
fn an_app_without_routes_has_no_handler() {
    let app = App::new();
    assert_eq!(app.dispatch(&Method::Get, "/health_check"), None);
}

#[test]
fn a_route_is_registered_once() {
    let app = match App::new().route(Method::Get, "/a", Handler::HealthCheck) {
        Ok(app) => app,
        Err(_) => panic!("a first route was refused"),
    };
    let app = match app.route(Method::Get, "/a", Handler::Subscribe) {
        Ok(_) => panic!("a second handler was taken for GET /a"),
        Err(app) => app,
    };
    assert_eq!(app.dispatch(&Method::Get, "/a"), Some(Handler::HealthCheck));
    let app = match app.route(Method::Post, "/a", Handler::Subscribe) {
        Ok(app) => app,
        Err(_) => panic!("POST /a was refused"),
    };
    let app = match app.route(Method::Get, "/b", Handler::Subscribe) {
        Ok(app) => app,
        Err(_) => panic!("GET /b was refused"),
    };
    assert_eq!(app.dispatch(&Method::Get, "/a"), Some(Handler::HealthCheck));
    assert_eq!(app.dispatch(&Method::Post, "/a"), Some(Handler::Subscribe));
    assert_eq!(app.dispatch(&Method::Get, "/b"), Some(Handler::Subscribe));
    assert_eq!(app.dispatch(&Method::Post, "/b"), None);
}

#[test]
fn status_codes() {
    assert_eq!(StatusCode::Success.as_u16(), 200);
    assert_eq!(StatusCode::BadRequest.as_u16(), 400);
    assert_eq!(StatusCode::NotFound.as_u16(), 404);
    assert_eq!(StatusCode::InternalServerError.as_u16(), 500);
}

#[test]
fn method_tokens() {
    assert_eq!(Method::Get.as_str(), "GET");
    assert_eq!(Method::Head.as_str(), "HEAD");
    assert_eq!(Method::Post.as_str(), "POST");
    assert_eq!(Method::Put.as_str(), "PUT");
    assert_eq!(Method::Delete.as_str(), "DELETE");
    assert_eq!(Method::Connect.as_str(), "CONNECT");
    assert_eq!(Method::Options.as_str(), "OPTIONS");
    assert_eq!(Method::Trace.as_str(), "TRACE");
    assert_eq!(Method::Patch.as_str(), "PATCH");
    assert_eq!(Method::Other("PROPFIND".to_string()).as_str(), "PROPFIND");
    assert_eq!(Method::Other("".to_string()).as_str(), "");
}

#[test]
fn same_methods() {
    let all = [
        Method::Get,
        Method::Head,
        Method::Post,
        Method::Put,
        Method::Delete,
        Method::Connect,
        Method::Options,
        Method::Trace,
        Method::Patch,
        Method::Other("PROPFIND".to_string()),
        Method::Other("PURGE".to_string()),
        Method::Other("GET".to_string()),
    ];
    for (i, a) in all.iter().enumerate() {
        for (j, b) in all.iter().enumerate() {
            assert_eq!(a.same_as(b), i == j);
            assert_eq!(a == b, i == j);
        }
    }
}

#[test]
fn other_methods_are_routed_by_their_token() {
    let purge = Method::Other("PURGE".to_string());
    let app = match App::new().route(purge.clone(), "/cache", Handler::HealthCheck) {
        Ok(app) => app,
        Err(_) => panic!("PURGE /cache was refused"),
    };
    assert_eq!(app.dispatch(&purge, "/cache"), Some(Handler::HealthCheck));
    assert_eq!(app.dispatch(&Method::Other("PROPFIND".to_string()), "/cache"), None);
    assert_eq!(app.dispatch(&Method::Get, "/cache"), None);
    assert_eq!(get_app().dispatch(&Method::Other("GET".to_string()), "/health_check"), None);
    assert!(app.route(purge, "/cache", Handler::Subscribe).is_err());
}

#[test]
fn pool_bounds() {
    assert_eq!(pool_options(), PoolOptions { max_connections: 1000, max_lifetime_secs: 30 * 60 });
}

#[test]
fn pool_bounds_from_configuration() {
    assert_eq!(PoolOptions::from_config(None, None), pool_options());
    assert_eq!(
        PoolOptions::from_config(Some(5), None),
        PoolOptions { max_connections: 5, max_lifetime_secs: 1800 }
    );
    assert_eq!(
        PoolOptions::from_config(None, Some(60)),
        PoolOptions { max_connections: 1000, max_lifetime_secs: 60 }
    );
    assert_eq!(
        PoolOptions::from_config(Some(0), Some(u64::MAX)),
        PoolOptions { max_connections: 0, max_lifetime_secs: u64::MAX }
    );
}

use service_mesh::error::ServiceError;
use service_mesh::gateway::{
    failure_status, proxy_request, relay_response, Header, ProxyFailure, Route, RouteTable,
    UpstreamResponse,
};

fn route(public: &str, base: &str, internal: &str) -> Route {
    Route {
        public_prefix: public.to_string(),
        base_url: base.to_string(),
        internal_prefix: internal.to_string(),
    }
}

fn mesh_routes() -> RouteTable {
    RouteTable {
        routes: vec![
            route("/api/auth/", "http://auth-service:8080", "/api/"),
            route("/api/data/", "http://data-service:8081", "/api/"),
            route("/api/test/", "http://test-service:8082", "/api/"),
        ],
    }
}

fn header(name: &str, value: &str) -> Header {
    Header { name: name.to_string(), value: value.as_bytes().to_vec() }
}

#[test]
fn login_is_forwarded_unchanged_to_auth_backend() {
    let body = br#"{"email":"a@b.com","password":"x"}"#.to_vec();
    let headers = vec![header("content-type", "application/json"), header("x-trace", "42")];
    let f = proxy_request(
        &mesh_routes(),
        "POST".to_string(),
        "/api/auth/login",
        headers.clone(),
        Some(body.clone()),
    )
    .unwrap();
    assert_eq!(f.url, "http://auth-service:8080/api/login");
    assert_eq!(f.method, "POST");
    assert_eq!(f.body, body);
    assert_eq!(f.headers.len(), 2);
    for (a, b) in f.headers.iter().zip(headers.iter()) {
        assert_eq!(a.name, b.name);
        assert_eq!(a.value, b.value);
    }
}

#[test]
fn unknown_prefix_is_not_found() {
    let r = proxy_request(&mesh_routes(), "GET".to_string(), "/api/unknown/x", vec![], Some(vec![]));
    assert_eq!(r.err(), Some(ServiceError::NotFound));
    let r = proxy_request(&mesh_routes(), "GET".to_string(), "/api/unknown/x", vec![], None);
    assert_eq!(r.err(), Some(ServiceError::NotFound));
}

#[test]
fn prefix_without_trailing_segment_is_not_found() {
    let r = proxy_request(&mesh_routes(), "GET".to_string(), "/api/auth", vec![], Some(vec![]));
    assert_eq!(r.err(), Some(ServiceError::NotFound));
}

#[test]
fn unreadable_body_is_bad_request() {
    let r = proxy_request(&mesh_routes(), "POST".to_string(), "/api/data/data", vec![], None);
    assert_eq!(r.err(), Some(ServiceError::BadRequest));
}

#[test]
fn nested_path_keeps_its_rest() {
    let f = proxy_request(
        &mesh_routes(),
        "GET".to_string(),
        "/api/test/is-logged-in?x=1",
        vec![],
        Some(vec![]),
    )
    .unwrap();
    assert_eq!(f.url, "http://test-service:8082/api/is-logged-in?x=1");
}

#[test]
fn longest_prefix_wins() {
    let table = RouteTable {
        routes: vec![
            route("/api/", "http://general", "/v1/"),
            route("/api/data/", "http://data", "/internal/"),
            route("/api/", "http://shadowed", "/v2/"),
        ],
    };
    assert_eq!(table.resolve("/api/data/items").unwrap(), "http://data/internal/items");
    assert_eq!(table.resolve("/api/other").unwrap(), "http://general/v1/other");
    assert_eq!(table.best_route("/api/other"), Some(0));
    assert_eq!(table.best_route("/elsewhere"), None);
}

#[test]
fn upstream_response_is_relayed_verbatim() {
    let up = UpstreamResponse {
        status: 201,
        headers: vec![header("set-cookie", "a=b"), header("content-type", "text/plain")],
        body: vec![0, 255, 10, 13],
    };
    let r = relay_response(Ok(up)).unwrap();
    assert_eq!(r.status, 201);
    assert_eq!(r.body, vec![0, 255, 10, 13]);
    assert_eq!(r.headers.len(), 2);
    assert_eq!(r.headers[0].name, "set-cookie");
    assert_eq!(r.headers[1].value, b"text/plain".to_vec());
}

#[test]
fn failures_map_to_statuses() {
    assert_eq!(failure_status(ProxyFailure::InboundBody), ServiceError::BadRequest);
    assert_eq!(failure_status(ProxyFailure::UpstreamSend), ServiceError::BadGateway);
    assert_eq!(failure_status(ProxyFailure::UpstreamBody), ServiceError::BadGateway);
    assert_eq!(failure_status(ProxyFailure::ResponseBuild), ServiceError::Internal);
    assert_eq!(relay_response(Err(ProxyFailure::UpstreamSend)).err(), Some(ServiceError::BadGateway));
}

#[test]
fn error_status_codes() {
    assert_eq!(ServiceError::BadRequest.status_code(), 400);
    assert_eq!(ServiceError::Unauthorized.status_code(), 401);
    assert_eq!(ServiceError::NotFound.status_code(), 404);
    assert_eq!(ServiceError::Conflict.status_code(), 409);
    assert_eq!(ServiceError::Internal.status_code(), 500);
    assert_eq!(ServiceError::BadGateway.status_code(), 502);
}

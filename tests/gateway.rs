use api_gateway::config::{AppConfig, ConfigError, EnvSettings};
use api_gateway::cors::CorsPolicy;
use api_gateway::errors::ApiError;
use api_gateway::health::check;
use api_gateway::middleware::{RequestContext, RequestId, RequestIdValue, RequestLogger, ResponseTime};
use api_gateway::pipeline::Chain;
use api_gateway::proxy::{
    classify, complete, forward_reply, prepare, respond, HttpMethod, ProxyOutcome, ResponseBody,
    ServiceName, ServiceRegistry, UpstreamCallSpec, UpstreamReply,
};
use api_gateway::text::decimal_string;
use api_gateway::users::{login, logout, refresh, register, LoginRequest, RefreshTokenRequest, RegisterRequest};

fn unset() -> EnvSettings {
    EnvSettings {
        port: None,
        host: None,
        user_service_url: None,
        payments_service_url: None,
        sales_service_url: None,
        purchasing_service_url: None,
        inventory_service_url: None,
        customer_service_url: None,
        environment: None,
        log_level: None,
    }
}

fn default_config() -> AppConfig {
    match AppConfig::from_settings(unset()) {
        Ok(c) => c,
        Err(_) => panic!("defaults must give a configuration"),
    }
}

fn registry() -> ServiceRegistry {
    ServiceRegistry::from_config(&default_config())
}

fn json(text: &str) -> serde_json::Value {
    serde_json::from_str(text).unwrap()
}

fn ctx(id: &str, started_at: u64) -> RequestContext {
    RequestContext { id: RequestIdValue(id.to_string()), started_at }
}

#[test]
fn status_codes_follow_the_table() {
    let s = || "x".to_string();
    assert_eq!(ApiError::NotFound(s()).status_code(), 404);
    assert_eq!(ApiError::BadRequest(s()).status_code(), 400);
    assert_eq!(ApiError::Unauthorized(s()).status_code(), 401);
    assert_eq!(ApiError::Forbidden(s()).status_code(), 403);
    assert_eq!(ApiError::ServiceUnavailable(s()).status_code(), 503);
    assert_eq!(ApiError::InternalServerError(s()).status_code(), 500);
    assert_eq!(ApiError::RequestTimeout(s()).status_code(), 504);
}

#[test]
fn messages_carry_kind_and_reason() {
    assert_eq!(ApiError::NotFound("user 7".into()).message(), "Not found: user 7");
    assert_eq!(ApiError::BadRequest("no email".into()).message(), "Bad request: no email");
    assert_eq!(ApiError::Unauthorized("token".into()).message(), "Unauthorized: token");
    assert_eq!(ApiError::Forbidden("admin".into()).message(), "Forbidden: admin");
    assert_eq!(
        ApiError::ServiceUnavailable("User Service unavailable".into()).message(),
        "Service unavailable: User Service unavailable"
    );
    assert_eq!(
        ApiError::InternalServerError("Error parsing response".into()).message(),
        "Internal server error: Error parsing response"
    );
    assert_eq!(ApiError::RequestTimeout("slow".into()).message(), "Request timeout: slow");
}

#[test]
fn to_response_repeats_message_only_when_asked() {
    let e = ApiError::Forbidden("admin".into());
    let with = e.to_response(true);
    assert_eq!(with.status, 403);
    assert_eq!(with.message, "Forbidden: admin");
    assert_eq!(with.details.as_deref(), Some("Forbidden: admin"));
    let without = e.to_response(false);
    assert_eq!(without.status, 403);
    assert!(without.details.is_none());
}

#[test]
fn normalize_discloses_detail_in_development_only() {
    let e = ApiError::RequestTimeout("slow".into());
    let dev = e.normalize(Some("after 30s".into()), true);
    assert_eq!(dev.status, 504);
    assert_eq!(dev.message, "Request timeout: slow");
    assert_eq!(dev.details.as_deref(), Some("after 30s"));
    assert!(e.normalize(Some("after 30s".into()), false).details.is_none());
    assert!(e.normalize(None, true).details.is_none());
}

#[test]
fn defaults_fill_unset_settings() {
    let c = default_config();
    assert_eq!(c.port, 3000);
    assert_eq!(c.host, "0.0.0.0");
    assert_eq!(c.user_service_url, "http://user-service:3000");
    assert_eq!(c.payments_service_url, "http://payments-service:3000");
    assert_eq!(c.sales_service_url, "http://sales-service:3000");
    assert_eq!(c.purchasing_service_url, "http://purchasing-service:3000");
    assert_eq!(c.inventory_service_url, "http://inventory-service:3000");
    assert_eq!(c.customer_service_url, "http://customer-activity-service:3000");
    assert_eq!(c.environment, "development");
    assert_eq!(c.log_level, "info");
    assert!(c.is_development());
}

#[test]
fn given_settings_override_defaults() {
    let mut env = unset();
    env.port = Some("+8080".into());
    env.user_service_url = Some("http://localhost:4000".into());
    env.environment = Some("production".into());
    let c = AppConfig::from_settings(env).ok().unwrap();
    assert_eq!(c.port, 8080);
    assert_eq!(c.user_service_url, "http://localhost:4000");
    assert!(!c.is_development());
}

#[test]
fn invalid_ports_are_rejected() {
    for bad in ["70000", "abc", "", "-1", " 80"] {
        let mut env = unset();
        env.port = Some(bad.into());
        match AppConfig::from_settings(env) {
            Err(ConfigError::InvalidPort(p)) => assert_eq!(p, bad),
            Ok(_) => panic!("port {:?} must be rejected", bad),
        }
    }
    let mut env = unset();
    env.port = Some("65535".into());
    assert_eq!(AppConfig::from_settings(env).ok().unwrap().port, 65535);
}

#[test]
fn decimal_rendering() {
    assert_eq!(decimal_string(0), "0");
    assert_eq!(decimal_string(7), "7");
    assert_eq!(decimal_string(409), "409");
    assert_eq!(decimal_string(u64::MAX), "18446744073709551615");
}

#[test]
fn prepare_joins_base_url_and_path() {
    let out = prepare(&registry(), logout());
    assert!(out.method == HttpMethod::Post);
    assert_eq!(out.url, "http://user-service:3000/api/users/logout");
    assert!(out.body.is_none());
    let call = UpstreamCallSpec {
        service: ServiceName::Customer,
        path: "/api/customers/3".into(),
        method: HttpMethod::Get,
        body: None,
    };
    assert_eq!(prepare(&registry(), call).url, "http://customer-activity-service:3000/api/customers/3");
}

#[test]
fn login_body_is_compact_json_with_escapes() {
    let call = login(&LoginRequest { email: "a@b.c".into(), password: "p\"w\n".into() });
    assert!(call.service == ServiceName::User);
    assert!(call.method == HttpMethod::Post);
    assert_eq!(call.path, "/api/users/login");
    assert_eq!(call.body.as_deref(), Some("{\"email\":\"a@b.c\",\"password\":\"p\\\"w\\n\"}"));
}

#[test]
fn register_and_refresh_bodies() {
    let call = register(&RegisterRequest {
        name: "Ann".into(),
        email: "ann@x.io".into(),
        password: "s3cret".into(),
    });
    assert_eq!(call.path, "/api/users/register");
    assert_eq!(
        call.body.as_deref(),
        Some("{\"name\":\"Ann\",\"email\":\"ann@x.io\",\"password\":\"s3cret\"}")
    );
    let call = refresh(&RefreshTokenRequest { refresh_token: "r-1".into() });
    assert_eq!(call.path, "/api/users/refresh");
    assert_eq!(call.body.as_deref(), Some("{\"refresh_token\":\"r-1\"}"));
    assert!(logout().body.is_none());
}

#[test]
fn unreachable_login_is_503_in_development() {
    let r = complete(ServiceName::User, UpstreamReply::Unreachable("connection refused".into()), true);
    assert_eq!(r.status, 503);
    match r.body {
        ResponseBody::Error(e) => {
            assert_eq!(e.status, 503);
            assert_eq!(e.message, "Service unavailable: User Service unavailable");
            assert_eq!(e.details.as_deref(), Some("connection refused"));
        }
        ResponseBody::Upstream(_) => panic!("expected an error envelope"),
    }
}

#[test]
fn unreachable_login_is_503_in_production_without_details() {
    let r = complete(ServiceName::User, UpstreamReply::Unreachable("connection refused".into()), false);
    assert_eq!(r.status, 503);
    match r.body {
        ResponseBody::Error(e) => {
            assert_eq!(e.message, "Service unavailable: User Service unavailable");
            assert!(e.details.is_none());
        }
        ResponseBody::Upstream(_) => panic!("expected an error envelope"),
    }
}

#[test]
fn login_created_is_relayed_unchanged() {
    let reply = UpstreamReply::Received { status: 201, body: b"{\"token\":\"abc\"}".to_vec() };
    let r = complete(ServiceName::User, reply, false);
    assert_eq!(r.status, 201);
    match r.body {
        ResponseBody::Upstream(v) => assert_eq!(v, json("{\"token\":\"abc\"}")),
        ResponseBody::Error(_) => panic!("expected the upstream body"),
    }
}

#[test]
fn register_conflict_is_passed_through() {
    let reply = UpstreamReply::Received { status: 409, body: b"{\"error\":\"email taken\"}".to_vec() };
    match forward_reply(ServiceName::User, reply) {
        ProxyOutcome::UpstreamError { status, body } => {
            assert_eq!(status, 409);
            assert_eq!(body, json("{\"error\":\"email taken\"}"));
        }
        _ => panic!("expected a pass-through"),
    }
    let reply = UpstreamReply::Received { status: 409, body: b"{\"error\":\"email taken\"}".to_vec() };
    let r = complete(ServiceName::User, reply, true);
    assert_eq!(r.status, 409);
    match r.body {
        ResponseBody::Upstream(v) => assert_eq!(v, json("{\"error\":\"email taken\"}")),
        ResponseBody::Error(_) => panic!("must not be re-wrapped"),
    }
}

#[test]
fn unparsable_body_is_500() {
    let reply = UpstreamReply::Received { status: 200, body: b"<html>oops".to_vec() };
    match forward_reply(ServiceName::User, reply) {
        ProxyOutcome::Failure { error: ApiError::InternalServerError(m), detail } => {
            assert_eq!(m, "Error parsing response");
            assert!(!detail.is_empty());
        }
        _ => panic!("expected InternalServerError"),
    }
    let reply = UpstreamReply::Received { status: 200, body: Vec::new() };
    let r = complete(ServiceName::User, reply, false);
    assert_eq!(r.status, 500);
    match r.body {
        ResponseBody::Error(e) => {
            assert_eq!(e.message, "Internal server error: Error parsing response");
            assert!(e.details.is_none());
        }
        ResponseBody::Upstream(_) => panic!("expected an error envelope"),
    }
}

#[test]
fn unreadable_body_is_500_with_detail() {
    let reply = UpstreamReply::BodyUnreadable { status: 200, detail: "reset".into() };
    let r = complete(ServiceName::Payments, reply, true);
    assert_eq!(r.status, 500);
    match r.body {
        ResponseBody::Error(e) => assert_eq!(e.details.as_deref(), Some("reset")),
        ResponseBody::Upstream(_) => panic!("expected an error envelope"),
    }
}

#[test]
fn classify_bounds_of_success_range() {
    assert!(matches!(classify(200, Ok(json("1"))), ProxyOutcome::Success { status: 200, .. }));
    assert!(matches!(classify(299, Ok(json("1"))), ProxyOutcome::Success { status: 299, .. }));
    assert!(matches!(classify(199, Ok(json("1"))), ProxyOutcome::UpstreamError { status: 199, .. }));
    assert!(matches!(classify(300, Ok(json("1"))), ProxyOutcome::UpstreamError { status: 300, .. }));
    assert!(matches!(
        classify(200, Err("bad".into())),
        ProxyOutcome::Failure { error: ApiError::InternalServerError(_), .. }
    ));
}

#[test]
fn respond_uses_taxonomy_for_failures() {
    let out = ProxyOutcome::Failure { error: ApiError::RequestTimeout("slow".into()), detail: "d".into() };
    let r = respond(out, true);
    assert_eq!(r.status, 504);
    match r.body {
        ResponseBody::Error(e) => {
            assert_eq!(e.message, "Request timeout: slow");
            assert_eq!(e.details.as_deref(), Some("d"));
        }
        ResponseBody::Upstream(_) => panic!("expected an error envelope"),
    }
}

#[test]
fn service_labels_name_each_backend() {
    assert_eq!(ServiceName::User.label(), "User Service");
    assert_eq!(ServiceName::Inventory.label(), "Inventory Service");
    assert_eq!(HttpMethod::Delete.name(), "DELETE");
}

#[test]
fn log_lines_carry_the_identifier() {
    let c = ctx("req-1", 10);
    let logger = RequestLogger;
    assert_eq!(logger.on_request(&c, "POST", "/api/users/login"), "[req-1] POST /api/users/login");
    assert_eq!(
        logger.on_response(&c, "POST", "/api/users/login", 201),
        "[req-1] POST /api/users/login => 201"
    );
    assert_eq!(RequestId.on_response(&c), "req-1");
}

#[test]
fn one_identifier_per_request_in_both_lines() {
    let chain = Chain::new();
    let start = chain.begin(100, "GET", "/api/health");
    let id = start.context.id.as_string();
    assert_eq!(id.len(), 36);
    assert_eq!(start.log_line, format!("[{}] GET /api/health", id));
    let end = chain.finish(&start.context, "GET", "/api/health", 200, 350);
    assert_eq!(end.log_line, format!("[{}] GET /api/health => 200", id));
    assert_eq!(end.elapsed, 250);
}

#[test]
fn concurrent_contexts_get_distinct_identifiers() {
    let a = RequestId.on_request(1);
    let b = RequestId.on_request(1);
    assert_ne!(a.id.0, b.id.0);
    assert_eq!(a.started_at, 1);
}

#[test]
fn elapsed_is_never_negative() {
    let timing = ResponseTime;
    let c = ctx("r", 500);
    assert_eq!(timing.on_request(&c), 500);
    assert_eq!(timing.on_response(&c, 750), 250);
    assert_eq!(timing.on_response(&c, 500), 0);
    assert_eq!(timing.on_response(&c, 400), 0);
}

#[test]
fn hook_names() {
    assert_eq!(RequestId.info().name, "Request ID");
    assert_eq!(RequestLogger.info().name, "Request Logger");
    assert_eq!(ResponseTime.info().name, "Response Time");
}

#[test]
fn health_payload() {
    let h = check(1700000000, "0.1.0");
    assert_eq!(h.status, "ok");
    assert_eq!(h.timestamp, "1700000000");
    assert_eq!(h.version, "0.1.0");
}

#[test]
fn cors_policy_allows_configured_methods() {
    let p = CorsPolicy::gateway();
    assert!(p.allow_any_origin && p.allow_any_header && p.allow_credentials);
    let names: Vec<&str> = p.allowed_methods.iter().map(|m| m.name()).collect();
    assert_eq!(names, vec!["GET", "POST", "PUT", "DELETE", "OPTIONS"]);
}

use std::collections::HashMap;

use authgate::config::{Config, ConfigPatch, Overrides, resolve};
use authgate::error::GatewayError;
use authgate::ldap::BindOutcome;
use authgate::pipeline::{
    ConfigBeforeMiddleware, Credential, CurrentConfig, ErrorAfterMiddleware, Method, PingOutcome,
    Response, RouteId, get_handler, login_after_bind, login_begin, login_finish, ping_result,
};
use authgate::store::{DeleteOutcome, ReadOutcome, WriteOutcome, token_query, validate_result};

#[test]
fn error_mapping_statuses_and_reasons() {
    let mw = ErrorAfterMiddleware;
    let cases = [
        (GatewayError::RequestShape, 400, "Bad Request"),
        (GatewayError::InvalidCredentials, 401, "Invalid Credentials"),
        (GatewayError::DirectoryUnavailable, 503, "LDAP Error"),
        (GatewayError::DirectoryError(32), 503, "LDAP Error"),
        (GatewayError::InvalidToken, 400, "Invalid Token"),
        (GatewayError::TokenNotFound, 404, "Token Not Found"),
        (GatewayError::StoreUnavailable, 503, "Redis Error"),
    ];
    for (e, status, reason) in cases {
        let resp = mw.catch(&e);
        assert_eq!(resp.status, status, "wrong status for {:?}", e);
        assert_eq!(resp.body.as_str(), reason, "wrong reason for {:?}", e);
    }
}

#[test]
fn respond_passes_success_through_and_rewrites_errors() {
    let mw = ErrorAfterMiddleware;
    let ok = mw.respond(Ok(Response { status: 200, body: String::from("hello") }));
    assert_eq!(ok.status, 200);
    assert_eq!(ok.body.as_str(), "hello");

    let err = mw.respond(Err(GatewayError::StoreUnavailable));
    assert_eq!(err.status, 503);
    assert_eq!(err.body.as_str(), "Redis Error");
}

#[test]
fn inbound_stage_attaches_the_config() {
    let c = Config::default();
    let mw = ConfigBeforeMiddleware::new(c);
    let mut scope = CurrentConfig::new();
    assert!(scope.config.is_none());
    mw.before(&mut scope);
    let seen = scope.config.expect("config must be attached");
    assert_eq!(seen.server.port, 8080);
    assert_eq!(seen.ldap.user_pattern.as_str(), "%USER%");
}

#[test]
fn route_table_has_the_token_and_health_routes() {
    let routes = get_handler();
    assert_eq!(routes.len(), 4);
    assert_eq!(routes[0].method, Method::Post);
    assert_eq!(routes[0].pattern.as_str(), "/token");
    assert_eq!(routes[0].id, RouteId::Login);
    assert_eq!(routes[1].method, Method::Get);
    assert_eq!(routes[1].pattern.as_str(), "/token/:token");
    assert_eq!(routes[1].id, RouteId::Validate);
    assert_eq!(routes[2].method, Method::Delete);
    assert_eq!(routes[2].pattern.as_str(), "/token/:token");
    assert_eq!(routes[2].id, RouteId::Revoke);
    assert_eq!(routes[3].method, Method::Get);
    assert_eq!(routes[3].pattern.as_str(), "/ping");
    assert_eq!(routes[3].id, RouteId::Health);
}

#[test]
fn missing_body_is_a_request_error() {
    let c = Config::default();
    let e = login_begin(&None, &c).expect_err("no body must be rejected");
    assert_eq!(e, GatewayError::RequestShape);
    let mw = ErrorAfterMiddleware;
    assert_eq!(mw.catch(&e).status, 400);
}

#[test]
fn rejected_bind_yields_invalid_credentials() {
    let e = login_after_bind("alice", BindOutcome::Code(49)).expect_err("rejected bind");
    assert_eq!(e, GatewayError::InvalidCredentials);
    assert_eq!(ErrorAfterMiddleware.catch(&e).status, 401);
}

#[test]
fn unreachable_directory_yields_service_unavailable() {
    let e = login_after_bind("alice", BindOutcome::ConnectError(String::from("refused")))
        .expect_err("unreachable directory");
    assert_eq!(e, GatewayError::DirectoryUnavailable);
    assert_eq!(ErrorAfterMiddleware.catch(&e).status, 503);

    let e = login_after_bind("alice", BindOutcome::Code(52)).expect_err("busy directory");
    assert_eq!(e, GatewayError::DirectoryError(52));
    assert_eq!(ErrorAfterMiddleware.catch(&e).status, 503);
}

#[test]
fn ping_reports_store_reachability() {
    assert!(ping_result(&PingOutcome::Reachable).is_ok());
    let e = ping_result(&PingOutcome::Unavailable).expect_err("unreachable store");
    assert_eq!(e, GatewayError::StoreUnavailable);
}

/// The end-to-end scenario: resolve a config, log in, validate the
/// issued token, revoke it, and see the validation fail with 404.
#[test]
fn login_validate_revoke_cycle() {
    let doc = ConfigPatch {
        server_address: None,
        server_port: Some(1234),
        redis_uri: Some(String::from("kv://localhost")),
        ldap_uri: Some(String::from("ldap://localhost")),
        ldap_user: None,
        ldap_pass: None,
        ldap_base_dn: None,
        ldap_user_pattern: Some(String::from("CN=%USER%,OU=people,DC=example,DC=com")),
    };
    let config = resolve(Some(&doc), &Overrides::none(), &Vec::new()).expect("valid config");
    assert_eq!(config.server.port, 1234);
    assert_eq!(config.redis.uri.as_str(), "kv://localhost");

    let mw = ConfigBeforeMiddleware::new(config);
    let after = ErrorAfterMiddleware;
    let mut records: HashMap<String, String> = HashMap::new();

    // POST /token with a body the directory accepts.
    let mut scope = CurrentConfig::new();
    mw.before(&mut scope);
    let cfg = scope.config.expect("injected");
    let body = Some(Credential {
        username: String::from("alice"),
        password: String::from("secret"),
    });
    let bind = login_begin(&body, &cfg).expect("well-formed body");
    assert_eq!(bind.uri.as_str(), "ldap://localhost");
    assert_eq!(bind.bind_dn.as_str(), "CN=alice,OU=people,DC=example,DC=com");
    assert_eq!(bind.protocol_version, 3);

    // The directory accepts that DN and password.
    let plan = login_after_bind("alice", BindOutcome::Code(0)).expect("accepted bind");
    records.insert(plan.key.clone(), plan.value.clone());
    let token = login_finish(&plan, &WriteOutcome::Written).expect("record written");
    assert_eq!(token.len(), 36);

    // GET /token/{token}
    let key = token_query(token.as_str()).expect("well formed");
    let outcome = match records.get(key.as_str()) {
        Some(v) => ReadOutcome::Found(v.clone()),
        None => ReadOutcome::Missing,
    };
    let v = validate_result(outcome).expect("present");
    assert_eq!(v.username.as_str(), "alice");

    // DELETE /token/{token}
    let key = token_query(token.as_str()).expect("well formed");
    let del = match records.remove(key.as_str()) {
        Some(_) => DeleteOutcome::Deleted,
        None => DeleteOutcome::Absent,
    };
    assert!(authgate::store::revoke_result(&del).is_ok());

    // GET /token/{token} again: 404 through the outbound stage.
    let key = token_query(token.as_str()).expect("well formed");
    let outcome = match records.get(key.as_str()) {
        Some(v) => ReadOutcome::Found(v.clone()),
        None => ReadOutcome::Missing,
    };
    let e = validate_result(outcome).expect_err("record gone");
    let resp = after.respond(Err(e));
    assert_eq!(resp.status, 404);
    assert_eq!(resp.body.as_str(), "Token Not Found");
}

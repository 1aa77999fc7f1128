//! The request pipeline: the inbound stage that exposes the immutable
//! configuration to every request, the route handlers' decision logic,
//! and the outbound stage that rewrites backend failures to transport
//! statuses.
//!
//! The stages are composed by explicit dataflow: a handler stage takes
//! the injected configuration (or an earlier stage's product) as an
//! argument, so it cannot run before the inbound stage, and the
//! outbound mapping takes the handler's finished result.

use vstd::prelude::*;

use crate::config::Config;
use crate::error::GatewayError;
use crate::ldap;
use crate::ldap::{BindOutcome, BindRequest};
use crate::store;
use crate::store::{IssuePlan, WriteOutcome};

verus! {

/// True of two configs that hold the same values in every field.
pub open spec fn same_config(a: &Config, b: &Config) -> bool {
    &&& a.server.address@ == b.server.address@
    &&& a.server.port == b.server.port
    &&& a.redis.uri@ == b.redis.uri@
    &&& a.ldap.uri@ == b.ldap.uri@
    &&& a.ldap.user@ == b.ldap.user@
    &&& a.ldap.pass@ == b.ldap.pass@
    &&& a.ldap.base_dn@ == b.ldap.base_dn@
    &&& a.ldap.user_pattern@ == b.ldap.user_pattern@
}

/// A field-for-field copy of a config.
pub fn copy_config(c: &Config) -> (r: Config)
    ensures
        same_config(&r, c),
{
    Config {
        server: crate::config::ServerConfig {
            address: c.server.address.clone(),
            port: c.server.port,
        },
        redis: crate::config::RedisConfig { uri: c.redis.uri.clone() },
        ldap: crate::config::LdapConfig {
            uri: c.ldap.uri.clone(),
            user: c.ldap.user.clone(),
            pass: c.ldap.pass.clone(),
            base_dn: c.ldap.base_dn.clone(),
            user_pattern: c.ldap.user_pattern.clone(),
        },
    }
}

/// The request-scoped slot through which a request sees the process
/// configuration.
pub struct CurrentConfig {
    pub config: Option<Config>,
}

impl CurrentConfig {
    /// A fresh request scope: no configuration attached yet.
    pub fn new() -> (c: CurrentConfig)
        ensures
            c.config is None,
    {
        CurrentConfig { config: None }
    }
}

/// The inbound stage: it holds the process configuration, resolved once
/// at startup and never mutated, and exposes a copy to each request.
pub struct ConfigBeforeMiddleware {
    pub config: Config,
}

impl ConfigBeforeMiddleware {
    pub fn new(config: Config) -> (m: Self)
        ensures
            same_config(&m.config, &config),
    {
        ConfigBeforeMiddleware { config }
    }

    /// Runs the inbound stage on a request scope: afterwards the scope
    /// holds the process configuration, whatever it held before.
    pub fn before(&self, scope: &mut CurrentConfig)
        ensures
            final(scope).config matches Some(c) && same_config(&c, &self.config),
    {
        scope.config = Some(copy_config(&self.config));
    }
}

/// The transport status that each failure kind maps to.
pub open spec fn status_of(e: GatewayError) -> u16 {
    match e {
        GatewayError::RequestShape => 400,
        GatewayError::InvalidCredentials => 401,
        GatewayError::DirectoryUnavailable => 503,
        GatewayError::DirectoryError(_) => 503,
        GatewayError::InvalidToken => 400,
        GatewayError::TokenNotFound => 404,
        GatewayError::StoreUnavailable => 503,
    }
}

/// The short, fixed reason text returned for each failure kind: never
/// backend detail.
pub open spec fn reason_of(e: GatewayError) -> Seq<char> {
    match e {
        GatewayError::RequestShape => "Bad Request"@,
        GatewayError::InvalidCredentials => "Invalid Credentials"@,
        GatewayError::DirectoryUnavailable => "LDAP Error"@,
        GatewayError::DirectoryError(_) => "LDAP Error"@,
        GatewayError::InvalidToken => "Invalid Token"@,
        GatewayError::TokenNotFound => "Token Not Found"@,
        GatewayError::StoreUnavailable => "Redis Error"@,
    }
}

/// A transport-level response: a status and a body.
#[derive(Debug)]
pub struct Response {
    pub status: u16,
    pub body: String,
}

/// The outbound stage: every backend failure is rewritten to its
/// transport status with a fixed reason.
pub struct ErrorAfterMiddleware;

impl ErrorAfterMiddleware {
    /// Rewrites one error to its response.
    pub fn catch(&self, e: &GatewayError) -> (resp: Response)
        ensures
            resp.status == status_of(*e),
            resp.body@ == reason_of(*e),
    {
        let status: u16 = match e {
            GatewayError::RequestShape => 400,
            GatewayError::InvalidCredentials => 401,
            GatewayError::DirectoryUnavailable => 503,
            GatewayError::DirectoryError(_) => 503,
            GatewayError::InvalidToken => 400,
            GatewayError::TokenNotFound => 404,
            GatewayError::StoreUnavailable => 503,
        };
        let body: String = match e {
            GatewayError::RequestShape => String::from_str("Bad Request"),
            GatewayError::InvalidCredentials => String::from_str("Invalid Credentials"),
            GatewayError::DirectoryUnavailable => String::from_str("LDAP Error"),
            GatewayError::DirectoryError(_) => String::from_str("LDAP Error"),
            GatewayError::InvalidToken => String::from_str("Invalid Token"),
            GatewayError::TokenNotFound => String::from_str("Token Not Found"),
            GatewayError::StoreUnavailable => String::from_str("Redis Error"),
        };
        Response { status, body }
    }

    /// Runs the outbound stage on a handler's finished result: a
    /// success passes through unchanged, an error is rewritten.
    pub fn respond(&self, result: Result<Response, GatewayError>) -> (resp: Response)
        ensures
            match result {
                Ok(r) => resp.status == r.status && resp.body@ == r.body@,
                Err(e) => resp.status == status_of(e) && resp.body@ == reason_of(e),
            },
    {
        match result {
            Ok(r) => r,
            Err(e) => self.catch(&e),
        }
    }
}

/// The gateway's failure kind for a credential-verification error: a
/// connection failure is an availability failure, rejected credentials
/// are an authentication failure, and any other directory code keeps
/// its code.
pub fn directory_error(e: &ldap::Error) -> (g: GatewayError)
    ensures
        match e {
            ldap::Error::LDAPError(_) => g == GatewayError::DirectoryUnavailable,
            ldap::Error::InvalidCredentialsError => g == GatewayError::InvalidCredentials,
            ldap::Error::UnknownError(c) => g == GatewayError::DirectoryError(*c),
        },
{
    match e {
        ldap::Error::LDAPError(_) => GatewayError::DirectoryUnavailable,
        ldap::Error::InvalidCredentialsError => GatewayError::InvalidCredentials,
        ldap::Error::UnknownError(c) => GatewayError::DirectoryError(*c),
    }
}

/// A login request's parsed body.
#[derive(Debug)]
pub struct Credential {
    pub username: String,
    pub password: String,
}

/// The login handler's first stage: a missing or malformed body is a
/// request-shape error; otherwise the bind request for the credential
/// is built from the injected configuration.
pub fn login_begin(body: &Option<Credential>, config: &Config) -> (r: Result<
    BindRequest,
    GatewayError,
>)
    ensures
        match body {
            Some(cred) => (r matches Ok(b) && b.uri@ == config.ldap.uri@ && b.bind_dn@
                == ldap::subst(config.ldap.user_pattern@, cred.username@) && b.password@
                == cred.password@ && b.protocol_version == ldap::LDAP_PROTOCOL_VERSION),
            None => (r matches Err(e) && e == GatewayError::RequestShape),
        },
{
    match body {
        Some(cred) => Ok(
            ldap::bind_request(cred.username.as_str(), cred.password.as_str(), &config.ldap),
        ),
        None => Err(GatewayError::RequestShape),
    }
}

/// The login handler's second stage: the bind outcome is classified,
/// and only a successful bind plans the token write for the verified
/// username.
pub fn login_after_bind(username: &str, outcome: BindOutcome) -> (r: Result<
    IssuePlan,
    GatewayError,
>)
    ensures
        match outcome {
            BindOutcome::ConnectError(_) => (r matches Err(e) && e
                == GatewayError::DirectoryUnavailable),
            BindOutcome::Code(rc) => {
                &&& (rc == ldap::LDAP_RC_SUCCESS ==> (r matches Ok(p) && p.wf() && p.value@
                    == username@))
                &&& (rc == ldap::LDAP_RC_INVALID_CREDENTIALS ==> (r matches Err(e) && e
                    == GatewayError::InvalidCredentials))
                &&& (rc != ldap::LDAP_RC_SUCCESS && rc != ldap::LDAP_RC_INVALID_CREDENTIALS ==> (
                r matches Err(e) && e == GatewayError::DirectoryError(rc)))
            },
        },
{
    match ldap::classify_outcome(outcome) {
        Ok(()) => Ok(store::issue(username)),
        Err(e) => Err(directory_error(&e)),
    }
}

/// The login handler's last stage: the token is returned only when its
/// record was written with its expiry.
pub fn login_finish(plan: &IssuePlan, w: &WriteOutcome) -> (r: Result<String, GatewayError>)
    ensures
        match w {
            WriteOutcome::Written => r matches Ok(t) && t@ == plan.token@,
            WriteOutcome::Unavailable => (r matches Err(e) && e == GatewayError::StoreUnavailable),
        },
{
    store::issue_result(plan, w)
}

/// The liveness probe's outcome: a no-op round trip to the store.
#[derive(Debug, Clone, Copy, PartialEq, Eq, Structural)]
pub enum PingOutcome {
    Reachable,
    Unavailable,
}

/// The health handler: reports whether the store answered the round
/// trip.
pub fn ping_result(o: &PingOutcome) -> (r: Result<(), GatewayError>)
    ensures
        r is Ok <==> o is Reachable,
        o is Unavailable ==> (r matches Err(e) && e == GatewayError::StoreUnavailable),
{
    match o {
        PingOutcome::Reachable => Ok(()),
        PingOutcome::Unavailable => Err(GatewayError::StoreUnavailable),
    }
}

/// An HTTP method the route table uses.
#[derive(Debug, Clone, Copy, PartialEq, Eq, Structural)]
pub enum Method {
    Post,
    Get,
    Delete,
}

/// Which handler a route dispatches to.
#[derive(Debug, Clone, Copy, PartialEq, Eq, Structural)]
pub enum RouteId {
    Login,
    Validate,
    Revoke,
    Health,
}

/// One route: a method, a path pattern (`:token` marks the path
/// parameter), and the handler it dispatches to.
#[derive(Debug)]
pub struct Route {
    pub method: Method,
    pub pattern: String,
    pub id: RouteId,
}

/// The gateway's route table: issue, validate, revoke, and the
/// liveness probe.
pub fn get_handler() -> (routes: Vec<Route>)
    ensures
        routes@.len() == 4,
        routes@[0].method == Method::Post && routes@[0].pattern@ == "/token"@ && routes@[0].id
            == RouteId::Login,
        routes@[1].method == Method::Get && routes@[1].pattern@ == "/token/:token"@
            && routes@[1].id == RouteId::Validate,
        routes@[2].method == Method::Delete && routes@[2].pattern@ == "/token/:token"@
            && routes@[2].id == RouteId::Revoke,
        routes@[3].method == Method::Get && routes@[3].pattern@ == "/ping"@ && routes@[3].id
            == RouteId::Health,
{
    let mut routes: Vec<Route> = Vec::new();
    routes.push(Route { method: Method::Post, pattern: String::from_str("/token"), id: RouteId::Login });
    routes.push(
        Route { method: Method::Get, pattern: String::from_str("/token/:token"), id: RouteId::Validate },
    );
    routes.push(
        Route { method: Method::Delete, pattern: String::from_str("/token/:token"), id: RouteId::Revoke },
    );
    routes.push(Route { method: Method::Get, pattern: String::from_str("/ping"), id: RouteId::Health });
    routes
}

} // verus!

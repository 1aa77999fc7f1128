//! Credential verification against a directory server: DN templating
//! and the classification of bind outcomes.
//!
//! The connection and the bind attempt themselves are network calls
//! made by the caller; this module builds the bind request and
//! classifies what came back.

use vstd::prelude::*;

use crate::config::LdapConfig;
use crate::text::chars_to_string;

verus! {

/// The directory result code of a successful simple bind.
pub const LDAP_RC_SUCCESS: i32 = 0;

/// The directory result code for rejected credentials.
pub const LDAP_RC_INVALID_CREDENTIALS: i32 = 49;

/// The directory protocol version the gateway negotiates explicitly.
pub const LDAP_PROTOCOL_VERSION: i32 = 3;

/// How a credential verification failed.
#[derive(Debug)]
pub enum Error {
    /// The directory could not be reached or the bind attempt failed
    /// outright; holds the connection error's message.
    LDAPError(String),
    /// The directory's "invalid credentials" result code.
    InvalidCredentialsError,
    /// Any other non-success result code.
    UnknownError(i32),
}

/// The full human-readable message of a verification error.
pub open spec fn error_text(e: Error) -> Seq<char> {
    match e {
        Error::LDAPError(m) => "LDAP error: "@ + m@,
        Error::InvalidCredentialsError => "Invalid Credentials"@,
        Error::UnknownError(c) => "Unknown error: "@ + crate::text::int_text_of(c as int),
    }
}

/// The short description of a verification error.
pub open spec fn error_summary(e: Error) -> Seq<char> {
    match e {
        Error::LDAPError(m) => m@,
        Error::InvalidCredentialsError => "LDAP_INVALID_CREDENTIALS"@,
        Error::UnknownError(_) => "UnknownError"@,
    }
}

impl Error {
    /// The full human-readable message of this error.
    pub fn message(&self) -> (m: String)
        ensures
            m@ == error_text(*self),
    {
        match self {
            Error::LDAPError(s) => String::from_str("LDAP error: ").concat(s.as_str()),
            Error::InvalidCredentialsError => String::from_str("Invalid Credentials"),
            Error::UnknownError(c) => String::from_str("Unknown error: ").concat(
                crate::text::int_text(*c).as_str(),
            ),
        }
    }

    /// The short description of this error.
    pub fn description(&self) -> (d: String)
        ensures
            d@ == error_summary(*self),
    {
        match self {
            Error::LDAPError(s) => s.clone(),
            Error::InvalidCredentialsError => String::from_str("LDAP_INVALID_CREDENTIALS"),
            Error::UnknownError(_) => String::from_str("UnknownError"),
        }
    }
}

/// The placeholder that a DN template marks the username's position
/// with.
pub open spec fn placeholder() -> Seq<char> {
    seq!['%', 'U', 'S', 'E', 'R', '%']
}

/// The template with every occurrence of the placeholder replaced.
pub open spec fn subst(t: Seq<char>, rep: Seq<char>) -> Seq<char>
    decreases t.len(),
{
    if t.len() == 0 {
        t
    } else if t.len() >= 6 && t.take(6) == placeholder() {
        rep + subst(t.skip(6), rep)
    } else {
        seq![t[0]] + subst(t.drop_first(), rep)
    }
}

/// Substitutes the username for every occurrence of the placeholder in
/// the DN template.
pub fn bind_dn(user: &str, pattern: &str) -> (r: String)
    ensures
        r@ == subst(pattern@, user@),
{
    let n = pattern.unicode_len();
    let m = user.unicode_len();
    let mut out: Vec<char> = Vec::new();
    let mut i: usize = 0;
    proof {
        assert(pattern@.skip(0) =~= pattern@);
    }
    while i < n
        invariant
            n == pattern@.len(),
            m == user@.len(),
            i <= n,
            out@ + subst(pattern@.skip(i as int), user@) == subst(pattern@, user@),
        decreases n - i,
    {
        let ghost rest = pattern@.skip(i as int);
        let hit = n >= 6 && i <= n - 6 && pattern.get_char(i) == '%' && pattern.get_char(i + 1) == 'U'
            && pattern.get_char(i + 2) == 'S' && pattern.get_char(i + 3) == 'E'
            && pattern.get_char(i + 4) == 'R' && pattern.get_char(i + 5) == '%';
        if hit {
            proof {
                assert(rest.take(6) =~= placeholder());
                assert(rest.skip(6) =~= pattern@.skip(i + 6));
            }
            let ghost out_before = out@;
            let mut j: usize = 0;
            while j < m
                invariant
                    m == user@.len(),
                    j <= m,
                    out@ == out_before + user@.take(j as int),
                decreases m - j,
            {
                out.push(user.get_char(j));
                proof {
                    assert(out@ =~= out_before + user@.take(j + 1 as int));
                }
                j = j + 1;
            }
            proof {
                assert(user@.take(m as int) =~= user@);
                assert(out@ + subst(pattern@.skip(i + 6), user@) =~= out_before + subst(rest, user@));
            }
            i = i + 6;
        } else {
            proof {
                if rest.len() >= 6 && rest.take(6) == placeholder() {
                    assert(rest[0] == pattern@[i as int]);
                    assert(rest[1] == pattern@[i as int + 1]);
                    assert(rest[2] == pattern@[i as int + 2]);
                    assert(rest[3] == pattern@[i as int + 3]);
                    assert(rest[4] == pattern@[i as int + 4]);
                    assert(rest[5] == pattern@[i as int + 5]);
                    assert(rest.take(6)[0] == '%' && rest.take(6)[1] == 'U' && rest.take(6)[2] == 'S'
                        && rest.take(6)[3] == 'E' && rest.take(6)[4] == 'R' && rest.take(6)[5] == '%');
                    assert(false);
                }
                assert(rest.drop_first() =~= pattern@.skip(i + 1));
            }
            out.push(pattern.get_char(i));
            proof {
                assert(out@ + subst(pattern@.skip(i + 1), user@) =~= out@.drop_last() + subst(rest, user@));
            }
            i = i + 1;
        }
    }
    proof {
        assert(pattern@.skip(n as int) =~= Seq::<char>::empty());
        assert(out@ =~= subst(pattern@, user@));
    }
    chars_to_string(&out)
}

/// Everything a single bind attempt needs: where to connect, which DN
/// to bind, with which password, and the protocol version to negotiate
/// before binding.
#[derive(Debug)]
pub struct BindRequest {
    pub uri: String,
    pub bind_dn: String,
    pub password: String,
    pub protocol_version: i32,
}

/// Builds the bind request for a credential: the username is
/// substituted into the configured DN template.
pub fn bind_request(user: &str, pass: &str, config: &LdapConfig) -> (b: BindRequest)
    ensures
        b.uri@ == config.uri@,
        b.bind_dn@ == subst(config.user_pattern@, user@),
        b.password@ == pass@,
        b.protocol_version == LDAP_PROTOCOL_VERSION,
{
    BindRequest {
        uri: config.uri.clone(),
        bind_dn: bind_dn(user, config.user_pattern.as_str()),
        password: String::from_str(pass),
        protocol_version: LDAP_PROTOCOL_VERSION,
    }
}

/// What a single bind attempt came back with.
#[derive(Debug)]
pub enum BindOutcome {
    /// The connection or the bind call itself failed; holds the
    /// client's error message.
    ConnectError(String),
    /// The bind completed and the directory answered a result code.
    Code(i32),
}

/// Classifies a bind result code into exactly three disjoint kinds:
/// success, rejected credentials, and any other failure.
pub fn classify_code(rc: i32) -> (r: Result<(), Error>)
    ensures
        r is Ok <==> rc == LDAP_RC_SUCCESS,
        rc == LDAP_RC_INVALID_CREDENTIALS ==> (r matches Err(e) && e is InvalidCredentialsError),
        rc != LDAP_RC_SUCCESS && rc != LDAP_RC_INVALID_CREDENTIALS ==> (r matches Err(e) && e
            matches Error::UnknownError(v) && v == rc),
{
    if rc == LDAP_RC_SUCCESS {
        Ok(())
    } else if rc == LDAP_RC_INVALID_CREDENTIALS {
        Err(Error::InvalidCredentialsError)
    } else {
        Err(Error::UnknownError(rc))
    }
}

/// Classifies the outcome of a bind attempt: a connection failure is an
/// availability failure, never a credential failure.
pub fn classify_outcome(o: BindOutcome) -> (r: Result<(), Error>)
    ensures
        match o {
            BindOutcome::ConnectError(m) => r matches Err(e) && e matches Error::LDAPError(mm)
                && mm@ == m@,
            BindOutcome::Code(rc) => {
                &&& (r is Ok <==> rc == LDAP_RC_SUCCESS)
                &&& (rc == LDAP_RC_INVALID_CREDENTIALS ==> (r matches Err(e) && e
                    is InvalidCredentialsError))
                &&& (rc != LDAP_RC_SUCCESS && rc != LDAP_RC_INVALID_CREDENTIALS ==> (r matches Err(
                    e,
                ) && e matches Error::UnknownError(v) && v == rc))
            },
        },
{
    match o {
        BindOutcome::ConnectError(m) => Err(Error::LDAPError(m)),
        BindOutcome::Code(rc) => classify_code(rc),
    }
}

} // verus!

use authgate::config::LdapConfig;
use authgate::ldap::{
    BindOutcome, Error, LDAP_PROTOCOL_VERSION, LDAP_RC_INVALID_CREDENTIALS, LDAP_RC_SUCCESS,
    bind_dn, bind_request, classify_code, classify_outcome,
};

#[test]
fn bind_dn_substitutes_the_placeholder() {
    let dn = bind_dn("alice", "CN=%USER%,OU=people,DC=example,DC=com");
    assert_eq!(dn.as_str(), "CN=alice,OU=people,DC=example,DC=com");
}

#[test]
fn bind_dn_without_placeholder_is_unchanged() {
    let dn = bind_dn("alice", "CN=admin,DC=example,DC=com");
    assert_eq!(dn.as_str(), "CN=admin,DC=example,DC=com");
}

#[test]
fn bind_dn_substitutes_every_occurrence() {
    let dn = bind_dn("bob", "%USER%.%USER%");
    assert_eq!(dn.as_str(), "bob.bob");
}

#[test]
fn bind_dn_edge_cases() {
    assert_eq!(bind_dn("alice", "").as_str(), "");
    assert_eq!(bind_dn("", "CN=%USER%").as_str(), "CN=");
    assert_eq!(bind_dn("alice", "%USER").as_str(), "%USER");
    assert_eq!(bind_dn("alice", "%%USER%%").as_str(), "%alice%");
    assert_eq!(bind_dn("%USER%", "x=%USER%").as_str(), "x=%USER%");
}

#[test]
fn success_code_is_success() {
    assert_eq!(LDAP_RC_SUCCESS, 0);
    assert!(classify_code(0).is_ok());
}

#[test]
fn invalid_credentials_code_is_a_credential_failure() {
    assert_eq!(LDAP_RC_INVALID_CREDENTIALS, 49);
    match classify_code(49) {
        Err(Error::InvalidCredentialsError) => (),
        other => panic!("code 49 must classify as invalid credentials, got {:?}", other),
    }
    // The connection succeeded and the directory answered: this must
    // never look like an availability failure.
    match classify_outcome(BindOutcome::Code(49)) {
        Err(Error::LDAPError(_)) => panic!("code 49 must not classify as an availability failure"),
        Err(Error::InvalidCredentialsError) => (),
        other => panic!("code 49 must classify as invalid credentials, got {:?}", other),
    }
}

#[test]
fn other_codes_keep_their_code() {
    match classify_code(32) {
        Err(Error::UnknownError(32)) => (),
        other => panic!("wrong classification: {:?}", other),
    }
}

#[test]
fn connection_failure_is_an_availability_failure() {
    match classify_outcome(BindOutcome::ConnectError(String::from("connect refused"))) {
        Err(Error::LDAPError(m)) => assert_eq!(m.as_str(), "connect refused"),
        other => panic!("wrong classification: {:?}", other),
    }
}

#[test]
fn bind_request_carries_uri_dn_and_protocol() {
    let cfg = LdapConfig {
        uri: String::from("ldap://dir.example.com"),
        user: String::from(""),
        pass: String::from(""),
        base_dn: String::from("DC=example,DC=com"),
        user_pattern: String::from("CN=%USER%,DC=example,DC=com"),
    };
    let b = bind_request("carol", "hunter2", &cfg);
    assert_eq!(b.uri.as_str(), "ldap://dir.example.com");
    assert_eq!(b.bind_dn.as_str(), "CN=carol,DC=example,DC=com");
    assert_eq!(b.password.as_str(), "hunter2");
    assert_eq!(b.protocol_version, LDAP_PROTOCOL_VERSION);
    assert_eq!(b.protocol_version, 3);
}

#[test]
fn error_messages() {
    let e = Error::LDAPError(String::from("down"));
    assert_eq!(e.message().as_str(), "LDAP error: down");
    assert_eq!(e.description().as_str(), "down");

    let e = Error::InvalidCredentialsError;
    assert_eq!(e.message().as_str(), "Invalid Credentials");
    assert_eq!(e.description().as_str(), "LDAP_INVALID_CREDENTIALS");

    let e = Error::UnknownError(32);
    assert_eq!(e.message().as_str(), "Unknown error: 32");
    assert_eq!(e.description().as_str(), "UnknownError");

    let e = Error::UnknownError(-5);
    assert_eq!(e.message().as_str(), "Unknown error: -5");

    let e = Error::UnknownError(i32::MIN);
    assert_eq!(e.message().as_str(), "Unknown error: -2147483648");
}

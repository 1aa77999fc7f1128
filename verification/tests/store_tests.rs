use std::collections::HashMap;

use authgate::error::GatewayError;
use authgate::store::{
    DeleteOutcome, ReadOutcome, TOKEN_TTL_SECONDS, WriteOutcome, issue, issue_result,
    revoke_result, token_query, validate_result,
};

/// A stand-in for the external key-value store, answering the outcomes
/// a reachable store would.
struct FakeStore {
    records: HashMap<String, String>,
}

impl FakeStore {
    fn new() -> FakeStore {
        FakeStore { records: HashMap::new() }
    }

    fn set(&mut self, key: &str, value: &str) {
        self.records.insert(String::from(key), String::from(value));
    }

    fn get(&self, key: &str) -> ReadOutcome {
        match self.records.get(key) {
            Some(v) => ReadOutcome::Found(v.clone()),
            None => ReadOutcome::Missing,
        }
    }

    fn del(&mut self, key: &str) -> DeleteOutcome {
        match self.records.remove(key) {
            Some(_) => DeleteOutcome::Deleted,
            None => DeleteOutcome::Absent,
        }
    }
}

#[test]
fn issue_plan_is_consistent() {
    let p = issue("alice");
    assert_eq!(p.value.as_str(), "alice");
    assert_eq!(p.ttl_seconds, TOKEN_TTL_SECONDS);
    assert_eq!(p.ttl_seconds, 604800);
    assert_eq!(p.token.len(), 36);
    assert_eq!(p.key.len(), "token:".len() + 32);
    assert!(p.key.as_str().starts_with("token:"));
    assert_eq!(p.key.as_str(), format!("token:{}", p.id.simple().as_str()));
    assert_eq!(p.token.as_str(), p.id.hyphenated().as_str());
}

#[test]
fn validate_after_issue_returns_the_username() {
    let mut store = FakeStore::new();
    let p = issue("alice");
    assert!(matches!(issue_result(&p, &WriteOutcome::Written), Ok(t) if t == p.token));
    store.set(p.key.as_str(), p.value.as_str());

    let key = token_query(p.token.as_str()).expect("an issued token is well formed");
    let v = validate_result(store.get(key.as_str())).expect("the record is present");
    assert_eq!(v.username.as_str(), "alice");
    assert_eq!(v.scopes.len(), 0);
}

#[test]
fn validate_after_revoke_is_not_found() {
    let mut store = FakeStore::new();
    let p = issue("bob");
    store.set(p.key.as_str(), p.value.as_str());

    let key = token_query(p.token.as_str()).expect("well formed");
    assert!(revoke_result(&store.del(key.as_str())).is_ok());

    let key = token_query(p.token.as_str()).expect("still well formed");
    let e = validate_result(store.get(key.as_str())).expect_err("record is gone");
    assert_eq!(e, GatewayError::TokenNotFound);
}

#[test]
fn revoke_is_idempotent() {
    let mut store = FakeStore::new();
    let p = issue("carol");
    store.set(p.key.as_str(), p.value.as_str());

    let key = token_query(p.token.as_str()).expect("well formed");
    let first = store.del(key.as_str());
    assert_eq!(first, DeleteOutcome::Deleted);
    assert!(revoke_result(&first).is_ok());

    let second = store.del(key.as_str());
    assert_eq!(second, DeleteOutcome::Absent);
    assert!(revoke_result(&second).is_ok(), "the second revoke must not error");
}

#[test]
fn revoking_a_never_issued_token_succeeds() {
    let mut store = FakeStore::new();
    let key = token_query("00010203-0405-0607-0809-0a0b0c0d0e0f").expect("well formed");
    assert!(revoke_result(&store.del(key.as_str())).is_ok());
}

#[test]
fn malformed_tokens_are_invalid_never_not_found() {
    for bad in ["", "xyz", "00010203-0405-0607-0809", "zz010203-0405-0607-0809-0a0b0c0d0e0f"] {
        let e = token_query(bad).expect_err("malformed token must be rejected");
        assert_eq!(e, GatewayError::InvalidToken, "wrong error for {:?}", bad);
        assert_ne!(e, GatewayError::TokenNotFound);
    }
}

#[test]
fn store_failure_during_issue_returns_no_token() {
    let p = issue("dave");
    let r = issue_result(&p, &WriteOutcome::Unavailable);
    let e = r.expect_err("an unwritten record must not yield a token");
    assert_eq!(e, GatewayError::StoreUnavailable);
}

#[test]
fn store_failure_outcomes_are_distinct_errors() {
    assert_eq!(
        validate_result(ReadOutcome::Unavailable).expect_err("unavailable"),
        GatewayError::StoreUnavailable
    );
    assert_eq!(
        revoke_result(&DeleteOutcome::Unavailable).expect_err("unavailable"),
        GatewayError::StoreUnavailable
    );
}

#[test]
fn issued_identifiers_are_distinct() {
    let a = issue("alice");
    let b = issue("alice");
    assert_ne!(a.token.as_str(), b.token.as_str());
    assert_ne!(a.key.as_str(), b.key.as_str());
}

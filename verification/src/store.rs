//! The opaque-token lifecycle against the external key-value store.
//!
//! The store round trips themselves are network calls made by the
//! caller; this module decides what to write, what to look up, and what
//! each outcome means. The store is modelled as a map from key text to
//! the stored username, and the laws at the bottom state the lifecycle
//! guarantees over that model.

use vstd::prelude::*;

use crate::error::GatewayError;
use crate::token::{
    TokenId, compact_of, hyphenated_of, lemma_token_text_roundtrip, token_bytes_of,
    valid_token_text,
};

verus! {

/// How long an issued token lives in the store, in seconds: 7 days.
pub const TOKEN_TTL_SECONDS: u64 = 604800;

/// The store key under which a token's record is held.
pub open spec fn key_text_of(id: Seq<u8>) -> Seq<char> {
    "token:"@ + compact_of(id)
}

/// Renders the store key for a token identifier.
pub fn token_key(t: &TokenId) -> (k: String)
    requires
        t.wf(),
    ensures
        k@ == key_text_of(t@),
{
    let prefix = String::from_str("token:");
    prefix.concat(t.simple().as_str())
}

/// Everything one issue operation needs: the fresh identifier, the
/// single store write, and the token text handed back on success.
#[derive(Debug)]
pub struct IssuePlan {
    pub id: TokenId,
    pub key: String,
    pub value: String,
    pub ttl_seconds: u64,
    pub token: String,
}

impl IssuePlan {
    /// The parts of a plan agree: the key and the token text render the
    /// same identifier, and the expiry is the fixed token lifetime.
    pub open spec fn wf(&self) -> bool {
        &&& self.id.wf()
        &&& self.key@ == key_text_of(self.id@)
        &&& self.ttl_seconds == TOKEN_TTL_SECONDS
        &&& self.token@ == hyphenated_of(self.id@)
    }
}

/// Plans an issue operation: a fresh random identifier is generated,
/// never reused or checked for prior existence, and the stored value is
/// the verified username.
pub fn issue(username: &str) -> (p: IssuePlan)
    ensures
        p.wf(),
        p.value@ == username@,
{
    let id = TokenId::fresh();
    let key = token_key(&id);
    let token = id.hyphenated();
    IssuePlan { id, key, value: String::from_str(username), ttl_seconds: TOKEN_TTL_SECONDS, token }
}

/// What came back from the single store write of an issue operation.
#[derive(Debug, Clone, Copy, PartialEq, Eq, Structural)]
pub enum WriteOutcome {
    /// The record was written with its expiry.
    Written,
    /// The store could not be reached; nothing was written.
    Unavailable,
}

/// Finishes an issue operation: the token is handed out only when the
/// record was written.
pub fn issue_result(p: &IssuePlan, w: &WriteOutcome) -> (r: Result<String, GatewayError>)
    ensures
        match w {
            WriteOutcome::Written => r matches Ok(t) && t@ == p.token@,
            WriteOutcome::Unavailable => (r matches Err(e) && e == GatewayError::StoreUnavailable),
        },
{
    match w {
        WriteOutcome::Written => Ok(p.token.clone()),
        WriteOutcome::Unavailable => Err(GatewayError::StoreUnavailable),
    }
}

/// Turns a token string into the store key to look up or delete: a
/// malformed token is a client error, and nothing is looked up for it.
pub fn token_query(token_text: &str) -> (r: Result<String, GatewayError>)
    ensures
        r is Ok <==> valid_token_text(token_text@),
        r matches Ok(k) ==> k@ == key_text_of(token_bytes_of(token_text@)),
        r matches Err(e) ==> e == GatewayError::InvalidToken,
{
    match TokenId::parse_str(token_text) {
        Some(id) => Ok(token_key(&id)),
        None => Err(GatewayError::InvalidToken),
    }
}

/// What came back from the store lookup of a validate operation.
#[derive(Debug)]
pub enum ReadOutcome {
    /// The key is present and holds this username.
    Found(String),
    /// The key is absent: revoked, expired, or never issued.
    Missing,
    /// The store could not be reached.
    Unavailable,
}

/// What a successful validate operation hands back: the stored
/// principal and its authorization scopes. The scope list is empty
/// until a real scope resolver is attached.
#[derive(Debug)]
pub struct Validation {
    pub username: String,
    pub scopes: Vec<String>,
}

/// Finishes a validate operation: an absent key is "not found", whether
/// it expired, was revoked, or never existed, and a store failure is
/// never conflated with it.
pub fn validate_result(o: ReadOutcome) -> (r: Result<Validation, GatewayError>)
    ensures
        match o {
            ReadOutcome::Found(u) => (r matches Ok(v) && v.username@ == u@ && v.scopes@.len()
                == 0),
            ReadOutcome::Missing => (r matches Err(e) && e == GatewayError::TokenNotFound),
            ReadOutcome::Unavailable => (r matches Err(e) && e == GatewayError::StoreUnavailable),
        },
{
    match o {
        ReadOutcome::Found(u) => Ok(Validation { username: u, scopes: Vec::new() }),
        ReadOutcome::Missing => Err(GatewayError::TokenNotFound),
        ReadOutcome::Unavailable => Err(GatewayError::StoreUnavailable),
    }
}

/// What came back from the store delete of a revoke operation.
#[derive(Debug, Clone, Copy, PartialEq, Eq, Structural)]
pub enum DeleteOutcome {
    /// The key existed and was deleted.
    Deleted,
    /// The key was already absent.
    Absent,
    /// The store could not be reached.
    Unavailable,
}

/// Finishes a revoke operation: deleting an absent key is success, so
/// revocation is idempotent; only an unreachable store is an error.
pub fn revoke_result(o: &DeleteOutcome) -> (r: Result<(), GatewayError>)
    ensures
        r is Ok <==> !(o is Unavailable),
        o is Unavailable ==> (r matches Err(e) && e == GatewayError::StoreUnavailable),
{
    match o {
        DeleteOutcome::Deleted => Ok(()),
        DeleteOutcome::Absent => Ok(()),
        DeleteOutcome::Unavailable => Err(GatewayError::StoreUnavailable),
    }
}

/// The store after an issue operation's write.
pub open spec fn issue_effect(
    store: Map<Seq<char>, Seq<char>>,
    id: Seq<u8>,
    username: Seq<char>,
) -> Map<Seq<char>, Seq<char>> {
    store.insert(key_text_of(id), username)
}

/// What validating a token against a reachable store yields.
pub open spec fn validate_decision(token_text: Seq<char>, store: Map<Seq<char>, Seq<char>>) -> Result<
    Seq<char>,
    GatewayError,
> {
    if !valid_token_text(token_text) {
        Err(GatewayError::InvalidToken)
    } else if store.contains_key(key_text_of(token_bytes_of(token_text))) {
        Ok(store[key_text_of(token_bytes_of(token_text))])
    } else {
        Err(GatewayError::TokenNotFound)
    }
}

/// What revoking a token against a reachable store yields.
pub open spec fn revoke_decision(token_text: Seq<char>) -> Result<(), GatewayError> {
    if valid_token_text(token_text) {
        Ok(())
    } else {
        Err(GatewayError::InvalidToken)
    }
}

/// The store after a revoke operation: the key is gone whether or not
/// it was present.
pub open spec fn revoke_effect(token_text: Seq<char>, store: Map<Seq<char>, Seq<char>>) -> Map<
    Seq<char>,
    Seq<char>,
> {
    if valid_token_text(token_text) {
        store.remove(key_text_of(token_bytes_of(token_text)))
    } else {
        store
    }
}

/// A token string that is not a well-formed identifier yields the
/// client error from both validate and revoke, never "not found",
/// whatever the store holds.
pub proof fn lemma_malformed_token_is_invalid(
    token_text: Seq<char>,
    store: Map<Seq<char>, Seq<char>>,
)
    requires
        !valid_token_text(token_text),
    ensures
        validate_decision(token_text, store) == Err::<Seq<char>, GatewayError>(
            GatewayError::InvalidToken,
        ),
        revoke_decision(token_text) == Err::<(), GatewayError>(GatewayError::InvalidToken),
{
}

/// Validating the token issued for a username yields that username,
/// whatever the store held before.
pub proof fn lemma_validate_after_issue(
    store: Map<Seq<char>, Seq<char>>,
    id: Seq<u8>,
    username: Seq<char>,
)
    requires
        id.len() == 16,
    ensures
        validate_decision(hyphenated_of(id), issue_effect(store, id, username)) == Ok::<
            Seq<char>,
            GatewayError,
        >(username),
{
    lemma_token_text_roundtrip(id);
}

/// The token of any well-formed issue plan validates to the stored
/// username once the plan's write is applied, whatever the store held
/// before.
pub proof fn lemma_issue_plan_validates(store: Map<Seq<char>, Seq<char>>, plan: IssuePlan)
    requires
        plan.wf(),
    ensures
        validate_decision(plan.token@, store.insert(plan.key@, plan.value@)) == Ok::<
            Seq<char>,
            GatewayError,
        >(plan.value@),
{
    lemma_validate_after_issue(store, plan.id@, plan.value@);
}

/// After a token is revoked, validating it yields "not found": a
/// revoked token is indistinguishable from one that never existed.
pub proof fn lemma_validate_after_revoke(store: Map<Seq<char>, Seq<char>>, token_text: Seq<char>)
    requires
        valid_token_text(token_text),
    ensures
        validate_decision(token_text, revoke_effect(token_text, store)) == Err::<
            Seq<char>,
            GatewayError,
        >(GatewayError::TokenNotFound),
{
}

/// The delete outcome a reachable store answers for a key.
pub open spec fn delete_outcome_of(store: Map<Seq<char>, Seq<char>>, key: Seq<char>) -> DeleteOutcome {
    if store.contains_key(key) {
        DeleteOutcome::Deleted
    } else {
        DeleteOutcome::Absent
    }
}

/// Revoking is idempotent: after a revoke, revoking the same token
/// again finds the key absent, which is still success and leaves the
/// store exactly as the first revoke did.
pub proof fn lemma_revoke_idempotent(store: Map<Seq<char>, Seq<char>>, token_text: Seq<char>)
    requires
        valid_token_text(token_text),
    ensures
        delete_outcome_of(
            revoke_effect(token_text, store),
            key_text_of(token_bytes_of(token_text)),
        ) == DeleteOutcome::Absent,
        !(delete_outcome_of(
            revoke_effect(token_text, store),
            key_text_of(token_bytes_of(token_text)),
        ) is Unavailable),
        revoke_effect(token_text, revoke_effect(token_text, store)) == revoke_effect(
            token_text,
            store,
        ),
{
    assert(revoke_effect(token_text, revoke_effect(token_text, store)) =~= revoke_effect(
        token_text,
        store,
    ));
}

} // verus!

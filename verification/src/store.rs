//! Keyring-backed storage for a single token, kept under a fixed
//! service/account pair in the platform secret store.

use vstd::prelude::*;

verus! {

/// What the secret store reported when a token was looked up.
#[derive(Debug, PartialEq, Eq)]
pub enum LoadOutcome {
    /// A token is stored under the entry.
    Found(String),
    /// No credential exists for the entry.
    Missing,
    /// The store failed for another reason, rendered as a message.
    Failed(String),
}

/// How the stored outcome of a lookup is surfaced to the caller:
/// a missing entry is not an error, it is the absence of a token.
pub fn load_result(o: LoadOutcome) -> (r: Result<Option<String>, String>)
    ensures
        (o matches LoadOutcome::Found(t) ==> r == Ok::<Option<String>, String>(Some(t))),
        (o matches LoadOutcome::Missing ==> r == Ok::<Option<String>, String>(None::<String>)),
        (o matches LoadOutcome::Failed(m) ==> r == Err::<Option<String>, String>(m)),
{
    match o {
        LoadOutcome::Found(t) => Ok(Some(t)),
        LoadOutcome::Missing => Ok(None),
        LoadOutcome::Failed(m) => Err(m),
    }
}

/// What the secret store reported when a token was deleted.
#[derive(Debug, PartialEq, Eq)]
pub enum ClearOutcome {
    /// A credential existed and was removed.
    Removed,
    /// No credential existed for the entry.
    Missing,
    /// The store failed for another reason, rendered as a message.
    Failed(String),
}

/// How the outcome of a deletion is surfaced to the caller: deleting an
/// entry that does not exist is a success, not an error.
pub fn clear_result(o: ClearOutcome) -> (r: Result<(), String>)
    ensures
        (o matches ClearOutcome::Removed ==> r == Ok::<(), String>(())),
        (o matches ClearOutcome::Missing ==> r == Ok::<(), String>(())),
        (o matches ClearOutcome::Failed(m) ==> r == Err::<(), String>(m)),
{
    match o {
        ClearOutcome::Removed => Ok(()),
        ClearOutcome::Missing => Ok(()),
        ClearOutcome::Failed(m) => Err(m),
    }
}

#[verifier::external_type_specification]
#[verifier::external_body]
pub struct ExEntry(keyring::Entry);

/// Relies on `keyring::Entry::new`: builds an entry addressing the given
/// service/user pair in the platform credential store, and fails when the
/// platform rejects the pair.  Which entries exist is a property of the
/// machine, so nothing is promised of the outcome.
#[verifier::external_body]
fn entry_new(service: &str, user: &str) -> (r: Result<keyring::Entry, String>) {
    match keyring::Entry::new(service, user) {
        Ok(e) => Ok(e),
        Err(e) => Err(e.to_string()),
    }
}

/// Relies on `keyring::Entry::set_password`: stores the password under the
/// entry, replacing any previous one.  The store may refuse, so nothing is
/// promised of the outcome.
#[verifier::external_body]
fn entry_set_password(e: &keyring::Entry, token: &str) -> (r: Result<(), String>) {
    match e.set_password(token) {
        Ok(()) => Ok(()),
        Err(err) => Err(err.to_string()),
    }
}

/// Relies on `keyring::Entry::get_password`: returns the stored password,
/// or `keyring::Error::NoEntry` when none exists, which becomes
/// [`LoadOutcome::Missing`].  What is stored is a property of the machine,
/// so nothing is promised of the outcome.
#[verifier::external_body]
fn entry_get_password(e: &keyring::Entry) -> (r: LoadOutcome) {
    match e.get_password() {
        Ok(t) => LoadOutcome::Found(t),
        Err(keyring::Error::NoEntry) => LoadOutcome::Missing,
        Err(err) => LoadOutcome::Failed(err.to_string()),
    }
}

/// Relies on `keyring::Entry::delete_credential`: removes the stored
/// credential, or returns `keyring::Error::NoEntry` when none exists, which
/// becomes [`ClearOutcome::Missing`].  Nothing is promised of the outcome.
#[verifier::external_body]
fn entry_delete(e: &keyring::Entry) -> (r: ClearOutcome) {
    match e.delete_credential() {
        Ok(()) => ClearOutcome::Removed,
        Err(keyring::Error::NoEntry) => ClearOutcome::Missing,
        Err(err) => ClearOutcome::Failed(err.to_string()),
    }
}

/// The entry under which the application keeps its one token.
fn token_entry() -> (r: Result<keyring::Entry, String>) {
    entry_new("ch.fwvraura.vorstand.desktop", "jwt_token")
}

/// Stores `token` under the fixed service/account pair, replacing any
/// previous one.  Success depends on the platform store alone.
pub fn save_token(token: String) -> (r: Result<(), String>) {
    match token_entry() {
        Err(m) => Err(m),
        Ok(e) => entry_set_password(&e, token.as_str()),
    }
}

/// Retrieves the stored token: `Ok(None)` when no token is stored, an
/// error only when the platform store fails.
pub fn load_token() -> (r: Result<Option<String>, String>) {
    match token_entry() {
        Err(m) => Err(m),
        Ok(e) => load_result(entry_get_password(&e)),
    }
}

/// Deletes the stored token: a success also when no token was stored, an
/// error only when the platform store fails.
pub fn clear_token() -> (r: Result<(), String>) {
    match token_entry() {
        Err(m) => Err(m),
        Ok(e) => clear_result(entry_delete(&e)),
    }
}

} // verus!

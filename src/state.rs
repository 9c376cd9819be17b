//! The slot for the one active run: its identifier and the token that
//! cancels it.
use vstd::prelude::*;

verus! {

#[verifier::external_type_specification]
#[verifier::external_body]
pub struct ExCancellationToken(tokio_util::sync::CancellationToken);

/// Relies on `tokio_util::sync::CancellationToken::new`: a fresh token.
#[verifier::external_body]
fn new_token() -> (r: tokio_util::sync::CancellationToken) {
    tokio_util::sync::CancellationToken::new()
}

/// Relies on `Clone for CancellationToken`: another handle to the same token.
#[verifier::external_body]
fn share_token(t: &tokio_util::sync::CancellationToken) -> (r: tokio_util::sync::CancellationToken) {
    t.clone()
}

/// Relies on `CancellationToken::cancel`: signals every handle of the token.
#[verifier::external_body]
fn signal_token(t: &tokio_util::sync::CancellationToken) {
    t.cancel()
}

/// Relies on `uuid::Uuid::new_v4` and its `Display`, which writes the
/// hyphenated form of 36 characters.
#[verifier::external_body]
fn new_run_id() -> (r: String)
    ensures
        r@.len() == 36,
{
    uuid::Uuid::new_v4().to_string()
}

/// The active run, if any: its identifier and its cancellation token.
pub struct AppState {
    pub active_run_id: Option<String>,
    pub cancellation_token: Option<tokio_util::sync::CancellationToken>,
}

pub open spec fn no_active_run_message() -> Seq<char> {
    "No active run to cancel"@
}

impl AppState {
    /// No run is active.
    pub fn new() -> (r: AppState)
        ensures
            r.active_run_id is None,
            r.cancellation_token is None,
    {
        AppState { active_run_id: None, cancellation_token: None }
    }

    /// Installs a new run: a fresh identifier and a fresh token, which is
    /// returned together with the identifier.
    pub fn begin_run(&mut self) -> (r: (String, tokio_util::sync::CancellationToken))
        ensures
            r.0@.len() == 36,
            final(self).active_run_id matches Some(id) && id@ == r.0@,
            final(self).cancellation_token is Some,
    {
        let run_id = new_run_id();
        let token = new_token();
        self.active_run_id = Some(run_id.clone());
        self.cancellation_token = Some(share_token(&token));
        (run_id, token)
    }

    /// Clears the slot when a run has finished.
    pub fn end_run(&mut self)
        ensures
            final(self).active_run_id is None,
            final(self).cancellation_token is None,
    {
        self.active_run_id = None;
        self.cancellation_token = None;
    }

    /// Signals the active run's token. With no active run this fails with
    /// "No active run to cancel"; the slot itself is never changed.
    pub fn cancel_run(&self) -> (r: Result<(), String>)
        ensures
            match r {
                Ok(()) => self.cancellation_token is Some,
                Err(m) => self.cancellation_token is None && m@ == no_active_run_message(),
            },
    {
        match &self.cancellation_token {
            Some(t) => {
                signal_token(t);
                Ok(())
            },
            None => Err(String::from_str("No active run to cancel")),
        }
    }
}

} // verus!

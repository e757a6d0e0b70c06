//! The handler that the HTTP bridge holds: it owns the store and answers
//! each request with the decision of the evaluation that also wrote the
//! audit log.

use crate::accounts::{sync_effect, sync_user, UserSyncPayload};
use crate::database::{Database, DatabaseView};
use crate::event::{parsed_event, Decision, TransactionEvent};
use crate::identity::Invocation;
use crate::policy::{dispatch, handle_mta_hook, stage_decision, stage_effect};
use vstd::prelude::*;

verus! {

/// Answers the requests of the mail transfer agent against the store that
/// it owns.
pub struct MtaHookHandler {
    db: Database,
}

impl View for MtaHookHandler {
    type V = DatabaseView;

    closed spec fn view(&self) -> DatabaseView {
        self.db@
    }
}

impl MtaHookHandler {
    /// A handler over the store `db`.
    pub fn new(db: Database) -> (handler: MtaHookHandler)
        ensures
            handler@ == db@,
    {
        MtaHookHandler { db }
    }

    /// The store.
    pub fn database(&self) -> (db: &Database)
        ensures
            db@ == self@,
    {
        &self.db
    }

    /// Gives the store back.
    pub fn into_database(self) -> (db: Database)
        ensures
            db@ == self@,
    {
        self.db
    }

    /// Evaluates `request` at the time `timestamp`, in seconds since the
    /// Unix epoch: the evaluator of its stage writes the audit log and its
    /// decision is the answer.
    pub fn process_hook(&mut self, request: &TransactionEvent, timestamp: i64) -> (decision:
        Decision)
        ensures
            decision@ == stage_decision(old(self)@, request@, timestamp),
            final(self)@ == stage_effect(old(self)@, request@, timestamp),
    {
        dispatch(&mut self.db, request, timestamp)
    }

    /// Reads a request from its JSON text and evaluates it at the time of
    /// the call. A text that is not a well-formed request gets no decision
    /// and leaves no trace in the store.
    pub fn handle_hook(&mut self, ctx: &Invocation, event_json: &str) -> (decision: Option<
        Decision,
    >)
        ensures
            match parsed_event(event_json@) {
                Some(event) => decision.deep_view() == Some(
                    stage_decision(old(self)@, event, ctx.timestamp_seconds()),
                ) && final(self)@ == stage_effect(old(self)@, event, ctx.timestamp_seconds()),
                None => decision is None && final(self)@ == old(self)@,
            },
    {
        handle_mta_hook(&mut self.db, ctx, event_json)
    }

    /// Applies a synchronisation event of the identity provider to the
    /// account directory.
    pub fn user_sync(&mut self, ctx: &Invocation, payload: &UserSyncPayload)
        ensures
            final(self)@ == sync_effect(
                old(self)@,
                payload@.action,
                ctx.issuer_url@,
                payload@.user,
                ctx.timestamp_seconds(),
            ),
    {
        sync_user(&mut self.db, ctx, payload.action.as_str(), &payload.user)
    }
}

} // verus!

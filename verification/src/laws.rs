//! What holds of every request and every store, proved from the
//! definitions that the contracts of the evaluators use.

use crate::accounts::{
    account_identity, owned_by, sync_effect, synced_account, upsert_effect, visible_to,
    UserSyncDataView,
};
use crate::database::{other_account, DatabaseView};
use crate::event::{DecisionView, Stage, TransactionEventView};
use crate::identity::Identity;
use crate::policy::{
    all_routed, any_authorized, has_route, is_blocked, lemma_rcpt_effect, processing_headers,
    rcpt_effect, rcpt_entry, stage_decision, stage_effect,
};
use crate::tables::AccountView;
use vstd::prelude::*;

verus! {

/// The predicate "is a row of the account `id`".
pub open spec fn this_account(id: u64) -> spec_fn(AccountView) -> bool {
    |a: AccountView| a.id == id
}

/// At the connect stage a client is refused exactly when an active entry of
/// the blocklist is for its address: a client with only inactive entries, or
/// with none, is accepted.
pub proof fn law_connect(db: DatabaseView, event: TransactionEventView, timestamp: i64)
    requires
        event.stage == Stage::Connect,
    ensures
        is_blocked(db.blocked_ips, event.client_ip) ==> stage_decision(db, event, timestamp)
            is Reject,
        !is_blocked(db.blocked_ips, event.client_ip) ==> stage_decision(db, event, timestamp)
            == DecisionView::accept(),
{
}

/// At the greeting stage a client that gave no name, or the empty name, is
/// refused with reply 501; every other client is accepted.
pub proof fn law_ehlo(db: DatabaseView, event: TransactionEventView, timestamp: i64)
    requires
        event.stage == Stage::Ehlo,
    ensures
        (event.helo is None || event.helo == Some(Seq::<char>::empty())) ==> stage_decision(
            db,
            event,
            timestamp,
        ) == DecisionView::reject(501, "Invalid EHLO/HELO argument"@),
        !(event.helo is None || event.helo == Some(Seq::<char>::empty())) ==> stage_decision(
            db,
            event,
            timestamp,
        ) == DecisionView::accept(),
{
    match event.helo {
        Some(name) => {
            if name.len() == 0 {
                assert(name =~= Seq::<char>::empty());
            }
        },
        None => {},
    }
}

/// At the sender stage an address without an `@`, the empty address among
/// them, is refused with reply 550; every other address is accepted.
pub proof fn law_mail(db: DatabaseView, event: TransactionEventView, timestamp: i64)
    requires
        event.stage == Stage::Mail,
    ensures
        (event.sender().len() == 0 || !event.sender().contains('@')) ==> stage_decision(
            db,
            event,
            timestamp,
        ) == DecisionView::reject(550, "Invalid sender address"@),
        !(event.sender().len() == 0 || !event.sender().contains('@')) ==> stage_decision(
            db,
            event,
            timestamp,
        ) == DecisionView::accept(),
{
}

/// At the recipient stage a recipient that an active category routes is
/// accepted, and any other recipient is refused with reply 550.
pub proof fn law_rcpt(
    db: DatabaseView,
    event: TransactionEventView,
    recipient: Seq<char>,
    timestamp: i64,
)
    requires
        event.stage == Stage::Rcpt,
        event.recipients() == seq![recipient],
    ensures
        has_route(db.message_categories, recipient) ==> stage_decision(db, event, timestamp)
            == DecisionView::accept(),
        !has_route(db.message_categories, recipient) ==> stage_decision(db, event, timestamp)
            == DecisionView::reject(550, "Invalid recipient address"@),
{
    let recipients = event.recipients();
    assert(recipients[0] == recipient);
    if has_route(db.message_categories, recipient) {
        assert(all_routed(db.message_categories, recipients));
    }
}

/// At the recipient stage a request with several recipients is accepted
/// exactly when an active category routes each of them.
pub proof fn law_rcpt_all(db: DatabaseView, event: TransactionEventView, timestamp: i64)
    requires
        event.stage == Stage::Rcpt,
    ensures
        stage_decision(db, event, timestamp) is Accept <==> all_routed(
            db.message_categories,
            event.recipients(),
        ),
        stage_decision(db, event, timestamp) is Accept || stage_decision(db, event, timestamp)
            == DecisionView::reject(550, "Invalid recipient address"@),
{
}

/// At the data stage a message whose sender has an active subscription to
/// the category of at least one recipient is accepted with exactly two
/// header modifications; any other message is quarantined. Either way exactly
/// one entry is added to the message log, and nothing else changes.
pub proof fn law_data(db: DatabaseView, event: TransactionEventView, timestamp: i64)
    requires
        event.stage == Stage::Data,
    ensures
        any_authorized(db, event.sender(), event.recipients()) ==> (stage_decision(
            db,
            event,
            timestamp,
        ) matches DecisionView::Accept { modifications } && modifications.len() == 2
            && modifications[0].header == "X-Processed-By"@ && modifications[1].header
            == "X-Processing-Time"@),
        !any_authorized(db, event.sender(), event.recipients()) ==> stage_decision(
            db,
            event,
            timestamp,
        ) == DecisionView::Quarantine,
        stage_effect(db, event, timestamp).message_log.len() == db.message_log.len() + 1,
        stage_effect(db, event, timestamp).message_log.drop_last() == db.message_log,
        stage_effect(db, event, timestamp) == (DatabaseView {
            message_log: stage_effect(db, event, timestamp).message_log,
            ..db
        }),
        stage_effect(db, event, timestamp).message_log.last().action == (if any_authorized(
            db,
            event.sender(),
            event.recipients(),
        ) {
            "accept"@
        } else {
            "quarantine"@
        }),
{
    assert(processing_headers(timestamp).len() == 2);
    assert(stage_effect(db, event, timestamp).message_log.drop_last() =~= db.message_log);
}

/// A message without recipients is quarantined.
pub proof fn law_data_without_recipients(
    db: DatabaseView,
    event: TransactionEventView,
    timestamp: i64,
)
    requires
        event.stage == Stage::Data,
        event.recipients().len() == 0,
    ensures
        stage_decision(db, event, timestamp) == DecisionView::Quarantine,
{
}

/// The audit logs only grow, and no evaluation touches another table. A
/// request of the connect, greeting, sender or authentication stage adds
/// exactly one entry to the connection log; one of the recipient stage adds
/// one for each recipient; one of the data stage adds exactly one entry to
/// the message log.
pub proof fn law_audit_trail(db: DatabaseView, event: TransactionEventView, timestamp: i64)
    ensures
        ({
            let after = stage_effect(db, event, timestamp);
            &&& after.accounts == db.accounts
            &&& after.admin_identities == db.admin_identities
            &&& after.blocked_ips == db.blocked_ips
            &&& after.message_categories == db.message_categories
            &&& after.subscriptions == db.subscriptions
            &&& after.connection_log.len() >= db.connection_log.len()
            &&& after.connection_log.subrange(0, db.connection_log.len() as int)
                == db.connection_log
            &&& after.message_log.len() >= db.message_log.len()
            &&& after.message_log.subrange(0, db.message_log.len() as int) == db.message_log
            &&& after.connection_log.len() == db.connection_log.len() + (match event.stage {
                Stage::Rcpt => event.recipients().len() as int,
                Stage::Data => 0,
                _ => 1,
            })
            &&& after.message_log.len() == db.message_log.len() + (match event.stage {
                Stage::Data => 1int,
                _ => 0,
            })
        }),
{
    let after = stage_effect(db, event, timestamp);
    if event.stage == Stage::Rcpt {
        lemma_rcpt_effect(db, event.recipients(), timestamp);
    }
    assert(after.connection_log.subrange(0, db.connection_log.len() as int)
        =~= db.connection_log);
    assert(after.message_log.subrange(0, db.message_log.len() as int) =~= db.message_log);
}

/// What is logged is what is answered. At the connect, greeting, sender and
/// authentication stages the new entry says `accept` exactly when the request
/// is accepted, and `reject` otherwise; at the data stage it says `accept`
/// exactly when the message is accepted, and `quarantine` otherwise.
pub proof fn law_log_matches_decision(
    db: DatabaseView,
    event: TransactionEventView,
    timestamp: i64,
)
    requires
        event.stage != Stage::Rcpt,
    ensures
        ({
            let decision = stage_decision(db, event, timestamp);
            let after = stage_effect(db, event, timestamp);
            if event.stage == Stage::Data {
                &&& decision is Accept <==> after.message_log.last().action == "accept"@
                &&& decision is Quarantine <==> after.message_log.last().action == "quarantine"@
                &&& decision is Accept || decision is Quarantine
            } else {
                &&& decision is Accept <==> after.connection_log.last().action == "accept"@
                &&& decision is Reject <==> after.connection_log.last().action == "reject"@
                &&& decision is Accept || decision is Reject
                &&& after.connection_log.last().timestamp == timestamp
            }
        }),
{
    reveal_strlit("accept");
    reveal_strlit("reject");
    reveal_strlit("quarantine");
    assert("accept"@ != "reject"@) by {
        assert("accept"@[0] != "reject"@[0]);
    }
    assert("accept"@ != "quarantine"@) by {
        assert("accept"@[0] != "quarantine"@[0]);
    }
}

/// At the recipient stage what is logged is what is answered, recipient by
/// recipient: the entry of a recipient says `accept` exactly when an active
/// category routes it, and the request is accepted exactly when every new
/// entry says `accept`.
pub proof fn law_rcpt_log_matches_decision(
    db: DatabaseView,
    event: TransactionEventView,
    timestamp: i64,
)
    requires
        event.stage == Stage::Rcpt,
    ensures
        ({
            let decision = stage_decision(db, event, timestamp);
            let after = stage_effect(db, event, timestamp);
            let recipients = event.recipients();
            &&& after.connection_log.len() == db.connection_log.len() + recipients.len()
            &&& forall|k: int|
                0 <= k < recipients.len() ==> (#[trigger] after.connection_log[
                    db.connection_log.len() + k
                ]).action == (if has_route(db.message_categories, recipients[k]) {
                    "accept"@
                } else {
                    "reject"@
                })
            &&& decision is Accept <==> forall|k: int|
                0 <= k < recipients.len() ==> (#[trigger] after.connection_log[
                    db.connection_log.len() + k
                ]).action == "accept"@
        }),
{
    reveal_strlit("accept");
    reveal_strlit("reject");
    assert("accept"@ != "reject"@) by {
        assert("accept"@[0] != "reject"@[0]);
    }
    let recipients = event.recipients();
    let after = stage_effect(db, event, timestamp);
    lemma_rcpt_entries(db, recipients, timestamp);
    if stage_decision(db, event, timestamp) is Accept {
        assert(all_routed(db.message_categories, recipients));
    } else {
        let k = choose|k: int|
            0 <= k < recipients.len() && !has_route(
                db.message_categories,
                #[trigger] recipients[k],
            );
        assert(after.connection_log[db.connection_log.len() + k].action == "reject"@);
    }
    if forall|k: int|
        0 <= k < recipients.len() ==> (#[trigger] after.connection_log[db.connection_log.len()
            + k]).action == "accept"@ {
        assert forall|k: int| 0 <= k < recipients.len() implies has_route(
            db.message_categories,
            #[trigger] recipients[k],
        ) by {
            assert(after.connection_log[db.connection_log.len() + k].action == "accept"@);
        }
    }
}

/// The entries that the recipient stage adds, one by one.
proof fn lemma_rcpt_entries(db: DatabaseView, recipients: Seq<Seq<char>>, timestamp: i64)
    ensures
        rcpt_effect(db, recipients, timestamp).connection_log.len() == db.connection_log.len()
            + recipients.len(),
        forall|k: int|
            0 <= k < recipients.len() ==> (#[trigger] rcpt_effect(
                db,
                recipients,
                timestamp,
            ).connection_log[db.connection_log.len() + k]).action == rcpt_entry(
                db.message_categories,
                recipients[k],
                timestamp,
            ).action,
    decreases recipients.len(),
{
    if recipients.len() > 0 {
        let shorter = recipients.drop_last();
        lemma_rcpt_entries(db, shorter, timestamp);
        lemma_rcpt_effect(db, shorter, timestamp);
        let before = rcpt_effect(db, shorter, timestamp);
        let after = rcpt_effect(db, recipients, timestamp);
        assert forall|k: int| 0 <= k < recipients.len() implies (#[trigger] after.connection_log[
            db.connection_log.len() + k
        ]).action == rcpt_entry(db.message_categories, recipients[k], timestamp).action by {
            if k < shorter.len() {
                assert(after.connection_log[db.connection_log.len() + k]
                    == before.connection_log[db.connection_log.len() + k]);
                assert(shorter[k] == recipients[k]);
            }
        }
    }
}

/// Logging recipients keeps the key constraints of the store.
proof fn lemma_rcpt_keeps_constraints(db: DatabaseView, recipients: Seq<Seq<char>>, timestamp: i64)
    requires
        db.well_formed(),
        db.connection_log.len() + recipients.len() <= u64::MAX,
    ensures
        rcpt_effect(db, recipients, timestamp).well_formed(),
    decreases recipients.len(),
{
    if recipients.len() > 0 {
        lemma_rcpt_keeps_constraints(db, recipients.drop_last(), timestamp);
        lemma_rcpt_effect(db, recipients.drop_last(), timestamp);
    }
}

/// An evaluation keeps the key constraints of the store, as long as the
/// numbers of the log entries fit in 64 bits.
pub proof fn law_evaluation_keeps_constraints(
    db: DatabaseView,
    event: TransactionEventView,
    timestamp: i64,
)
    requires
        db.well_formed(),
        db.connection_log.len() + event.recipients().len() < u64::MAX,
        db.message_log.len() < u64::MAX,
    ensures
        stage_effect(db, event, timestamp).well_formed(),
{
    if event.stage == Stage::Rcpt {
        lemma_rcpt_keeps_constraints(db, event.recipients(), timestamp);
    }
}

/// Filtering twice by one predicate is filtering once.
proof fn lemma_filter_twice(rows: Seq<AccountView>, keep: spec_fn(AccountView) -> bool)
    ensures
        rows.filter(keep).filter(keep) == rows.filter(keep),
    decreases rows.len(),
{
    reveal(Seq::filter);
    if rows.len() > 0 {
        lemma_filter_twice(rows.drop_last(), keep);
        if keep(rows.last()) {
            let kept = rows.drop_last().filter(keep);
            assert(kept.push(rows.last()).drop_last() =~= kept);
        }
    }
}

/// Among the accounts of other numbers than `id` none has the number `id`.
proof fn lemma_none_left(rows: Seq<AccountView>, id: u64)
    ensures
        rows.filter(other_account(id)).filter(this_account(id)) == Seq::<AccountView>::empty(),
    decreases rows.len(),
{
    reveal(Seq::filter);
    if rows.len() > 0 {
        lemma_none_left(rows.drop_last(), id);
        if other_account(id)(rows.last()) {
            let kept = rows.drop_last().filter(other_account(id));
            assert(kept.push(rows.last()).drop_last() =~= kept);
        }
    }
}

/// After an account was written, exactly one row carries its membership
/// number, and it is the row written. Writing a second row for the same
/// number leaves the store as if only the second had been written.
pub proof fn law_upsert(db: DatabaseView, first: AccountView, second: AccountView)
    requires
        first.id == second.id,
    ensures
        upsert_effect(db, first).accounts.filter(this_account(first.id)) == seq![first],
        upsert_effect(upsert_effect(db, first), second) == upsert_effect(db, second),
        upsert_effect(upsert_effect(db, first), first) == upsert_effect(db, first),
{
    reveal(Seq::filter);
    let id = first.id;
    let rest = db.accounts.filter(other_account(id));
    lemma_none_left(db.accounts, id);
    lemma_filter_twice(db.accounts, other_account(id));
    assert(rest.push(first).drop_last() =~= rest);
    assert(rest.push(first).filter(this_account(id)) =~= seq![first]);
    assert(rest.push(first).filter(other_account(id)) == rest);
}

/// Synchronising a user twice with one payload leaves exactly one account
/// for that user, with the fields of the payload and the time of the second
/// call: the store is as if only the second call had been made. With equal
/// times the second call changes nothing.
pub proof fn law_sync_idempotent(
    db: DatabaseView,
    issuer: Seq<char>,
    user: UserSyncDataView,
    first_time: i64,
    second_time: i64,
)
    ensures
        ({
            let once = sync_effect(db, "upsert"@, issuer, user, first_time);
            let twice = sync_effect(once, "upsert"@, issuer, user, second_time);
            &&& twice == sync_effect(db, "upsert"@, issuer, user, second_time)
            &&& twice.accounts.filter(this_account(user.mitgliedsnr)) == seq![
                synced_account(account_identity(issuer, user), user, second_time),
            ]
            &&& first_time == second_time ==> twice == once
        }),
{
    let identity = account_identity(issuer, user);
    law_upsert(
        db,
        synced_account(identity, user, first_time),
        synced_account(identity, user, second_time),
    );
    law_upsert(
        db,
        synced_account(identity, user, second_time),
        synced_account(identity, user, second_time),
    );
}

/// A second synchronisation of a user replaces every field of the first:
/// the store is as if only the second payload had arrived.
pub proof fn law_sync_latest_wins(
    db: DatabaseView,
    issuer: Seq<char>,
    first: UserSyncDataView,
    second: UserSyncDataView,
    first_time: i64,
    second_time: i64,
)
    requires
        first.mitgliedsnr == second.mitgliedsnr,
    ensures
        sync_effect(
            sync_effect(db, "upsert"@, issuer, first, first_time),
            "upsert"@,
            issuer,
            second,
            second_time,
        ) == sync_effect(db, "upsert"@, issuer, second, second_time),
{
    law_upsert(
        db,
        synced_account(account_identity(issuer, first), first, first_time),
        synced_account(account_identity(issuer, second), second, second_time),
    );
}

/// Deleting a user leaves no account of that user, and deleting a user that
/// has none changes nothing.
pub proof fn law_sync_delete(
    db: DatabaseView,
    issuer: Seq<char>,
    user: UserSyncDataView,
    timestamp: i64,
)
    ensures
        !sync_effect(db, "delete"@, issuer, user, timestamp).has_account(user.mitgliedsnr),
        !db.has_account(user.mitgliedsnr) ==> sync_effect(db, "delete"@, issuer, user, timestamp)
            == db,
{
    reveal_strlit("upsert");
    reveal_strlit("delete");
    assert("delete"@ != "upsert"@) by {
        assert("delete"@[0] != "upsert"@[0]);
    }
    let id = user.mitgliedsnr;
    let after = sync_effect(db, "delete"@, issuer, user, timestamp);
    assert(after == db.without_account(id));
    let kept = db.accounts.filter(other_account(id));
    assert forall|i: int| 0 <= i < kept.len() implies kept[i].id != id by {
        db.accounts.lemma_filter_pred(other_account(id), i);
    }
    if !db.has_account(id) {
        assert forall|i: int| 0 <= i < db.accounts.len() implies db.accounts[i].id != id by {
            if db.accounts[i].id == id {
                assert(db.has_account(id));
            }
        }
        lemma_all_kept(db.accounts, id);
    }
}

/// Where no account has the number `id`, every account has another.
proof fn lemma_all_kept(rows: Seq<AccountView>, id: u64)
    requires
        forall|i: int| 0 <= i < rows.len() ==> rows[i].id != id,
    ensures
        rows.filter(other_account(id)) == rows,
    decreases rows.len(),
{
    reveal(Seq::filter);
    if rows.len() > 0 {
        assert forall|i: int| 0 <= i < rows.drop_last().len() implies rows.drop_last()[i].id
            != id by {
            assert(rows.drop_last()[i] == rows[i]);
        }
        lemma_all_kept(rows.drop_last(), id);
        assert(rows.drop_last().push(rows.last()) =~= rows);
    }
}

/// A caller sees exactly the accounts of its own identity: every account
/// that it sees is its own, each of its own accounts is seen, and the mark of
/// an administrator plays no part.
pub proof fn law_visibility(accounts: Seq<AccountView>, caller: Identity)
    ensures
        forall|i: int|
            0 <= i < visible_to(accounts, caller).len() ==> (#[trigger] visible_to(
                accounts,
                caller,
            )[i]).identity == caller,
        forall|i: int|
            0 <= i < accounts.len() && (#[trigger] accounts[i]).identity == caller
                ==> visible_to(accounts, caller).contains(accounts[i]),
        forall|i: int|
            0 <= i < visible_to(accounts, caller).len() ==> accounts.contains(
                #[trigger] visible_to(accounts, caller)[i],
            ),
{
    assert forall|i: int| 0 <= i < visible_to(accounts, caller).len() implies (
    #[trigger] visible_to(accounts, caller)[i]).identity == caller by {
        accounts.lemma_filter_pred(owned_by(caller), i);
    }
    assert forall|i: int|
        0 <= i < accounts.len() && (#[trigger] accounts[i]).identity
            == caller implies visible_to(accounts, caller).contains(accounts[i]) by {
        accounts.lemma_filter_contains(owned_by(caller), i);
    }
    assert forall|i: int| 0 <= i < visible_to(accounts, caller).len() implies accounts.contains(
        #[trigger] visible_to(accounts, caller)[i],
    ) by {
        lemma_filtered_rows_are_rows(accounts, owned_by(caller), i);
    }
}

/// Every row that a filter keeps is a row of what was filtered.
proof fn lemma_filtered_rows_are_rows(
    rows: Seq<AccountView>,
    keep: spec_fn(AccountView) -> bool,
    i: int,
)
    requires
        0 <= i < rows.filter(keep).len(),
    ensures
        rows.contains(rows.filter(keep)[i]),
    decreases rows.len(),
{
    reveal(Seq::filter);
    if rows.len() > 0 {
        let kept = rows.drop_last().filter(keep);
        if i < kept.len() {
            lemma_filtered_rows_are_rows(rows.drop_last(), keep, i);
            let j = choose|j: int|
                0 <= j < rows.drop_last().len() && rows.drop_last()[j] == kept[i];
            assert(rows[j] == kept[i]);
        } else {
            assert(rows[rows.len() - 1] == rows.filter(keep)[i]);
        }
    }
}

} // verus!

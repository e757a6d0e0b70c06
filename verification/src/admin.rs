//! The administrative calls: creating categories, subscriptions and
//! blocklist entries, and reporting the audit logs.

use crate::accounts::{is_admin, is_admin_user};
use crate::database::{Database, DatabaseView};
use crate::identity::Invocation;
use crate::tables::{
    BlockedIp, BlockedIpView, MessageCategory, MessageCategoryView, MtaConnectionLogView,
    MtaMessageLogView, Subscription, SubscriptionView,
};
use crate::text::{decimal, u64_to_string};
use vstd::prelude::*;
use vstd::string::*;

verus! {

broadcast use vstd::string::group_string_axioms;

/// The reason given to a caller that may not administer.
pub open spec fn unauthorized() -> Seq<char> {
    "Unauthorized: Admin access required"@
}

/// A new category, active, before the table has numbered it.
pub open spec fn new_category(name: Seq<char>, email_address: Seq<char>, description: Seq<char>)
    -> MessageCategoryView {
    MessageCategoryView { id: 0, name, email_address, description, active: true }
}

/// Creates an active category that routes mail to `email_address`.
///
/// Only the module itself and the listed administrators may do so: for any
/// other caller the call fails with a reason and changes nothing.
pub fn add_message_category(
    db: &mut Database,
    ctx: &Invocation,
    name: String,
    email_address: String,
    description: String,
) -> (result: Result<(), String>)
    ensures
        result is Ok <==> is_admin(old(db)@, ctx.module_identity, ctx.sender),
        result is Ok ==> final(db)@ == old(db)@.with_message_category(
            new_category(name@, email_address@, description@),
        ),
        result matches Err(reason) ==> reason@ == unauthorized() && final(db)@ == old(db)@,
{
    if !is_admin_user(db, ctx) {
        return Err("Unauthorized: Admin access required".to_string());
    }
    db.insert_message_category(
        MessageCategory { id: 0, name, email_address, description, active: true },
    );
    Ok(())
}

/// A new subscription, active, before the table has numbered it.
pub open spec fn new_subscription(
    subscriber_account_id: u64,
    subscriber_email: Seq<char>,
    category_id: u64,
    timestamp: i64,
) -> SubscriptionView {
    SubscriptionView {
        id: 0,
        subscriber_account_id,
        subscriber_email,
        category_id,
        subscribed_at: timestamp,
        active: true,
    }
}

/// Creates an active subscription that lets `subscriber_email` write to
/// the category numbered `category_id`. Any caller may do so.
pub fn add_subscription(
    db: &mut Database,
    ctx: &Invocation,
    subscriber_account_id: u64,
    subscriber_email: String,
    category_id: u64,
)
    ensures
        final(db)@ == old(db)@.with_subscription(
            new_subscription(
                subscriber_account_id,
                subscriber_email@,
                category_id,
                ctx.timestamp_seconds(),
            ),
        ),
{
    db.insert_subscription(
        Subscription {
            id: 0,
            subscriber_account_id,
            subscriber_email,
            category_id,
            subscribed_at: ctx.timestamp(),
            active: true,
        },
    );
}

/// A new entry of the blocklist, active.
pub open spec fn new_blocked_ip(ip: Seq<char>, reason: Seq<char>, timestamp: i64)
    -> BlockedIpView {
    BlockedIpView { ip, reason, blocked_at: timestamp, active: true }
}

/// Adds an active entry for `ip` to the blocklist. Any caller may do so.
///
/// Returns `false`, with the store unchanged, where the address already has
/// an entry.
pub fn block_ip(db: &mut Database, ctx: &Invocation, ip: String, reason: String) -> (added: bool)
    ensures
        added == !old(db)@.has_blocked_ip(ip@),
        added ==> final(db)@ == old(db)@.with_blocked_ip(
            new_blocked_ip(ip@, reason@, ctx.timestamp_seconds()),
        ),
        !added ==> final(db)@ == old(db)@,
{
    db.insert_blocked_ip(BlockedIp { ip, reason, blocked_at: ctx.timestamp(), active: true })
}

/// The heading of the connection log in the report.
pub open spec fn connection_heading() -> Seq<char> {
    "=== MTA Connection Logs ==="@
}

/// The heading of the message log in the report.
pub open spec fn message_heading() -> Seq<char> {
    "=== MTA Message Logs ==="@
}

/// The line of the report for one entry of the connection log.
pub open spec fn connection_line(entry: MtaConnectionLogView) -> Seq<char> {
    "Connection Log "@ + decimal(entry.id as nat) + ": "@ + entry.stage + " - "@ + entry.action
        + " - "@ + entry.details
}

/// The line of the report for one entry of the message log.
pub open spec fn message_line(entry: MtaMessageLogView) -> Seq<char> {
    "Message Log "@ + decimal(entry.id as nat) + ": "@ + entry.stage + " - "@ + entry.action
        + " - Size: "@ + decimal(entry.message_size as nat)
}

/// The report of both logs: a heading and one line for each entry of the
/// connection log, then a heading and one line for each entry of the
/// message log.
pub open spec fn log_report(db: DatabaseView) -> Seq<Seq<char>> {
    seq![connection_heading()] + db.connection_log.map_values(
        |entry: MtaConnectionLogView| connection_line(entry),
    ) + seq![message_heading()] + db.message_log.map_values(
        |entry: MtaMessageLogView| message_line(entry),
    )
}

/// Reports both audit logs as lines of text, oldest entry first.
pub fn get_mta_logs(db: &Database) -> (lines: Vec<String>)
    ensures
        lines.deep_view() == log_report(db@),
{
    let mut lines: Vec<String> = Vec::new();
    lines.push("=== MTA Connection Logs ===".to_string());
    let connections = db.mta_connection_log();
    let ghost connection_lines = db@.connection_log.map_values(
        |entry: MtaConnectionLogView| connection_line(entry),
    );
    let mut i: usize = 0;
    proof {
        assert(lines.deep_view() =~= seq![connection_heading()] + connection_lines.take(0));
    }
    while i < connections.len()
        invariant
            i <= connections.len(),
            connections.deep_view() == db@.connection_log,
            connection_lines == db@.connection_log.map_values(
                |entry: MtaConnectionLogView| connection_line(entry),
            ),
            lines.deep_view() == seq![connection_heading()] + connection_lines.take(i as int),
        decreases connections.len() - i,
    {
        let entry = &connections[i];
        let ghost before = lines.deep_view();
        let mut line: String = "Connection Log ".to_string();
        let number = u64_to_string(entry.id);
        line.append(number.as_str());
        line.append(": ");
        line.append(entry.stage.as_str());
        line.append(" - ");
        line.append(entry.action.as_str());
        line.append(" - ");
        line.append(entry.details.as_str());
        proof {
            assert(db@.connection_log[i as int] == entry@);
            assert(line@ == connection_line(entry@));
            assert(connection_lines[i as int] == connection_line(entry@));
        }
        lines.push(line);
        proof {
            assert(lines.deep_view() =~= before.push(connection_line(entry@)));
            assert(connection_lines.take(i + 1) =~= connection_lines.take(i as int).push(
                connection_lines[i as int],
            ));
        }
        i += 1;
    }
    lines.push("=== MTA Message Logs ===".to_string());
    let messages = db.mta_message_log();
    let ghost message_lines = db@.message_log.map_values(
        |entry: MtaMessageLogView| message_line(entry),
    );
    let ghost head = seq![connection_heading()] + connection_lines + seq![message_heading()];
    let mut k: usize = 0;
    proof {
        assert(connection_lines.take(connections.len() as int) =~= connection_lines);
        assert(lines.deep_view() =~= head + message_lines.take(0));
    }
    while k < messages.len()
        invariant
            k <= messages.len(),
            messages.deep_view() == db@.message_log,
            message_lines == db@.message_log.map_values(
                |entry: MtaMessageLogView| message_line(entry),
            ),
            lines.deep_view() == head + message_lines.take(k as int),
        decreases messages.len() - k,
    {
        let entry = &messages[k];
        let ghost before = lines.deep_view();
        let mut line: String = "Message Log ".to_string();
        let number = u64_to_string(entry.id);
        line.append(number.as_str());
        line.append(": ");
        line.append(entry.stage.as_str());
        line.append(" - ");
        line.append(entry.action.as_str());
        line.append(" - Size: ");
        let size = u64_to_string(entry.message_size);
        line.append(size.as_str());
        proof {
            assert(db@.message_log[k as int] == entry@);
            assert(line@ == message_line(entry@));
            assert(message_lines[k as int] == message_line(entry@));
        }
        lines.push(line);
        proof {
            assert(lines.deep_view() =~= before.push(message_line(entry@)));
            assert(message_lines.take(k + 1) =~= message_lines.take(k as int).push(
                message_lines[k as int],
            ));
        }
        k += 1;
    }
    proof {
        assert(message_lines.take(messages.len() as int) =~= message_lines);
    }
    lines
}

} // verus!

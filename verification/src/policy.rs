//! The evaluators of the six stages, and the dispatcher that routes a
//! request to the one of its stage.
//!
//! Every evaluator reads the store, appends to the audit log and returns the
//! decision, so that what is logged and what is answered come from one
//! evaluation.
//!
//! The audit log follows one rule on what it records. The address of a
//! client and the address of a sender are never recorded: the log holds
//! `[REDACTED]` in their place. The recipients, the size and the queue number
//! of a message are recorded as given, and so is its subject unless it is
//! longer than 100 characters, in which case the log holds `[REDACTED]`.

use crate::database::{Database, DatabaseView};
use crate::event::{
    parse_event, parsed_event, Decision, DecisionView, Modification, ModificationView, Stage,
    TransactionEvent, TransactionEventView,
};
use crate::identity::Invocation;
use crate::tables::{
    BlockedIpView, MessageCategoryView, MtaConnectionLog, MtaConnectionLogView, MtaMessageLog,
    MtaMessageLogView, SubscriptionView,
};
use crate::text::{
    contains_char, i64_to_string, lowercase, same_text, signed_decimal, to_lowercase, trim, trimmed,
};
use vstd::prelude::*;
use vstd::string::*;

verus! {

broadcast use vstd::string::group_string_axioms;

/// What the log holds in place of a value that is not recorded.
pub open spec fn redacted() -> Seq<char> {
    "[REDACTED]"@
}

/// An entry of the connection log before the log has numbered it. The
/// address of the client is not recorded.
pub open spec fn connection_entry(
    stage: Seq<char>,
    action: Seq<char>,
    timestamp: i64,
    details: Seq<char>,
) -> MtaConnectionLogView {
    MtaConnectionLogView { id: 0, client_ip: redacted(), stage, action, timestamp, details }
}

/// Some active entry of the blocklist is for the address `ip`.
pub open spec fn is_blocked(blocked: Seq<BlockedIpView>, ip: Seq<char>) -> bool {
    exists|i: int| 0 <= i < blocked.len() && blocked[i].ip == ip && blocked[i].active
}

/// The decision of the connect stage for a client at `ip`.
pub open spec fn connect_decision(db: DatabaseView, ip: Seq<char>) -> DecisionView {
    if is_blocked(db.blocked_ips, ip) {
        DecisionView::Reject { code: None, message: "IP blocked"@ }
    } else {
        DecisionView::accept()
    }
}

/// The log entry of the connect stage for a client at `ip`.
pub open spec fn connect_entry(db: DatabaseView, ip: Seq<char>, timestamp: i64)
    -> MtaConnectionLogView {
    if is_blocked(db.blocked_ips, ip) {
        connection_entry("connect"@, "reject"@, timestamp, "IP blocked"@)
    } else {
        connection_entry("connect"@, "accept"@, timestamp, "Connection accepted"@)
    }
}

/// A greeting is valid when the client gave a name and the name is not
/// empty.
pub open spec fn valid_helo(helo: Option<Seq<char>>) -> bool {
    helo matches Some(name) && name.len() > 0
}

/// The decision of the greeting stage.
pub open spec fn ehlo_decision(helo: Option<Seq<char>>) -> DecisionView {
    if valid_helo(helo) {
        DecisionView::accept()
    } else {
        DecisionView::reject(501, "Invalid EHLO/HELO argument"@)
    }
}

/// The log entry of the greeting stage.
pub open spec fn ehlo_entry(helo: Option<Seq<char>>, timestamp: i64) -> MtaConnectionLogView {
    if valid_helo(helo) {
        connection_entry("ehlo"@, "accept"@, timestamp, "Valid EHLO/HELO"@)
    } else {
        connection_entry("ehlo"@, "reject"@, timestamp, "Invalid EHLO/HELO"@)
    }
}

/// A sender address is valid when it holds an `@`; the empty address holds
/// none.
pub open spec fn valid_sender(from: Seq<char>) -> bool {
    from.contains('@')
}

/// The decision of the sender stage.
pub open spec fn mail_decision(from: Seq<char>) -> DecisionView {
    if valid_sender(from) {
        DecisionView::accept()
    } else {
        DecisionView::reject(550, "Invalid sender address"@)
    }
}

/// The log entry of the sender stage.
pub open spec fn mail_entry(from: Seq<char>, timestamp: i64) -> MtaConnectionLogView {
    if valid_sender(from) {
        connection_entry("mail"@, "accept"@, timestamp, "Sender validation: passed"@)
    } else {
        connection_entry("mail"@, "reject"@, timestamp, "Sender validation: failed"@)
    }
}

/// The log entry of the authentication stage.
pub open spec fn auth_entry(timestamp: i64) -> MtaConnectionLogView {
    connection_entry("auth"@, "accept"@, timestamp, "Authentication stage - accept"@)
}

/// Builds an entry of the connection log; the log numbers it on insertion.
pub fn new_connection_entry(stage: &str, action: &str, timestamp: i64, details: &str) -> (entry:
    MtaConnectionLog)
    ensures
        entry@ == connection_entry(stage@, action@, timestamp, details@),
{
    MtaConnectionLog {
        id: 0,
        client_ip: "[REDACTED]".to_string(),
        stage: stage.to_string(),
        action: action.to_string(),
        timestamp,
        details: details.to_string(),
    }
}

/// Tells whether an active entry of the blocklist is for the address `ip`.
pub fn is_ip_blocked(db: &Database, ip: &str) -> (blocked: bool)
    ensures
        blocked == is_blocked(db@.blocked_ips, ip@),
{
    let rows = db.blocked_ips();
    let mut i: usize = 0;
    while i < rows.len()
        invariant
            i <= rows.len(),
            rows.deep_view() == db@.blocked_ips,
            forall|k: int|
                0 <= k < i ==> !(db@.blocked_ips[k].ip == ip@ && db@.blocked_ips[k].active),
        decreases rows.len() - i,
    {
        if rows[i].active && same_text(rows[i].ip.as_str(), ip) {
            assert(db@.blocked_ips[i as int] == rows[i as int]@);
            return true;
        }
        assert(db@.blocked_ips[i as int] == rows[i as int]@);
        i += 1;
    }
    false
}

/// The connect stage: a client whose address has an active entry in the
/// blocklist is refused, every other client is let in. One entry is added to
/// the connection log.
pub fn handle_connect_stage(db: &mut Database, request: &TransactionEvent, timestamp: i64) -> (decision:
    Decision)
    ensures
        decision@ == connect_decision(old(db)@, request@.client_ip),
        final(db)@ == old(db)@.with_connection_log(
            connect_entry(old(db)@, request@.client_ip, timestamp),
        ),
        is_blocked(old(db)@.blocked_ips, request@.client_ip) ==> decision@ is Reject,
        !is_blocked(old(db)@.blocked_ips, request@.client_ip) ==> decision@ is Accept,
{
    if is_ip_blocked(db, request.client_ip.as_str()) {
        let entry = new_connection_entry("connect", "reject", timestamp, "IP blocked");
        db.insert_connection_log(entry);
        Decision::Reject { code: None, message: "IP blocked".to_string() }
    } else {
        let entry = new_connection_entry("connect", "accept", timestamp, "Connection accepted");
        db.insert_connection_log(entry);
        Decision::accept()
    }
}

/// Tells whether the client gave a name that is not empty.
pub fn is_valid_helo(helo: &Option<String>) -> (valid: bool)
    ensures
        valid == valid_helo(helo.deep_view()),
{
    match helo {
        Some(name) => !name.as_str().is_empty(),
        None => false,
    }
}

/// The greeting stage: a client that gave no name, or an empty one, is
/// refused with reply 501. One entry is added to the connection log.
pub fn handle_ehlo_stage(db: &mut Database, request: &TransactionEvent, timestamp: i64) -> (decision:
    Decision)
    ensures
        decision@ == ehlo_decision(request@.helo),
        final(db)@ == old(db)@.with_connection_log(ehlo_entry(request@.helo, timestamp)),
{
    if is_valid_helo(&request.helo) {
        let entry = new_connection_entry("ehlo", "accept", timestamp, "Valid EHLO/HELO");
        db.insert_connection_log(entry);
        Decision::accept()
    } else {
        let entry = new_connection_entry("ehlo", "reject", timestamp, "Invalid EHLO/HELO");
        db.insert_connection_log(entry);
        Decision::reject(501, "Invalid EHLO/HELO argument".to_string())
    }
}

/// The sender of the envelope, or `unknown` where the request has no
/// envelope.
pub fn sender_of(request: &TransactionEvent) -> (from: String)
    ensures
        from@ == request@.sender(),
{
    match &request.envelope {
        Some(envelope) => envelope.from.clone(),
        None => "unknown".to_string(),
    }
}

/// The sender stage: a sender address without an `@` is refused with reply
/// 550. One entry is added to the connection log.
pub fn handle_mail_stage(db: &mut Database, request: &TransactionEvent, timestamp: i64) -> (decision:
    Decision)
    ensures
        decision@ == mail_decision(request@.sender()),
        final(db)@ == old(db)@.with_connection_log(mail_entry(request@.sender(), timestamp)),
{
    let from = sender_of(request);
    if contains_char(from.as_str(), '@') {
        let entry = new_connection_entry("mail", "accept", timestamp, "Sender validation: passed");
        db.insert_connection_log(entry);
        Decision::accept()
    } else {
        let entry = new_connection_entry("mail", "reject", timestamp, "Sender validation: failed");
        db.insert_connection_log(entry);
        Decision::reject(550, "Invalid sender address".to_string())
    }
}

/// The authentication stage: always accepted. One entry is added to the
/// connection log.
pub fn handle_auth_stage(db: &mut Database, request: &TransactionEvent, timestamp: i64) -> (decision:
    Decision)
    ensures
        decision@ == DecisionView::accept(),
        final(db)@ == old(db)@.with_connection_log(auth_entry(timestamp)),
{
    let entry = new_connection_entry("auth", "accept", timestamp, "Authentication stage - accept");
    db.insert_connection_log(entry);
    Decision::accept()
}

/// The category is active and mail to `address` is routed to it.
pub open spec fn routes(category: MessageCategoryView, address: Seq<char>) -> bool {
    category.active && category.email_address == address
}

/// Some active category routes `address`.
pub open spec fn has_route(categories: Seq<MessageCategoryView>, address: Seq<char>) -> bool {
    exists|i: int| 0 <= i < categories.len() && routes(categories[i], address)
}

/// The category at position `i` routes `address`, and none before it does.
pub open spec fn is_first_route(
    categories: Seq<MessageCategoryView>,
    address: Seq<char>,
    i: int,
) -> bool {
    &&& 0 <= i < categories.len()
    &&& routes(categories[i], address)
    &&& forall|j: int| 0 <= j < i ==> !routes(#[trigger] categories[j], address)
}

/// Every recipient is routed by some active category.
pub open spec fn all_routed(categories: Seq<MessageCategoryView>, recipients: Seq<Seq<char>>)
    -> bool {
    forall|k: int| 0 <= k < recipients.len() ==> has_route(categories, #[trigger] recipients[k])
}

/// The decision of the recipient stage.
pub open spec fn rcpt_decision(db: DatabaseView, recipients: Seq<Seq<char>>) -> DecisionView {
    if all_routed(db.message_categories, recipients) {
        DecisionView::accept()
    } else {
        DecisionView::reject(550, "Invalid recipient address"@)
    }
}

/// The log entry of the recipient stage for one recipient.
pub open spec fn rcpt_entry(
    categories: Seq<MessageCategoryView>,
    recipient: Seq<char>,
    timestamp: i64,
) -> MtaConnectionLogView {
    if has_route(categories, recipient) {
        connection_entry("rcpt"@, "accept"@, timestamp, "Category validation: found"@)
    } else {
        connection_entry(
            "rcpt"@,
            "reject"@,
            timestamp,
            "Category validation: not found"@,
        )
    }
}

/// The store after the recipient stage has logged `recipients`, one entry
/// each, in their order.
pub open spec fn rcpt_effect(db: DatabaseView, recipients: Seq<Seq<char>>, timestamp: i64)
    -> DatabaseView
    decreases recipients.len(),
{
    if recipients.len() == 0 {
        db
    } else {
        rcpt_effect(db, recipients.drop_last(), timestamp).with_connection_log(
            rcpt_entry(db.message_categories, recipients.last(), timestamp),
        )
    }
}

/// The recipient stage leaves every table but the connection log as it
/// was, and adds one entry for each recipient.
pub proof fn lemma_rcpt_effect(db: DatabaseView, recipients: Seq<Seq<char>>, timestamp: i64)
    ensures
        rcpt_effect(db, recipients, timestamp) == (DatabaseView {
            connection_log: rcpt_effect(db, recipients, timestamp).connection_log,
            ..db
        }),
        rcpt_effect(db, recipients, timestamp).connection_log.len() == db.connection_log.len()
            + recipients.len(),
        rcpt_effect(db, recipients, timestamp).connection_log.subrange(
            0,
            db.connection_log.len() as int,
        ) == db.connection_log,
    decreases recipients.len(),
{
    if recipients.len() > 0 {
        lemma_rcpt_effect(db, recipients.drop_last(), timestamp);
    }
    assert(rcpt_effect(db, recipients, timestamp).connection_log.subrange(
        0,
        db.connection_log.len() as int,
    ) =~= db.connection_log);
}

/// The number of the first active category that routes `address`, if there
/// is one.
pub fn find_category(db: &Database, address: &str) -> (found: Option<u64>)
    ensures
        match found {
            Some(id) => exists|i: int|
                is_first_route(db@.message_categories, address@, i)
                    && db@.message_categories[i].id == id,
            None => !has_route(db@.message_categories, address@),
        },
{
    let rows = db.message_categories();
    let mut i: usize = 0;
    while i < rows.len()
        invariant
            i <= rows.len(),
            rows.deep_view() == db@.message_categories,
            forall|j: int| 0 <= j < i ==> !routes(#[trigger] db@.message_categories[j], address@),
        decreases rows.len() - i,
    {
        assert(db@.message_categories[i as int] == rows[i as int]@);
        if rows[i].active && same_text(rows[i].email_address.as_str(), address) {
            assert(is_first_route(db@.message_categories, address@, i as int));
            return Some(rows[i].id);
        }
        i += 1;
    }
    None
}

/// The recipient stage: a recipient that no active category routes is
/// refused with reply 550. One entry is added to the connection log for
/// each recipient, in the order of the envelope; the request is accepted
/// when every recipient is routed.
pub fn handle_rcpt_stage(db: &mut Database, request: &TransactionEvent, timestamp: i64) -> (decision:
    Decision)
    ensures
        decision@ == rcpt_decision(old(db)@, request@.recipients()),
        final(db)@ == rcpt_effect(old(db)@, request@.recipients(), timestamp),
        final(db)@ == (DatabaseView { connection_log: final(db)@.connection_log, ..old(db)@ }),
        final(db)@.connection_log.len() == old(db)@.connection_log.len()
            + request@.recipients().len(),
{
    let ghost before = db@;
    let ghost recipients = request@.recipients();
    let mut all_found: bool = true;
    proof {
        lemma_rcpt_effect(before, recipients, timestamp);
    }
    match &request.envelope {
        Some(envelope) => {
            let mut k: usize = 0;
            while k < envelope.to.len()
                invariant
                    k <= envelope.to.len(),
                    envelope.to.deep_view() == recipients,
                    db@ == rcpt_effect(before, recipients.take(k as int), timestamp),
                    db@.message_categories == before.message_categories,
                    all_found == all_routed(before.message_categories, recipients.take(k as int)),
                decreases envelope.to.len() - k,
            {
                let ghost done = recipients.take(k as int);
                let ghost next = recipients.take(k + 1);
                proof {
                    assert(next.drop_last() =~= done);
                    assert(next.last() == envelope.to[k as int]@);
                }
                let found = find_category(db, envelope.to[k].as_str()).is_some();
                let entry = if found {
                    new_connection_entry(
                        "rcpt",
                        "accept",
                        timestamp,
                        "Category validation: found",
                    )
                } else {
                    new_connection_entry(
                        "rcpt",
                        "reject",
                        timestamp,
                        "Category validation: not found",
                    )
                };
                db.insert_connection_log(entry);
                proof {
                    if all_routed(before.message_categories, done) && found {
                        assert forall|j: int| 0 <= j < next.len() implies has_route(
                            before.message_categories,
                            #[trigger] next[j],
                        ) by {
                            if j < k {
                                assert(next[j] == done[j]);
                            }
                        }
                    } else if !found {
                        assert(!has_route(before.message_categories, next[k as int]));
                    } else {
                        let j = choose|j: int|
                            0 <= j < done.len() && !has_route(
                                before.message_categories,
                                #[trigger] done[j],
                            );
                        assert(next[j] == done[j]);
                    }
                }
                if !found {
                    all_found = false;
                }
                k += 1;
            }
            proof {
                assert(recipients.take(envelope.to.len() as int) =~= recipients);
            }
        },
        None => {},
    }
    if all_found {
        Decision::accept()
    } else {
        Decision::reject(550, "Invalid recipient address".to_string())
    }
}

/// Some active subscription lets `sender` write to the category numbered
/// `category_id`.
pub open spec fn subscribed(
    subscriptions: Seq<SubscriptionView>,
    sender: Seq<char>,
    category_id: u64,
) -> bool {
    exists|i: int|
        0 <= i < subscriptions.len() && subscriptions[i].active
            && subscriptions[i].subscriber_email == sender && subscriptions[i].category_id
            == category_id
}

/// The first active category that routes `recipient` has an active
/// subscription of `sender`.
pub open spec fn recipient_authorized(db: DatabaseView, sender: Seq<char>, recipient: Seq<char>)
    -> bool {
    exists|i: int|
        is_first_route(db.message_categories, recipient, i) && subscribed(
            db.subscriptions,
            sender,
            db.message_categories[i].id,
        )
}

/// `sender` may write to at least one of `recipients`.
pub open spec fn any_authorized(db: DatabaseView, sender: Seq<char>, recipients: Seq<Seq<char>>)
    -> bool {
    exists|k: int|
        0 <= k < recipients.len() && recipient_authorized(db, sender, #[trigger] recipients[k])
}

/// A header name names the subject when its lower-case form is `subject`.
pub open spec fn is_subject_name(name: Seq<char>) -> bool {
    lowercase(name) == "subject"@
}

/// The subject of a message: the trimmed value of the first header whose
/// name names the subject, and `No subject` where there is none.
pub open spec fn subject_of(headers: Seq<(Seq<char>, Seq<char>)>) -> Seq<char>
    decreases headers.len(),
{
    if headers.len() == 0 {
        "No subject"@
    } else if is_subject_name(headers[0].0) {
        trimmed(headers[0].1)
    } else {
        subject_of(headers.drop_first())
    }
}

/// The longest subject, in characters, that the message log records.
pub const MAX_LOGGED_SUBJECT: usize = 100;

/// The subject as the message log records it: a subject of more than 100
/// characters is replaced as a whole.
pub open spec fn logged_subject(subject: Seq<char>) -> Seq<char> {
    if subject.len() > 100 {
        redacted()
    } else {
        subject
    }
}

/// What `serde_json::to_string` returns for a list of strings: the text of
/// a JSON array, or `None` where it reports an error.
pub uninterp spec fn json_string_array(items: Seq<Seq<char>>) -> Option<Seq<char>>;

/// The recipients as the message log records them; empty where the
/// serialiser reports an error.
pub open spec fn recipients_text(recipients: Seq<Seq<char>>) -> Seq<char> {
    match json_string_array(recipients) {
        Some(text) => text,
        None => Seq::empty(),
    }
}

/// Calls `serde_json::to_string` on a list of strings. The contract names
/// the outcome, error included: it depends on the strings alone.
#[verifier::external_body]
fn json_of_strings(items: &Vec<String>) -> (text: Option<String>)
    ensures
        text.deep_view() == json_string_array(items.deep_view()),
{
    serde_json::to_string(items).ok()
}

/// An entry of the message log before the log has numbered it.
pub open spec fn message_entry(
    to_addresses: Seq<char>,
    subject: Seq<char>,
    message_size: u64,
    authorized: bool,
    timestamp: i64,
    queue_id: Option<Seq<char>>,
) -> MtaMessageLogView {
    MtaMessageLogView {
        id: 0,
        from_address: redacted(),
        to_addresses,
        subject: logged_subject(subject),
        message_size,
        stage: "data"@,
        action: if authorized {
            "accept"@
        } else {
            "quarantine"@
        },
        timestamp,
        queue_id,
    }
}

/// The log entry of the data stage.
pub open spec fn data_entry(db: DatabaseView, event: TransactionEventView, timestamp: i64)
    -> MtaMessageLogView {
    message_entry(
        recipients_text(event.recipients()),
        subject_of(event.headers()),
        event.message_size(),
        any_authorized(db, event.sender(), event.recipients()),
        timestamp,
        event.queue_id,
    )
}

/// The two headers that an accepted message is marked with: who processed
/// it, and when, in seconds since the Unix epoch.
pub open spec fn processing_headers(timestamp: i64) -> Seq<ModificationView> {
    seq![
        ModificationView {
            header: "X-Processed-By"@,
            value: "SpacetimeDB Kommunikationszentrum"@,
        },
        ModificationView {
            header: "X-Processing-Time"@,
            value: signed_decimal(timestamp as int),
        },
    ]
}

/// The decision of the data stage.
pub open spec fn data_decision(db: DatabaseView, event: TransactionEventView, timestamp: i64)
    -> DecisionView {
    if any_authorized(db, event.sender(), event.recipients()) {
        DecisionView::Accept { modifications: processing_headers(timestamp) }
    } else {
        DecisionView::Quarantine
    }
}

/// Tells whether an active subscription lets `sender` write to the
/// category numbered `category_id`.
pub fn is_subscribed(db: &Database, sender: &str, category_id: u64) -> (found: bool)
    ensures
        found == subscribed(db@.subscriptions, sender@, category_id),
{
    let rows = db.subscriptions();
    let mut i: usize = 0;
    while i < rows.len()
        invariant
            i <= rows.len(),
            rows.deep_view() == db@.subscriptions,
            forall|j: int|
                0 <= j < i ==> !(db@.subscriptions[j].active && db@.subscriptions[j].subscriber_email
                    == sender@ && db@.subscriptions[j].category_id == category_id),
        decreases rows.len() - i,
    {
        assert(db@.subscriptions[i as int] == rows[i as int]@);
        if rows[i].active && rows[i].category_id == category_id && same_text(
            rows[i].subscriber_email.as_str(),
            sender,
        ) {
            return true;
        }
        i += 1;
    }
    false
}

/// Tells whether `sender` may write to `recipient`: whether the first
/// active category that routes the recipient has an active subscription of
/// the sender.
pub fn is_recipient_authorized(db: &Database, sender: &str, recipient: &str) -> (authorized:
    bool)
    ensures
        authorized == recipient_authorized(db@, sender@, recipient@),
{
    match find_category(db, recipient) {
        Some(id) => {
            let found = is_subscribed(db, sender, id);
            proof {
                let i = choose|i: int|
                    is_first_route(db@.message_categories, recipient@, i)
                        && db@.message_categories[i].id == id;
                if recipient_authorized(db@, sender@, recipient@) {
                    let j = choose|j: int|
                        is_first_route(db@.message_categories, recipient@, j) && subscribed(
                            db@.subscriptions,
                            sender@,
                            db@.message_categories[j].id,
                        );
                    assert(i == j);
                }
            }
            found
        },
        None => false,
    }
}

/// Tells whether a header name names the subject.
pub fn names_subject(name: &str) -> (named: bool)
    ensures
        named == is_subject_name(name@),
{
    let lowered = to_lowercase(name);
    same_text(lowered.as_str(), "subject")
}

/// The subject among `headers`: the trimmed value of the first header
/// whose name is `subject` in any mix of upper and lower case, and
/// `No subject` where there is none.
pub fn extract_subject_from_headers(headers: &[(String, String)]) -> (subject: String)
    ensures
        subject@ == subject_of(headers.deep_view()),
{
    let ghost all = headers.deep_view();
    let mut i: usize = 0;
    proof {
        assert(all.skip(0) =~= all);
    }
    while i < headers.len()
        invariant
            i <= headers.len(),
            all == headers.deep_view(),
            subject_of(all) == subject_of(all.skip(i as int)),
        decreases headers.len() - i,
    {
        proof {
            assert(all.skip(i as int)[0] == all[i as int]);
            assert(all.skip(i as int).drop_first() =~= all.skip(i + 1));
            assert(all[i as int] == (headers[i as int].0@, headers[i as int].1@));
        }
        if names_subject(headers[i].0.as_str()) {
            return trim(headers[i].1.as_str()).to_string();
        }
        i += 1;
    }
    "No subject".to_string()
}

/// The subject of the message that `request` carries; `No subject` where
/// it carries none.
pub fn extract_subject_from_request(request: &TransactionEvent) -> (subject: String)
    ensures
        subject@ == subject_of(request@.headers()),
{
    match &request.message {
        Some(message) => extract_subject_from_headers(message.headers.as_slice()),
        None => "No subject".to_string(),
    }
}

/// The subject as the message log records it.
pub fn redact_subject(subject: String) -> (logged: String)
    ensures
        logged@ == logged_subject(subject@),
{
    if subject.as_str().unicode_len() > MAX_LOGGED_SUBJECT {
        "[REDACTED]".to_string()
    } else {
        subject
    }
}

/// Builds the entry of the message log for one message; the log numbers it
/// on insertion. The sender is never recorded.
pub fn new_message_entry(
    to_addresses: String,
    subject: String,
    message_size: u64,
    authorized: bool,
    timestamp: i64,
    queue_id: Option<String>,
) -> (entry: MtaMessageLog)
    ensures
        entry@ == message_entry(
            to_addresses@,
            subject@,
            message_size,
            authorized,
            timestamp,
            queue_id.deep_view(),
        ),
{
    let action = if authorized {
        "accept".to_string()
    } else {
        "quarantine".to_string()
    };
    MtaMessageLog {
        id: 0,
        from_address: "[REDACTED]".to_string(),
        to_addresses,
        subject: redact_subject(subject),
        message_size,
        stage: "data".to_string(),
        action,
        timestamp,
        queue_id,
    }
}

/// The decision for a message whose sender may, or may not, write to one of
/// its recipients: acceptance with the two processing headers, or
/// quarantine.
pub fn data_verdict(authorized: bool, timestamp: i64) -> (decision: Decision)
    ensures
        authorized ==> decision@ == (DecisionView::Accept {
            modifications: processing_headers(timestamp),
        }),
        !authorized ==> decision@ == DecisionView::Quarantine,
{
    if authorized {
        let mut modifications: Vec<Modification> = Vec::new();
        modifications.push(
            Modification {
                header: "X-Processed-By".to_string(),
                value: "SpacetimeDB Kommunikationszentrum".to_string(),
            },
        );
        modifications.push(
            Modification {
                header: "X-Processing-Time".to_string(),
                value: i64_to_string(timestamp),
            },
        );
        proof {
            assert(modifications.deep_view() =~= processing_headers(timestamp));
        }
        Decision::Accept { modifications }
    } else {
        Decision::Quarantine
    }
}

/// The data stage: the message is accepted, and marked with the two
/// processing headers, when the sender has an active subscription to the
/// category of at least one recipient; otherwise it is quarantined. Either
/// way one entry is added to the message log.
pub fn handle_data_stage(db: &mut Database, request: &TransactionEvent, timestamp: i64) -> (decision:
    Decision)
    ensures
        decision@ == data_decision(old(db)@, request@, timestamp),
        final(db)@ == old(db)@.with_message_log(data_entry(old(db)@, request@, timestamp)),
{
    let from_address = sender_of(request);
    let message_size: u64 = match &request.message {
        Some(message) => message.size,
        None => 0,
    };
    let subject = extract_subject_from_request(request);
    let ghost recipients = request@.recipients();
    let mut authorized: bool = false;
    let to_addresses: String = match &request.envelope {
        Some(envelope) => {
            let mut k: usize = 0;
            while k < envelope.to.len()
                invariant
                    k <= envelope.to.len(),
                    envelope.to.deep_view() == recipients,
                    authorized == any_authorized(db@, from_address@, recipients.take(k as int)),
                decreases envelope.to.len() - k,
            {
                let ghost done = recipients.take(k as int);
                let ghost next = recipients.take(k + 1);
                let allowed = is_recipient_authorized(
                    db,
                    from_address.as_str(),
                    envelope.to[k].as_str(),
                );
                proof {
                    assert(next[k as int] == envelope.to[k as int]@);
                    if any_authorized(db@, from_address@, done) {
                        let j = choose|j: int|
                            0 <= j < done.len() && recipient_authorized(
                                db@,
                                from_address@,
                                #[trigger] done[j],
                            );
                        assert(next[j] == done[j]);
                    }
                    if any_authorized(db@, from_address@, next) {
                        let j = choose|j: int|
                            0 <= j < next.len() && recipient_authorized(
                                db@,
                                from_address@,
                                #[trigger] next[j],
                            );
                        if j < k {
                            assert(done[j] == next[j]);
                        }
                    }
                }
                if allowed {
                    authorized = true;
                }
                k += 1;
            }
            proof {
                assert(recipients.take(envelope.to.len() as int) =~= recipients);
            }
            match json_of_strings(&envelope.to) {
                Some(text) => text,
                None => String::new(),
            }
        },
        None => {
            let none: Vec<String> = Vec::new();
            proof {
                assert(none.deep_view() =~= recipients);
            }
            match json_of_strings(&none) {
                Some(text) => text,
                None => String::new(),
            }
        },
    };
    let queue_id: Option<String> = match &request.queue_id {
        Some(id) => Some(id.clone()),
        None => None,
    };
    let entry = new_message_entry(
        to_addresses,
        subject,
        message_size,
        authorized,
        timestamp,
        queue_id,
    );
    db.insert_message_log(entry);
    data_verdict(authorized, timestamp)
}

/// The decision that the evaluator of the event's stage takes.
pub open spec fn stage_decision(db: DatabaseView, event: TransactionEventView, timestamp: i64)
    -> DecisionView {
    match event.stage {
        Stage::Connect => connect_decision(db, event.client_ip),
        Stage::Ehlo => ehlo_decision(event.helo),
        Stage::Mail => mail_decision(event.sender()),
        Stage::Rcpt => rcpt_decision(db, event.recipients()),
        Stage::Data => data_decision(db, event, timestamp),
        Stage::Auth => DecisionView::accept(),
    }
}

/// The store after the evaluator of the event's stage has run.
pub open spec fn stage_effect(db: DatabaseView, event: TransactionEventView, timestamp: i64)
    -> DatabaseView {
    match event.stage {
        Stage::Connect => db.with_connection_log(connect_entry(db, event.client_ip, timestamp)),
        Stage::Ehlo => db.with_connection_log(ehlo_entry(event.helo, timestamp)),
        Stage::Mail => db.with_connection_log(mail_entry(event.sender(), timestamp)),
        Stage::Rcpt => rcpt_effect(db, event.recipients(), timestamp),
        Stage::Data => db.with_message_log(data_entry(db, event, timestamp)),
        Stage::Auth => db.with_connection_log(auth_entry(timestamp)),
    }
}

/// Routes `request` to the evaluator of its stage and returns its decision.
pub fn dispatch(db: &mut Database, request: &TransactionEvent, timestamp: i64) -> (decision:
    Decision)
    ensures
        decision@ == stage_decision(old(db)@, request@, timestamp),
        final(db)@ == stage_effect(old(db)@, request@, timestamp),
{
    match request.stage {
        Stage::Connect => handle_connect_stage(db, request, timestamp),
        Stage::Ehlo => handle_ehlo_stage(db, request, timestamp),
        Stage::Mail => handle_mail_stage(db, request, timestamp),
        Stage::Rcpt => handle_rcpt_stage(db, request, timestamp),
        Stage::Data => handle_data_stage(db, request, timestamp),
        Stage::Auth => handle_auth_stage(db, request, timestamp),
    }
}

/// Reads a request from its JSON text and evaluates it at the time of the
/// call. A text that is not a well-formed request is dropped: nothing is
/// decided and nothing is logged.
pub fn handle_mta_hook(db: &mut Database, ctx: &Invocation, hook_data: &str) -> (decision: Option<
    Decision,
>)
    ensures
        match parsed_event(hook_data@) {
            Some(event) => decision.deep_view() == Some(
                stage_decision(old(db)@, event, ctx.timestamp_seconds()),
            ) && final(db)@ == stage_effect(old(db)@, event, ctx.timestamp_seconds()),
            None => decision is None && final(db)@ == old(db)@,
        },
{
    match parse_event(hook_data) {
        Some(request) => Some(dispatch(db, &request, ctx.timestamp())),
        None => None,
    }
}

} // verus!

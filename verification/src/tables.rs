//! The rows of the seven tables, each with the mathematical value that the
//! contracts speak of.

use crate::identity::Identity;
use vstd::prelude::*;

verus! {

/// An account of the directory, keyed by the membership number that the
/// identity provider assigns.
#[derive(Debug, Clone, PartialEq, Eq)]
pub struct Account {
    pub id: u64,
    pub identity: Identity,
    pub name: String,
    pub email: String,
    pub is_active: bool,
    pub is_admin: bool,
    pub last_synced: i64,
}

/// The value of an [`Account`].
pub struct AccountView {
    pub id: u64,
    pub identity: Identity,
    pub name: Seq<char>,
    pub email: Seq<char>,
    pub is_active: bool,
    pub is_admin: bool,
    pub last_synced: i64,
}

impl View for Account {
    type V = AccountView;

    open spec fn view(&self) -> AccountView {
        AccountView {
            id: self.id,
            identity: self.identity,
            name: self.name@,
            email: self.email@,
            is_active: self.is_active,
            is_admin: self.is_admin,
            last_synced: self.last_synced,
        }
    }
}

impl DeepView for Account {
    type V = AccountView;

    open spec fn deep_view(&self) -> AccountView {
        self@
    }
}

/// An identity that may administer the categories.
#[derive(Debug, Clone, PartialEq, Eq)]
pub struct AdminIdentity {
    pub identity: Identity,
}

impl View for AdminIdentity {
    type V = Identity;

    open spec fn view(&self) -> Identity {
        self.identity
    }
}

impl DeepView for AdminIdentity {
    type V = Identity;

    open spec fn deep_view(&self) -> Identity {
        self@
    }
}

/// One decision of a connection-level stage, as the audit log keeps it.
#[derive(Debug, Clone, PartialEq, Eq)]
pub struct MtaConnectionLog {
    pub id: u64,
    pub client_ip: String,
    pub stage: String,
    pub action: String,
    pub timestamp: i64,
    pub details: String,
}

/// The value of an [`MtaConnectionLog`].
pub struct MtaConnectionLogView {
    pub id: u64,
    pub client_ip: Seq<char>,
    pub stage: Seq<char>,
    pub action: Seq<char>,
    pub timestamp: i64,
    pub details: Seq<char>,
}

impl View for MtaConnectionLog {
    type V = MtaConnectionLogView;

    open spec fn view(&self) -> MtaConnectionLogView {
        MtaConnectionLogView {
            id: self.id,
            client_ip: self.client_ip@,
            stage: self.stage@,
            action: self.action@,
            timestamp: self.timestamp,
            details: self.details@,
        }
    }
}

impl DeepView for MtaConnectionLog {
    type V = MtaConnectionLogView;

    open spec fn deep_view(&self) -> MtaConnectionLogView {
        self@
    }
}

/// The disposition of one message, as the audit log keeps it.
///
/// `to_addresses` holds the recipients, in the order of the envelope, as the
/// text of a JSON array of strings.
#[derive(Debug, Clone, PartialEq, Eq)]
pub struct MtaMessageLog {
    pub id: u64,
    pub from_address: String,
    pub to_addresses: String,
    pub subject: String,
    pub message_size: u64,
    pub stage: String,
    pub action: String,
    pub timestamp: i64,
    pub queue_id: Option<String>,
}

/// The value of an [`MtaMessageLog`].
pub struct MtaMessageLogView {
    pub id: u64,
    pub from_address: Seq<char>,
    pub to_addresses: Seq<char>,
    pub subject: Seq<char>,
    pub message_size: u64,
    pub stage: Seq<char>,
    pub action: Seq<char>,
    pub timestamp: i64,
    pub queue_id: Option<Seq<char>>,
}

impl View for MtaMessageLog {
    type V = MtaMessageLogView;

    open spec fn view(&self) -> MtaMessageLogView {
        MtaMessageLogView {
            id: self.id,
            from_address: self.from_address@,
            to_addresses: self.to_addresses@,
            subject: self.subject@,
            message_size: self.message_size,
            stage: self.stage@,
            action: self.action@,
            timestamp: self.timestamp,
            queue_id: match self.queue_id {
                Some(q) => Some(q@),
                None => None,
            },
        }
    }
}

impl DeepView for MtaMessageLog {
    type V = MtaMessageLogView;

    open spec fn deep_view(&self) -> MtaMessageLogView {
        self@
    }
}

/// A client address that connections are refused from while `active`.
#[derive(Debug, Clone, PartialEq, Eq)]
pub struct BlockedIp {
    pub ip: String,
    pub reason: String,
    pub blocked_at: i64,
    pub active: bool,
}

/// The value of a [`BlockedIp`].
pub struct BlockedIpView {
    pub ip: Seq<char>,
    pub reason: Seq<char>,
    pub blocked_at: i64,
    pub active: bool,
}

impl View for BlockedIp {
    type V = BlockedIpView;

    open spec fn view(&self) -> BlockedIpView {
        BlockedIpView {
            ip: self.ip@,
            reason: self.reason@,
            blocked_at: self.blocked_at,
            active: self.active,
        }
    }
}

impl DeepView for BlockedIp {
    type V = BlockedIpView;

    open spec fn deep_view(&self) -> BlockedIpView {
        self@
    }
}

/// A named destination that recipients may address; mail to
/// `email_address` is routed to it while `active`.
#[derive(Debug, Clone, PartialEq, Eq)]
pub struct MessageCategory {
    pub id: u64,
    pub name: String,
    pub email_address: String,
    pub description: String,
    pub active: bool,
}

/// The value of a [`MessageCategory`].
pub struct MessageCategoryView {
    pub id: u64,
    pub name: Seq<char>,
    pub email_address: Seq<char>,
    pub description: Seq<char>,
    pub active: bool,
}

impl View for MessageCategory {
    type V = MessageCategoryView;

    open spec fn view(&self) -> MessageCategoryView {
        MessageCategoryView {
            id: self.id,
            name: self.name@,
            email_address: self.email_address@,
            description: self.description@,
            active: self.active,
        }
    }
}

impl DeepView for MessageCategory {
    type V = MessageCategoryView;

    open spec fn deep_view(&self) -> MessageCategoryView {
        self@
    }
}

/// The permission of one sender to write to one category, while `active`.
#[derive(Debug, Clone, PartialEq, Eq)]
pub struct Subscription {
    pub id: u64,
    pub subscriber_account_id: u64,
    pub subscriber_email: String,
    pub category_id: u64,
    pub subscribed_at: i64,
    pub active: bool,
}

/// The value of a [`Subscription`].
pub struct SubscriptionView {
    pub id: u64,
    pub subscriber_account_id: u64,
    pub subscriber_email: Seq<char>,
    pub category_id: u64,
    pub subscribed_at: i64,
    pub active: bool,
}

impl View for Subscription {
    type V = SubscriptionView;

    open spec fn view(&self) -> SubscriptionView {
        SubscriptionView {
            id: self.id,
            subscriber_account_id: self.subscriber_account_id,
            subscriber_email: self.subscriber_email@,
            category_id: self.category_id,
            subscribed_at: self.subscribed_at,
            active: self.active,
        }
    }
}

impl DeepView for Subscription {
    type V = SubscriptionView;

    open spec fn deep_view(&self) -> SubscriptionView {
        self@
    }
}

} // verus!

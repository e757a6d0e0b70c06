//! Policy engine for an inbound mail transaction.
//!
//! A mail transfer agent asks, at each stage of an SMTP transaction, whether
//! to go on. The answer depends on a blocklist of client addresses, on the
//! shape of the addresses given, and on which senders have subscribed to the
//! category that a recipient address routes to. Every answer is written to an
//! append-only audit log. Beside that, the engine keeps a directory of
//! accounts that an identity provider synchronises, and a registry of the
//! identities that may administer the categories.

pub mod text;
pub mod identity;
pub mod tables;
pub mod database;
pub mod event;
pub mod policy;
pub mod accounts;
pub mod admin;
pub mod bridge;
pub mod config;
pub mod laws;

pub use accounts::{
    add_test_accounts, init, is_admin_identity, is_admin_user, sync_user, visible_accounts,
    UserSyncData, UserSyncPayload,
};
pub use admin::{add_message_category, add_subscription, block_ip, get_mta_logs};
pub use bridge::MtaHookHandler;
pub use config::{AdminConfig, OAuthConfig, WebhookProxyConfig};
pub use database::Database;
pub use event::{Decision, Envelope, Message, Modification, Stage, TransactionEvent};
pub use identity::{Identity, Invocation};
pub use policy::{
    dispatch, extract_subject_from_headers, extract_subject_from_request, handle_auth_stage,
    handle_connect_stage, handle_data_stage, handle_ehlo_stage, handle_mail_stage,
    handle_mta_hook, handle_rcpt_stage,
};
pub use tables::{
    Account, AdminIdentity, BlockedIp, MessageCategory, MtaConnectionLog, MtaMessageLog,
    Subscription,
};

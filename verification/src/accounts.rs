//! The account directory: synchronisation from the identity provider, the
//! registry of administrators, and the rule that says which accounts a
//! caller may see.

use crate::database::{Database, DatabaseView};
use crate::identity::{
    claims_identity, hex_identity, identity_from_claims, identity_from_hex, Identity, Invocation,
};
use crate::tables::{Account, AccountView};
use crate::text::{decimal, same_text, u64_to_string};
use vstd::prelude::*;
use vstd::string::*;

verus! {

broadcast use vstd::string::group_string_axioms;

/// What the identity provider says of one user.
#[derive(Debug, Clone, PartialEq, Eq)]
pub struct UserSyncData {
    /// The membership number, which keys the account.
    pub mitgliedsnr: u64,
    pub name: Option<String>,
    pub email: Option<String>,
    pub is_active: Option<bool>,
    pub updated_at: Option<String>,
    /// The identity of the account in hexadecimal, where the provider has
    /// computed it.
    pub identity_hex: Option<String>,
}

/// The value of a [`UserSyncData`].
pub struct UserSyncDataView {
    pub mitgliedsnr: u64,
    pub name: Option<Seq<char>>,
    pub email: Option<Seq<char>>,
    pub is_active: Option<bool>,
    pub updated_at: Option<Seq<char>>,
    pub identity_hex: Option<Seq<char>>,
}

impl View for UserSyncData {
    type V = UserSyncDataView;

    open spec fn view(&self) -> UserSyncDataView {
        UserSyncDataView {
            mitgliedsnr: self.mitgliedsnr,
            name: self.name.deep_view(),
            email: self.email.deep_view(),
            is_active: self.is_active,
            updated_at: self.updated_at.deep_view(),
            identity_hex: self.identity_hex.deep_view(),
        }
    }
}

impl DeepView for UserSyncData {
    type V = UserSyncDataView;

    open spec fn deep_view(&self) -> UserSyncDataView {
        self@
    }
}

/// A synchronisation event: what to do, and the user it is about.
#[derive(Debug, Clone, PartialEq, Eq)]
pub struct UserSyncPayload {
    /// `upsert` or `delete`.
    pub action: String,
    pub user: UserSyncData,
}

/// The value of a [`UserSyncPayload`].
pub struct UserSyncPayloadView {
    pub action: Seq<char>,
    pub user: UserSyncDataView,
}

impl View for UserSyncPayload {
    type V = UserSyncPayloadView;

    open spec fn view(&self) -> UserSyncPayloadView {
        UserSyncPayloadView { action: self.action@, user: self.user@ }
    }
}

impl DeepView for UserSyncPayload {
    type V = UserSyncPayloadView;

    open spec fn deep_view(&self) -> UserSyncPayloadView {
        self@
    }
}

/// The base address of the identity provider where none is configured.
pub const DJANGO_OAUTH_BASE_URL: &'static str = "http://127.0.0.1:8000";

/// The path of the issuer below the base address of the identity provider.
pub const DJANGO_OAUTH_ISSUER_PATH: &'static str = "/o";

/// The membership number of the account that `init` adds to show that the
/// store takes writes.
pub const INIT_ACCOUNT_ID: u64 = 999999;

/// The identity that is derived for the membership number `id` under
/// `issuer`: that of the claims `issuer` and `id` written in decimal.
pub open spec fn derived_identity(issuer: Seq<char>, id: u64) -> Identity {
    claims_identity(issuer, decimal(id as nat))
}

/// The identity of a synchronised account: the one that the provider
/// supplies, where it supplies one that can be read, and else the one derived
/// from the issuer and the membership number.
pub open spec fn account_identity(issuer: Seq<char>, user: UserSyncDataView) -> Identity {
    match user.identity_hex {
        Some(hex) => match hex_identity(hex) {
            Some(identity) => identity,
            None => derived_identity(issuer, user.mitgliedsnr),
        },
        None => derived_identity(issuer, user.mitgliedsnr),
    }
}

/// The row that an upsert writes: a missing name or address is empty, a
/// missing activity flag is set, and the account is no administrator.
pub open spec fn synced_account(identity: Identity, user: UserSyncDataView, timestamp: i64)
    -> AccountView {
    AccountView {
        id: user.mitgliedsnr,
        identity,
        name: match user.name {
            Some(name) => name,
            None => Seq::empty(),
        },
        email: match user.email {
            Some(email) => email,
            None => Seq::empty(),
        },
        is_active: match user.is_active {
            Some(active) => active,
            None => true,
        },
        is_admin: false,
        last_synced: timestamp,
    }
}

/// The store after `account` has replaced whatever row carried its
/// membership number.
pub open spec fn upsert_effect(db: DatabaseView, account: AccountView) -> DatabaseView {
    db.without_account(account.id).with_account(account)
}

/// The store after a synchronisation event. An action other than `upsert`
/// and `delete` changes nothing.
pub open spec fn sync_effect(
    db: DatabaseView,
    action: Seq<char>,
    issuer: Seq<char>,
    user: UserSyncDataView,
    timestamp: i64,
) -> DatabaseView {
    if action == "upsert"@ {
        upsert_effect(db, synced_account(account_identity(issuer, user), user, timestamp))
    } else if action == "delete"@ {
        db.without_account(user.mitgliedsnr)
    } else {
        db
    }
}

/// `who` may administer: it is the module itself or a listed administrator.
pub open spec fn is_admin(db: DatabaseView, module_identity: Identity, who: Identity) -> bool {
    who == module_identity || db.lists_admin(who)
}

/// The predicate "is an account of the identity `caller`".
pub open spec fn owned_by(caller: Identity) -> spec_fn(AccountView) -> bool {
    |a: AccountView| a.identity == caller
}

/// The accounts that `caller` may see: its own, whether or not an account
/// is marked as administrator.
pub open spec fn visible_to(accounts: Seq<AccountView>, caller: Identity) -> Seq<AccountView> {
    accounts.filter(owned_by(caller))
}

/// The issuer of an identity provider at `base_url`.
pub fn issuer_url(base_url: &str) -> (issuer: String)
    ensures
        issuer@ == base_url@ + DJANGO_OAUTH_ISSUER_PATH@,
{
    let mut issuer = base_url.to_string();
    issuer.append(DJANGO_OAUTH_ISSUER_PATH);
    issuer
}

/// The identity of the account that `user` describes, under `issuer`.
pub fn resolve_identity(issuer: &str, user: &UserSyncData) -> (identity: Identity)
    ensures
        identity == account_identity(issuer@, user@),
{
    let supplied: Option<Identity> = match &user.identity_hex {
        Some(hex) => identity_from_hex(hex.as_str()),
        None => None,
    };
    match supplied {
        Some(identity) => identity,
        None => {
            let subject = u64_to_string(user.mitgliedsnr);
            identity_from_claims(issuer, subject.as_str())
        },
    }
}

/// Builds the row that an upsert writes for `user`, under the identity
/// `identity` and at the time `timestamp`.
pub fn new_synced_account(identity: Identity, user: &UserSyncData, timestamp: i64) -> (account:
    Account)
    ensures
        account@ == synced_account(identity, user@, timestamp),
{
    Account {
        id: user.mitgliedsnr,
        identity,
        name: match &user.name {
            Some(name) => name.clone(),
            None => String::new(),
        },
        email: match &user.email {
            Some(email) => email.clone(),
            None => String::new(),
        },
        is_active: match user.is_active {
            Some(active) => active,
            None => true,
        },
        is_admin: false,
        last_synced: timestamp,
    }
}

/// Writes `account` in place of whatever row carried its membership
/// number. Afterwards exactly one row carries that number, and it is
/// `account`.
pub fn upsert_account(db: &mut Database, account: Account)
    ensures
        final(db)@ == upsert_effect(old(db)@, account@),
        final(db)@.has_account(account.id),
        final(db)@.well_formed(),
{
    let ghost row = account@;
    db.delete_account(account.id);
    let ghost between = db@;
    let inserted = db.insert_account(account);
    proof {
        assert(inserted);
        let rows = between.accounts.push(row);
        assert(rows[rows.len() - 1].id == row.id);
    }
}

/// Applies one synchronisation event from the identity provider.
///
/// `upsert` replaces the account of the user's membership number by a row
/// with the fields given; `delete` removes it, and does nothing where there
/// is none; any other action is ignored.
pub fn sync_user(db: &mut Database, ctx: &Invocation, action: &str, user: &UserSyncData)
    ensures
        final(db)@ == sync_effect(
            old(db)@,
            action@,
            ctx.issuer_url@,
            user@,
            ctx.timestamp_seconds(),
        ),
{
    let timestamp = ctx.timestamp();
    proof {
        reveal_strlit("upsert");
        reveal_strlit("delete");
    }
    if same_text(action, "upsert") {
        let identity = resolve_identity(ctx.issuer_url.as_str(), user);
        let account = new_synced_account(identity, user, timestamp);
        upsert_account(db, account);
    } else if same_text(action, "delete") {
        db.delete_account(user.mitgliedsnr);
    }
}

/// Tells whether `who` may administer: whether it is the module itself or
/// a listed administrator.
pub fn is_admin_identity(db: &Database, ctx: &Invocation, who: Identity) -> (admin: bool)
    ensures
        admin == is_admin(db@, ctx.module_identity, who),
{
    if who == ctx.module_identity {
        return true;
    }
    db.lists_admin(who)
}

/// Tells whether the caller may administer.
pub fn is_admin_user(db: &Database, ctx: &Invocation) -> (admin: bool)
    ensures
        admin == is_admin(db@, ctx.module_identity, ctx.sender),
{
    is_admin_identity(db, ctx, ctx.sender)
}

/// The accounts that `caller` may see: those of its own identity, in the
/// order of the directory. That an account is marked as administrator gives
/// it no wider view.
pub fn visible_accounts<'a>(db: &'a Database, caller: Identity) -> (visible: Vec<&'a Account>)
    ensures
        visible.deep_view() == visible_to(db@.accounts, caller),
{
    let rows = db.accounts();
    let ghost all = rows.deep_view();
    let mut visible: Vec<&'a Account> = Vec::new();
    let mut i: usize = 0;
    proof {
        reveal(Seq::filter);
        assert(visible.deep_view() =~= all.take(0).filter(owned_by(caller)));
    }
    while i < rows.len()
        invariant
            i <= rows.len(),
            all == rows.deep_view(),
            visible.deep_view() == all.take(i as int).filter(owned_by(caller)),
        decreases rows.len() - i,
    {
        let ghost before = visible.deep_view();
        let ghost next = all.take(i + 1);
        proof {
            reveal(Seq::filter);
            assert(next.drop_last() =~= all.take(i as int));
            assert(next.last() == rows[i as int]@);
            assert(next.filter(owned_by(caller)) == if owned_by(caller)(next.last()) {
                next.drop_last().filter(owned_by(caller)).push(next.last())
            } else {
                next.drop_last().filter(owned_by(caller))
            });
        }
        if rows[i].identity == caller {
            visible.push(&rows[i]);
            proof {
                assert(visible.deep_view() =~= before.push(rows[i as int]@));
            }
        }
        i += 1;
    }
    proof {
        assert(all.take(rows.len() as int) =~= all);
    }
    visible
}

/// The account that `init` adds.
pub open spec fn init_account(module_identity: Identity, timestamp: i64) -> AccountView {
    AccountView {
        id: INIT_ACCOUNT_ID,
        identity: module_identity,
        name: "Init Test"@,
        email: "init@test.local"@,
        is_active: true,
        is_admin: true,
        last_synced: timestamp,
    }
}

/// The store with the module listed as administrator.
pub open spec fn seeded(db: DatabaseView, module_identity: Identity) -> DatabaseView {
    if db.lists_admin(module_identity) {
        db
    } else {
        db.with_admin(module_identity)
    }
}

/// The store after `init`, which is atomic: where the membership number of
/// its account is taken the whole call is undone.
pub open spec fn init_effect(db: DatabaseView, module_identity: Identity, timestamp: i64)
    -> DatabaseView {
    if db.has_account(INIT_ACCOUNT_ID) {
        db
    } else {
        seeded(db, module_identity).with_account(init_account(module_identity, timestamp))
    }
}

/// Prepares the store at its first run: lists the module as administrator
/// unless it is listed, and adds one account under the module's identity to
/// show that the store takes writes.
///
/// Returns `false`, with the store unchanged, where the membership number
/// of that account is already taken.
pub fn init(db: &mut Database, ctx: &Invocation) -> (done: bool)
    ensures
        done == !old(db)@.has_account(INIT_ACCOUNT_ID),
        final(db)@ == init_effect(old(db)@, ctx.module_identity, ctx.timestamp_seconds()),
        done ==> final(db)@.lists_admin(ctx.module_identity),
{
    if db.has_account(INIT_ACCOUNT_ID) {
        return false;
    }
    let ghost before = db@;
    db.insert_admin_identity(ctx.module_identity);
    proof {
        let listed = seeded(before, ctx.module_identity);
        if !before.lists_admin(ctx.module_identity) {
            assert(listed.admin_identities[listed.admin_identities.len() - 1]
                == ctx.module_identity);
        }
    }
    let account = Account {
        id: INIT_ACCOUNT_ID,
        identity: ctx.module_identity,
        name: "Init Test".to_string(),
        email: "init@test.local".to_string(),
        is_active: true,
        is_admin: true,
        last_synced: ctx.timestamp(),
    };
    db.insert_account(account);
    true
}

/// One of the two sample accounts.
pub open spec fn test_account(
    id: u64,
    name: Seq<char>,
    email: Seq<char>,
    module_identity: Identity,
    timestamp: i64,
) -> AccountView {
    AccountView {
        id,
        identity: module_identity,
        name,
        email,
        is_active: true,
        is_admin: false,
        last_synced: timestamp,
    }
}

/// The store after `add_test_accounts`, which is atomic: where either
/// membership number is taken the whole call is undone.
pub open spec fn test_accounts_effect(db: DatabaseView, module_identity: Identity, timestamp: i64)
    -> DatabaseView {
    if db.has_account(1) || db.has_account(2) {
        db
    } else {
        db.with_account(
            test_account(1, "Test User 1"@, "test1@example.com"@, module_identity, timestamp),
        ).with_account(
            test_account(2, "Test User 2"@, "test2@example.com"@, module_identity, timestamp),
        )
    }
}

/// Adds two sample accounts, numbered 1 and 2, under the module's identity.
///
/// Returns `false`, with the store unchanged, where either number is
/// already taken.
pub fn add_test_accounts(db: &mut Database, ctx: &Invocation) -> (done: bool)
    ensures
        done == !(old(db)@.has_account(1) || old(db)@.has_account(2)),
        final(db)@ == test_accounts_effect(
            old(db)@,
            ctx.module_identity,
            ctx.timestamp_seconds(),
        ),
{
    if db.has_account(1) || db.has_account(2) {
        return false;
    }
    let timestamp = ctx.timestamp();
    let ghost before = db@;
    let first = Account {
        id: 1,
        identity: ctx.module_identity,
        name: "Test User 1".to_string(),
        email: "test1@example.com".to_string(),
        is_active: true,
        is_admin: false,
        last_synced: timestamp,
    };
    db.insert_account(first);
    proof {
        assert forall|i: int| 0 <= i < db@.accounts.len() implies db@.accounts[i].id != 2 by {
            if i < before.accounts.len() {
                assert(db@.accounts[i] == before.accounts[i]);
            }
        }
    }
    let second = Account {
        id: 2,
        identity: ctx.module_identity,
        name: "Test User 2".to_string(),
        email: "test2@example.com".to_string(),
        is_active: true,
        is_admin: false,
        last_synced: timestamp,
    };
    db.insert_account(second);
    true
}

} // verus!

//! The durable store: seven tables and the key constraints that hold of
//! them at all times.
//!
//! Rows are kept in the order in which they were inserted. The two audit
//! logs, the categories and the subscriptions number their rows from one in
//! that order and never lose a row; accounts, blocked addresses and
//! administrators are keyed by a column whose values never repeat.
//!
//! The store checks keys, not callers: who may change what is decided by the
//! calls that are built on it.

use crate::identity::Identity;
use crate::tables::{
    Account, AccountView, AdminIdentity, BlockedIp, BlockedIpView, MessageCategory,
    MessageCategoryView, MtaConnectionLog, MtaConnectionLogView, MtaMessageLog,
    MtaMessageLogView, Subscription, SubscriptionView,
};
use crate::text::same_text;
use vstd::prelude::*;

verus! {

/// The contents of the store as mathematical sequences of rows.
pub struct DatabaseView {
    pub accounts: Seq<AccountView>,
    pub admin_identities: Seq<Identity>,
    pub connection_log: Seq<MtaConnectionLogView>,
    pub message_log: Seq<MtaMessageLogView>,
    pub blocked_ips: Seq<BlockedIpView>,
    pub message_categories: Seq<MessageCategoryView>,
    pub subscriptions: Seq<SubscriptionView>,
}

/// The predicate "is a row of another account than `id`".
pub open spec fn other_account(id: u64) -> spec_fn(AccountView) -> bool {
    |a: AccountView| a.id != id
}

/// No two accounts carry the same membership number.
pub open spec fn distinct_accounts(rows: Seq<AccountView>) -> bool {
    forall|i: int, j: int|
        #![trigger rows[i], rows[j]]
        0 <= i < j < rows.len() ==> rows[i].id != rows[j].id
}

/// No identity is listed twice.
pub open spec fn distinct_admins(rows: Seq<Identity>) -> bool {
    forall|i: int, j: int|
        #![trigger rows[i], rows[j]]
        0 <= i < j < rows.len() ==> rows[i] != rows[j]
}

/// No address has two entries.
pub open spec fn distinct_blocked_ips(rows: Seq<BlockedIpView>) -> bool {
    forall|i: int, j: int|
        #![trigger rows[i], rows[j]]
        0 <= i < j < rows.len() ==> rows[i].ip != rows[j].ip
}

/// Every entry carries its position in the log, counted from one.
pub open spec fn numbered_connection_log(rows: Seq<MtaConnectionLogView>) -> bool {
    forall|i: int| 0 <= i < rows.len() ==> (#[trigger] rows[i]).id == i + 1
}

/// Every entry carries its position in the log, counted from one.
pub open spec fn numbered_message_log(rows: Seq<MtaMessageLogView>) -> bool {
    forall|i: int| 0 <= i < rows.len() ==> (#[trigger] rows[i]).id == i + 1
}

/// Every category carries its position in the table, counted from one.
pub open spec fn numbered_categories(rows: Seq<MessageCategoryView>) -> bool {
    forall|i: int| 0 <= i < rows.len() ==> (#[trigger] rows[i]).id == i + 1
}

/// Every subscription carries its position in the table, counted from one.
pub open spec fn numbered_subscriptions(rows: Seq<SubscriptionView>) -> bool {
    forall|i: int| 0 <= i < rows.len() ==> (#[trigger] rows[i]).id == i + 1
}

impl DatabaseView {
    /// A store with no rows.
    pub open spec fn empty() -> DatabaseView {
        DatabaseView {
            accounts: Seq::empty(),
            admin_identities: Seq::empty(),
            connection_log: Seq::empty(),
            message_log: Seq::empty(),
            blocked_ips: Seq::empty(),
            message_categories: Seq::empty(),
            subscriptions: Seq::empty(),
        }
    }

    /// Some account carries the membership number `id`.
    pub open spec fn has_account(self, id: u64) -> bool {
        exists|i: int| 0 <= i < self.accounts.len() && self.accounts[i].id == id
    }

    /// `who` is listed among the administrators.
    pub open spec fn lists_admin(self, who: Identity) -> bool {
        exists|i: int| 0 <= i < self.admin_identities.len() && self.admin_identities[i] == who
    }

    /// Some entry of the blocklist, active or not, is for the address `ip`.
    pub open spec fn has_blocked_ip(self, ip: Seq<char>) -> bool {
        exists|i: int| 0 <= i < self.blocked_ips.len() && self.blocked_ips[i].ip == ip
    }

    /// The key constraints: membership numbers, administrator identities and
    /// blocked addresses never repeat, and the rows of the numbered tables
    /// carry their position, counted from one.
    pub open spec fn well_formed(self) -> bool {
        &&& distinct_accounts(self.accounts)
        &&& distinct_admins(self.admin_identities)
        &&& distinct_blocked_ips(self.blocked_ips)
        &&& numbered_connection_log(self.connection_log)
        &&& numbered_message_log(self.message_log)
        &&& numbered_categories(self.message_categories)
        &&& numbered_subscriptions(self.subscriptions)
    }

    /// The store after `entry` was appended to the connection log under the
    /// next number of that log.
    pub open spec fn with_connection_log(self, entry: MtaConnectionLogView) -> DatabaseView {
        DatabaseView {
            connection_log: self.connection_log.push(
                MtaConnectionLogView { id: (self.connection_log.len() + 1) as u64, ..entry },
            ),
            ..self
        }
    }

    /// The store after `entry` was appended to the message log under the
    /// next number of that log.
    pub open spec fn with_message_log(self, entry: MtaMessageLogView) -> DatabaseView {
        DatabaseView {
            message_log: self.message_log.push(
                MtaMessageLogView { id: (self.message_log.len() + 1) as u64, ..entry },
            ),
            ..self
        }
    }

    /// The store after `category` was appended under the next category
    /// number.
    pub open spec fn with_message_category(self, category: MessageCategoryView) -> DatabaseView {
        DatabaseView {
            message_categories: self.message_categories.push(
                MessageCategoryView {
                    id: (self.message_categories.len() + 1) as u64,
                    ..category
                },
            ),
            ..self
        }
    }

    /// The store after `subscription` was appended under the next
    /// subscription number.
    pub open spec fn with_subscription(self, subscription: SubscriptionView) -> DatabaseView {
        DatabaseView {
            subscriptions: self.subscriptions.push(
                SubscriptionView { id: (self.subscriptions.len() + 1) as u64, ..subscription },
            ),
            ..self
        }
    }

    /// The store after `account` was appended to the directory.
    pub open spec fn with_account(self, account: AccountView) -> DatabaseView {
        DatabaseView { accounts: self.accounts.push(account), ..self }
    }

    /// The store without the account of membership number `id`.
    pub open spec fn without_account(self, id: u64) -> DatabaseView {
        DatabaseView { accounts: self.accounts.filter(other_account(id)), ..self }
    }

    /// The store after `who` was appended to the administrators.
    pub open spec fn with_admin(self, who: Identity) -> DatabaseView {
        DatabaseView { admin_identities: self.admin_identities.push(who), ..self }
    }

    /// The store after `entry` was appended to the blocklist.
    pub open spec fn with_blocked_ip(self, entry: BlockedIpView) -> DatabaseView {
        DatabaseView { blocked_ips: self.blocked_ips.push(entry), ..self }
    }
}

/// The store. Its fields are private, so that every store in existence
/// satisfies the key constraints.
pub struct Database {
    accounts: Vec<Account>,
    admin_identities: Vec<AdminIdentity>,
    mta_connection_log: Vec<MtaConnectionLog>,
    mta_message_log: Vec<MtaMessageLog>,
    blocked_ips: Vec<BlockedIp>,
    message_categories: Vec<MessageCategory>,
    subscriptions: Vec<Subscription>,
}

impl View for Database {
    type V = DatabaseView;

    closed spec fn view(&self) -> DatabaseView {
        DatabaseView {
            accounts: self.accounts.deep_view(),
            admin_identities: self.admin_identities.deep_view(),
            connection_log: self.mta_connection_log.deep_view(),
            message_log: self.mta_message_log.deep_view(),
            blocked_ips: self.blocked_ips.deep_view(),
            message_categories: self.message_categories.deep_view(),
            subscriptions: self.subscriptions.deep_view(),
        }
    }
}

impl Database {
    #[verifier::type_invariant]
    spec fn constraints(self) -> bool {
        self@.well_formed()
    }

    /// An empty store.
    pub fn new() -> (db: Database)
        ensures
            db@ == DatabaseView::empty(),
            db@.well_formed(),
    {
        let db = Database {
            accounts: Vec::new(),
            admin_identities: Vec::new(),
            mta_connection_log: Vec::new(),
            mta_message_log: Vec::new(),
            blocked_ips: Vec::new(),
            message_categories: Vec::new(),
            subscriptions: Vec::new(),
        };
        proof {
            assert(db.accounts.deep_view() =~= Seq::empty());
            assert(db.admin_identities.deep_view() =~= Seq::empty());
            assert(db.mta_connection_log.deep_view() =~= Seq::empty());
            assert(db.mta_message_log.deep_view() =~= Seq::empty());
            assert(db.blocked_ips.deep_view() =~= Seq::empty());
            assert(db.message_categories.deep_view() =~= Seq::empty());
            assert(db.subscriptions.deep_view() =~= Seq::empty());
        }
        db
    }

    /// The accounts, in the order of their last synchronisation.
    pub fn accounts(&self) -> (rows: &Vec<Account>)
        ensures
            rows.deep_view() == self@.accounts,
            self@.well_formed(),
    {
        proof {
            use_type_invariant(self);
        }
        &self.accounts
    }

    /// The administrators, in the order in which they were granted.
    pub fn admin_identities(&self) -> (rows: &Vec<AdminIdentity>)
        ensures
            rows.deep_view() == self@.admin_identities,
            self@.well_formed(),
    {
        proof {
            use_type_invariant(self);
        }
        &self.admin_identities
    }

    /// The connection log, oldest entry first.
    pub fn mta_connection_log(&self) -> (rows: &Vec<MtaConnectionLog>)
        ensures
            rows.deep_view() == self@.connection_log,
            self@.well_formed(),
    {
        proof {
            use_type_invariant(self);
        }
        &self.mta_connection_log
    }

    /// The message log, oldest entry first.
    pub fn mta_message_log(&self) -> (rows: &Vec<MtaMessageLog>)
        ensures
            rows.deep_view() == self@.message_log,
            self@.well_formed(),
    {
        proof {
            use_type_invariant(self);
        }
        &self.mta_message_log
    }

    /// The blocklist, in the order of insertion.
    pub fn blocked_ips(&self) -> (rows: &Vec<BlockedIp>)
        ensures
            rows.deep_view() == self@.blocked_ips,
            self@.well_formed(),
    {
        proof {
            use_type_invariant(self);
        }
        &self.blocked_ips
    }

    /// The categories, in the order of their numbers.
    pub fn message_categories(&self) -> (rows: &Vec<MessageCategory>)
        ensures
            rows.deep_view() == self@.message_categories,
            self@.well_formed(),
    {
        proof {
            use_type_invariant(self);
        }
        &self.message_categories
    }

    /// The subscriptions, in the order of their numbers.
    pub fn subscriptions(&self) -> (rows: &Vec<Subscription>)
        ensures
            rows.deep_view() == self@.subscriptions,
            self@.well_formed(),
    {
        proof {
            use_type_invariant(self);
        }
        &self.subscriptions
    }

    /// Appends `entry` to the connection log. The log numbers its entries
    /// itself: whatever `entry.id` holds is replaced by the next number,
    /// which is returned.
    pub fn insert_connection_log(&mut self, entry: MtaConnectionLog) -> (id: u64)
        ensures
            id == old(self)@.connection_log.len() + 1,
            final(self)@ == old(self)@.with_connection_log(entry@),
            final(self)@.well_formed(),
    {
        proof {
            use_type_invariant(&*self);
        }
        let mut rows: Vec<MtaConnectionLog> = Vec::new();
        proof {
            assert(rows.deep_view() =~= Seq::empty());
        }
        std::mem::swap(&mut rows, &mut self.mta_connection_log);
        let ghost before = rows.deep_view();
        rows.push(entry);
        // The number is the entry's position, counted from one. It is written
        // once the entry is in place, when the new length is known to fit.
        let n: usize = rows.len();
        let last = &mut rows[n - 1];
        last.id = n as u64;
        proof {
            assert(rows.deep_view() =~= before.push(
                MtaConnectionLogView { id: n as u64, ..entry@ },
            ));
        }
        self.mta_connection_log = rows;
        n as u64
    }

    /// Appends `entry` to the message log under the next number of that log,
    /// which is returned; `entry.id` is replaced by it.
    pub fn insert_message_log(&mut self, entry: MtaMessageLog) -> (id: u64)
        ensures
            id == old(self)@.message_log.len() + 1,
            final(self)@ == old(self)@.with_message_log(entry@),
            final(self)@.well_formed(),
    {
        proof {
            use_type_invariant(&*self);
        }
        let mut rows: Vec<MtaMessageLog> = Vec::new();
        proof {
            assert(rows.deep_view() =~= Seq::empty());
        }
        std::mem::swap(&mut rows, &mut self.mta_message_log);
        let ghost before = rows.deep_view();
        rows.push(entry);
        let n: usize = rows.len();
        let last = &mut rows[n - 1];
        last.id = n as u64;
        proof {
            assert(rows.deep_view() =~= before.push(MtaMessageLogView { id: n as u64, ..entry@ }));
        }
        self.mta_message_log = rows;
        n as u64
    }

    /// Appends `category` under the next category number, which is
    /// returned; `category.id` is replaced by it.
    pub fn insert_message_category(&mut self, category: MessageCategory) -> (id: u64)
        ensures
            id == old(self)@.message_categories.len() + 1,
            final(self)@ == old(self)@.with_message_category(category@),
            final(self)@.well_formed(),
    {
        proof {
            use_type_invariant(&*self);
        }
        let mut rows: Vec<MessageCategory> = Vec::new();
        proof {
            assert(rows.deep_view() =~= Seq::empty());
        }
        std::mem::swap(&mut rows, &mut self.message_categories);
        let ghost before = rows.deep_view();
        rows.push(category);
        let n: usize = rows.len();
        let last = &mut rows[n - 1];
        last.id = n as u64;
        proof {
            assert(rows.deep_view() =~= before.push(
                MessageCategoryView { id: n as u64, ..category@ },
            ));
        }
        self.message_categories = rows;
        n as u64
    }

    /// Appends `subscription` under the next subscription number, which is
    /// returned; `subscription.id` is replaced by it.
    pub fn insert_subscription(&mut self, subscription: Subscription) -> (id: u64)
        ensures
            id == old(self)@.subscriptions.len() + 1,
            final(self)@ == old(self)@.with_subscription(subscription@),
            final(self)@.well_formed(),
    {
        proof {
            use_type_invariant(&*self);
        }
        let mut rows: Vec<Subscription> = Vec::new();
        proof {
            assert(rows.deep_view() =~= Seq::empty());
        }
        std::mem::swap(&mut rows, &mut self.subscriptions);
        let ghost before = rows.deep_view();
        rows.push(subscription);
        let n: usize = rows.len();
        let last = &mut rows[n - 1];
        last.id = n as u64;
        proof {
            assert(rows.deep_view() =~= before.push(
                SubscriptionView { id: n as u64, ..subscription@ },
            ));
        }
        self.subscriptions = rows;
        n as u64
    }

    /// Tells whether an account carries the membership number `id`.
    pub fn has_account(&self, id: u64) -> (found: bool)
        ensures
            found == self@.has_account(id),
    {
        let mut i: usize = 0;
        while i < self.accounts.len()
            invariant
                i <= self.accounts.len(),
                forall|k: int| 0 <= k < i ==> self@.accounts[k].id != id,
            decreases self.accounts.len() - i,
        {
            if self.accounts[i].id == id {
                assert(self@.accounts[i as int].id == id);
                return true;
            }
            i += 1;
        }
        false
    }

    /// Adds `account` to the directory unless its membership number is
    /// taken, and tells whether it was added.
    pub fn insert_account(&mut self, account: Account) -> (inserted: bool)
        ensures
            inserted == !old(self)@.has_account(account.id),
            inserted ==> final(self)@ == old(self)@.with_account(account@),
            !inserted ==> final(self)@ == old(self)@,
            final(self)@.well_formed(),
    {
        proof {
            use_type_invariant(&*self);
        }
        if self.has_account(account.id) {
            return false;
        }
        let mut rows: Vec<Account> = Vec::new();
        proof {
            assert(rows.deep_view() =~= Seq::empty());
        }
        std::mem::swap(&mut rows, &mut self.accounts);
        let ghost before = rows.deep_view();
        rows.push(account);
        proof {
            assert(rows.deep_view() =~= before.push(account@));
        }
        self.accounts = rows;
        true
    }

    /// Removes the account of membership number `id`, and tells whether
    /// there was one.
    pub fn delete_account(&mut self, id: u64) -> (deleted: bool)
        ensures
            deleted == old(self)@.has_account(id),
            final(self)@ == old(self)@.without_account(id),
            !final(self)@.has_account(id),
            final(self)@.well_formed(),
    {
        proof {
            use_type_invariant(&*self);
        }
        let mut rows: Vec<Account> = Vec::new();
        proof {
            assert(rows.deep_view() =~= Seq::empty());
        }
        std::mem::swap(&mut rows, &mut self.accounts);
        let ghost all = rows.deep_view();
        let mut kept: Vec<Account> = Vec::new();
        let mut deleted: bool = false;
        proof {
            reveal(Seq::filter);
            assert(kept.deep_view() =~= all.take(0).filter(other_account(id)));
        }
        for row in it: rows
            invariant
                it.seq().len() == all.len(),
                forall|i: int| 0 <= i < all.len() ==> (#[trigger] it.seq()[i])@ == all[i],
                kept.deep_view() == all.take(it.index() as int).filter(other_account(id)),
                deleted <==> exists|i: int| 0 <= i < it.index() && all[i].id == id,
                forall|k: int|
                    0 <= k < kept.len() ==> (#[trigger] kept[k]).id != id && exists|i: int|
                        0 <= i < it.index() && all[i].id == kept[k].id,
                forall|k: int, l: int|
                    #![trigger kept[k], kept[l]]
                    0 <= k < l < kept.len() ==> kept[k].id != kept[l].id,
                forall|i: int, j: int|
                    #![trigger all[i], all[j]]
                    0 <= i < j < all.len() ==> all[i].id != all[j].id,
        {
            let ghost prefix = all.take(it.index() as int);
            let ghost next = all.take(it.index() + 1);
            let ghost before = kept.deep_view();
            let ghost current = row@;
            proof {
                reveal(Seq::filter);
                assert(next.drop_last() =~= prefix);
                assert(next.last() == current);
                assert(all[it.index() as int] == current);
                assert(next.filter(other_account(id)) == if other_account(id)(next.last()) {
                    next.drop_last().filter(other_account(id)).push(next.last())
                } else {
                    next.drop_last().filter(other_account(id))
                });
            }
            if row.id != id {
                kept.push(row);
                proof {
                    assert(kept.deep_view() =~= before.push(current));
                }
            } else {
                deleted = true;
            }
        }
        proof {
            assert(all.take(all.len() as int) =~= all);
            assert forall|k: int| 0 <= k < kept.deep_view().len() implies kept.deep_view()[k].id
                != id by {
                assert(kept.deep_view()[k] == kept[k]@);
            }
            assert forall|k: int, l: int|
                #![trigger kept.deep_view()[k], kept.deep_view()[l]]
                0 <= k < l < kept.deep_view().len() implies kept.deep_view()[k].id
                != kept.deep_view()[l].id by {
                assert(kept.deep_view()[k] == kept[k]@);
                assert(kept.deep_view()[l] == kept[l]@);
            }
        }
        self.accounts = kept;
        deleted
    }

    /// Tells whether `who` is listed among the administrators.
    pub fn lists_admin(&self, who: Identity) -> (found: bool)
        ensures
            found == self@.lists_admin(who),
    {
        let mut i: usize = 0;
        while i < self.admin_identities.len()
            invariant
                i <= self.admin_identities.len(),
                forall|k: int| 0 <= k < i ==> self@.admin_identities[k] != who,
            decreases self.admin_identities.len() - i,
        {
            if self.admin_identities[i].identity == who {
                assert(self@.admin_identities[i as int] == who);
                return true;
            }
            i += 1;
        }
        false
    }

    /// Lists `who` among the administrators unless already listed, and
    /// tells whether it was added.
    pub fn insert_admin_identity(&mut self, who: Identity) -> (inserted: bool)
        ensures
            inserted == !old(self)@.lists_admin(who),
            inserted ==> final(self)@ == old(self)@.with_admin(who),
            !inserted ==> final(self)@ == old(self)@,
            final(self)@.well_formed(),
    {
        proof {
            use_type_invariant(&*self);
        }
        if self.lists_admin(who) {
            return false;
        }
        let mut rows: Vec<AdminIdentity> = Vec::new();
        proof {
            assert(rows.deep_view() =~= Seq::empty());
        }
        std::mem::swap(&mut rows, &mut self.admin_identities);
        let ghost before = rows.deep_view();
        rows.push(AdminIdentity { identity: who });
        proof {
            assert(rows.deep_view() =~= before.push(who));
        }
        self.admin_identities = rows;
        true
    }

    /// Tells whether the blocklist has an entry, active or not, for `ip`.
    pub fn has_blocked_ip(&self, ip: &str) -> (found: bool)
        ensures
            found == self@.has_blocked_ip(ip@),
    {
        let mut i: usize = 0;
        while i < self.blocked_ips.len()
            invariant
                i <= self.blocked_ips.len(),
                forall|k: int| 0 <= k < i ==> self@.blocked_ips[k].ip != ip@,
            decreases self.blocked_ips.len() - i,
        {
            if same_text(self.blocked_ips[i].ip.as_str(), ip) {
                assert(self@.blocked_ips[i as int].ip == ip@);
                return true;
            }
            i += 1;
        }
        false
    }

    /// Adds `entry` to the blocklist unless its address already has an
    /// entry, and tells whether it was added.
    pub fn insert_blocked_ip(&mut self, entry: BlockedIp) -> (inserted: bool)
        ensures
            inserted == !old(self)@.has_blocked_ip(entry.ip@),
            inserted ==> final(self)@ == old(self)@.with_blocked_ip(entry@),
            !inserted ==> final(self)@ == old(self)@,
            final(self)@.well_formed(),
    {
        proof {
            use_type_invariant(&*self);
        }
        if self.has_blocked_ip(entry.ip.as_str()) {
            return false;
        }
        let mut rows: Vec<BlockedIp> = Vec::new();
        proof {
            assert(rows.deep_view() =~= Seq::empty());
        }
        std::mem::swap(&mut rows, &mut self.blocked_ips);
        let ghost before = rows.deep_view();
        rows.push(entry);
        proof {
            assert(rows.deep_view() =~= before.push(entry@));
        }
        self.blocked_ips = rows;
        true
    }
}

} // verus!

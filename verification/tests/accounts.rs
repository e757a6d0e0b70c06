use kommunikationszentrum::accounts::{
    issuer_url, new_synced_account, resolve_identity, upsert_account, DJANGO_OAUTH_BASE_URL,
    INIT_ACCOUNT_ID,
};
use kommunikationszentrum::{
    add_test_accounts, init, is_admin_identity, is_admin_user, sync_user, visible_accounts,
    Account, Database, Identity, Invocation, MtaHookHandler, UserSyncData, UserSyncPayload,
};

const MODULE: Identity = Identity { hi: 7, lo: 11 };
const ISSUER: &str = "http://127.0.0.1:8000/o";

fn ctx(seconds: i64) -> Invocation {
    Invocation {
        sender: MODULE,
        module_identity: MODULE,
        timestamp_micros: seconds * 1_000_000,
        issuer_url: ISSUER.to_string(),
    }
}

fn user(id: u64) -> UserSyncData {
    UserSyncData {
        mitgliedsnr: id,
        name: None,
        email: None,
        is_active: None,
        updated_at: None,
        identity_hex: None,
    }
}

/// The identity that the outside crate derives, in the library's form.
fn claims(issuer: &str, subject: &str) -> Identity {
    let (hi, lo) = spacetimedb::Identity::from_claims(issuer, subject).to_u256().into_words();
    Identity { hi, lo }
}

fn account(id: u64, identity: Identity, name: &str, is_admin: bool) -> Account {
    Account {
        id,
        identity,
        name: name.to_string(),
        email: format!("{}@example.org", name),
        is_active: true,
        is_admin,
        last_synced: 1,
    }
}

#[test]
fn second_upsert_replaces_the_first() {
    let mut db = Database::new();
    let mut first = user(42);
    first.name = Some("Old".to_string());
    first.email = Some("old@example.org".to_string());
    first.is_active = Some(false);
    sync_user(&mut db, &ctx(100), "upsert", &first);
    let mut second = user(42);
    second.name = Some("New".to_string());
    sync_user(&mut db, &ctx(200), "upsert", &second);

    let rows: Vec<&Account> = db.accounts().iter().filter(|a| a.id == 42).collect();
    assert_eq!(rows.len(), 1);
    assert_eq!(db.accounts().len(), 1);
    assert_eq!(rows[0].name, "New");
    assert_eq!(rows[0].email, "");
    assert!(rows[0].is_active);
    assert!(!rows[0].is_admin);
    assert_eq!(rows[0].last_synced, 200);
    assert_eq!(rows[0].identity, claims(ISSUER, "42"));
}

#[test]
fn upsert_with_identical_payload_is_idempotent() {
    let mut db = Database::new();
    sync_user(&mut db, &ctx(50), "upsert", &user(7));
    let mut payload = user(42);
    payload.name = Some("Ada".to_string());
    payload.email = Some("ada@example.org".to_string());
    sync_user(&mut db, &ctx(100), "upsert", &payload);
    let once = db.accounts().clone();
    sync_user(&mut db, &ctx(100), "upsert", &payload);
    assert_eq!(db.accounts(), &once);
    assert_eq!(db.accounts().iter().filter(|a| a.id == 42).count(), 1);
    assert_eq!(db.accounts().len(), 2);

    sync_user(&mut db, &ctx(300), "upsert", &payload);
    assert_eq!(db.accounts().iter().filter(|a| a.id == 42).count(), 1);
    let row = db.accounts().iter().find(|a| a.id == 42).unwrap();
    assert_eq!(row.last_synced, 300);
    assert_eq!(row.name, "Ada");
    assert_eq!(row.email, "ada@example.org");
}

#[test]
fn upsert_fills_missing_fields_with_defaults() {
    let mut db = Database::new();
    sync_user(&mut db, &ctx(100), "upsert", &user(5));
    assert_eq!(
        db.accounts()[0],
        Account {
            id: 5,
            identity: claims(ISSUER, "5"),
            name: String::new(),
            email: String::new(),
            is_active: true,
            is_admin: false,
            last_synced: 100,
        }
    );
}

#[test]
fn upsert_keeps_the_fields_given() {
    let mut db = Database::new();
    let mut payload = user(18446744073709551615);
    payload.name = Some("Grace".to_string());
    payload.email = Some("grace@example.org".to_string());
    payload.is_active = Some(false);
    payload.updated_at = Some("2024-01-01T00:00:00Z".to_string());
    sync_user(&mut db, &ctx(100), "upsert", &payload);
    let row = &db.accounts()[0];
    assert_eq!(row.id, 18446744073709551615);
    assert_eq!(row.name, "Grace");
    assert_eq!(row.email, "grace@example.org");
    assert!(!row.is_active);
    assert_eq!(row.identity, claims(ISSUER, "18446744073709551615"));
}

#[test]
fn derived_identity_depends_on_issuer_and_number() {
    let a = resolve_identity(ISSUER, &user(42));
    assert_eq!(a, claims(ISSUER, "42"));
    assert_eq!(a, resolve_identity(ISSUER, &user(42)));
    assert_ne!(a, resolve_identity(ISSUER, &user(43)));
    assert_ne!(a, resolve_identity("https://id.example.org/o", &user(42)));
    // An identity derived from claims starts with the bytes c2 00.
    assert_eq!(a.hi >> 112, 0xc200);
}

#[test]
fn supplied_identity_overrides_the_derived_one() {
    let mut payload = user(42);
    let hex = "c200000000000000000000000000000000000000000000000000000000000abc";
    payload.identity_hex = Some(hex.to_string());
    let expected = Identity { hi: 0xc200_0000_0000_0000_0000_0000_0000_0000, lo: 0xabc };
    assert_eq!(resolve_identity(ISSUER, &payload), expected);
    payload.identity_hex = Some(format!("0x{}", hex));
    assert_eq!(resolve_identity(ISSUER, &payload), expected);

    let mut db = Database::new();
    sync_user(&mut db, &ctx(1), "upsert", &payload);
    assert_eq!(db.accounts()[0].identity, expected);
}

#[test]
fn supplied_identity_that_cannot_be_read_falls_back_to_the_derived_one() {
    for text in ["", "xyz", "c200", "0x"] {
        let mut payload = user(42);
        payload.identity_hex = Some(text.to_string());
        assert_eq!(resolve_identity(ISSUER, &payload), claims(ISSUER, "42"));
    }
}

#[test]
fn delete_removes_the_account() {
    let mut db = Database::new();
    sync_user(&mut db, &ctx(1), "upsert", &user(1));
    sync_user(&mut db, &ctx(1), "upsert", &user(2));
    sync_user(&mut db, &ctx(1), "upsert", &user(3));
    sync_user(&mut db, &ctx(2), "delete", &user(2));
    let ids: Vec<u64> = db.accounts().iter().map(|a| a.id).collect();
    assert_eq!(ids, vec![1, 3]);
}

#[test]
fn delete_of_an_unknown_account_changes_nothing() {
    let mut db = Database::new();
    sync_user(&mut db, &ctx(1), "upsert", &user(1));
    let before = db.accounts().clone();
    sync_user(&mut db, &ctx(2), "delete", &user(99));
    assert_eq!(db.accounts(), &before);
    let mut empty = Database::new();
    sync_user(&mut empty, &ctx(2), "delete", &user(99));
    assert!(empty.accounts().is_empty());
}

#[test]
fn unknown_action_changes_nothing() {
    let mut db = Database::new();
    sync_user(&mut db, &ctx(1), "upsert", &user(1));
    let before = db.accounts().clone();
    for action in ["", "Upsert", "DELETE", "insert", "upsert "] {
        sync_user(&mut db, &ctx(2), action, &user(1));
        sync_user(&mut db, &ctx(2), action, &user(2));
    }
    assert_eq!(db.accounts(), &before);
}

#[test]
fn upsert_moves_the_account_to_the_end_and_keeps_the_others() {
    let mut db = Database::new();
    for id in [1, 2, 3] {
        sync_user(&mut db, &ctx(1), "upsert", &user(id));
    }
    sync_user(&mut db, &ctx(2), "upsert", &user(1));
    let ids: Vec<u64> = db.accounts().iter().map(|a| a.id).collect();
    assert_eq!(ids, vec![2, 3, 1]);
}

#[test]
fn upsert_account_leaves_exactly_one_row_of_that_number() {
    let mut db = Database::new();
    upsert_account(&mut db, account(9, MODULE, "a", false));
    upsert_account(&mut db, account(9, MODULE, "b", true));
    assert_eq!(db.accounts().len(), 1);
    assert_eq!(db.accounts()[0].name, "b");
    assert!(db.has_account(9));
    assert!(!db.has_account(10));
    assert!(!db.insert_account(account(9, MODULE, "c", false)));
    assert_eq!(db.accounts()[0].name, "b");
    assert!(db.delete_account(9));
    assert!(!db.delete_account(9));
}

#[test]
fn new_synced_account_copies_the_payload() {
    let mut payload = user(3);
    payload.name = Some("N".to_string());
    let row = new_synced_account(MODULE, &payload, -4);
    assert_eq!(row.id, 3);
    assert_eq!(row.identity, MODULE);
    assert_eq!(row.name, "N");
    assert_eq!(row.last_synced, -4);
}

#[test]
fn issuer_lies_at_o_below_the_base_address() {
    assert_eq!(issuer_url(DJANGO_OAUTH_BASE_URL), "http://127.0.0.1:8000/o");
    assert_eq!(issuer_url("https://id.example.org"), "https://id.example.org/o");
}

#[test]
fn timestamp_is_in_whole_seconds_rounded_toward_zero() {
    let mut c = ctx(0);
    for (micros, seconds) in [
        (0i64, 0i64),
        (999_999, 0),
        (1_000_000, 1),
        (1_999_999, 1),
        (-1, 0),
        (-999_999, 0),
        (-1_000_000, -1),
        (-1_999_999, -1),
        (i64::MAX, 9_223_372_036_854),
        (i64::MIN, -9_223_372_036_854),
    ] {
        c.timestamp_micros = micros;
        assert_eq!(c.timestamp(), seconds);
    }
}

#[test]
fn a_caller_sees_only_its_own_accounts() {
    let alice = Identity { hi: 1, lo: 1 };
    let bob = Identity { hi: 1, lo: 2 };
    let mut db = Database::new();
    db.insert_account(account(1, alice, "alice", false));
    db.insert_account(account(2, bob, "bob", true));
    db.insert_account(account(3, alice, "alice2", false));
    let seen: Vec<u64> = visible_accounts(&db, alice).iter().map(|a| a.id).collect();
    assert_eq!(seen, vec![1, 3]);
    // The administrator mark gives no wider view.
    let seen: Vec<u64> = visible_accounts(&db, bob).iter().map(|a| a.id).collect();
    assert_eq!(seen, vec![2]);
    assert!(visible_accounts(&db, MODULE).is_empty());
    assert!(visible_accounts(&Database::new(), alice).is_empty());
}

#[test]
fn the_module_and_listed_identities_are_administrators() {
    let other = Identity { hi: 0, lo: 99 };
    let mut db = Database::new();
    let c = ctx(1);
    assert!(is_admin_identity(&db, &c, MODULE));
    assert!(!is_admin_identity(&db, &c, other));
    assert!(db.insert_admin_identity(other));
    assert!(!db.insert_admin_identity(other));
    assert!(is_admin_identity(&db, &c, other));
    assert!(is_admin_user(&db, &c));
    let mut stranger = ctx(1);
    stranger.sender = Identity { hi: 5, lo: 5 };
    assert!(!is_admin_user(&db, &stranger));
    stranger.sender = other;
    assert!(is_admin_user(&db, &stranger));
    // An account marked as administrator is not thereby listed.
    db.insert_account(account(1, Identity { hi: 5, lo: 5 }, "marked", true));
    stranger.sender = Identity { hi: 5, lo: 5 };
    assert!(!is_admin_user(&db, &stranger));
}

#[test]
fn init_lists_the_module_once_and_adds_its_account() {
    let mut db = Database::new();
    assert!(init(&mut db, &ctx(77)));
    assert_eq!(db.admin_identities().len(), 1);
    assert_eq!(db.admin_identities()[0].identity, MODULE);
    assert_eq!(
        db.accounts()[0],
        Account {
            id: INIT_ACCOUNT_ID,
            identity: MODULE,
            name: "Init Test".to_string(),
            email: "init@test.local".to_string(),
            is_active: true,
            is_admin: true,
            last_synced: 77,
        }
    );
    assert_eq!(INIT_ACCOUNT_ID, 999999);
    // A second run is undone as a whole.
    assert!(!init(&mut db, &ctx(78)));
    assert_eq!(db.admin_identities().len(), 1);
    assert_eq!(db.accounts().len(), 1);
    assert_eq!(db.accounts()[0].last_synced, 77);
}

#[test]
fn init_does_not_list_the_module_twice() {
    let mut db = Database::new();
    db.insert_admin_identity(MODULE);
    assert!(init(&mut db, &ctx(77)));
    assert_eq!(db.admin_identities().len(), 1);
    assert_eq!(db.accounts().len(), 1);
}

#[test]
fn add_test_accounts_adds_two_rows_or_none() {
    let mut db = Database::new();
    assert!(add_test_accounts(&mut db, &ctx(9)));
    assert_eq!(db.accounts().len(), 2);
    assert_eq!(db.accounts()[0].id, 1);
    assert_eq!(db.accounts()[0].name, "Test User 1");
    assert_eq!(db.accounts()[0].email, "test1@example.com");
    assert_eq!(db.accounts()[1].id, 2);
    assert_eq!(db.accounts()[1].name, "Test User 2");
    assert_eq!(db.accounts()[1].email, "test2@example.com");
    assert_eq!(db.accounts()[1].identity, MODULE);
    assert!(!db.accounts()[1].is_admin);
    assert_eq!(db.accounts()[1].last_synced, 9);
    assert!(!add_test_accounts(&mut db, &ctx(10)));
    assert_eq!(db.accounts().len(), 2);

    let mut db = Database::new();
    sync_user(&mut db, &ctx(1), "upsert", &user(2));
    assert!(!add_test_accounts(&mut db, &ctx(10)));
    assert_eq!(db.accounts().len(), 1);
}

#[test]
fn handler_applies_sync_payloads() {
    let mut handler = MtaHookHandler::new(Database::new());
    let mut data = user(42);
    data.name = Some("Ada".to_string());
    let payload = UserSyncPayload { action: "upsert".to_string(), user: data };
    handler.user_sync(&ctx(5), &payload);
    handler.user_sync(&ctx(6), &payload);
    assert_eq!(handler.database().accounts().len(), 1);
    assert_eq!(handler.database().accounts()[0].last_synced, 6);
    let payload = UserSyncPayload { action: "delete".to_string(), user: user(42) };
    handler.user_sync(&ctx(7), &payload);
    assert!(handler.database().accounts().is_empty());
}

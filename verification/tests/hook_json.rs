use kommunikationszentrum::{
    add_message_category, add_subscription, block_ip, handle_mta_hook, Database, Decision,
    Identity, Invocation, Modification, MtaHookHandler,
};

const MODULE: Identity = Identity { hi: 7, lo: 11 };

fn ctx(seconds: i64) -> Invocation {
    Invocation {
        sender: MODULE,
        module_identity: MODULE,
        timestamp_micros: seconds * 1_000_000 + 250,
        issuer_url: "http://127.0.0.1:8000/o".to_string(),
    }
}

/// A request of the wire format with the given stage, client and tail.
fn request(stage: &str, ip: &str, helo: &str, tail: &str) -> String {
    format!(
        "{{\"context\":{{\"stage\":\"{}\",\"client\":{{\"ip\":\"{}\",\"port\":34567,\
         \"ptr\":null,\"helo\":{},\"activeConnections\":1}},\"server\":{{\"name\":\"mx\",\
         \"port\":25,\"ip\":\"192.0.2.2\"}},\"queue\":{{\"id\":\"q-17\"}},\
         \"protocol\":{{\"version\":1}}}}{}}}",
        stage, ip, helo, tail
    )
}

const ENVELOPE: &str = ",\"envelope\":{\"from\":{\"address\":\"member@x.org\"},\
    \"to\":[{\"address\":\"news@example.org\",\"parameters\":null},\
    {\"address\":\"nobody@example.org\"}]}";

const MESSAGE: &str = ",\"message\":{\"headers\":[[\"From\",\"Member <member@x.org>\"],\
    [\"SUBJECT\",\" Hello, World! \"]],\"contents\":\"Hello\\r\\n\",\"size\":12345}";

fn accept() -> Decision {
    Decision::Accept { modifications: Vec::new() }
}

#[test]
fn connect_request_is_read_from_json_and_evaluated() {
    let mut db = Database::new();
    block_ip(&mut db, &ctx(1), "10.0.0.5".to_string(), "abuse".to_string());
    let text = request("connect", "10.0.0.5", "null", "");
    let decision = handle_mta_hook(&mut db, &ctx(1700000000), &text);
    assert_eq!(decision, Some(Decision::Reject { code: None, message: "IP blocked".to_string() }));
    assert_eq!(db.mta_connection_log().len(), 1);
    assert_eq!(db.mta_connection_log()[0].stage, "connect");
    assert_eq!(db.mta_connection_log()[0].action, "reject");
    assert_eq!(db.mta_connection_log()[0].timestamp, 1700000000);

    let text = request("CONNECT", "10.0.0.6", "null", "");
    assert_eq!(handle_mta_hook(&mut db, &ctx(2), &text), Some(accept()));
    assert_eq!(db.mta_connection_log()[1].action, "accept");
    assert_eq!(db.mta_connection_log()[1].client_ip, "[REDACTED]");
}

#[test]
fn ehlo_request_is_read_from_json_and_evaluated() {
    let mut db = Database::new();
    let text = request("ehlo", "10.0.0.6", "\"\"", "");
    assert_eq!(
        handle_mta_hook(&mut db, &ctx(2), &text),
        Some(Decision::Reject {
            code: Some(501),
            message: "Invalid EHLO/HELO argument".to_string(),
        })
    );
    let text = request("ehlo", "10.0.0.6", "null", "");
    assert!(matches!(
        handle_mta_hook(&mut db, &ctx(2), &text),
        Some(Decision::Reject { code: Some(501), .. })
    ));
    let text = request("ehlo", "10.0.0.6", "\"mail.example.com\"", "");
    assert_eq!(handle_mta_hook(&mut db, &ctx(2), &text), Some(accept()));
    assert_eq!(db.mta_connection_log().len(), 3);
}

#[test]
fn mail_and_rcpt_requests_are_read_from_json_and_evaluated() {
    let mut db = Database::new();
    add_message_category(
        &mut db,
        &ctx(1),
        "news".to_string(),
        "news@example.org".to_string(),
        String::new(),
    )
    .unwrap();
    let text = request("mail", "10.0.0.6", "null", ENVELOPE);
    assert_eq!(handle_mta_hook(&mut db, &ctx(2), &text), Some(accept()));
    let text = request("mail", "10.0.0.6", "null", "");
    assert_eq!(
        handle_mta_hook(&mut db, &ctx(2), &text),
        Some(Decision::Reject { code: Some(550), message: "Invalid sender address".to_string() })
    );
    let text = request("rcpt", "10.0.0.6", "null", ENVELOPE);
    assert_eq!(
        handle_mta_hook(&mut db, &ctx(3), &text),
        Some(Decision::Reject {
            code: Some(550),
            message: "Invalid recipient address".to_string(),
        })
    );
    let actions: Vec<&str> = db.mta_connection_log().iter().map(|e| e.action.as_str()).collect();
    assert_eq!(actions, vec!["accept", "reject", "accept", "reject"]);
    let text = request("auth", "10.0.0.6", "null", "");
    assert_eq!(handle_mta_hook(&mut db, &ctx(4), &text), Some(accept()));
}

#[test]
fn data_request_is_read_from_json_and_evaluated() {
    let mut db = Database::new();
    add_message_category(
        &mut db,
        &ctx(1),
        "news".to_string(),
        "news@example.org".to_string(),
        String::new(),
    )
    .unwrap();
    add_subscription(&mut db, &ctx(1), 42, "member@x.org".to_string(), 1);
    let text = request("data", "10.0.0.6", "null", &format!("{}{}", ENVELOPE, MESSAGE));
    let decision = handle_mta_hook(&mut db, &ctx(1700000001), &text);
    assert_eq!(
        decision,
        Some(Decision::Accept {
            modifications: vec![
                Modification {
                    header: "X-Processed-By".to_string(),
                    value: "SpacetimeDB Kommunikationszentrum".to_string(),
                },
                Modification {
                    header: "X-Processing-Time".to_string(),
                    value: "1700000001".to_string(),
                },
            ],
        })
    );
    let log = db.mta_message_log();
    assert_eq!(log.len(), 1);
    assert_eq!(log[0].subject, "Hello, World!");
    assert_eq!(log[0].message_size, 12345);
    assert_eq!(log[0].to_addresses, "[\"news@example.org\",\"nobody@example.org\"]");
    assert_eq!(log[0].queue_id, Some("q-17".to_string()));
    assert_eq!(log[0].action, "accept");
    assert_eq!(log[0].timestamp, 1700000001);
}

#[test]
fn malformed_request_is_dropped_without_a_decision_or_a_log_entry() {
    let mut db = Database::new();
    for text in [
        "",
        "not json",
        "{}",
        "{\"context\":{}}",
        "[1,2,3]",
        "{\"context\":{\"stage\":\"connect\"}}",
    ] {
        assert_eq!(handle_mta_hook(&mut db, &ctx(1), text), None);
    }
    let unknown_stage = request("quit", "10.0.0.6", "null", "");
    assert_eq!(handle_mta_hook(&mut db, &ctx(1), &unknown_stage), None);
    assert!(db.mta_connection_log().is_empty());
    assert!(db.mta_message_log().is_empty());
}

#[test]
fn handler_reads_requests_from_json() {
    let mut handler = MtaHookHandler::new(Database::new());
    let text = request("auth", "10.0.0.6", "null", "");
    assert_eq!(handler.handle_hook(&ctx(3), &text), Some(accept()));
    assert_eq!(handler.handle_hook(&ctx(4), "{"), None);
    assert_eq!(handler.database().mta_connection_log().len(), 1);
    assert_eq!(handler.database().mta_connection_log()[0].stage, "auth");
    assert_eq!(handler.database().mta_connection_log()[0].timestamp, 3);
}

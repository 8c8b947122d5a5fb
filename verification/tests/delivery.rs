use country_rpc::rpc::{handle_delivery, Fault, Outcome};
use country_rpc::service::CountryController;

fn deliver(ctrl: &mut CountryController, body: &str) -> Outcome {
    handle_delivery(
        ctrl,
        body.as_bytes(),
        Some("reply-queue".to_owned()),
        Some("corr-7".to_owned()),
        50,
    )
}

#[test]
fn reply_echoes_correlation_and_destination() {
    let mut ctrl = CountryController::new();
    let body = r#"{"pattern":{"cmd":"findByCriteria"},"data":{}}"#;
    match deliver(&mut ctrl, body) {
        Outcome::Reply(o) => {
            assert_eq!(o.correlation_id, "corr-7");
            assert_eq!(o.routing_key, "reply-queue");
            assert_eq!(o.body, r#"{"data":[]}"#);
        }
        _ => panic!("expected a reply"),
    }
}

#[test]
fn missing_metadata_is_a_protocol_fault() {
    let mut ctrl = CountryController::new();
    let body = br#"{"pattern":{"cmd":"findByCriteria"},"data":{}}"#;
    match handle_delivery(&mut ctrl, body, None, Some("c".to_owned()), 0) {
        Outcome::Fault(Fault::MissingMetadata) => {}
        _ => panic!("expected a protocol fault"),
    }
    match handle_delivery(&mut ctrl, body, Some("q".to_owned()), None, 0) {
        Outcome::Fault(Fault::MissingMetadata) => {}
        _ => panic!("expected a protocol fault"),
    }
}

#[test]
fn invalid_utf8_is_a_protocol_fault() {
    let mut ctrl = CountryController::new();
    let body: Vec<u8> = vec![0xff, 0xfe, 0x80];
    match handle_delivery(&mut ctrl, &body, Some("q".to_owned()), Some("c".to_owned()), 0) {
        Outcome::Fault(Fault::InvalidBody) => {}
        _ => panic!("expected a protocol fault"),
    }
}

#[test]
fn unparseable_json_degrades_to_unknown_command() {
    let mut ctrl = CountryController::new();
    match deliver(&mut ctrl, "this is not json") {
        Outcome::Reply(o) => assert_eq!(o.body, r#"{"message":"Unknown command"}"#),
        _ => panic!("expected the unknown-command reply"),
    }
}

#[test]
fn missing_cmd_degrades_to_unknown_command() {
    let mut ctrl = CountryController::new();
    match deliver(&mut ctrl, r#"{"pattern":{},"data":{}}"#) {
        Outcome::Reply(o) => assert_eq!(o.body, r#"{"message":"Unknown command"}"#),
        _ => panic!("expected the unknown-command reply"),
    }
}

#[test]
fn create_round_trip_renders_the_record() {
    let mut ctrl = CountryController::new();
    let body =
        r#"{"pattern":{"cmd":"createCountry"},"data":{"name":"France","code":"FR","dial_code":"+33"}}"#;
    match deliver(&mut ctrl, body) {
        Outcome::Reply(o) => {
            assert_eq!(
                o.body,
                r#"{"data":{"id":1,"name":"France","code":"FR","dial_code":"+33","created_at":50,"updated_at":50}}"#
            );
            let parsed: serde_json::Value = serde_json::from_str(&o.body).unwrap();
            assert_eq!(parsed["data"]["name"], serde_json::Value::String("France".to_owned()));
        }
        _ => panic!("expected a reply"),
    }
}

#[test]
fn create_with_malformed_payload_is_fatal_for_the_delivery() {
    let mut ctrl = CountryController::new();
    let body = r#"{"pattern":{"cmd":"createCountry"},"data":{"name":"France","code":7}}"#;
    match deliver(&mut ctrl, body) {
        Outcome::Fault(Fault::MalformedPayload) => {}
        _ => panic!("expected a malformed-payload fault"),
    }
}

#[test]
fn duplicate_create_replies_with_joined_message() {
    let mut ctrl = CountryController::new();
    let body =
        r#"{"pattern":{"cmd":"createCountry"},"data":{"name":"France","code":"FR","dial_code":"+33"}}"#;
    assert!(matches!(deliver(&mut ctrl, body), Outcome::Reply(_)));
    match deliver(&mut ctrl, body) {
        Outcome::Reply(o) => {
            assert_eq!(
                o.body,
                r#"{"message":"Country with code FR already exists, Country with name France already exists, Country with dial code +33 already exists"}"#
            );
        }
        _ => panic!("expected a reply"),
    }
}

#[test]
fn remove_renders_deleted_count() {
    let mut ctrl = CountryController::new();
    let create =
        r#"{"pattern":{"cmd":"createCountry"},"data":{"name":"France","code":"FR","dial_code":"+33"}}"#;
    assert!(matches!(deliver(&mut ctrl, create), Outcome::Reply(_)));
    match deliver(&mut ctrl, r#"{"pattern":{"cmd":"removeCountry"},"data":"1"}"#) {
        Outcome::Reply(o) => assert_eq!(o.body, r#"{"data":{"deleted":1}}"#),
        _ => panic!("expected a reply"),
    }
    match deliver(&mut ctrl, r#"{"pattern":{"cmd":"removeCountry"},"data":"1"}"#) {
        Outcome::Reply(o) => assert_eq!(o.body, r#"{"data":{"deleted":0}}"#),
        _ => panic!("expected a reply"),
    }
}

#[test]
fn update_round_trip_changes_one_field() {
    let mut ctrl = CountryController::new();
    let create =
        r#"{"pattern":{"cmd":"createCountry"},"data":{"name":"France","code":"FR","dial_code":"+33"}}"#;
    assert!(matches!(deliver(&mut ctrl, create), Outcome::Reply(_)));
    let update =
        r#"{"pattern":{"cmd":"updateCountry"},"data":{"id":"1","updateCountryDto":{"name":"Francia"}}}"#;
    match deliver(&mut ctrl, update) {
        Outcome::Reply(o) => {
            assert_eq!(
                o.body,
                r#"{"data":{"id":1,"name":"Francia","code":"FR","dial_code":"+33","created_at":50,"updated_at":50}}"#
            );
        }
        _ => panic!("expected a reply"),
    }
}

#[test]
fn reply_body_escapes_json_strings() {
    let mut ctrl = CountryController::new();
    let body =
        r#"{"pattern":{"cmd":"createCountry"},"data":{"name":"Fra\"nce\\x","code":"FR","dial_code":"+33"}}"#;
    match deliver(&mut ctrl, body) {
        Outcome::Reply(o) => {
            let parsed: serde_json::Value = serde_json::from_str(&o.body).unwrap();
            assert_eq!(
                parsed["data"]["name"],
                serde_json::Value::String("Fra\"nce\\x".to_owned())
            );
        }
        _ => panic!("expected a reply"),
    }
}

#[test]
fn filtered_find_round_trip() {
    let mut ctrl = CountryController::new();
    for (n, c, d) in [("France", "FR", "+33"), ("Germany", "DE", "+49")] {
        let body = format!(
            r#"{{"pattern":{{"cmd":"createCountry"}},"data":{{"name":"{}","code":"{}","dial_code":"{}"}}}}"#,
            n, c, d
        );
        assert!(matches!(deliver(&mut ctrl, &body), Outcome::Reply(_)));
    }
    let find = r#"{"pattern":{"cmd":"findByCriteria"},"data":{"name":"germ"}}"#;
    match deliver(&mut ctrl, find) {
        Outcome::Reply(o) => {
            let parsed: serde_json::Value = serde_json::from_str(&o.body).unwrap();
            let rows = parsed["data"].as_array().unwrap();
            assert_eq!(rows.len(), 1);
            assert_eq!(rows[0]["code"], serde_json::Value::String("DE".to_owned()));
        }
        _ => panic!("expected a reply"),
    }
}

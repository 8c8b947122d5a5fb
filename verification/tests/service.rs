use country_rpc::models::Country;
use country_rpc::payload::{DtoView, Field, PayloadView};
use country_rpc::service::{CountryController, Dispatch, Reply};
use country_rpc::store::{Criteria, UpdateFields};

fn plain_payload() -> PayloadView {
    PayloadView {
        is_object: false,
        name: Field::Absent,
        code: Field::Absent,
        dial_code: Field::Absent,
        id: Field::Absent,
        dto: DtoView {
            present: false,
            is_object: false,
            name: Field::Absent,
            code: Field::Absent,
            dial_code: Field::Absent,
        },
        as_text: None,
    }
}

fn seeded() -> CountryController {
    let mut ctrl = CountryController::new();
    let r = ctrl.create_country("France".to_owned(), "FR".to_owned(), "+33".to_owned(), 100);
    assert!(matches!(r, Reply::Record(_)));
    let r = ctrl.create_country("Germany".to_owned(), "DE".to_owned(), "+49".to_owned(), 200);
    assert!(matches!(r, Reply::Record(_)));
    ctrl
}

fn all_rows(ctrl: &CountryController) -> Vec<Country> {
    ctrl.get_countries(&Criteria { name: None, code: None, dial_code: None })
}

#[test]
fn create_assigns_identity_and_timestamps() {
    let mut ctrl = CountryController::new();
    let r = ctrl.create_country("France".to_owned(), "FR".to_owned(), "+33".to_owned(), 42);
    match r {
        Reply::Record(c) => {
            assert_eq!(c.id, 1);
            assert_eq!(c.name, "France");
            assert_eq!(c.code, "FR");
            assert_eq!(c.dial_code, "+33");
            assert_eq!(c.created_at, 42);
            assert_eq!(c.updated_at, 42);
        }
        _ => panic!("expected a created record"),
    }
    assert_eq!(all_rows(&ctrl).len(), 1);
}

#[test]
fn create_duplicate_code_is_rejected_without_insert() {
    let mut ctrl = seeded();
    let before = all_rows(&ctrl).len();
    let r = ctrl.create_country("Francia".to_owned(), "FR".to_owned(), "+34".to_owned(), 300);
    match r {
        Reply::Error(m) => {
            assert!(m.contains("already exists"));
            assert_eq!(m, "Country with code FR already exists");
        }
        _ => panic!("expected a duplicate-conflict error"),
    }
    assert_eq!(all_rows(&ctrl).len(), before);
}

#[test]
fn create_reports_every_collision_joined() {
    let mut ctrl = seeded();
    let r = ctrl.create_country("France".to_owned(), "FR".to_owned(), "+33".to_owned(), 300);
    match r {
        Reply::Error(m) => {
            assert_eq!(
                m,
                "Country with code FR already exists, Country with name France already exists, \
                 Country with dial code +33 already exists"
            );
        }
        _ => panic!("expected a duplicate-conflict error"),
    }
}

#[test]
fn replayed_create_is_rejected_not_doubled() {
    let mut ctrl = CountryController::new();
    let first = ctrl.create_country("France".to_owned(), "FR".to_owned(), "+33".to_owned(), 1);
    assert!(matches!(first, Reply::Record(_)));
    let second = ctrl.create_country("France".to_owned(), "FR".to_owned(), "+33".to_owned(), 2);
    assert!(matches!(second, Reply::Error(_)));
    assert_eq!(all_rows(&ctrl).len(), 1);
}

#[test]
fn find_without_criteria_returns_all() {
    let ctrl = seeded();
    let rows = all_rows(&ctrl);
    assert_eq!(rows.len(), 2);
    assert_eq!(rows[0].name, "France");
    assert_eq!(rows[1].name, "Germany");
}

#[test]
fn find_by_code_is_case_sensitive_substring() {
    let ctrl = seeded();
    let hit = ctrl.get_countries(&Criteria {
        name: None,
        code: Some("R".to_owned()),
        dial_code: None,
    });
    assert_eq!(hit.len(), 1);
    assert_eq!(hit[0].code, "FR");
    let miss = ctrl.get_countries(&Criteria {
        name: None,
        code: Some("r".to_owned()),
        dial_code: None,
    });
    assert_eq!(miss.len(), 0);
}

#[test]
fn find_by_name_folds_ascii_case() {
    let ctrl = seeded();
    let hit = ctrl.get_countries(&Criteria {
        name: Some("fRaN".to_owned()),
        code: None,
        dial_code: None,
    });
    assert_eq!(hit.len(), 1);
    assert_eq!(hit[0].name, "France");
}

#[test]
fn find_by_dial_code_folds_ascii_case() {
    let ctrl = seeded();
    let hit = ctrl.get_countries(&Criteria {
        name: None,
        code: None,
        dial_code: Some("+4".to_owned()),
    });
    assert_eq!(hit.len(), 1);
    assert_eq!(hit[0].code, "DE");
}

#[test]
fn update_writes_only_present_fields() {
    let mut ctrl = seeded();
    let r = ctrl.update_country(
        1,
        &UpdateFields { name: Some("Francia".to_owned()), code: None, dial_code: None },
        900,
    );
    match r {
        Reply::Record(c) => {
            assert_eq!(c.id, 1);
            assert_eq!(c.name, "Francia");
            assert_eq!(c.code, "FR");
            assert_eq!(c.dial_code, "+33");
            assert_eq!(c.created_at, 100);
            assert_eq!(c.updated_at, 900);
        }
        _ => panic!("expected the updated record"),
    }
    let rows = all_rows(&ctrl);
    assert_eq!(rows[1].name, "Germany");
}

#[test]
fn update_missing_id_is_an_error_reply() {
    let mut ctrl = seeded();
    let r = ctrl.update_country(
        77,
        &UpdateFields { name: Some("Nowhere".to_owned()), code: None, dial_code: None },
        900,
    );
    match r {
        Reply::Error(m) => assert_eq!(m, "Record not found"),
        _ => panic!("expected an error reply"),
    }
}

#[test]
fn update_into_collision_is_refused_by_the_store() {
    let mut ctrl = seeded();
    let r = ctrl.update_country(
        2,
        &UpdateFields { name: Some("France".to_owned()), code: None, dial_code: None },
        900,
    );
    match r {
        Reply::Error(m) => assert_eq!(m, "Country already exists"),
        _ => panic!("expected a uniqueness error"),
    }
    let rows = all_rows(&ctrl);
    assert_eq!(rows[1].name, "Germany");
}

#[test]
fn remove_existing_deletes_one_and_it_disappears() {
    let mut ctrl = seeded();
    let deleted = ctrl.delete_country(1);
    assert_eq!(deleted, 1);
    let rows = all_rows(&ctrl);
    assert_eq!(rows.len(), 1);
    assert!(rows.iter().all(|c| c.id != 1));
}

#[test]
fn remove_missing_reports_zero_not_an_error() {
    let mut ctrl = seeded();
    let deleted = ctrl.delete_country(99);
    assert_eq!(deleted, 0);
    assert_eq!(all_rows(&ctrl).len(), 2);
}

#[test]
fn unknown_command_yields_error_reply() {
    let mut ctrl = seeded();
    let p = plain_payload();
    match ctrl.controller("makeCoffee", &p, 0) {
        Dispatch::Reply(Reply::Error(m)) => assert_eq!(m, "Unknown command"),
        _ => panic!("expected the unknown-command reply"),
    }
}

#[test]
fn create_with_missing_required_field_is_malformed() {
    let mut ctrl = seeded();
    let mut p = plain_payload();
    p.is_object = true;
    p.name = Field::Str("X".to_owned());
    p.code = Field::Str("XX".to_owned());
    // dial_code stays absent: the request shape is invalid
    match ctrl.controller("createCountry", &p, 0) {
        Dispatch::Malformed => {}
        _ => panic!("expected a malformed-payload fault"),
    }
}

#[test]
fn malformed_criteria_degrade_to_no_filter() {
    let mut ctrl = seeded();
    let mut p = plain_payload();
    p.is_object = true;
    p.code = Field::Other;
    match ctrl.controller("findByCriteria", &p, 0) {
        Dispatch::Reply(Reply::Records(rows)) => assert_eq!(rows.len(), 2),
        _ => panic!("expected every record"),
    }
}

#[test]
fn update_through_controller_parses_string_id() {
    let mut ctrl = seeded();
    let mut p = plain_payload();
    p.is_object = true;
    p.id = Field::Str("2".to_owned());
    p.dto = DtoView {
        present: true,
        is_object: true,
        name: Field::Null,
        code: Field::Str("GE".to_owned()),
        dial_code: Field::Absent,
    };
    match ctrl.controller("updateCountry", &p, 5) {
        Dispatch::Reply(Reply::Record(c)) => {
            assert_eq!(c.id, 2);
            assert_eq!(c.name, "Germany");
            assert_eq!(c.code, "GE");
        }
        _ => panic!("expected the updated record"),
    }
}

#[test]
fn remove_through_controller_takes_bare_string_payload() {
    let mut ctrl = seeded();
    let mut p = plain_payload();
    p.as_text = Some("2".to_owned());
    match ctrl.controller("removeCountry", &p, 0) {
        Dispatch::Reply(Reply::Deleted(n)) => assert_eq!(n, 1),
        _ => panic!("expected a deletion count"),
    }
    let mut p2 = plain_payload();
    p2.as_text = Some("nonsense".to_owned());
    match ctrl.controller("removeCountry", &p2, 0) {
        Dispatch::Malformed => {}
        _ => panic!("expected a malformed-payload fault"),
    }
}

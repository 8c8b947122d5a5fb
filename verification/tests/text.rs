use country_rpc::text::{contains_sub, parse_i32, str_eq, to_chars, to_lower};

fn chars(s: &str) -> Vec<char> {
    to_chars(s)
}

#[test]
fn parse_accepts_signed_decimals() {
    assert_eq!(parse_i32(&chars("0")), Some(0));
    assert_eq!(parse_i32(&chars("42")), Some(42));
    assert_eq!(parse_i32(&chars("+42")), Some(42));
    assert_eq!(parse_i32(&chars("-42")), Some(-42));
    assert_eq!(parse_i32(&chars("2147483647")), Some(i32::MAX));
    assert_eq!(parse_i32(&chars("-2147483648")), Some(i32::MIN));
    assert_eq!(parse_i32(&chars("007")), Some(7));
}

#[test]
fn parse_rejects_what_the_type_rejects() {
    assert_eq!(parse_i32(&chars("")), None);
    assert_eq!(parse_i32(&chars("+")), None);
    assert_eq!(parse_i32(&chars("-")), None);
    assert_eq!(parse_i32(&chars(" 1")), None);
    assert_eq!(parse_i32(&chars("1 ")), None);
    assert_eq!(parse_i32(&chars("12a")), None);
    assert_eq!(parse_i32(&chars("2147483648")), None);
    assert_eq!(parse_i32(&chars("-2147483649")), None);
    assert_eq!(parse_i32(&chars("99999999999999999999")), None);
}

#[test]
fn substring_search_finds_runs() {
    assert!(contains_sub(&chars("France"), &chars("ranc")));
    assert!(contains_sub(&chars("France"), &chars("")));
    assert!(contains_sub(&chars("France"), &chars("France")));
    assert!(!contains_sub(&chars("France"), &chars("francE")));
    assert!(!contains_sub(&chars("FR"), &chars("FRA")));
}

#[test]
fn lowering_folds_ascii_only() {
    assert_eq!(to_lower(&chars("FrAnCe+33")), chars("france+33"));
    assert_eq!(to_lower(&chars("ÉPOQUE")), chars("Époque"));
}

#[test]
fn string_equality_is_by_characters() {
    assert!(str_eq("findByCriteria", "findByCriteria"));
    assert!(!str_eq("findByCriteria", "findbycriteria"));
    assert!(!str_eq("ab", "abc"));
}

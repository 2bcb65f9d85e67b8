use cosi_db::address::{Address, AddressForm};
use cosi_db::collection::{convert_form_insert, convert_form_query};
use cosi_db::validation::check_birth_date;
use cosi_db::document::{COSIForm, Document, Value};
use cosi_db::error::{CosiError, DateIssue};
use cosi_db::person::{PersonImpl, PersonOptional, Sex};

fn empty_person_form() -> PersonOptional {
    PersonOptional {
        first_name: None,
        middle_name: None,
        last_name: None,
        nicks: None,
        dob: None,
        home_phone: None,
        work_phone: None,
        mobile_phone: None,
        sex: None,
        notes: None,
        emergency_contact: None,
    }
}

fn text_of(d: &Document, i: usize) -> Option<String> {
    match &d.entries[i].value {
        Value::Text(s) => Some(s.clone()),
        _ => None,
    }
}

fn is_null(d: &Document, i: usize) -> bool {
    matches!(d.entries[i].value, Value::Null)
}

fn keys(d: &Document) -> Vec<String> {
    d.entries.iter().map(|e| e.key.clone()).collect()
}

#[test]
fn query_omits_absent_fields() {
    let mut form = empty_person_form();
    form.first_name = Some("Jane".to_string());
    let d = form.sanitize_query().unwrap();
    assert_eq!(keys(&d), vec!["first_name".to_string()]);
    assert_eq!(text_of(&d, 0), Some("Jane".to_string()));
}

#[test]
fn query_omits_explicit_nulls() {
    let mut form = empty_person_form();
    form.first_name = Some("Jane".to_string());
    form.home_phone = Some(None);
    form.dob = Some(None);
    let d = form.sanitize_query().unwrap();
    assert_eq!(keys(&d), vec!["first_name".to_string()]);
}

#[test]
fn insert_keeps_explicit_null() {
    let mut form = empty_person_form();
    form.first_name = Some("Jane".to_string());
    form.home_phone = Some(None);
    let d = form.sanitize_insert().unwrap();
    assert_eq!(keys(&d), vec!["first_name".to_string(), "home_phone".to_string()]);
    assert_eq!(text_of(&d, 0), Some("Jane".to_string()));
    assert!(is_null(&d, 1));
}

#[test]
fn insert_of_full_record_keeps_every_field() {
    let p = PersonImpl {
        first_name: "Jane".to_string(),
        middle_name: "Q".to_string(),
        last_name: "Doe".to_string(),
        nicks: vec!["JD".to_string()],
        dob: None,
        home_phone: Some("555".to_string()),
        work_phone: None,
        mobile_phone: None,
        sex: Sex::Female,
        notes: String::new(),
        emergency_contact: String::new(),
    };
    let d = p.sanitize_insert().unwrap();
    assert_eq!(d.entries.len(), 11);
    assert_eq!(
        keys(&d),
        vec![
            "first_name", "middle_name", "last_name", "nicks", "dob", "home_phone", "work_phone",
            "mobile_phone", "sex", "notes", "emergency_contact"
        ]
        .into_iter()
        .map(|s| s.to_string())
        .collect::<Vec<_>>()
    );
    assert!(is_null(&d, 4));
    assert_eq!(text_of(&d, 5), Some("555".to_string()));
    assert!(matches!(d.entries[8].value, Value::Sex(Sex::Female)));
    match &d.entries[3].value {
        Value::TextList(v) => assert_eq!(v, &vec!["JD".to_string()]),
        _ => panic!("nicks should be a text list"),
    }
}

#[test]
fn query_of_full_record_drops_nulls_only() {
    let a = Address {
        line_one: "1 Main".to_string(),
        line_two: String::new(),
        line_three: String::new(),
        city: "Town".to_string(),
        region: "R".to_string(),
        postal_code: None,
        county: Some("C".to_string()),
        country: None,
    };
    let d = a.sanitize_query().unwrap();
    assert_eq!(
        keys(&d),
        vec!["line_one", "line_two", "line_three", "city", "region", "county"]
            .into_iter()
            .map(|s| s.to_string())
            .collect::<Vec<_>>()
    );
}

#[test]
fn address_form_query_and_insert() {
    let f = AddressForm {
        line_one: None,
        line_two: None,
        line_three: None,
        city: Some("Town".to_string()),
        region: None,
        postal_code: Some(None),
        county: None,
        country: Some(Some("NL".to_string())),
    };
    let d = f.sanitize_insert().unwrap();
    assert_eq!(
        keys(&d),
        vec!["city".to_string(), "postal_code".to_string(), "country".to_string()]
    );
    assert!(is_null(&d, 1));
}

#[test]
fn date_validation_rejects_early_year() {
    let mut form = empty_person_form();
    form.dob = Some(Some("1699-02-30".to_string()));
    assert_eq!(
        form.sanitize_insert().unwrap_err(),
        CosiError::Validation(DateIssue::YearTooEarly)
    );
}

#[test]
fn date_validation_accepts_real_day() {
    let mut form = empty_person_form();
    form.dob = Some(Some("1990-02-28".to_string()));
    let d = form.sanitize_insert().unwrap();
    assert_eq!(keys(&d), vec!["dob".to_string()]);
    assert_eq!(text_of(&d, 0), Some("1990-02-28".to_string()));
}

#[test]
fn date_validation_issues() {
    assert_eq!(check_birth_date("1990/02/28"), Err(CosiError::Validation(DateIssue::Shape)));
    assert_eq!(check_birth_date("1990-02-28-1"), Err(CosiError::Validation(DateIssue::Shape)));
    assert_eq!(check_birth_date("abcd-02-28"), Err(CosiError::Validation(DateIssue::InvalidYear)));
    assert_eq!(check_birth_date("70000-02-28"), Err(CosiError::Validation(DateIssue::InvalidYear)));
    assert_eq!(check_birth_date("1990-x-28"), Err(CosiError::Validation(DateIssue::InvalidMonth)));
    assert_eq!(check_birth_date("1990-02-"), Err(CosiError::Validation(DateIssue::InvalidDay)));
    assert_eq!(check_birth_date("1990-02-300"), Err(CosiError::Validation(DateIssue::InvalidDay)));
    assert_eq!(check_birth_date("1800-01-01"), Err(CosiError::Validation(DateIssue::YearTooEarly)));
    assert_eq!(check_birth_date("1990-02-30"), Err(CosiError::Validation(DateIssue::NoSuchDay)));
    assert_eq!(check_birth_date("2001-13-01"), Err(CosiError::Validation(DateIssue::NoSuchDay)));
    assert_eq!(check_birth_date("2000-02-29"), Ok(()));
    assert_eq!(check_birth_date("1801-01-01"), Ok(()));
}

#[test]
fn full_record_insert_checks_birth_date() {
    let p = PersonImpl {
        first_name: "A".to_string(),
        middle_name: String::new(),
        last_name: String::new(),
        nicks: vec![],
        dob: Some("1699-02-30".to_string()),
        home_phone: None,
        work_phone: None,
        mobile_phone: None,
        sex: Sex::Undefined,
        notes: String::new(),
        emergency_contact: String::new(),
    };
    assert_eq!(p.sanitize_insert().unwrap_err(), CosiError::Validation(DateIssue::YearTooEarly));
}

#[test]
fn generic_form_entry_points() {
    let mut form = empty_person_form();
    form.last_name = Some("Doe".to_string());
    form.mobile_phone = Some(None);
    let q = convert_form_query(form).unwrap();
    assert_eq!(keys(&q), vec!["last_name".to_string()]);
    let mut form = empty_person_form();
    form.mobile_phone = Some(None);
    let i = convert_form_insert(form).unwrap();
    assert_eq!(keys(&i), vec!["mobile_phone".to_string()]);
}

use cosi_db::address::Address;
use cosi_db::auth::{session_lookup, session_outcome, SessionOutcome, UserForm};
use cosi_db::calendar::{Date, DateTime};
use cosi_db::document::Value;
use cosi_db::error::CosiError;
use cosi_db::event::{Days, Event};
use cosi_db::generator::{registration_split, sex_from_draw, PersonNames};
use cosi_db::group::Group;
use cosi_db::household::{HouseRelationStatus, Household};
use cosi_db::login::{hash_password, login_step, same_credential, LoginAction, LoginEvent, LoginState, UserLogin};
use cosi_db::oid::OID;
use cosi_db::person::{Person, Sex};
use cosi_db::search::{search_pattern, search_plan};

fn account() -> OID {
    OID::parse("5f1d7a3b2c4e6f8091a2b3c4").unwrap()
}

fn form(password: Option<&str>) -> UserForm {
    UserForm { username: Some("user".to_string()), email: None, token: password.map(|p| p.to_string()) }
}

fn reply_body(a: &LoginAction) -> String {
    match a {
        LoginAction::Reply { body, .. } => body.clone(),
        _ => panic!("expected a reply"),
    }
}

#[test]
fn login_without_password_is_refused() {
    let (s, a) = login_step(LoginState::Start, LoginEvent::Submitted { form: form(None), fresh_token: "t".to_string() });
    assert!(matches!(s, LoginState::Done));
    assert_eq!(reply_body(&a), "{\"err\": \"Password not entered.\"}");
}

#[test]
fn login_full_run() {
    let (s, a) = login_step(
        LoginState::Start,
        LoginEvent::Submitted { form: form(Some("secret")), fresh_token: "tok".to_string() },
    );
    match &a {
        LoginAction::FindUsers(q) => {
            assert_eq!(q.entries.len(), 1);
            assert_eq!(q.entries[0].key, "username");
        }
        _ => panic!("expected a user lookup"),
    }
    // No plain user: fall back to maintainers.
    let (s, a) = login_step(s, LoginEvent::Accounts(Ok(vec![])));
    assert!(matches!(a, LoginAction::FindMaintainers(_)));
    let (s, a) = login_step(s, LoginEvent::Accounts(Ok(vec![account()])));
    assert!(matches!(a, LoginAction::FindLogin(o) if o.bytes == account().bytes));
    let stored = UserLogin::new_for(account(), "secret").unwrap();
    let (s, a) = login_step(s, LoginEvent::Logins(Ok(vec![stored])));
    match &a {
        LoginAction::UpdateToken { maintainer, account: o, token } => {
            assert!(*maintainer);
            assert_eq!(o.bytes, account().bytes);
            assert_eq!(token, "tok");
        }
        _ => panic!("expected a token update"),
    }
    let (s, a) = login_step(s, LoginEvent::Updated(Ok(1)));
    assert!(matches!(s, LoginState::Done));
    match a {
        LoginAction::Reply { body, cookies } => {
            assert_eq!(body, "{\"success\": \"User logged in.\"}");
            assert_eq!(
                cookies,
                vec![
                    ("user_id".to_string(), "5f1d7a3b2c4e6f8091a2b3c4".to_string()),
                    ("user_token".to_string(), "tok".to_string())
                ]
            );
        }
        _ => panic!("expected a reply"),
    }
}

#[test]
fn login_wrong_password_and_failures() {
    let start = || {
        login_step(
            LoginState::Start,
            LoginEvent::Submitted { form: form(Some("wrong")), fresh_token: "tok".to_string() },
        )
        .0
    };
    let (s, _) = login_step(start(), LoginEvent::Accounts(Ok(vec![account()])));
    let stored = UserLogin::new_for(account(), "secret").unwrap();
    let (_, a) = login_step(s, LoginEvent::Logins(Ok(vec![stored])));
    assert_eq!(reply_body(&a), "{\"err\": \"Incorrect username or password.\"}");

    let (s, _) = login_step(start(), LoginEvent::Accounts(Err(CosiError::Storage)));
    let (_, a) = login_step(s, LoginEvent::Accounts(Ok(vec![account(), account()])));
    assert_eq!(reply_body(&a), "{\"err\": \"No valid user found.\"}");

    let (s, _) = login_step(start(), LoginEvent::Accounts(Ok(vec![account()])));
    let (_, a) = login_step(s, LoginEvent::Logins(Ok(vec![])));
    assert_eq!(reply_body(&a), "{\"err\": \"Internal server error.\"}");

    let (_, a) = login_step(LoginState::Done, LoginEvent::Updated(Ok(1)));
    assert_eq!(reply_body(&a), "{\"err\": \"Internal server error.\"}");
}

#[test]
fn password_hashing() {
    let mut a = [0u8; 32];
    let mut b = [0u8; 32];
    hash_password("secret", "salt", &mut a);
    hash_password("secret", "salt", &mut b);
    assert!(same_credential(&a, &b));
    assert_ne!(a, [0u8; 32]);
    hash_password("secret", "pepper", &mut b);
    assert!(!same_credential(&a, &b));
}

#[test]
fn sessions() {
    assert!(session_lookup(None, Some("t".to_string())).is_none());
    assert!(session_lookup(Some("nope".to_string()), None).is_none());
    let d = session_lookup(Some("5f1d7a3b2c4e6f8091a2b3c4".to_string()), None).unwrap();
    assert_eq!(d.entries[0].key, "_id");
    assert!(matches!(&d.entries[1].value, Value::Text(t) if t.is_empty()));
    assert_eq!(session_outcome(0), SessionOutcome::Forward);
    assert_eq!(session_outcome(1), SessionOutcome::Success);
    assert_eq!(session_outcome(2), SessionOutcome::Failure);
}

#[test]
fn searching() {
    assert_eq!(search_pattern("JaNe"), "(?i).*jane.*");
    let plan = search_plan("Main");
    let fields: Vec<String> = plan.address.iter().map(|p| p.0.clone()).collect();
    assert_eq!(fields, vec!["line_one", "line_two", "line_three", "city"]);
    assert_eq!(plan.household.len(), 1);
    assert_eq!(plan.person.len(), 3);
    assert!(matches!(&plan.person[0].1.entries[0].value, Value::Pattern(p) if p == "(?i).*main.*"));
}

#[test]
fn generators() {
    assert_eq!(sex_from_draw(0), Sex::Male);
    assert_eq!(sex_from_draw(1), Sex::Female);
    assert_eq!(sex_from_draw(2), Sex::Undefined);
    assert_eq!(registration_split(10), (3, 3, 4));
    assert_eq!(registration_split(2), (0, 0, 2));
    let names = || PersonNames {
        first: "a".to_string(),
        middle: "b".to_string(),
        last: "c".to_string(),
        nick_a: "d".to_string(),
        nick_b: "e".to_string(),
        notes: "f".to_string(),
        emergency_contact: "g".to_string(),
    };
    let young = Person::generated(names(), 10, 3, 4, Sex::Male);
    assert!(young.nicks.is_empty());
    assert_eq!(young.dob, Some(Date { year: 2012, month: 3, day: 4 }));
    let old = Person::generated(names(), 40, 3, 4, Sex::Female);
    assert_eq!(old.nicks, vec!["d".to_string(), "e".to_string()]);
    assert_eq!(old.work_phone, Some("9182081084".to_string()));
    let e = Event::generated(11, 20, 16);
    assert_eq!(e.meeting_days, vec![Days::M, Days::W]);
    assert_eq!(e.end_datetime, Some(DateTime { date: Date { year: 2022, month: 11, day: 28 }, hour: 7, minute: 7, second: 7 }));
    let a = Address::generated(1234);
    assert_eq!(a.line_one, a.line_two);
    assert!(!a.city.is_empty());
    assert_eq!(Group::generated(7).group_name, Group::generated(7).group_name);
    let p = Person::default();
    let h = Household::generated("h".to_string(), Address::default(), p, account());
    assert_eq!(h.relations.len(), 1);
    assert_eq!(h.relations[0].relation, HouseRelationStatus::Husband);
}

use cosi_db::collection::COSICollection;
use cosi_db::collection::{creation_outcome, update_outcome};
use cosi_db::document::Document;
use cosi_db::error::CosiError;
use cosi_db::listing::{count_mode, page_window, paginate, total_pages, CountMode, PageWindow, PAGE_SIZE};
use cosi_db::routes::{
    get_permissions_maintainer, get_permissions_user, index_redirect, login_logged, logout,
    person_redirect, register_route, render_result_json, FlashKind,
};

#[test]
fn pagination_math() {
    assert_eq!(total_pages(0, 100), 0);
    assert_eq!(total_pages(250, 100), 3);
    assert_eq!(total_pages(100, 100), 1);
    assert_eq!(total_pages(101, 100), 2);
    assert_eq!(total_pages(u64::MAX, 2), u64::MAX / 2 + 1);
}

#[test]
fn pagination_window() {
    assert_eq!(page_window(Some(2), PAGE_SIZE), PageWindow { skip: 200, limit: 100 });
    assert_eq!(page_window(None, PAGE_SIZE), PageWindow { skip: 0, limit: 100 });
}

#[test]
fn pagination_result() {
    let p = paginate(Some(1), 250, vec![1, 2, 3]);
    assert_eq!(p.page, 1);
    assert_eq!(p.total_pages, 3);
    assert_eq!(p.total_result, 250);
    assert_eq!(p.data, vec![1, 2, 3]);
    let p = paginate::<u8>(None, 0, vec![]);
    assert_eq!(p.page, 0);
    assert_eq!(p.total_pages, 0);
}

#[test]
fn count_policy() {
    assert_eq!(count_mode(&Document { entries: vec![] }), CountMode::Estimated);
    let form = cosi_db::group::GroupOptional { group_name: Some("x".to_string()), group_desc: None };
    let filter = cosi_db::collection::convert_form_query(form).unwrap();
    assert_eq!(count_mode(&filter), CountMode::Exact);
}

#[test]
fn update_outcomes() {
    assert_eq!(update_outcome(1, 1, false), Ok(1));
    assert_eq!(update_outcome(1, 0, false), Ok(0));
    assert_eq!(update_outcome(0, 0, true), Ok(1));
    assert_eq!(update_outcome(0, 0, false), Err(CosiError::NotFound));
    assert_eq!(creation_outcome(true), Ok(()));
    assert_eq!(creation_outcome(false), Err(CosiError::Storage));
    assert!(!CosiError::Storage.is_client_error());
    assert!(CosiError::NotFound.is_client_error());
}

#[test]
fn responses() {
    assert_eq!(render_result_json("err", "Password not entered."), "{\"err\": \"Password not entered.\"}");
    assert_eq!(get_permissions_maintainer(), "{\"is_maintainer\": true}");
    assert_eq!(get_permissions_user(), "{\"is_maintainer\": false}");
    assert_eq!(login_logged().to, "/");
    let r = index_redirect();
    assert_eq!(r.to, "/login");
    assert_eq!(r.flash, Some((FlashKind::Success, "User needs to be logged in.".to_string())));
    assert_eq!(person_redirect().to, "/person");
    let l = logout();
    assert_eq!(l.remove_cookies, vec!["user_id".to_string(), "user_token".to_string()]);
    assert_eq!(l.redirect.to, "/login");
    assert_eq!(l.redirect.flash, Some((FlashKind::Success, "Logging out.".to_string())));
}

#[test]
fn route_table() {
    let t = register_route();
    assert_eq!(t.static_base, "/public");
    assert_eq!(t.static_dir, "public");
    assert_eq!(t.handler_base, "/");
    assert_eq!(t.handlers.len(), 43);
    assert_eq!(t.handlers[0], "index");
    assert_eq!(t.handlers[42], "gen_login");
}

#[test]
fn table_names() {
    assert_eq!(cosi_db::person::Person::get_table_name(), "person");
    assert_eq!(cosi_db::address::Address::get_table_name(), "address");
    assert_eq!(cosi_db::household::Household::get_table_name(), "household");
    assert_eq!(cosi_db::group::GroupRelation::get_table_name(), "grouprelation");
    assert_eq!(cosi_db::event::EventRegistration::get_table_name(), "eventregistration");
    assert_eq!(cosi_db::login::UserLogin::get_table_name(), "userlogin");
}

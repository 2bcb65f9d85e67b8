use vstd::prelude::*;

use crate::document::literal;

verus! {

/// The kind of one-shot message shown after a redirect.
#[derive(Clone, Copy, Debug, PartialEq, Eq, Structural)]
pub enum FlashKind {
    Success,
    Error,
}

/// A redirect, with an optional one-shot message for the next page.
#[derive(Debug)]
pub struct Redirect {
    pub to: String,
    pub flash: Option<(FlashKind, String)>,
}

/// What logging out does: the private cookies it removes and where it sends
/// the browser.
#[derive(Debug)]
pub struct LogoutAction {
    pub remove_cookies: Vec<String>,
    pub redirect: Redirect,
}

/// Where the routes are mounted: static files under one base, every
/// handler, by name, under another.
#[derive(Debug)]
pub struct RouteTable {
    pub static_base: String,
    pub static_dir: String,
    pub handler_base: String,
    pub handlers: Vec<String>,
}

/// `{"key": "value"}`, with the key and value written as given.
pub open spec fn json_pair(key: Seq<char>, value: Seq<char>) -> Seq<char> {
    seq!['{', '"'] + key + seq!['"', ':', ' ', '"'] + value + seq!['"', '}']
}

/// A one-field JSON object whose value is a string: `{"key": "value"}`.
/// The key and value are written as given.
pub fn render_result_json(key: &str, value: &str) -> (r: String)
    ensures
        r@ == json_pair(key@, value@),
{
    let mut r = literal("{\"");
    r.append(key);
    r.append("\": \"");
    r.append(value);
    r.append("\"}");
    proof {
        reveal_strlit("{\"");
        reveal_strlit("\": \"");
        reveal_strlit("\"}");
    }
    assert(r@ =~= seq!['{', '"'] + key@ + seq!['"', ':', ' ', '"'] + value@ + seq!['"', '}']);
    r
}

/// The permissions answer for a maintainer.
pub fn get_permissions_maintainer() -> (r: String)
    ensures
        r@ == "{\"is_maintainer\": true}"@,
{
    literal("{\"is_maintainer\": true}")
}

/// The permissions answer for a plain user.
pub fn get_permissions_user() -> (r: String)
    ensures
        r@ == "{\"is_maintainer\": false}"@,
{
    literal("{\"is_maintainer\": false}")
}

/// A user who is logged in already is sent to the dashboard.
pub fn login_logged() -> (r: Redirect)
    ensures
        r.to@ == "/"@,
        r.flash is None,
{
    Redirect { to: literal("/"), flash: None }
}

/// The dashboard, visited without a login, sends to the login page.
pub fn index_redirect() -> (r: Redirect)
    ensures
        r.to@ == "/login"@,
        r.flash matches Some((k, m)) && k == FlashKind::Success && m@
            == "User needs to be logged in."@,
{
    Redirect {
        to: literal("/login"),
        flash: Some((FlashKind::Success, literal("User needs to be logged in."))),
    }
}

/// The person page, visited without a login, is answered with a redirect to
/// itself and a message to log in.
pub fn person_redirect() -> (r: Redirect)
    ensures
        r.to@ == "/person"@,
        r.flash matches Some((k, m)) && k == FlashKind::Success && m@
            == "User needs to be logged in."@,
{
    Redirect {
        to: literal("/person"),
        flash: Some((FlashKind::Success, literal("User needs to be logged in."))),
    }
}

/// Logging out removes both session cookies and sends to the login page.
pub fn logout() -> (r: LogoutAction)
    ensures
        r.remove_cookies@.len() == 2,
        r.remove_cookies@[0]@ == "user_id"@,
        r.remove_cookies@[1]@ == "user_token"@,
        r.redirect.to@ == "/login"@,
        r.redirect.flash matches Some((k, m)) && k == FlashKind::Success && m@ == "Logging out."@,
{
    let mut cookies: Vec<String> = Vec::new();
    cookies.push(literal("user_id"));
    cookies.push(literal("user_token"));
    LogoutAction {
        remove_cookies: cookies,
        redirect: Redirect {
            to: literal("/login"),
            flash: Some((FlashKind::Success, literal("Logging out."))),
        },
    }
}

} // verus!

verus! {

/// The handlers mounted under `/`, by name, in mounting order.
pub open spec fn handler_names() -> Seq<Seq<char>> {
    seq![
        "index"@,
        "index_redirect"@,
        "gen_person"@,
        "find_person"@,
        "get_person"@,
        "insert_person"@,
        "drop_person"@,
        "update_person"@,
        "gen_address"@,
        "find_address"@,
        "insert_address"@,
        "drop_address"@,
        "update_address"@,
        "gen_household"@,
        "find_household"@,
        "insert_household"@,
        "drop_household"@,
        "gen_event"@,
        "find_event"@,
        "insert_event"@,
        "drop_event"@,
        "update_event"@,
        "gen_eventregistration"@,
        "find_eventregistration"@,
        "insert_eventregistration"@,
        "drop_eventregistration"@,
        "gen_group"@,
        "find_group"@,
        "insert_group"@,
        "drop_group"@,
        "update_group"@,
        "gen_grouprelation"@,
        "find_grouprelation"@,
        "insert_grouprelation"@,
        "drop_grouprelation"@,
        "search"@,
        "expanded_search"@,
        "expanded_search_redirect"@,
        "login"@,
        "login_logged"@,
        "login_submit"@,
        "logout"@,
        "gen_login"@,
    ]
}

/// The route table: static files from `public` under `/public`, and every
/// handler under `/`.
pub fn register_route() -> (r: RouteTable)
    ensures
        r.static_base@ == "/public"@,
        r.static_dir@ == "public"@,
        r.handler_base@ == "/"@,
        crate::document::texts_view(r.handlers@) == handler_names(),
{
    let mut handlers: Vec<String> = Vec::new();
    handlers.push(literal("index"));
    handlers.push(literal("index_redirect"));
    handlers.push(literal("gen_person"));
    handlers.push(literal("find_person"));
    handlers.push(literal("get_person"));
    handlers.push(literal("insert_person"));
    handlers.push(literal("drop_person"));
    handlers.push(literal("update_person"));
    handlers.push(literal("gen_address"));
    handlers.push(literal("find_address"));
    handlers.push(literal("insert_address"));
    handlers.push(literal("drop_address"));
    handlers.push(literal("update_address"));
    handlers.push(literal("gen_household"));
    handlers.push(literal("find_household"));
    handlers.push(literal("insert_household"));
    handlers.push(literal("drop_household"));
    handlers.push(literal("gen_event"));
    handlers.push(literal("find_event"));
    handlers.push(literal("insert_event"));
    handlers.push(literal("drop_event"));
    handlers.push(literal("update_event"));
    handlers.push(literal("gen_eventregistration"));
    handlers.push(literal("find_eventregistration"));
    handlers.push(literal("insert_eventregistration"));
    handlers.push(literal("drop_eventregistration"));
    handlers.push(literal("gen_group"));
    handlers.push(literal("find_group"));
    handlers.push(literal("insert_group"));
    handlers.push(literal("drop_group"));
    handlers.push(literal("update_group"));
    handlers.push(literal("gen_grouprelation"));
    handlers.push(literal("find_grouprelation"));
    handlers.push(literal("insert_grouprelation"));
    handlers.push(literal("drop_grouprelation"));
    handlers.push(literal("search"));
    handlers.push(literal("expanded_search"));
    handlers.push(literal("expanded_search_redirect"));
    handlers.push(literal("login"));
    handlers.push(literal("login_logged"));
    handlers.push(literal("login_submit"));
    handlers.push(literal("logout"));
    handlers.push(literal("gen_login"));
    assert(crate::document::texts_view(handlers@) =~= handler_names());
    RouteTable {
        static_base: literal("/public"),
        static_dir: literal("public"),
        handler_base: literal("/"),
        handlers: handlers,
    }
}

} // verus!

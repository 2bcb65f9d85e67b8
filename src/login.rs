use vstd::prelude::*;

use crate::auth::UserForm;
use crate::document::{literal, push_field, without_nulls, COSIForm, Document, Entry, Value, ValueView};
use crate::error::CosiError;
use crate::oid::{hex_encode, OID};
use crate::routes::{json_pair, render_result_json};

verus! {

/// The iteration count of the password hash.
pub const HASH_ITERATIONS: u32 = 50000;

/// The length of a stored credential: one SHA-256 output.
pub const CREDENTIAL_LEN: usize = 32;

/// The longest password or salt, in characters, that is hashed.
pub const SECRET_LIMIT: u64 = 0x0400_0000_0000_0000;

/// A user's stored credential, kept apart from the user record.
#[derive(Clone, Copy, Debug)]
pub struct UserLogin {
    pub user_id: OID,
    pub password: [u8; 32],
}

impl UserLogin {
    /// The credentials of an account for a password, salted with the hex
    /// text of the account id; none for a password too long to hash.
    pub fn new_for(user_id: OID, password: &str) -> (r: Option<UserLogin>)
        ensures
            r is Some <==> password@.len() < SECRET_LIMIT,
            r matches Some(l) ==> l.user_id == user_id && password_matches(password@, l),
    {
        if password.unicode_len() as u64 >= SECRET_LIMIT {
            return None;
        }
        let salt = user_id.to_hex();
        let mut calc: [u8; 32] = [0u8; 32];
        hash_password(password, salt.as_str(), &mut calc);
        Some(UserLogin { user_id, password: calc })
    }

    /// The filter that finds the credentials of one account.
    pub fn filter_by_user(user_id: OID) -> (r: Document)
        ensures
            r@ == seq![("user_id"@, ValueView::Id(user_id))],
    {
        let mut d: Vec<Entry> = Vec::new();
        push_field(&mut d, "user_id", Some(Value::Id(user_id)));
        assert(crate::document::entries_view(d@) =~= seq![("user_id"@, ValueView::Id(user_id))]);
        Document { entries: d }
    }
}

/// The PBKDF2-HMAC-SHA256 key that ring derives into 32 bytes from the
/// UTF-8 bytes of a salt and a secret.
pub uninterp spec fn pbkdf2_sha256(iterations: int, salt: Seq<char>, secret: Seq<char>) -> Seq<u8>;

/// Relies on ring's `pbkdf2::derive` with `PBKDF2_HMAC_SHA256`: it fills the
/// output with a key that depends on the iteration count, the salt and the
/// secret alone; it panics only on inputs of more than 2^61 bytes, which at
/// most four bytes per character keeps out.
#[verifier::external_body]
fn pbkdf2_derive(iterations: u32, salt: &str, secret: &str) -> (r: [u8; 32])
    requires
        iterations > 0,
        salt@.len() < SECRET_LIMIT,
        secret@.len() < SECRET_LIMIT,
    ensures
        r@ == pbkdf2_sha256(iterations as int, salt@, secret@),
{
    let mut out = [0u8; 32];
    ring::pbkdf2::derive(
        ring::pbkdf2::PBKDF2_HMAC_SHA256,
        std::num::NonZeroU32::new(iterations).unwrap(),
        salt.as_bytes(),
        secret.as_bytes(),
        &mut out,
    );
    out
}

/// The credential of a password under a salt.
pub open spec fn credential_of(pass: Seq<char>, salt: Seq<char>) -> Seq<u8> {
    pbkdf2_sha256(HASH_ITERATIONS as int, salt, pass)
}

/// Hashes a password with a salt into a credential.
pub fn hash_password(pass: &str, salt: &str, calc_password: &mut [u8; 32])
    requires
        pass@.len() < SECRET_LIMIT,
        salt@.len() < SECRET_LIMIT,
    ensures
        final(calc_password)@ == credential_of(pass@, salt@),
{
    *calc_password = pbkdf2_derive(HASH_ITERATIONS, salt, pass);
}

/// Compares two credentials byte by byte.
pub fn same_credential(a: &[u8; 32], b: &[u8; 32]) -> (r: bool)
    ensures
        r == (a@ == b@),
{
    let mut i: usize = 0;
    while i < 32
        invariant
            i <= 32,
            a@.len() == 32,
            b@.len() == 32,
            forall|j: int| 0 <= j < i ==> a@[j] == b@[j],
        decreases 32 - i,
    {
        if a[i] != b[i] {
            return false;
        }
        i += 1;
    }
    assert(a@ =~= b@);
    true
}

/// Where a login attempt stands.
#[derive(Debug)]
pub enum LoginState {
    /// Nothing submitted yet.
    Start,
    /// Looking the account up among the users.
    AwaitUser { password: String, token: String, query: Document },
    /// Looking the account up among the maintainers.
    AwaitMaintainer { password: String, token: String },
    /// Fetching the credentials of the account.
    AwaitLogin { password: String, token: String, account: OID, maintainer: bool },
    /// Storing the new session token of the account.
    AwaitUpdate { account: OID, maintainer: bool, token: String },
    /// Answered.
    Done,
}

/// What the outside world reports to a login attempt.
#[derive(Debug)]
pub enum LoginEvent {
    /// The login form, with a fresh session token for a successful login.
    Submitted { form: UserForm, fresh_token: String },
    /// The ids of the accounts that match the form.
    Accounts(Result<Vec<OID>, CosiError>),
    /// The credentials stored for the account.
    Logins(Result<Vec<UserLogin>, CosiError>),
    /// The outcome of storing the session token.
    Updated(Result<u64, CosiError>),
}

/// What a login attempt asks the outside world to do next.
#[derive(Debug)]
pub enum LoginAction {
    FindUsers(Document),
    FindMaintainers(Document),
    FindLogin(OID),
    UpdateToken { maintainer: bool, account: OID, token: String },
    /// Answer the client, setting the given private cookies.
    Reply { body: String, cookies: Vec<(String, String)> },
}

/// The account filter of a login form: its fields other than the password.
pub open spec fn account_query(form: UserForm) -> Seq<crate::document::FieldView> {
    without_nulls(UserForm { token: None, ..form }.fields())
}

/// A final answer with a JSON error and no cookie.
pub open spec fn is_error_reply(a: LoginAction, msg: Seq<char>) -> bool {
    a matches LoginAction::Reply { body, cookies } && body@ == json_pair("err"@, msg)
        && cookies@.len() == 0
}

/// The single account id of a lookup, if it found exactly one.
pub open spec fn single<T>(r: Result<Vec<T>, CosiError>) -> Option<T> {
    match r {
        Ok(v) => if v@.len() == 1 {
            Some(v@[0])
        } else {
            None
        },
        Err(_) => None,
    }
}

/// The password hashes, under the hex text of the account id as salt, to the
/// stored credential. A password or salt too long to hash matches nothing.
pub open spec fn password_matches(password: Seq<char>, login: UserLogin) -> bool {
    let salt = hex_encode(login.user_id.bytes@);
    &&& password.len() < SECRET_LIMIT
    &&& login.password@ == credential_of(password, salt)
}

/// The login rules, one step at a time.
pub open spec fn login_transition(
    state: LoginState,
    event: LoginEvent,
    next: LoginState,
    action: LoginAction,
) -> bool {
    match (state, event) {
        (LoginState::Start, LoginEvent::Submitted { form, fresh_token }) => match form.token {
            None => next is Done && is_error_reply(action, "Password not entered."@),
            Some(p) => if p@.len() >= SECRET_LIMIT {
                next is Done && is_error_reply(action, "Incorrect username or password."@)
            } else {
                &&& next matches LoginState::AwaitUser { password, token, query } && password == p
                    && token == fresh_token && query@ == account_query(form)
                &&& action matches LoginAction::FindUsers(q) && q@ == account_query(form)
            },
        },
        (LoginState::AwaitUser { password, token, query }, LoginEvent::Accounts(found)) => match single(
            found,
        ) {
            Some(id) => next == LoginState::AwaitLogin {
                password,
                token,
                account: id,
                maintainer: false,
            } && action == LoginAction::FindLogin(id),
            None => next == LoginState::AwaitMaintainer { password, token } && action
                == LoginAction::FindMaintainers(query),
        },
        (LoginState::AwaitMaintainer { password, token }, LoginEvent::Accounts(found)) => match single(
            found,
        ) {
            Some(id) => next == LoginState::AwaitLogin {
                password,
                token,
                account: id,
                maintainer: true,
            } && action == LoginAction::FindLogin(id),
            None => next is Done && is_error_reply(action, "No valid user found."@),
        },
        (
            LoginState::AwaitLogin { password, token, account, maintainer },
            LoginEvent::Logins(found),
        ) => match single(found) {
            None => next is Done && is_error_reply(action, "Internal server error."@),
            Some(login) => if password_matches(password@, login) {
                next == LoginState::AwaitUpdate { account, maintainer, token } && action
                    == LoginAction::UpdateToken { maintainer, account, token }
            } else {
                next is Done && is_error_reply(action, "Incorrect username or password."@)
            },
        },
        (LoginState::AwaitUpdate { account, maintainer, token }, LoginEvent::Updated(outcome)) => {
            &&& next is Done
            &&& match outcome {
                Ok(_) => {
                    &&& action matches LoginAction::Reply { body, cookies } && body@ == json_pair(
                        "success"@,
                        "User logged in."@,
                    ) && cookies@.len() == 2 && cookies@[0].0@ == "user_id"@ && cookies@[0].1@
                        == hex_encode(account.bytes@) && cookies@[1].0@ == "user_token"@
                        && cookies@[1].1 == token
                },
                Err(_) => is_error_reply(action, "Internal server error."@),
            }
        },
        _ => next is Done && is_error_reply(action, "Internal server error."@),
    }
}

fn error_reply(msg: &str) -> (r: LoginAction)
    ensures
        is_error_reply(r, msg@),
{
    proof {
        reveal_strlit("err");
    }
    LoginAction::Reply { body: render_result_json("err", msg), cookies: Vec::new() }
}

fn single_of<T>(found: Result<Vec<T>, CosiError>) -> (r: Option<T>)
    ensures
        r == single(found),
{
    match found {
        Ok(v) => {
            if v.len() == 1 {
                let mut v = v;
                let ghost before = v@;
                let x = v.pop().unwrap();
                assert(x == before[0]);
                Some(x)
            } else {
                None
            }
        },
        Err(_) => None,
    }
}

/// The filter that finds the accounts a login form names.
fn account_filter(form: &UserForm) -> (r: Document)
    ensures
        r@ == account_query(*form),
{
    let account = UserForm {
        username: crate::document::clone_opt_text(&form.username),
        email: crate::document::clone_opt_text(&form.email),
        token: None,
    };
    match account.sanitize_query() {
        Ok(q) => q,
        Err(_) => Document { entries: Vec::new() },
    }
}

/// Takes one step of a login attempt: from where it stands and what was
/// reported, to where it stands next and what to do.
pub fn login_step(state: LoginState, event: LoginEvent) -> (r: (LoginState, LoginAction))
    ensures
        login_transition(state, event, r.0, r.1),
{
    match (state, event) {
        (LoginState::Start, LoginEvent::Submitted { form, fresh_token }) => {
            let password = match &form.token {
                None => return (LoginState::Done, error_reply("Password not entered.")),
                Some(p) => p.clone(),
            };
            if password.as_str().unicode_len() as u64 >= SECRET_LIMIT {
                return (LoginState::Done, error_reply("Incorrect username or password."));
            }
            let query = account_filter(&form);
            let kept = account_filter(&form);
            (
                LoginState::AwaitUser { password: password, token: fresh_token, query: kept },
                LoginAction::FindUsers(query),
            )
        },
        (LoginState::AwaitUser { password, token, query }, LoginEvent::Accounts(found)) => {
            match single_of(found) {
                Some(id) => (
                    LoginState::AwaitLogin { password, token, account: id, maintainer: false },
                    LoginAction::FindLogin(id),
                ),
                None => (
                    LoginState::AwaitMaintainer { password, token },
                    LoginAction::FindMaintainers(query),
                ),
            }
        },
        (LoginState::AwaitMaintainer { password, token }, LoginEvent::Accounts(found)) => {
            match single_of(found) {
                Some(id) => (
                    LoginState::AwaitLogin { password, token, account: id, maintainer: true },
                    LoginAction::FindLogin(id),
                ),
                None => (LoginState::Done, error_reply("No valid user found.")),
            }
        },
        (
            LoginState::AwaitLogin { password, token, account, maintainer },
            LoginEvent::Logins(found),
        ) => {
            match single_of(found) {
                None => (LoginState::Done, error_reply("Internal server error.")),
                Some(login) => {
                    let salt = login.user_id.to_hex();
                    if password.as_str().unicode_len() as u64 >= SECRET_LIMIT {
                        return (LoginState::Done, error_reply("Incorrect username or password."));
                    }
                    let mut calc: [u8; 32] = [0u8; 32];
                    hash_password(password.as_str(), salt.as_str(), &mut calc);
                    if same_credential(&calc, &login.password) {
                        (
                            LoginState::AwaitUpdate { account, maintainer, token: token.clone() },
                            LoginAction::UpdateToken { maintainer, account, token },
                        )
                    } else {
                        (LoginState::Done, error_reply("Incorrect username or password."))
                    }
                },
            }
        },
        (LoginState::AwaitUpdate { account, maintainer, token }, LoginEvent::Updated(outcome)) => {
            match outcome {
                Ok(_) => {
                    let mut cookies: Vec<(String, String)> = Vec::new();
                    cookies.push((literal("user_id"), account.to_hex()));
                    cookies.push((literal("user_token"), token));
                    proof {
                        reveal_strlit("success");
                        reveal_strlit("User logged in.");
                    }
                    (
                        LoginState::Done,
                        LoginAction::Reply {
                            body: render_result_json("success", "User logged in."),
                            cookies: cookies,
                        },
                    )
                },
                Err(_) => (LoginState::Done, error_reply("Internal server error.")),
            }
        },
        _ => (LoginState::Done, error_reply("Internal server error.")),
    }
}

} // verus!

use vstd::prelude::*;

use crate::document::{
    entries_view, field_spec, opt_text, push_field, text_field, text_value, COSIForm,
    Entry, FieldView, ValueView,
};
use crate::error::CosiError;
use crate::document::{Document, Value};
use crate::oid::{hex_decode, is_hex_id, OID};

verus! {

/// A registry user, with the token of the current login.
#[derive(Debug)]
pub struct User {
    pub username: String,
    pub email: String,
    pub token: String,
}

/// A partial user: the login form, or a search filter.
#[derive(Debug)]
pub struct UserForm {
    pub username: Option<String>,
    pub email: Option<String>,
    pub token: Option<String>,
}

impl COSIForm for User {
    open spec fn fields(&self) -> Seq<FieldView> {
        seq![
            ("username"@, ValueView::Text(self.username@)),
            ("email"@, ValueView::Text(self.email@)),
            ("token"@, ValueView::Text(self.token@)),
        ]
    }

    open spec fn insert_issue(&self) -> Option<CosiError> {
        None
    }

    fn into_entries(self) -> (r: Vec<Entry>) {
        let mut d: Vec<Entry> = Vec::new();
        push_field(&mut d, "username", Some(text_value(self.username)));
        push_field(&mut d, "email", Some(text_value(self.email)));
        push_field(&mut d, "token", Some(text_value(self.token)));
        assert(entries_view(d@) =~= self.fields());
        d
    }

    fn check_insert(&self) -> (r: Result<(), CosiError>) {
        Ok(())
    }
}

impl COSIForm for UserForm {
    open spec fn fields(&self) -> Seq<FieldView> {
        field_spec("username"@, text_field(self.username)) + field_spec(
            "email"@,
            text_field(self.email),
        ) + field_spec("token"@, text_field(self.token))
    }

    open spec fn insert_issue(&self) -> Option<CosiError> {
        None
    }

    fn into_entries(self) -> (r: Vec<Entry>) {
        let mut d: Vec<Entry> = Vec::new();
        push_field(&mut d, "username", opt_text(self.username));
        push_field(&mut d, "email", opt_text(self.email));
        push_field(&mut d, "token", opt_text(self.token));
        assert(entries_view(d@) =~= self.fields());
        d
    }

    fn check_insert(&self) -> (r: Result<(), CosiError>) {
        Ok(())
    }
}

/// What a request's session cookies make of it.
#[derive(Clone, Copy, Debug, PartialEq, Eq, Structural)]
pub enum SessionOutcome {
    /// No user is logged in: the request goes on to a route without login.
    Forward,
    /// More than one user holds the session: the request fails.
    Failure,
    /// Exactly one user holds the session.
    Success,
}

/// The lookup of the user that a request's session cookies name: none
/// without a user id cookie or with one that is not an id; a missing token
/// cookie counts as the empty token.
pub fn session_lookup(user_id: Option<String>, token: Option<String>) -> (r: Option<Document>)
    ensures
        r is Some <==> (user_id matches Some(u) && is_hex_id(u@)),
        r matches Some(d) ==> d@.len() == 2 && d@[0].0 == "_id"@ && (d@[0].1 matches ValueView::Id(
            o,
        ) && o.bytes@ == hex_decode(user_id->0@)) && d@[1].0 == "token"@ && d@[1].1
            == ValueView::Text(
            match token {
                Some(t) => t@,
                None => Seq::<char>::empty(),
            },
        ),
{
    let id = match user_id {
        None => return None,
        Some(u) => match OID::parse(u.as_str()) {
            Ok(o) => o,
            Err(_) => return None,
        },
    };
    let token = match token {
        Some(t) => t,
        None => String::new(),
    };
    let mut d: Vec<Entry> = Vec::new();
    push_field(&mut d, "_id", Some(Value::Id(id)));
    push_field(&mut d, "token", Some(text_value(token)));
    Some(Document { entries: d })
}

/// A session is held when exactly one user matches it; none forwards the
/// request, and more than one is a failure.
pub fn session_outcome(found: usize) -> (r: SessionOutcome)
    ensures
        found == 0 ==> r == SessionOutcome::Forward,
        found == 1 ==> r == SessionOutcome::Success,
        found > 1 ==> r == SessionOutcome::Failure,
{
    if found == 0 {
        SessionOutcome::Forward
    } else if found > 1 {
        SessionOutcome::Failure
    } else {
        SessionOutcome::Success
    }
}

} // verus!

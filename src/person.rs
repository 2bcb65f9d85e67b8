use vstd::prelude::*;

use crate::calendar::{lemma_date_text_round_trip, read_date, Date};
use crate::document::{
    clone_opt_text, clone_texts, entries_view, field_spec, nullable, nullable_text, nullable_text_field,
    opt_nullable, opt_text, push_field, text_field, text_value, texts_view, COSIForm, Document, Entry,
    FieldView, Value, ValueView,
};
use crate::error::CosiError;
use crate::validation::{birth_date_issue, check_birth_date};

verus! {

#[derive(Clone, Copy, Debug, PartialEq, Eq, Structural)]
pub enum Sex {
    Male,
    Female,
    Undefined,
}

/// A person as the registry's users see one.
#[derive(Debug)]
pub struct Person {
    pub first_name: String,
    pub middle_name: String,
    pub last_name: String,
    pub nicks: Vec<String>,
    pub dob: Option<Date>,
    pub home_phone: Option<String>,
    pub work_phone: Option<String>,
    pub mobile_phone: Option<String>,
    pub sex: Sex,
    pub notes: String,
    pub emergency_contact: String,
}

/// A person as stored: the date of birth is a `YYYY-MM-DD` text.
#[derive(Debug)]
pub struct PersonImpl {
    pub first_name: String,
    pub middle_name: String,
    pub last_name: String,
    pub nicks: Vec<String>,
    pub dob: Option<String>,
    pub home_phone: Option<String>,
    pub work_phone: Option<String>,
    pub mobile_phone: Option<String>,
    pub sex: Sex,
    pub notes: String,
    pub emergency_contact: String,
}

/// A partial person: a search filter or a partial update. A nullable field
/// may be absent, set to null, or set to a value.
#[derive(Debug)]
pub struct PersonOptional {
    pub first_name: Option<String>,
    pub middle_name: Option<String>,
    pub last_name: Option<String>,
    pub nicks: Option<Vec<String>>,
    pub dob: Option<Option<String>>,
    pub home_phone: Option<Option<String>>,
    pub work_phone: Option<Option<String>>,
    pub mobile_phone: Option<Option<String>>,
    pub sex: Option<Sex>,
    pub notes: Option<String>,
    pub emergency_contact: Option<String>,
}

/// The stored text of an optional date.
pub open spec fn dob_value(dob: Option<Date>) -> ValueView {
    match dob {
        Some(d) => ValueView::Text(d.text()),
        None => ValueView::Null,
    }
}

/// The rule a stored or submitted date of birth breaks, if any.
pub open spec fn dob_issue(dob: Option<String>) -> Option<CosiError> {
    match dob {
        Some(t) => match birth_date_issue(t@) {
            Some(i) => Some(CosiError::Validation(i)),
            None => None,
        },
        None => None,
    }
}

fn check_dob(dob: &Option<String>) -> (r: Result<(), CosiError>)
    ensures
        r is Ok <==> dob_issue(*dob) is None,
        r matches Err(e) ==> dob_issue(*dob) == Some(e),
{
    match dob {
        Some(t) => check_birth_date(t.as_str()),
        None => Ok(()),
    }
}

pub open spec fn texts_field(v: Option<Vec<String>>) -> Option<ValueView> {
    match v {
        Some(n) => Some(ValueView::TextList(texts_view(n@))),
        None => None,
    }
}

pub open spec fn sex_field(v: Option<Sex>) -> Option<ValueView> {
    match v {
        Some(s) => Some(ValueView::Sex(s)),
        None => None,
    }
}

/// The fields every complete person record carries, in order.
pub open spec fn person_fields(
    first_name: Seq<char>,
    middle_name: Seq<char>,
    last_name: Seq<char>,
    nicks: Seq<Seq<char>>,
    dob: ValueView,
    home_phone: ValueView,
    work_phone: ValueView,
    mobile_phone: ValueView,
    sex: Sex,
    notes: Seq<char>,
    emergency_contact: Seq<char>,
) -> Seq<FieldView> {
    seq![
        ("first_name"@, ValueView::Text(first_name)),
        ("middle_name"@, ValueView::Text(middle_name)),
        ("last_name"@, ValueView::Text(last_name)),
        ("nicks"@, ValueView::TextList(nicks)),
        ("dob"@, dob),
        ("home_phone"@, home_phone),
        ("work_phone"@, work_phone),
        ("mobile_phone"@, mobile_phone),
        ("sex"@, ValueView::Sex(sex)),
        ("notes"@, ValueView::Text(notes)),
        ("emergency_contact"@, ValueView::Text(emergency_contact)),
    ]
}

impl Person {
    /// Every date of birth exists.
    pub open spec fn wf(&self) -> bool {
        self.dob matches Some(d) ==> d.wf()
    }

    /// Every year is written with four digits.
    pub open spec fn four_digit_years(&self) -> bool {
        self.dob matches Some(d) ==> d.four_digit_year()
    }

    /// The fields of this person's stored record: what identifies its
    /// content.
    pub open spec fn storage_fields(&self) -> Seq<FieldView> {
        person_fields(
            self.first_name@,
            self.middle_name@,
            self.last_name@,
            texts_view(self.nicks@),
            dob_value(self.dob),
            nullable_text(self.home_phone),
            nullable_text(self.work_phone),
            nullable_text(self.mobile_phone),
            self.sex,
            self.notes@,
            self.emergency_contact@,
        )
    }

    /// The stored form of this person: every field is copied through and
    /// the date of birth is written as text.
    pub fn to_storage(self) -> (r: PersonImpl)
        requires
            self.wf(),
        ensures
            r.fields() == self.storage_fields(),
            r.first_name == self.first_name,
            r.middle_name == self.middle_name,
            r.last_name == self.last_name,
            r.nicks == self.nicks,
            r.home_phone == self.home_phone,
            r.work_phone == self.work_phone,
            r.mobile_phone == self.mobile_phone,
            r.sex == self.sex,
            r.notes == self.notes,
            r.emergency_contact == self.emergency_contact,
            self.dob is None <==> r.dob is None,
            self.dob matches Some(d) ==> r.dob matches Some(t) && (d.four_digit_year() ==> t@
                == d.iso_text()),
    {
        let dob = match &self.dob {
            Some(d) => Some(d.to_text()),
            None => None,
        };
        PersonImpl {
            first_name: self.first_name,
            middle_name: self.middle_name,
            last_name: self.last_name,
            nicks: self.nicks,
            dob: dob,
            home_phone: self.home_phone,
            work_phone: self.work_phone,
            mobile_phone: self.mobile_phone,
            sex: self.sex,
            notes: self.notes,
            emergency_contact: self.emergency_contact,
        }
    }

    /// Whether every date of birth exists.
    pub fn is_valid(&self) -> (r: bool)
        ensures
            r == self.wf(),
    {
        match &self.dob {
            Some(d) => d.is_valid(),
            None => true,
        }
    }

    /// A copy of the same content.
    pub fn duplicate(&self) -> (r: Person)
        ensures
            r.storage_fields() == self.storage_fields(),
            r.dob == self.dob,
    {
        Person {
            first_name: self.first_name.clone(),
            middle_name: self.middle_name.clone(),
            last_name: self.last_name.clone(),
            nicks: clone_texts(&self.nicks),
            dob: self.dob,
            home_phone: clone_opt_text(&self.home_phone),
            work_phone: clone_opt_text(&self.work_phone),
            mobile_phone: clone_opt_text(&self.mobile_phone),
            sex: self.sex,
            notes: self.notes.clone(),
            emergency_contact: self.emergency_contact.clone(),
        }
    }

    /// The filter that finds the stored record of this person by content.
    pub fn content_filter(&self) -> (r: Document)
        requires
            self.wf(),
        ensures
            r@ == self.storage_fields(),
    {
        let copy = self.duplicate();
        Document { entries: copy.to_storage().into_entries() }
    }
}

/// The person a stored record is read as, unless its date text is
/// unreadable.
pub open spec fn read_person(s: PersonImpl) -> Option<Person> {
    let dob = match s.dob {
        Some(t) => read_date(t@),
        None => None,
    };
    if s.dob is Some && dob is None {
        None
    } else {
        Some(
            Person {
                first_name: s.first_name,
                middle_name: s.middle_name,
                last_name: s.last_name,
                nicks: s.nicks,
                dob: dob,
                home_phone: s.home_phone,
                work_phone: s.work_phone,
                mobile_phone: s.mobile_phone,
                sex: s.sex,
                notes: s.notes,
                emergency_contact: s.emergency_contact,
            },
        )
    }
}

impl PersonImpl {
    /// Reads a stored record back into a person; fails when its date of
    /// birth cannot be read.
    pub fn to_domain(self) -> (r: Result<Person, CosiError>)
        ensures
            r is Ok <==> read_person(self) is Some,
            r matches Ok(p) ==> read_person(self) == Some(p) && p.wf(),
            r matches Err(e) ==> e == CosiError::MalformedRecord,
    {
        let dob = match &self.dob {
            Some(t) => match Date::parse(t.as_str()) {
                Ok(d) => Some(d),
                Err(e) => return Err(e),
            },
            None => None,
        };
        Ok(
            Person {
                first_name: self.first_name,
                middle_name: self.middle_name,
                last_name: self.last_name,
                nicks: self.nicks,
                dob: dob,
                home_phone: self.home_phone,
                work_phone: self.work_phone,
                mobile_phone: self.mobile_phone,
                sex: self.sex,
                notes: self.notes,
                emergency_contact: self.emergency_contact,
            },
        )
    }
}

impl COSIForm for PersonImpl {
    open spec fn fields(&self) -> Seq<FieldView> {
        person_fields(
            self.first_name@,
            self.middle_name@,
            self.last_name@,
            texts_view(self.nicks@),
            nullable_text(self.dob),
            nullable_text(self.home_phone),
            nullable_text(self.work_phone),
            nullable_text(self.mobile_phone),
            self.sex,
            self.notes@,
            self.emergency_contact@,
        )
    }

    open spec fn insert_issue(&self) -> Option<CosiError> {
        dob_issue(self.dob)
    }

    fn into_entries(self) -> (r: Vec<Entry>) {
        let mut d: Vec<Entry> = Vec::new();
        push_field(&mut d, "first_name", Some(text_value(self.first_name)));
        push_field(&mut d, "middle_name", Some(text_value(self.middle_name)));
        push_field(&mut d, "last_name", Some(text_value(self.last_name)));
        push_field(&mut d, "nicks", Some(Value::TextList(self.nicks)));
        push_field(&mut d, "dob", Some(nullable(self.dob)));
        push_field(&mut d, "home_phone", Some(nullable(self.home_phone)));
        push_field(&mut d, "work_phone", Some(nullable(self.work_phone)));
        push_field(&mut d, "mobile_phone", Some(nullable(self.mobile_phone)));
        push_field(&mut d, "sex", Some(Value::Sex(self.sex)));
        push_field(&mut d, "notes", Some(text_value(self.notes)));
        push_field(&mut d, "emergency_contact", Some(text_value(self.emergency_contact)));
        assert(entries_view(d@) =~= self.fields());
        d
    }

    fn check_insert(&self) -> (r: Result<(), CosiError>) {
        check_dob(&self.dob)
    }
}

impl COSIForm for PersonOptional {
    open spec fn fields(&self) -> Seq<FieldView> {
        field_spec("first_name"@, text_field(self.first_name)) + field_spec(
            "middle_name"@,
            text_field(self.middle_name),
        ) + field_spec("last_name"@, text_field(self.last_name)) + field_spec(
            "nicks"@,
            texts_field(self.nicks),
        ) + field_spec("dob"@, nullable_text_field(self.dob)) + field_spec(
            "home_phone"@,
            nullable_text_field(self.home_phone),
        ) + field_spec("work_phone"@, nullable_text_field(self.work_phone)) + field_spec(
            "mobile_phone"@,
            nullable_text_field(self.mobile_phone),
        ) + field_spec("sex"@, sex_field(self.sex)) + field_spec("notes"@, text_field(self.notes))
            + field_spec("emergency_contact"@, text_field(self.emergency_contact))
    }

    open spec fn insert_issue(&self) -> Option<CosiError> {
        match self.dob {
            Some(d) => dob_issue(d),
            None => None,
        }
    }

    fn into_entries(self) -> (r: Vec<Entry>) {
        let mut d: Vec<Entry> = Vec::new();
        push_field(&mut d, "first_name", opt_text(self.first_name));
        push_field(&mut d, "middle_name", opt_text(self.middle_name));
        push_field(&mut d, "last_name", opt_text(self.last_name));
        let nicks = match self.nicks {
            Some(n) => Some(Value::TextList(n)),
            None => None,
        };
        push_field(&mut d, "nicks", nicks);
        push_field(&mut d, "dob", opt_nullable(self.dob));
        push_field(&mut d, "home_phone", opt_nullable(self.home_phone));
        push_field(&mut d, "work_phone", opt_nullable(self.work_phone));
        push_field(&mut d, "mobile_phone", opt_nullable(self.mobile_phone));
        let sex = match self.sex {
            Some(s) => Some(Value::Sex(s)),
            None => None,
        };
        push_field(&mut d, "sex", sex);
        push_field(&mut d, "notes", opt_text(self.notes));
        push_field(&mut d, "emergency_contact", opt_text(self.emergency_contact));
        assert(entries_view(d@) =~= self.fields());
        d
    }

    fn check_insert(&self) -> (r: Result<(), CosiError>) {
        match &self.dob {
            Some(d) => check_dob(d),
            None => Ok(()),
        }
    }
}

/// Storing a person and reading the record back gives a person with the
/// same content; the stored text of a four-digit-year date reads back as
/// that date.
pub proof fn lemma_person_round_trip(p: Person, s: PersonImpl)
    requires
        p.wf(),
        p.four_digit_years(),
        s.fields() == p.storage_fields(),
    ensures
        read_person(s) matches Some(q) && q.storage_fields() == p.storage_fields() && q.dob
            == p.dob,
{
    assert(s.fields()[4] == p.storage_fields()[4]);
    match p.dob {
        Some(d) => {
            lemma_date_text_round_trip(d);
            assert(s.dob is Some);
            assert(read_date(s.dob->0@) == Some(d));
        },
        None => {},
    }
    let q = read_person(s)->0;
    assert(q.storage_fields() =~= p.storage_fields()) by {
        assert(s.fields()[0] == p.storage_fields()[0]);
        assert(s.fields()[1] == p.storage_fields()[1]);
        assert(s.fields()[2] == p.storage_fields()[2]);
        assert(s.fields()[3] == p.storage_fields()[3]);
        assert(s.fields()[5] == p.storage_fields()[5]);
        assert(s.fields()[6] == p.storage_fields()[6]);
        assert(s.fields()[7] == p.storage_fields()[7]);
        assert(s.fields()[8] == p.storage_fields()[8]);
        assert(s.fields()[9] == p.storage_fields()[9]);
        assert(s.fields()[10] == p.storage_fields()[10]);
    }
}

} // verus!

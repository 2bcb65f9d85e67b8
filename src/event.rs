use vstd::prelude::*;

use crate::calendar::{lemma_datetime_text_round_trip, read_datetime, Date, DateTime};
use crate::document::{
    entries_view, field_spec, literal, nullable, nullable_text, nullable_text_field, opt_nullable,
    opt_text, push_field, text_field, text_value, COSIForm, Document, Entry, FieldView, Value,
    ValueView,
};
use crate::error::{CosiError, RefKind};
use crate::group::Group;
use crate::household::Household;
use crate::oid::OID;
use crate::person::{read_person, Person, PersonImpl};

verus! {

#[derive(Clone, Copy, Debug, PartialEq, Eq, Structural)]
pub enum Reoccurring {
    Days,
    Weeks,
    Months,
}

#[derive(Clone, Copy, Debug, PartialEq, Eq, Structural)]
pub enum Days {
    M,
    Tu,
    W,
    Th,
    F,
    Sa,
    Su,
}

/// An event with its times.
#[derive(Debug)]
pub struct Event {
    pub meeting_days: Vec<Days>,
    pub start_datetime: DateTime,
    pub end_datetime: Option<DateTime>,
    pub freq: u8,
    pub reoccuring: Option<Reoccurring>,
}

/// An event as stored: its times are `YYYY-MM-DD HH:MM:SS` texts.
#[derive(Debug)]
pub struct EventImpl {
    pub meeting_days: Vec<Days>,
    pub start_datetime: String,
    pub end_datetime: Option<String>,
    pub freq: u8,
    pub reoccuring: Option<Reoccurring>,
}

/// A partial event: a search filter or a partial update.
#[derive(Debug)]
pub struct EventOptional {
    pub meeting_days: Option<Vec<Days>>,
    pub start_datetime: Option<String>,
    pub end_datetime: Option<Option<String>>,
    pub freq: Option<u8>,
    pub reoccuring: Option<Reoccurring>,
}

pub open spec fn recurrence_value(r: Option<Reoccurring>) -> ValueView {
    match r {
        Some(x) => ValueView::Recurrence(x),
        None => ValueView::Null,
    }
}

pub open spec fn datetime_value(t: Option<DateTime>) -> ValueView {
    match t {
        Some(x) => ValueView::Text(x.text()),
        None => ValueView::Null,
    }
}

pub open spec fn event_fields(
    days: Seq<Days>,
    start: Seq<char>,
    end: ValueView,
    freq: u8,
    reoccuring: Option<Reoccurring>,
) -> Seq<FieldView> {
    seq![
        ("meeting_days"@, ValueView::DayList(days)),
        ("start_datetime"@, ValueView::Text(start)),
        ("end_datetime"@, end),
        ("freq"@, ValueView::Int(freq as int)),
        ("reoccuring"@, recurrence_value(reoccuring)),
    ]
}

impl Event {
    pub open spec fn wf(&self) -> bool {
        &&& self.start_datetime.wf()
        &&& self.end_datetime matches Some(t) ==> t.wf()
    }

    pub open spec fn four_digit_years(&self) -> bool {
        &&& self.start_datetime.date.four_digit_year()
        &&& self.end_datetime matches Some(t) ==> t.date.four_digit_year()
    }

    /// The fields of this event's stored record.
    pub open spec fn storage_fields(&self) -> Seq<FieldView> {
        event_fields(
            self.meeting_days@,
            self.start_datetime.text(),
            datetime_value(self.end_datetime),
            self.freq,
            self.reoccuring,
        )
    }

    /// The stored form of this event: the times are written as text.
    pub fn to_storage(self) -> (r: EventImpl)
        requires
            self.wf(),
        ensures
            r.fields() == self.storage_fields(),
            r.meeting_days == self.meeting_days,
            r.freq == self.freq,
            r.reoccuring == self.reoccuring,
    {
        let start = self.start_datetime.to_text();
        let end = match &self.end_datetime {
            Some(t) => Some(t.to_text()),
            None => None,
        };
        EventImpl {
            meeting_days: self.meeting_days,
            start_datetime: start,
            end_datetime: end,
            freq: self.freq,
            reoccuring: self.reoccuring,
        }
    }

    /// Whether its times exist.
    pub fn is_valid(&self) -> (r: bool)
        ensures
            r == self.wf(),
    {
        self.start_datetime.is_valid() && match &self.end_datetime {
            Some(t) => t.is_valid(),
            None => true,
        }
    }

    /// The filter that finds the stored record of this event by content.
    pub fn content_filter(&self) -> (r: Document)
        requires
            self.wf(),
        ensures
            r@ == self.storage_fields(),
    {
        let copy = Event {
            meeting_days: self.meeting_days.clone(),
            start_datetime: self.start_datetime,
            end_datetime: self.end_datetime,
            freq: self.freq,
            reoccuring: self.reoccuring,
        };
        assert(copy.meeting_days@ =~= self.meeting_days@);
        Document { entries: copy.to_storage().into_entries() }
    }
}

impl Default for Event {
    fn default() -> (r: Event)
        ensures
            r.meeting_days@ == Seq::<Days>::empty(),
            r.start_datetime == (DateTime {
                date: Date { year: 2020, month: 6, day: 7 },
                hour: 7,
                minute: 7,
                second: 7,
            }),
            r.end_datetime is None,
            r.freq == 0,
            r.reoccuring is None,
            r.wf(),
    {
        Event {
            meeting_days: Vec::new(),
            start_datetime: DateTime {
                date: Date { year: 2020, month: 6, day: 7 },
                hour: 7,
                minute: 7,
                second: 7,
            },
            end_datetime: None,
            freq: 0,
            reoccuring: None,
        }
    }
}

/// The event a stored record is read as, unless one of its times is
/// unreadable.
pub open spec fn read_event(e: EventImpl) -> Option<Event> {
    let end = match e.end_datetime {
        Some(t) => read_datetime(t@),
        None => None,
    };
    if read_datetime(e.start_datetime@) is None || (e.end_datetime is Some && end is None) {
        None
    } else {
        Some(
            Event {
                meeting_days: e.meeting_days,
                start_datetime: read_datetime(e.start_datetime@)->0,
                end_datetime: end,
                freq: e.freq,
                reoccuring: e.reoccuring,
            },
        )
    }
}

impl EventImpl {
    /// Reads a stored event back; fails when one of its times cannot be read.
    pub fn to_domain(self) -> (r: Result<Event, CosiError>)
        ensures
            r is Ok <==> read_event(self) is Some,
            r matches Ok(e) ==> read_event(self) == Some(e) && e.wf(),
            r matches Err(e) ==> e == CosiError::MalformedRecord,
    {
        let start = match DateTime::parse(self.start_datetime.as_str()) {
            Ok(t) => t,
            Err(e) => return Err(e),
        };
        let end = match &self.end_datetime {
            Some(t) => match DateTime::parse(t.as_str()) {
                Ok(x) => Some(x),
                Err(e) => return Err(e),
            },
            None => None,
        };
        Ok(
            Event {
                meeting_days: self.meeting_days,
                start_datetime: start,
                end_datetime: end,
                freq: self.freq,
                reoccuring: self.reoccuring,
            },
        )
    }
}

impl COSIForm for EventImpl {
    open spec fn fields(&self) -> Seq<FieldView> {
        event_fields(
            self.meeting_days@,
            self.start_datetime@,
            nullable_text(self.end_datetime),
            self.freq,
            self.reoccuring,
        )
    }

    open spec fn insert_issue(&self) -> Option<CosiError> {
        None
    }

    fn into_entries(self) -> (r: Vec<Entry>) {
        let mut d: Vec<Entry> = Vec::new();
        push_field(&mut d, "meeting_days", Some(Value::DayList(self.meeting_days)));
        push_field(&mut d, "start_datetime", Some(text_value(self.start_datetime)));
        push_field(&mut d, "end_datetime", Some(nullable(self.end_datetime)));
        push_field(&mut d, "freq", Some(Value::Int(self.freq as i64)));
        let rec = match self.reoccuring {
            Some(x) => Value::Recurrence(x),
            None => Value::Null,
        };
        push_field(&mut d, "reoccuring", Some(rec));
        assert(entries_view(d@) =~= self.fields());
        d
    }

    fn check_insert(&self) -> (r: Result<(), CosiError>) {
        Ok(())
    }
}

impl COSIForm for EventOptional {
    open spec fn fields(&self) -> Seq<FieldView> {
        field_spec(
            "meeting_days"@,
            match self.meeting_days {
                Some(d) => Some(ValueView::DayList(d@)),
                None => None,
            },
        ) + field_spec("start_datetime"@, text_field(self.start_datetime)) + field_spec(
            "end_datetime"@,
            nullable_text_field(self.end_datetime),
        ) + field_spec(
            "freq"@,
            match self.freq {
                Some(f) => Some(ValueView::Int(f as int)),
                None => None,
            },
        ) + field_spec(
            "reoccuring"@,
            match self.reoccuring {
                Some(x) => Some(ValueView::Recurrence(x)),
                None => None,
            },
        )
    }

    open spec fn insert_issue(&self) -> Option<CosiError> {
        None
    }

    fn into_entries(self) -> (r: Vec<Entry>) {
        let mut d: Vec<Entry> = Vec::new();
        let days = match self.meeting_days {
            Some(x) => Some(Value::DayList(x)),
            None => None,
        };
        push_field(&mut d, "meeting_days", days);
        push_field(&mut d, "start_datetime", opt_text(self.start_datetime));
        push_field(&mut d, "end_datetime", opt_nullable(self.end_datetime));
        let freq = match self.freq {
            Some(f) => Some(Value::Int(f as i64)),
            None => None,
        };
        push_field(&mut d, "freq", freq);
        let rec = match self.reoccuring {
            Some(x) => Some(Value::Recurrence(x)),
            None => None,
        };
        push_field(&mut d, "reoccuring", rec);
        assert(entries_view(d@) =~= self.fields());
        d
    }

    fn check_insert(&self) -> (r: Result<(), CosiError>) {
        Ok(())
    }
}

/// Storing an event and reading the record back gives an event with the
/// same content.
pub proof fn lemma_event_round_trip(e: Event, s: EventImpl)
    requires
        e.wf(),
        e.four_digit_years(),
        s.fields() == e.storage_fields(),
    ensures
        read_event(s) matches Some(q) && q.storage_fields() == e.storage_fields()
            && q.start_datetime == e.start_datetime && q.end_datetime == e.end_datetime,
{
    assert(s.fields()[1] == e.storage_fields()[1]);
    assert(s.fields()[2] == e.storage_fields()[2]);
    lemma_datetime_text_round_trip(e.start_datetime);
    match e.end_datetime {
        Some(t) => {
            lemma_datetime_text_round_trip(t);
            assert(s.end_datetime is Some);
        },
        None => {},
    }
    let q = read_event(s)->0;
    assert(q.storage_fields() =~= e.storage_fields()) by {
        assert(s.fields()[0] == e.storage_fields()[0]);
        assert(s.fields()[3] == e.storage_fields()[3]);
        assert(s.fields()[4] == e.storage_fields()[4]);
    }
}

} // verus!

verus! {

/// Which kind of party an event registration registers.
#[derive(Clone, Copy, Debug, PartialEq, Eq, Structural)]
pub enum EventKeyType {
    Group,
    Household,
    Person,
}

/// The collection a discriminator points into.
pub open spec fn key_kind(k: EventKeyType) -> RefKind {
    match k {
        EventKeyType::Group => RefKind::Group,
        EventKeyType::Household => RefKind::Household,
        EventKeyType::Person => RefKind::Person,
    }
}

/// A registration of a person, a group or a household to an event; the
/// discriminator says which.
#[derive(Debug)]
pub struct EventRegistration {
    pub event: Event,
    pub timestamp: DateTime,
    pub person: Option<Person>,
    pub group: Option<Group>,
    pub household: Option<Household>,
    pub key_type: EventKeyType,
}

/// A registration as stored: the event and the registered party by id.
#[derive(Debug)]
pub struct EventRegistrationImpl {
    pub event: OID,
    pub timestamp: String,
    pub person: Option<OID>,
    pub group: Option<OID>,
    pub household: Option<OID>,
    pub key_type: EventKeyType,
}

/// A partial registration: a search filter or a partial update.
#[derive(Debug)]
pub struct EventRegistrationOptional {
    pub event: Option<Option<OID>>,
    pub timestamp: Option<String>,
    pub person: Option<Option<OID>>,
    pub group: Option<Option<OID>>,
    pub household: Option<Option<OID>>,
    pub key_type: Option<EventKeyType>,
}

/// Exactly one of the three references is present, the one the
/// discriminator names.
pub open spec fn one_reference<P, G, H>(
    key: EventKeyType,
    person: Option<P>,
    group: Option<G>,
    household: Option<H>,
) -> bool {
    match key {
        EventKeyType::Person => person is Some && group is None && household is None,
        EventKeyType::Group => person is None && group is Some && household is None,
        EventKeyType::Household => person is None && group is None && household is Some,
    }
}

impl EventRegistration {
    pub open spec fn consistent(&self) -> bool {
        one_reference(self.key_type, self.person, self.group, self.household)
    }

    /// The times and dates it holds exist.
    pub open spec fn wf(&self) -> bool {
        &&& self.event.wf()
        &&& self.timestamp.wf()
        &&& self.person matches Some(p) ==> p.wf()
        &&& self.household matches Some(h) ==> h.wf()
    }

    /// Whether the times and dates it holds exist.
    pub fn is_valid(&self) -> (r: bool)
        ensures
            r == self.wf(),
    {
        self.event.is_valid() && self.timestamp.is_valid() && match &self.person {
            Some(p) => p.is_valid(),
            None => true,
        } && match &self.household {
            Some(h) => h.is_valid(),
            None => true,
        }
    }

    /// Checks that exactly one party is present and that it is the one the
    /// discriminator names.
    pub fn check_consistent(&self) -> (r: Result<(), CosiError>)
        ensures
            r is Ok <==> self.consistent(),
            r matches Err(e) ==> e == CosiError::Discriminator,
    {
        let ok = match self.key_type {
            EventKeyType::Person => self.person.is_some() && self.group.is_none()
                && self.household.is_none(),
            EventKeyType::Group => self.person.is_none() && self.group.is_some()
                && self.household.is_none(),
            EventKeyType::Household => self.person.is_none() && self.group.is_none()
                && self.household.is_some(),
        };
        if ok {
            Ok(())
        } else {
            Err(CosiError::Discriminator)
        }
    }

    /// The stored form of this registration, given the ids that the content
    /// lookups of its event (`event_id`) and of its registered party
    /// (`target_id`) found. A registration whose parties disagree with its
    /// discriminator is refused, and a lookup that found nothing fails the
    /// conversion.
    pub fn to_storage(self, event_id: Option<OID>, target_id: Option<OID>) -> (r: Result<
        EventRegistrationImpl,
        CosiError,
    >)
        requires
            self.wf(),
        ensures
            !self.consistent() ==> r == Err::<EventRegistrationImpl, CosiError>(
                CosiError::Discriminator,
            ),
            self.consistent() && event_id is None ==> r == Err::<EventRegistrationImpl, CosiError>(
                CosiError::Resolution(RefKind::Event),
            ),
            self.consistent() && event_id is Some && target_id is None ==> r == Err::<
                EventRegistrationImpl,
                CosiError,
            >(CosiError::Resolution(key_kind(self.key_type))),
            self.consistent() && event_id is Some && target_id is Some ==> (r matches Ok(s)
                && registration_stored(self, event_id->0, target_id->0, s)),
            r matches Ok(s) ==> s.wf(),
    {
        match self.check_consistent() {
            Ok(()) => {},
            Err(e) => return Err(e),
        }
        let event = match event_id {
            Some(e) => e,
            None => return Err(CosiError::Resolution(RefKind::Event)),
        };
        let target = match target_id {
            Some(t) => t,
            None => {
                let kind = match self.key_type {
                    EventKeyType::Group => RefKind::Group,
                    EventKeyType::Household => RefKind::Household,
                    EventKeyType::Person => RefKind::Person,
                };
                return Err(CosiError::Resolution(kind));
            },
        };
        let timestamp = self.timestamp.to_text();
        let (person, group, household) = match self.key_type {
            EventKeyType::Person => (Some(target), None, None),
            EventKeyType::Group => (None, Some(target), None),
            EventKeyType::Household => (None, None, Some(target)),
        };
        Ok(
            EventRegistrationImpl {
                event: event,
                timestamp: timestamp,
                person: person,
                group: group,
                household: household,
                key_type: self.key_type,
            },
        )
    }
}

/// `s` is the stored form of `reg` with the given event and party ids.
pub open spec fn registration_stored(
    reg: EventRegistration,
    event_id: OID,
    target_id: OID,
    s: EventRegistrationImpl,
) -> bool {
    &&& s.event == event_id
    &&& s.timestamp@ == reg.timestamp.text()
    &&& s.key_type == reg.key_type
    &&& match reg.key_type {
        EventKeyType::Person => s.person == Some(target_id) && s.group is None && s.household is None,
        EventKeyType::Group => s.person is None && s.group == Some(target_id) && s.household is None,
        EventKeyType::Household => s.person is None && s.group is None && s.household == Some(
            target_id,
        ),
    }
}

/// The record that the lookup of a registration's party found.
#[derive(Debug)]
pub enum Referent {
    /// A stored person record.
    Person(PersonImpl),
    /// A stored group record.
    Group(Group),
    /// A household already read back with its own references.
    Household(Household),
}

pub open spec fn referent_kind(t: Referent) -> EventKeyType {
    match t {
        Referent::Person(_) => EventKeyType::Person,
        Referent::Group(_) => EventKeyType::Group,
        Referent::Household(_) => EventKeyType::Household,
    }
}

/// The first reason a stored registration cannot be read back with the
/// given records, if any.
pub open spec fn registration_read_issue(
    s: EventRegistrationImpl,
    event: Option<EventImpl>,
    target: Option<Referent>,
) -> Option<CosiError> {
    if !s.wf() {
        Some(CosiError::Discriminator)
    } else if event is None {
        Some(CosiError::Integrity(RefKind::Event))
    } else if target is None {
        Some(CosiError::Integrity(key_kind(s.key_type)))
    } else if referent_kind(target->0) != s.key_type {
        Some(CosiError::Discriminator)
    } else if read_event(event->0) is None {
        Some(CosiError::MalformedRecord)
    } else if read_datetime(s.timestamp@) is None {
        Some(CosiError::MalformedRecord)
    } else if target->0 matches Referent::Person(p) && read_person(p) is None {
        Some(CosiError::MalformedRecord)
    } else {
        None
    }
}

/// `reg` is what `s` reads as with the given event record and party.
pub open spec fn registration_read(
    s: EventRegistrationImpl,
    event: EventImpl,
    target: Referent,
    reg: EventRegistration,
) -> bool {
    &&& read_event(event) == Some(reg.event)
    &&& read_datetime(s.timestamp@) == Some(reg.timestamp)
    &&& reg.key_type == s.key_type
    &&& match target {
        Referent::Person(p) => reg.person == read_person(p) && reg.group is None && reg.household is None,
        Referent::Group(g) => reg.person is None && reg.group == Some(g) && reg.household is None,
        Referent::Household(h) => reg.person is None && reg.group is None && reg.household == Some(h),
    }
}

impl EventRegistrationImpl {
    /// A persisted registration holds exactly the reference its
    /// discriminator names.
    pub open spec fn wf(&self) -> bool {
        one_reference(self.key_type, self.person, self.group, self.household)
    }

    /// The id of the registered party and the collection it lives in.
    pub fn target(&self) -> (r: Result<(EventKeyType, OID), CosiError>)
        ensures
            r is Ok <==> self.wf(),
            r matches Ok((k, id)) ==> k == self.key_type && match k {
                EventKeyType::Person => self.person == Some(id),
                EventKeyType::Group => self.group == Some(id),
                EventKeyType::Household => self.household == Some(id),
            },
            r matches Err(e) ==> e == CosiError::Discriminator,
    {
        let consistent = match self.key_type {
            EventKeyType::Person => self.person.is_some() && self.group.is_none()
                && self.household.is_none(),
            EventKeyType::Group => self.person.is_none() && self.group.is_some()
                && self.household.is_none(),
            EventKeyType::Household => self.person.is_none() && self.group.is_none()
                && self.household.is_some(),
        };
        if !consistent {
            return Err(CosiError::Discriminator);
        }
        match self.key_type {
            EventKeyType::Person => Ok((EventKeyType::Person, self.person.unwrap())),
            EventKeyType::Group => Ok((EventKeyType::Group, self.group.unwrap())),
            EventKeyType::Household => Ok((EventKeyType::Household, self.household.unwrap())),
        }
    }

    /// Reads a stored registration back, given the record that the lookup
    /// of its event id found and the party that the lookup of its target id
    /// found. A record whose references disagree with its discriminator is
    /// refused, and an id that resolves to nothing fails the conversion.
    pub fn to_domain(self, event: Option<EventImpl>, target: Option<Referent>) -> (r: Result<
        EventRegistration,
        CosiError,
    >)
        ensures
            r is Err <==> registration_read_issue(self, event, target) is Some,
            r matches Err(e) ==> registration_read_issue(self, event, target) == Some(e),
            r matches Ok(reg) ==> registration_read(self, event->0, target->0, reg)
                && reg.consistent(),
    {
        let key = match self.target() {
            Ok((k, _)) => k,
            Err(e) => return Err(e),
        };
        let event = match event {
            Some(e) => e,
            None => return Err(CosiError::Integrity(RefKind::Event)),
        };
        let target = match target {
            Some(t) => t,
            None => {
                let kind = match key {
                    EventKeyType::Group => RefKind::Group,
                    EventKeyType::Household => RefKind::Household,
                    EventKeyType::Person => RefKind::Person,
                };
                return Err(CosiError::Integrity(kind));
            },
        };
        let target_key = match &target {
            Referent::Person(_) => EventKeyType::Person,
            Referent::Group(_) => EventKeyType::Group,
            Referent::Household(_) => EventKeyType::Household,
        };
        if target_key != key {
            return Err(CosiError::Discriminator);
        }
        let event = match event.to_domain() {
            Ok(e) => e,
            Err(e) => return Err(e),
        };
        let timestamp = match DateTime::parse(self.timestamp.as_str()) {
            Ok(t) => t,
            Err(e) => return Err(e),
        };
        let (person, group, household) = match target {
            Referent::Person(p) => match p.to_domain() {
                Ok(q) => (Some(q), None, None),
                Err(e) => return Err(e),
            },
            Referent::Group(g) => (None, Some(g), None),
            Referent::Household(h) => (None, None, Some(h)),
        };
        Ok(
            EventRegistration {
                event: event,
                timestamp: timestamp,
                person: person,
                group: group,
                household: household,
                key_type: key,
            },
        )
    }
}

pub open spec fn nullable_id(v: Option<OID>) -> ValueView {
    match v {
        Some(o) => ValueView::Id(o),
        None => ValueView::Null,
    }
}

pub open spec fn nullable_id_field(v: Option<Option<OID>>) -> Option<ValueView> {
    match v {
        Some(x) => Some(nullable_id(x)),
        None => None,
    }
}

fn id_value(v: Option<OID>) -> (r: Value)
    ensures
        r@ == nullable_id(v),
{
    match v {
        Some(o) => Value::Id(o),
        None => Value::Null,
    }
}

fn opt_id_value(v: Option<Option<OID>>) -> (r: Option<Value>)
    ensures
        crate::document::opt_view(r) == nullable_id_field(v),
{
    match v {
        Some(x) => Some(id_value(x)),
        None => None,
    }
}

impl COSIForm for EventRegistrationImpl {
    open spec fn fields(&self) -> Seq<FieldView> {
        seq![
            ("event"@, ValueView::Id(self.event)),
            ("timestamp"@, ValueView::Text(self.timestamp@)),
            ("person"@, nullable_id(self.person)),
            ("group"@, nullable_id(self.group)),
            ("household"@, nullable_id(self.household)),
            ("key_type"@, ValueView::KeyType(self.key_type)),
        ]
    }

    /// A registration is only written when its discriminator matches its
    /// one present reference.
    open spec fn insert_issue(&self) -> Option<CosiError> {
        if self.wf() {
            None
        } else {
            Some(CosiError::Discriminator)
        }
    }

    fn into_entries(self) -> (r: Vec<Entry>) {
        let mut d: Vec<Entry> = Vec::new();
        push_field(&mut d, "event", Some(Value::Id(self.event)));
        push_field(&mut d, "timestamp", Some(text_value(self.timestamp)));
        push_field(&mut d, "person", Some(id_value(self.person)));
        push_field(&mut d, "group", Some(id_value(self.group)));
        push_field(&mut d, "household", Some(id_value(self.household)));
        push_field(&mut d, "key_type", Some(Value::KeyType(self.key_type)));
        assert(entries_view(d@) =~= self.fields());
        d
    }

    fn check_insert(&self) -> (r: Result<(), CosiError>) {
        match self.target() {
            Ok(_) => Ok(()),
            Err(e) => Err(e),
        }
    }
}

impl COSIForm for EventRegistrationOptional {
    open spec fn fields(&self) -> Seq<FieldView> {
        field_spec("event"@, nullable_id_field(self.event)) + field_spec(
            "timestamp"@,
            text_field(self.timestamp),
        ) + field_spec("person"@, nullable_id_field(self.person)) + field_spec(
            "group"@,
            nullable_id_field(self.group),
        ) + field_spec("household"@, nullable_id_field(self.household)) + field_spec(
            "key_type"@,
            match self.key_type {
                Some(k) => Some(ValueView::KeyType(k)),
                None => None,
            },
        )
    }

    open spec fn insert_issue(&self) -> Option<CosiError> {
        None
    }

    fn into_entries(self) -> (r: Vec<Entry>) {
        let mut d: Vec<Entry> = Vec::new();
        push_field(&mut d, "event", opt_id_value(self.event));
        push_field(&mut d, "timestamp", opt_text(self.timestamp));
        push_field(&mut d, "person", opt_id_value(self.person));
        push_field(&mut d, "group", opt_id_value(self.group));
        push_field(&mut d, "household", opt_id_value(self.household));
        let key = match self.key_type {
            Some(k) => Some(Value::KeyType(k)),
            None => None,
        };
        push_field(&mut d, "key_type", key);
        assert(entries_view(d@) =~= self.fields());
        d
    }

    fn check_insert(&self) -> (r: Result<(), CosiError>) {
        Ok(())
    }
}

} // verus!

verus! {

/// Exactly one of the three references is present, and the discriminator
/// names it.
pub open spec fn exactly_one_matching(s: EventRegistrationImpl) -> bool {
    &&& (if s.person is Some {
        1int
    } else {
        0int
    }) + (if s.group is Some {
        1int
    } else {
        0int
    }) + (if s.household is Some {
        1int
    } else {
        0int
    }) == 1
    &&& s.key_type == EventKeyType::Person ==> s.person is Some
    &&& s.key_type == EventKeyType::Group ==> s.group is Some
    &&& s.key_type == EventKeyType::Household ==> s.household is Some
}

/// Every registration that can be persisted, whether it is the stored form
/// of a registration or a record submitted for insertion, holds exactly one
/// reference, the one its discriminator names.
pub proof fn lemma_persisted_registration(
    reg: EventRegistration,
    event_id: OID,
    target_id: OID,
    s: EventRegistrationImpl,
)
    requires
        registration_stored(reg, event_id, target_id, s) || s.insert_issue() is None,
    ensures
        s.wf(),
        exactly_one_matching(s),
{
}

/// The party handed to the read-back has the content of the registration's
/// party.
pub open spec fn party_matches(reg: EventRegistration, target: Referent) -> bool {
    match reg.key_type {
        EventKeyType::Person => target matches Referent::Person(p) && p.fields()
            == reg.person->0.storage_fields(),
        EventKeyType::Group => target matches Referent::Group(g) && g.fields() == reg.group->0.fields(),
        EventKeyType::Household => target matches Referent::Household(h) && h.same_content(
            reg.household->0,
        ),
    }
}

/// Two registrations register parties of the same content.
pub open spec fn same_party(a: EventRegistration, b: EventRegistration) -> bool {
    match a.key_type {
        EventKeyType::Person => a.person->0.storage_fields() == b.person->0.storage_fields(),
        EventKeyType::Group => a.group->0.fields() == b.group->0.fields(),
        EventKeyType::Household => a.household->0.same_content(b.household->0),
    }
}

/// Storing a registration and reading it back succeeds and gives a
/// registration of the same event content, time, discriminator and party
/// content, when the content lookups found records of that content and the
/// id lookups return them.
pub proof fn lemma_registration_round_trip(
    reg: EventRegistration,
    event_id: OID,
    target_id: OID,
    event_rec: EventImpl,
    target: Referent,
    s: EventRegistrationImpl,
)
    requires
        reg.wf(),
        reg.consistent(),
        reg.event.four_digit_years(),
        reg.timestamp.date.four_digit_year(),
        reg.person matches Some(p) ==> p.four_digit_years(),
        event_rec.fields() == reg.event.storage_fields(),
        party_matches(reg, target),
        registration_stored(reg, event_id, target_id, s),
    ensures
        registration_read_issue(s, Some(event_rec), Some(target)) is None,
        forall|back: EventRegistration|
            #[trigger] registration_read(s, event_rec, target, back) ==> back.event.storage_fields()
                == reg.event.storage_fields() && back.timestamp == reg.timestamp && back.key_type
                == reg.key_type && back.consistent() && same_party(back, reg),
{
    lemma_event_round_trip(reg.event, event_rec);
    lemma_datetime_text_round_trip(reg.timestamp);
    match target {
        Referent::Person(p) => {
            crate::person::lemma_person_round_trip(reg.person->0, p);
        },
        _ => {},
    }
    assert forall|back: EventRegistration| #[trigger]
        registration_read(s, event_rec, target, back) implies back.event.storage_fields()
        == reg.event.storage_fields() && back.timestamp == reg.timestamp && back.key_type
        == reg.key_type && back.consistent() && same_party(back, reg) by {
        match target {
            Referent::Person(p) => {
                crate::person::lemma_person_round_trip(reg.person->0, p);
            },
            _ => {},
        }
    }
}

/// A stored record whose single-valued reference resolves to nothing is
/// never read back with a missing or made-up object: the conversion fails
/// with an integrity error for that reference.
pub proof fn lemma_dangling_reference_is_fatal(
    s: EventRegistrationImpl,
    event: EventImpl,
    target: Option<Referent>,
    membership: crate::group::GroupRelationImpl,
    person: PersonImpl,
    group: Option<Group>,
)
    requires
        s.wf(),
    ensures
        registration_read_issue(s, None, target) == Some(CosiError::Integrity(RefKind::Event)),
        registration_read_issue(s, Some(event), None) == Some(
            CosiError::Integrity(key_kind(s.key_type)),
        ),
        crate::group::relation_to_domain(membership, None, group) == Err::<
            crate::group::GroupRelation,
            CosiError,
        >(CosiError::Integrity(RefKind::Person)),
        crate::group::relation_to_domain(membership, Some(person), None) == Err::<
            crate::group::GroupRelation,
            CosiError,
        >(CosiError::Integrity(RefKind::Group)),
{
}

} // verus!

use vstd::prelude::*;

use crate::address::Address;
use crate::calendar::{Date, DateTime};
use crate::document::literal;
use crate::event::{Days, Event};
use crate::group::Group;
use crate::household::{HouseRelation, HouseRelationStatus, Household};
use crate::oid::OID;
use crate::person::{Person, Sex};

verus! {

/// The lorem ipsum text of `n` words that lipsum generates from a seed.
pub uninterp spec fn lipsum_text(n: int, seed: int) -> Seq<char>;

/// Relies on lipsum's `lipsum_words_from_seed`: the text depends on the word
/// count and the seed alone.
#[verifier::external_body]
fn lipsum_words(n: usize, seed: u64) -> (r: String)
    ensures
        r@ == lipsum_text(n as int, seed as int),
{
    lipsum::lipsum_words_from_seed(n, seed)
}

/// The sex a draw from `0..3` stands for.
pub fn sex_from_draw(val: u32) -> (r: Sex)
    ensures
        val == 0 ==> r == Sex::Male,
        val == 1 ==> r == Sex::Female,
        val >= 2 ==> r == Sex::Undefined,
{
    if val == 0 {
        Sex::Male
    } else if val == 1 {
        Sex::Female
    } else {
        Sex::Undefined
    }
}

/// The names drawn for one generated person.
#[derive(Debug)]
pub struct PersonNames {
    pub first: String,
    pub middle: String,
    pub last: String,
    pub nick_a: String,
    pub nick_b: String,
    pub notes: String,
    pub emergency_contact: String,
}

/// The year generated people are aged against.
pub const REFERENCE_YEAR: i32 = 2022;

impl Person {
    /// A generated person of the given age, born on the given month and day
    /// of the year `age` years before the reference year. People under 20
    /// get no nicknames; the others get the two given.
    pub fn generated(
        names: PersonNames,
        age: u8,
        month: u32,
        day: u32,
        sex: Sex,
    ) -> (r: Person)
        requires
            age < 119,
            1 <= month < 12,
            1 <= day < 28,
        ensures
            r.wf(),
            r.first_name == names.first,
            r.middle_name == names.middle,
            r.last_name == names.last,
            age < 20 ==> r.nicks@.len() == 0,
            age >= 20 ==> r.nicks@ == seq![names.nick_a, names.nick_b],
            r.dob == Some(Date { year: (REFERENCE_YEAR - age) as i32, month, day }),
            r.home_phone matches Some(p) && p@ == "7777777777"@,
            r.work_phone matches Some(p) && p@ == "9182081084"@,
            r.mobile_phone matches Some(p) && p@ == "123142525"@,
            r.sex == sex,
            r.notes == names.notes,
            r.emergency_contact == names.emergency_contact,
    {
        let mut nicks: Vec<String> = Vec::new();
        if age >= 20 {
            nicks.push(names.nick_a);
            nicks.push(names.nick_b);
        }
        assert(age >= 20 ==> nicks@ =~= seq![names.nick_a, names.nick_b]);
        Person {
            first_name: names.first,
            middle_name: names.middle,
            last_name: names.last,
            nicks: nicks,
            dob: Some(Date { year: REFERENCE_YEAR - age as i32, month, day }),
            home_phone: Some(literal("7777777777")),
            work_phone: Some(literal("9182081084")),
            mobile_phone: Some(literal("123142525")),
            sex: sex,
            notes: names.notes,
            emergency_contact: names.emergency_contact,
        }
    }
}

impl Default for Person {
    fn default() -> (r: Person)
        ensures
            r.first_name@.len() == 0,
            r.middle_name@.len() == 0,
            r.last_name@.len() == 0,
            r.nicks@.len() == 0,
            r.dob is None,
            r.home_phone is None,
            r.work_phone is None,
            r.mobile_phone is None,
            r.sex == Sex::Undefined,
            r.notes@.len() == 0,
            r.emergency_contact@.len() == 0,
    {
        Person {
            first_name: String::new(),
            middle_name: String::new(),
            last_name: String::new(),
            nicks: Vec::new(),
            dob: None,
            home_phone: None,
            work_phone: None,
            mobile_phone: None,
            sex: Sex::Undefined,
            notes: String::new(),
            emergency_contact: String::new(),
        }
    }
}

impl Address {
    /// A generated address whose parts are lorem ipsum text of one seed.
    pub fn generated(seed: u64) -> (r: Address)
        ensures
            r.line_one@ == lipsum_text(8, seed as int),
            r.line_two@ == lipsum_text(8, seed as int),
            r.line_three@ == lipsum_text(8, seed as int),
            r.city@ == lipsum_text(1, seed as int),
            r.region@ == lipsum_text(1, seed as int),
            r.postal_code matches Some(p) && p@ == lipsum_text(1, seed as int),
            r.county matches Some(c) && c@ == lipsum_text(2, seed as int),
            r.country matches Some(c) && c@ == lipsum_text(3, seed as int),
    {
        Address {
            line_one: lipsum_words(8, seed),
            line_two: lipsum_words(8, seed),
            line_three: lipsum_words(8, seed),
            city: lipsum_words(1, seed),
            region: lipsum_words(1, seed),
            postal_code: Some(lipsum_words(1, seed)),
            county: Some(lipsum_words(2, seed)),
            country: Some(lipsum_words(3, seed)),
        }
    }
}

impl Group {
    /// A generated group whose name and description are lorem ipsum text
    /// of one seed.
    pub fn generated(seed: u64) -> (r: Group)
        ensures
            r.group_name@ == lipsum_text(2, seed as int),
            r.group_desc@ == lipsum_text(3, seed as int),
    {
        Group { group_name: lipsum_words(2, seed), group_desc: lipsum_words(3, seed) }
    }
}

/// The day a generated event uses: the given month and day of the reference
/// year, capped at December and at the 28th, at 07:07:07.
pub open spec fn capped_time(month: int, day: int) -> DateTime {
    DateTime {
        date: Date {
            year: REFERENCE_YEAR,
            month: (if month < 12 {
                month
            } else {
                12
            }) as u32,
            day: (if day < 28 {
                day
            } else {
                28
            }) as u32,
        },
        hour: 7,
        minute: 7,
        second: 7,
    }
}

/// The time of a generated event or registration: `capped_time` of the
/// given month and day.
pub fn generated_time(month: u8, day: u8) -> (r: DateTime)
    requires
        month >= 1,
        day >= 1,
    ensures
        r == capped_time(month as int, day as int),
        r.wf(),
{
    let m: u32 = if month < 12 {
        month as u32
    } else {
        12
    };
    let d: u32 = if day < 28 {
        day as u32
    } else {
        28
    };
    DateTime { date: Date { year: REFERENCE_YEAR, month: m, day: d }, hour: 7, minute: 7, second: 7 }
}

impl Event {
    /// A generated multi-day event, meeting on Mondays and Wednesdays, from
    /// the given start day to `length` days later, both capped by
    /// `capped_time`.
    pub fn generated(start_month: u8, start_day: u8, length: u8) -> (r: Event)
        requires
            1 <= start_month < 12,
            2 <= start_day < 28,
            2 <= length < 17,
        ensures
            r.wf(),
            r.meeting_days@ == seq![Days::M, Days::W],
            r.start_datetime == capped_time(start_month as int, start_day as int),
            r.end_datetime == Some(capped_time(start_month as int, start_day + length)),
            r.freq == 0,
            r.reoccuring is None,
    {
        let mut days: Vec<Days> = Vec::new();
        days.push(Days::M);
        days.push(Days::W);
        assert(days@ =~= seq![Days::M, Days::W]);
        Event {
            meeting_days: days,
            start_datetime: generated_time(start_month, start_day),
            end_datetime: Some(generated_time(start_month, start_day + length)),
            freq: 0,
            reoccuring: None,
        }
    }
}

/// How many of `size` generated registrations register a person, a group
/// and a household: a third each, the rest to households.
pub fn registration_split(size: u32) -> (r: (u32, u32, u32))
    ensures
        r.0 == size / 3,
        r.1 == size / 3,
        r.0 + r.1 + r.2 == size,
{
    let person = size / 3;
    let group = size / 3;
    (person, group, size - (person + group))
}

impl Household {
    /// A generated household of one member, who relates to themself.
    pub fn generated(house_name: String, address: Address, member: Person, member_id: OID) -> (r:
        Household)
        ensures
            r.house_name == house_name,
            r.address == address,
            r.persons@ == seq![member],
            r.relations@ == seq![
                HouseRelation {
                    person_a: member_id,
                    person_b: member_id,
                    relation: HouseRelationStatus::Husband,
                },
            ],
    {
        let mut persons: Vec<Person> = Vec::new();
        persons.push(member);
        let mut relations: Vec<HouseRelation> = Vec::new();
        relations.push(
            HouseRelation {
                person_a: member_id,
                person_b: member_id,
                relation: HouseRelationStatus::Husband,
            },
        );
        assert(persons@ =~= seq![member]);
        Household { house_name, address, persons, relations }
    }
}

} // verus!

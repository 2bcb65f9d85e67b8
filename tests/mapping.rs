use cosi_db::address::Address;
use cosi_db::calendar::{Date, DateTime};
use cosi_db::document::{COSIForm, Value};
use cosi_db::error::{CosiError, RefKind};
use cosi_db::event::{
    Days, Event, EventImpl, EventKeyType, EventRegistration, EventRegistrationImpl, Referent,
};
use cosi_db::group::{Group, GroupRelation, GroupRelationImpl};
use cosi_db::household::{HouseRelation, HouseRelationStatus, Household, HouseholdImpl};
use cosi_db::listing::{relations_to_domain, Embedded};
use cosi_db::oid::{parse_oids, OID};
use cosi_db::person::{Person, PersonImpl, Sex};

fn oid(n: u8) -> OID {
    OID { bytes: [n; 12] }
}

fn person(first: &str, dob: Option<Date>) -> Person {
    Person {
        first_name: first.to_string(),
        middle_name: "M".to_string(),
        last_name: "Doe".to_string(),
        nicks: vec!["nick".to_string()],
        dob,
        home_phone: Some("7777777777".to_string()),
        work_phone: None,
        mobile_phone: None,
        sex: Sex::Female,
        notes: "note".to_string(),
        emergency_contact: "Mom".to_string(),
    }
}

fn address() -> Address {
    Address {
        line_one: "1 Main St".to_string(),
        line_two: String::new(),
        line_three: String::new(),
        city: "Town".to_string(),
        region: "Region".to_string(),
        postal_code: Some("12345".to_string()),
        county: None,
        country: None,
    }
}

fn group() -> Group {
    Group { group_name: "Choir".to_string(), group_desc: "Sings".to_string() }
}

fn date(y: i32, m: u32, d: u32) -> Date {
    Date { year: y, month: m, day: d }
}

fn event() -> Event {
    Event {
        meeting_days: vec![Days::M, Days::W],
        start_datetime: DateTime { date: date(2022, 3, 4), hour: 7, minute: 7, second: 7 },
        end_datetime: Some(DateTime { date: date(2022, 3, 9), hour: 8, minute: 0, second: 0 }),
        freq: 2,
        reoccuring: None,
    }
}

#[test]
fn person_round_trip_keeps_every_field() {
    let p = person("Jane", Some(date(1990, 2, 28)));
    let stored = person("Jane", Some(date(1990, 2, 28))).to_storage();
    assert_eq!(stored.dob, Some("1990-02-28".to_string()));
    assert_eq!(stored.notes, "note");
    assert_eq!(stored.emergency_contact, "Mom");
    let back = stored.to_domain().unwrap();
    assert_eq!(back.first_name, p.first_name);
    assert_eq!(back.middle_name, p.middle_name);
    assert_eq!(back.last_name, p.last_name);
    assert_eq!(back.nicks, p.nicks);
    assert_eq!(back.dob, p.dob);
    assert_eq!(back.home_phone, p.home_phone);
    assert_eq!(back.work_phone, p.work_phone);
    assert_eq!(back.sex, p.sex);
    assert_eq!(back.notes, p.notes);
    assert_eq!(back.emergency_contact, p.emergency_contact);
}

#[test]
fn unreadable_stored_date_is_an_error() {
    let mut stored = person("Jane", None).to_storage();
    stored.dob = Some("not a date".to_string());
    assert_eq!(stored.to_domain().unwrap_err(), CosiError::MalformedRecord);
}

#[test]
fn date_and_time_texts() {
    assert_eq!(date(1990, 2, 28).to_text(), "1990-02-28");
    assert_eq!(date(5, 1, 9).to_text(), "0005-01-09");
    assert_eq!(Date::parse("2000-02-29"), Ok(date(2000, 2, 29)));
    assert_eq!(Date::parse("2001-02-29"), Err(CosiError::MalformedRecord));
    let t = DateTime { date: date(2020, 6, 7), hour: 7, minute: 7, second: 7 };
    assert_eq!(t.to_text(), "2020-06-07 07:07:07");
    assert_eq!(DateTime::parse("2020-06-07 07:07:07"), Ok(t));
    assert_eq!(DateTime::parse("2020-06-07"), Err(CosiError::MalformedRecord));
}

#[test]
fn event_round_trip() {
    let stored = event().to_storage();
    assert_eq!(stored.start_datetime, "2022-03-04 07:07:07");
    assert_eq!(stored.end_datetime, Some("2022-03-09 08:00:00".to_string()));
    let back = stored.to_domain().unwrap();
    let e = event();
    assert_eq!(back.meeting_days, e.meeting_days);
    assert_eq!(back.start_datetime, e.start_datetime);
    assert_eq!(back.end_datetime, e.end_datetime);
    assert_eq!(back.freq, e.freq);
    assert_eq!(back.reoccuring, e.reoccuring);
}

#[test]
fn default_records() {
    let e = Event::default();
    assert_eq!(e.start_datetime.to_text(), "2020-06-07 07:07:07");
    assert!(e.meeting_days.is_empty());
    assert_eq!(Group::default().group_name, "ERR");
    assert_eq!(Address::default().city, "city");
}

#[test]
fn household_round_trip() {
    let h = Household {
        house_name: "Doe house".to_string(),
        address: address(),
        persons: vec![person("Jane", Some(date(1990, 2, 28))), person("John", None)],
        relations: vec![HouseRelation {
            person_a: oid(1),
            person_b: oid(2),
            relation: HouseRelationStatus::Husband,
        }],
    };
    let filters = h.person_filters();
    assert_eq!(filters.len(), 2);
    assert_eq!(h.name_filter().entries[0].key, "house_name");
    let stored = h.to_storage(None, Some(oid(9)), vec![Some(oid(1)), Some(oid(2))]).unwrap();
    assert_eq!(stored.house_name, "Doe house");
    assert_eq!(stored.address.bytes, oid(9).bytes);
    assert_eq!(stored.persons.iter().map(|o| o.bytes).collect::<Vec<_>>(), vec![[1u8; 12], [2u8; 12]]);
    let records = vec![
        Some(person("Jane", Some(date(1990, 2, 28))).to_storage()),
        Some(person("John", None).to_storage()),
    ];
    let back = stored.to_domain(Some(address()), records).unwrap();
    assert_eq!(back.house_name, "Doe house");
    assert_eq!(back.address.line_one, "1 Main St");
    assert_eq!(back.persons.len(), 2);
    assert_eq!(back.persons[0].first_name, "Jane");
    assert_eq!(back.persons[0].dob, Some(date(1990, 2, 28)));
    assert_eq!(back.persons[1].first_name, "John");
    assert_eq!(back.relations.len(), 1);
}

#[test]
fn household_with_existing_record_is_taken_as_is() {
    let h = Household {
        house_name: "Doe house".to_string(),
        address: address(),
        persons: vec![],
        relations: vec![],
    };
    let existing = HouseholdImpl {
        house_name: "Doe house".to_string(),
        address: oid(4),
        persons: vec![oid(5)],
        relations: vec![],
    };
    let stored = h.to_storage(Some(existing), None, vec![]).unwrap();
    assert_eq!(stored.address.bytes, [4u8; 12]);
    assert_eq!(stored.persons.len(), 1);
}

#[test]
fn household_resolution_failures() {
    let make = || Household {
        house_name: "H".to_string(),
        address: address(),
        persons: vec![person("Jane", None)],
        relations: vec![],
    };
    assert_eq!(
        make().to_storage(None, None, vec![Some(oid(1))]).unwrap_err(),
        CosiError::Resolution(RefKind::Address)
    );
    assert_eq!(
        make().to_storage(None, Some(oid(1)), vec![None]).unwrap_err(),
        CosiError::Resolution(RefKind::Person)
    );
    let stored = HouseholdImpl {
        house_name: "H".to_string(),
        address: oid(1),
        persons: vec![oid(2), oid(3)],
        relations: vec![],
    };
    assert_eq!(
        stored.to_domain(None, vec![None, None]).unwrap_err(),
        CosiError::Integrity(RefKind::Address)
    );
    let stored = HouseholdImpl {
        house_name: "H".to_string(),
        address: oid(1),
        persons: vec![oid(2), oid(3)],
        relations: vec![],
    };
    assert_eq!(
        stored.to_domain(Some(address()), vec![Some(person("A", None).to_storage()), None]).unwrap_err(),
        CosiError::Integrity(RefKind::Person)
    );
}

#[test]
fn group_relation_round_trip_and_dangling_ids() {
    let r = GroupRelation { person: person("Jane", None), group: group(), role: "alto".to_string() };
    let (pf, gf) = r.lookup_filters();
    assert_eq!(pf.entries.len(), 11);
    assert_eq!(gf.entries.len(), 2);
    let stored = r.to_storage(Some(oid(1)), Some(oid(2))).unwrap();
    assert_eq!(stored.person.bytes, [1u8; 12]);
    assert_eq!(stored.group.bytes, [2u8; 12]);
    assert_eq!(stored.role, "alto");
    let back = stored.to_domain(Some(person("Jane", None).to_storage()), Some(group())).unwrap();
    assert_eq!(back.person.first_name, "Jane");
    assert_eq!(back.group.group_name, "Choir");
    assert_eq!(back.role, "alto");

    let r = GroupRelation { person: person("Jane", None), group: group(), role: "alto".to_string() };
    assert_eq!(r.to_storage(None, Some(oid(2))).unwrap_err(), CosiError::Resolution(RefKind::Person));
    let dangling = GroupRelationImpl { person: oid(1), group: oid(2), role: String::new() };
    assert_eq!(dangling.to_domain(None, Some(group())).unwrap_err(), CosiError::Integrity(RefKind::Person));
    let dangling = GroupRelationImpl { person: oid(1), group: oid(2), role: String::new() };
    assert_eq!(
        dangling.to_domain(Some(person("A", None).to_storage()), None).unwrap_err(),
        CosiError::Integrity(RefKind::Group)
    );
}

#[test]
fn batch_conversion_fails_as_a_whole() {
    let records = vec![
        GroupRelationImpl { person: oid(1), group: oid(2), role: "a".to_string() },
        GroupRelationImpl { person: oid(3), group: oid(4), role: "b".to_string() },
    ];
    let found = vec![
        (Some(person("A", None).to_storage()), Some(group())),
        (None, Some(group())),
    ];
    assert_eq!(relations_to_domain(records, found).unwrap_err(), CosiError::Integrity(RefKind::Person));
    let records = vec![GroupRelationImpl { person: oid(1), group: oid(2), role: "a".to_string() }];
    let found = vec![(Some(person("A", None).to_storage()), Some(group()))];
    let all = relations_to_domain(records, found).unwrap();
    assert_eq!(all.len(), 1);
    assert_eq!(all[0].role, "a");
}

fn registration(key: EventKeyType) -> EventRegistration {
    EventRegistration {
        event: event(),
        timestamp: DateTime { date: date(2022, 5, 1), hour: 7, minute: 7, second: 7 },
        person: if key == EventKeyType::Person { Some(person("Jane", None)) } else { None },
        group: if key == EventKeyType::Group { Some(group()) } else { None },
        household: None,
        key_type: key,
    }
}

#[test]
fn registration_holds_exactly_its_discriminated_reference() {
    let stored = registration(EventKeyType::Group).to_storage(Some(oid(7)), Some(oid(8))).unwrap();
    assert_eq!(stored.event.bytes, [7u8; 12]);
    assert_eq!(stored.timestamp, "2022-05-01 07:07:07");
    assert!(stored.person.is_none());
    assert_eq!(stored.group.map(|o| o.bytes), Some([8u8; 12]));
    assert!(stored.household.is_none());
    assert_eq!(stored.key_type, EventKeyType::Group);
    assert_eq!(stored.target().map(|(k, o)| (k, o.bytes)), Ok((EventKeyType::Group, [8u8; 12])));

    let mut bad = registration(EventKeyType::Group);
    bad.key_type = EventKeyType::Person;
    assert_eq!(bad.to_storage(Some(oid(7)), Some(oid(8))).unwrap_err(), CosiError::Discriminator);
    let mut both = registration(EventKeyType::Person);
    both.group = Some(group());
    assert_eq!(both.to_storage(Some(oid(7)), Some(oid(8))).unwrap_err(), CosiError::Discriminator);

    assert_eq!(
        registration(EventKeyType::Person).to_storage(None, Some(oid(8))).unwrap_err(),
        CosiError::Resolution(RefKind::Event)
    );
    assert_eq!(
        registration(EventKeyType::Person).to_storage(Some(oid(7)), None).unwrap_err(),
        CosiError::Resolution(RefKind::Person)
    );
}

#[test]
fn registration_insert_refuses_inconsistent_record() {
    let r = EventRegistrationImpl {
        event: oid(1),
        timestamp: "2022-05-01 07:07:07".to_string(),
        person: Some(oid(2)),
        group: Some(oid(3)),
        household: None,
        key_type: EventKeyType::Person,
    };
    assert_eq!(r.sanitize_insert().unwrap_err(), CosiError::Discriminator);
    let r = EventRegistrationImpl {
        event: oid(1),
        timestamp: "2022-05-01 07:07:07".to_string(),
        person: Some(oid(2)),
        group: None,
        household: None,
        key_type: EventKeyType::Person,
    };
    let d = r.sanitize_insert().unwrap();
    assert_eq!(d.entries.len(), 6);
    assert!(matches!(d.entries[3].value, Value::Null));
}

#[test]
fn registration_read_back() {
    let stored = registration(EventKeyType::Person).to_storage(Some(oid(7)), Some(oid(8))).unwrap();
    let event_rec = event().to_storage();
    let back = stored
        .to_domain(Some(event_rec), Some(Referent::Person(person("Jane", None).to_storage())))
        .unwrap();
    assert_eq!(back.key_type, EventKeyType::Person);
    assert_eq!(back.person.as_ref().unwrap().first_name, "Jane");
    assert!(back.group.is_none() && back.household.is_none());
    assert_eq!(back.timestamp, DateTime { date: date(2022, 5, 1), hour: 7, minute: 7, second: 7 });

    let stored = registration(EventKeyType::Person).to_storage(Some(oid(7)), Some(oid(8))).unwrap();
    assert_eq!(
        stored.to_domain(None, Some(Referent::Group(group()))).unwrap_err(),
        CosiError::Integrity(RefKind::Event)
    );
    let stored = registration(EventKeyType::Person).to_storage(Some(oid(7)), Some(oid(8))).unwrap();
    assert_eq!(
        stored.to_domain(Some(event().to_storage()), None).unwrap_err(),
        CosiError::Integrity(RefKind::Person)
    );
    let stored = registration(EventKeyType::Person).to_storage(Some(oid(7)), Some(oid(8))).unwrap();
    assert_eq!(
        stored.to_domain(Some(event().to_storage()), Some(Referent::Group(group()))).unwrap_err(),
        CosiError::Discriminator
    );
    let mut broken: EventImpl = event().to_storage();
    broken.start_datetime = "yesterday".to_string();
    let stored = registration(EventKeyType::Group).to_storage(Some(oid(7)), Some(oid(8))).unwrap();
    assert_eq!(
        stored.to_domain(Some(broken), Some(Referent::Group(group()))).unwrap_err(),
        CosiError::MalformedRecord
    );
}

#[test]
fn listing_patches() {
    let reg = registration(EventKeyType::Group);
    let patches = reg.inline_patches();
    let keys: Vec<String> = patches.iter().map(|p| p.key.clone()).collect();
    assert_eq!(keys, vec!["event", "group", "household", "person"]);
    assert!(matches!(patches[1].value, Embedded::Group(_)));
    assert!(matches!(patches[2].value, Embedded::Null));
    assert!(matches!(patches[3].value, Embedded::Null));
    let h = Household { house_name: "H".to_string(), address: address(), persons: vec![], relations: vec![] };
    let patches = h.inline_patches();
    assert_eq!(patches[0].key, "address");
    assert_eq!(patches[1].key, "persons");
}

#[test]
fn object_ids() {
    let o = OID::parse("0123456789abcdefABCDEF01").unwrap();
    assert_eq!(o.bytes, [0x01, 0x23, 0x45, 0x67, 0x89, 0xab, 0xcd, 0xef, 0xab, 0xcd, 0xef, 0x01]);
    assert_eq!(o.to_hex(), "0123456789abcdefabcdef01");
    assert_eq!(OID::parse("0123").unwrap_err(), CosiError::MalformedId);
    assert_eq!(OID::parse("0123456789abcdefABCDEF0g").unwrap_err(), CosiError::MalformedId);
    let ids = parse_oids(&vec!["000000000000000000000001".to_string(), "ffffffffffffffffffffffff".to_string()])
        .unwrap();
    assert_eq!(ids.len(), 2);
    assert_eq!(ids[0].bytes[11], 1);
    assert_eq!(ids[1].bytes, [0xff; 12]);
    assert_eq!(
        parse_oids(&vec!["000000000000000000000001".to_string(), "bad".to_string()]).unwrap_err(),
        CosiError::MalformedId
    );
}

#[test]
fn stored_forms_serialize_references_as_ids() {
    let s = PersonImpl {
        first_name: "A".to_string(),
        middle_name: String::new(),
        last_name: String::new(),
        nicks: vec![],
        dob: None,
        home_phone: None,
        work_phone: None,
        mobile_phone: None,
        sex: Sex::Male,
        notes: String::new(),
        emergency_contact: String::new(),
    };
    assert_eq!(s.into_entries().len(), 11);
    let h = HouseholdImpl { house_name: "H".to_string(), address: oid(1), persons: vec![oid(2)], relations: vec![] };
    let e = h.into_entries();
    assert!(matches!(e[1].value, Value::Id(_)));
    assert!(matches!(&e[2].value, Value::IdList(v) if v.len() == 1));
}

use vstd::prelude::*;

use crate::address::Address;
use crate::document::{
    entries_view, field_spec, literal, opt_text, push_field, text_field, text_value, texts_view,
    COSIForm, Document, Entry, FieldView, Value, ValueView,
};
use crate::error::{CosiError, RefKind};
use crate::oid::OID;
use crate::person::{read_person, Person, PersonImpl};

verus! {

#[derive(Clone, Copy, Debug, PartialEq, Eq, Structural)]
pub enum HouseRelationStatus {
    Husband,
    Wife,
    Child,
    Guardian,
    Other,
}

/// How two members of a household relate.
#[derive(Clone, Copy, Debug)]
pub struct HouseRelation {
    pub person_a: OID,
    pub person_b: OID,
    pub relation: HouseRelationStatus,
}

/// A household with its full address and its full members.
#[derive(Debug)]
pub struct Household {
    pub house_name: String,
    pub address: Address,
    pub persons: Vec<Person>,
    pub relations: Vec<HouseRelation>,
}

/// A household as stored: its address and members by id.
#[derive(Debug)]
pub struct HouseholdImpl {
    pub house_name: String,
    pub address: OID,
    pub persons: Vec<OID>,
    pub relations: Vec<HouseRelation>,
}

/// A partial household; the ids are given as text.
#[derive(Debug)]
pub struct HouseholdOptional {
    pub house_name: Option<String>,
    pub address: Option<String>,
    pub persons: Option<Vec<String>>,
    pub relations: Option<Vec<HouseRelation>>,
}

impl COSIForm for HouseholdImpl {
    open spec fn fields(&self) -> Seq<FieldView> {
        seq![
            ("house_name"@, ValueView::Text(self.house_name@)),
            ("address"@, ValueView::Id(self.address)),
            ("persons"@, ValueView::IdList(self.persons@)),
            ("relations"@, ValueView::Relations(self.relations@)),
        ]
    }

    open spec fn insert_issue(&self) -> Option<CosiError> {
        None
    }

    fn into_entries(self) -> (r: Vec<Entry>) {
        let mut d: Vec<Entry> = Vec::new();
        push_field(&mut d, "house_name", Some(text_value(self.house_name)));
        push_field(&mut d, "address", Some(Value::Id(self.address)));
        push_field(&mut d, "persons", Some(Value::IdList(self.persons)));
        push_field(&mut d, "relations", Some(Value::Relations(self.relations)));
        assert(entries_view(d@) =~= self.fields());
        d
    }

    fn check_insert(&self) -> (r: Result<(), CosiError>) {
        Ok(())
    }
}

impl COSIForm for HouseholdOptional {
    open spec fn fields(&self) -> Seq<FieldView> {
        field_spec("house_name"@, text_field(self.house_name)) + field_spec(
            "address"@,
            text_field(self.address),
        ) + field_spec(
            "persons"@,
            match self.persons {
                Some(p) => Some(ValueView::TextList(texts_view(p@))),
                None => None,
            },
        ) + field_spec(
            "relations"@,
            match self.relations {
                Some(r) => Some(ValueView::Relations(r@)),
                None => None,
            },
        )
    }

    open spec fn insert_issue(&self) -> Option<CosiError> {
        None
    }

    fn into_entries(self) -> (r: Vec<Entry>) {
        let mut d: Vec<Entry> = Vec::new();
        push_field(&mut d, "house_name", opt_text(self.house_name));
        push_field(&mut d, "address", opt_text(self.address));
        let persons = match self.persons {
            Some(p) => Some(Value::TextList(p)),
            None => None,
        };
        push_field(&mut d, "persons", persons);
        let relations = match self.relations {
            Some(r) => Some(Value::Relations(r)),
            None => None,
        };
        push_field(&mut d, "relations", relations);
        assert(entries_view(d@) =~= self.fields());
        d
    }

    fn check_insert(&self) -> (r: Result<(), CosiError>) {
        Ok(())
    }
}

pub open spec fn all_found<T>(s: Seq<Option<T>>) -> bool {
    forall|i: int| 0 <= i < s.len() ==> (#[trigger] s[i]) is Some
}

pub open spec fn unwrap_all<T>(s: Seq<Option<T>>) -> Seq<T> {
    s.map_values(|o: Option<T>| o->0)
}

/// `s` is the stored form of `h` with the given address and member ids.
pub open spec fn household_stored(
    h: Household,
    address_id: OID,
    person_ids: Seq<OID>,
    s: HouseholdImpl,
) -> bool {
    &&& s.house_name == h.house_name
    &&& s.address == address_id
    &&& s.persons@ == person_ids
    &&& s.relations@ == h.relations@
}

/// `h` is what `s` reads as, given its address record and member records.
pub open spec fn household_read(
    s: HouseholdImpl,
    address: Address,
    persons: Seq<PersonImpl>,
    h: Household,
) -> bool {
    &&& h.house_name == s.house_name
    &&& h.address == address
    &&& h.persons@.len() == persons.len()
    &&& forall|i: int| 0 <= i < persons.len() ==> read_person(persons[i]) == Some(#[trigger] h.persons@[i])
    &&& h.relations@ == s.relations@
}

impl Household {
    /// Same name, address content, member content in order, and relations.
    pub open spec fn same_content(&self, o: Household) -> bool {
        &&& self.house_name@ == o.house_name@
        &&& self.address.fields() == o.address.fields()
        &&& self.persons@.len() == o.persons@.len()
        &&& forall|i: int|
            0 <= i < self.persons@.len() ==> (#[trigger] self.persons@[i]).storage_fields()
                == o.persons@[i].storage_fields()
        &&& self.relations@ == o.relations@
    }

    /// Every member's date of birth exists.
    pub open spec fn wf(&self) -> bool {
        forall|i: int| 0 <= i < self.persons@.len() ==> (#[trigger] self.persons@[i]).wf()
    }

    /// Whether every member's date of birth exists.
    pub fn is_valid(&self) -> (r: bool)
        ensures
            r == self.wf(),
    {
        let mut i: usize = 0;
        while i < self.persons.len()
            invariant
                i <= self.persons@.len(),
                forall|j: int| 0 <= j < i ==> (#[trigger] self.persons@[j]).wf(),
            decreases self.persons@.len() - i,
        {
            if !self.persons[i].is_valid() {
                return false;
            }
            i += 1;
        }
        true
    }

    /// A copy of the same content.
    pub fn duplicate(&self) -> (r: Household)
        ensures
            r.same_content(*self),
            self.wf() ==> r.wf(),
    {
        let mut persons: Vec<Person> = Vec::new();
        let mut i: usize = 0;
        while i < self.persons.len()
            invariant
                i <= self.persons@.len(),
                persons@.len() == i,
                forall|j: int|
                    0 <= j < i ==> (#[trigger] persons@[j]).storage_fields()
                        == self.persons@[j].storage_fields() && persons@[j].dob == self.persons@[j].dob,
            decreases self.persons@.len() - i,
        {
            persons.push(self.persons[i].duplicate());
            i += 1;
        }
        let relations = self.relations.clone();
        assert(relations@ =~= self.relations@);
        Household {
            house_name: self.house_name.clone(),
            address: self.address.duplicate(),
            persons,
            relations,
        }
    }

    /// The filter that finds a stored household of the same name.
    pub fn name_filter(&self) -> (r: Document)
        ensures
            r@ == seq![("house_name"@, ValueView::Text(self.house_name@))],
    {
        let mut d: Vec<Entry> = Vec::new();
        push_field(&mut d, "house_name", Some(text_value(self.house_name.clone())));
        assert(entries_view(d@) =~= seq![("house_name"@, ValueView::Text(self.house_name@))]);
        Document { entries: d }
    }

    /// The content filters of the members, one per member, in order.
    pub fn person_filters(&self) -> (r: Vec<Document>)
        requires
            self.wf(),
        ensures
            r@.len() == self.persons@.len(),
            forall|i: int| 0 <= i < r@.len() ==> (#[trigger] r@[i])@ == self.persons@[i].storage_fields(),
    {
        let mut out: Vec<Document> = Vec::new();
        let mut i: usize = 0;
        while i < self.persons.len()
            invariant
                self.wf(),
                i <= self.persons@.len(),
                out@.len() == i,
                forall|j: int| 0 <= j < i ==> (#[trigger] out@[j])@ == self.persons@[j].storage_fields(),
            decreases self.persons@.len() - i,
        {
            out.push(self.persons[i].content_filter());
            i += 1;
        }
        out
    }

    /// The stored form of this household. A stored household of the same
    /// name (`existing`) is taken as it is. Otherwise the address and every
    /// member must each match a stored record by content (`address_id`, and
    /// `person_ids` in member order); one that matches none fails the
    /// conversion, members included.
    pub fn to_storage(
        self,
        existing: Option<HouseholdImpl>,
        address_id: Option<OID>,
        person_ids: Vec<Option<OID>>,
    ) -> (r: Result<HouseholdImpl, CosiError>)
        requires
            person_ids@.len() == self.persons@.len(),
        ensures
            existing is Some ==> r == Ok::<HouseholdImpl, CosiError>(existing->0),
            existing is None && address_id is None ==> r == Err::<HouseholdImpl, CosiError>(
                CosiError::Resolution(RefKind::Address),
            ),
            existing is None && address_id is Some && !all_found(person_ids@) ==> r == Err::<
                HouseholdImpl,
                CosiError,
            >(CosiError::Resolution(RefKind::Person)),
            existing is None && address_id is Some && all_found(person_ids@) ==> (r matches Ok(s)
                && household_stored(self, address_id->0, unwrap_all(person_ids@), s)),
    {
        if let Some(e) = existing {
            return Ok(e);
        }
        let address = match address_id {
            Some(a) => a,
            None => return Err(CosiError::Resolution(RefKind::Address)),
        };
        let mut ids: Vec<OID> = Vec::new();
        let mut i: usize = 0;
        while i < person_ids.len()
            invariant
                existing is None,
                address_id == Some(address),
                i <= person_ids@.len(),
                ids@.len() == i,
                forall|j: int| 0 <= j < i ==> (#[trigger] person_ids@[j]) is Some,
                forall|j: int| 0 <= j < i ==> ids@[j] == (#[trigger] person_ids@[j])->0,
            decreases person_ids@.len() - i,
        {
            match person_ids[i] {
                Some(id) => ids.push(id),
                None => return Err(CosiError::Resolution(RefKind::Person)),
            }
            i += 1;
        }
        assert(ids@ =~= unwrap_all(person_ids@));
        Ok(
            HouseholdImpl {
                house_name: self.house_name,
                address: address,
                persons: ids,
                relations: self.relations,
            },
        )
    }
}

impl HouseholdImpl {
    /// Reads a stored household back, given the record that the lookup of
    /// its address id found and the records that the lookups of its member
    /// ids found, in member order. An id that resolves to nothing fails the
    /// whole conversion; no member is dropped and no default is put in.
    pub fn to_domain(self, address: Option<Address>, persons: Vec<Option<PersonImpl>>) -> (r: Result<
        Household,
        CosiError,
    >)
        requires
            persons@.len() == self.persons@.len(),
        ensures
            address is None ==> r == Err::<Household, CosiError>(
                CosiError::Integrity(RefKind::Address),
            ),
            address is Some && !all_found(persons@) ==> r == Err::<Household, CosiError>(
                CosiError::Integrity(RefKind::Person),
            ),
            address is Some && all_found(persons@) && !(forall|i: int|
                0 <= i < persons@.len() ==> read_person(#[trigger] persons@[i]->0) is Some) ==> r
                == Err::<Household, CosiError>(CosiError::MalformedRecord),
            address is Some && all_found(persons@) && (forall|i: int|
                0 <= i < persons@.len() ==> read_person(#[trigger] persons@[i]->0) is Some) ==> (r matches Ok(h)
                && household_read(self, address->0, unwrap_all(persons@), h) && h.wf()),
    {
        let ghost persons_in = persons@;
        let addr = match address {
            Some(a) => a,
            None => return Err(CosiError::Integrity(RefKind::Address)),
        };
        let mut i: usize = 0;
        while i < persons.len()
            invariant
                address == Some(addr),
                persons@ == persons_in,
                i <= persons@.len(),
                forall|j: int| 0 <= j < i ==> (#[trigger] persons@[j]) is Some,
            decreases persons@.len() - i,
        {
            if persons[i].is_none() {
                return Err(CosiError::Integrity(RefKind::Person));
            }
            i += 1;
        }
        let ghost found = persons@;
        let mut rest = persons;
        let mut members: Vec<Person> = Vec::new();
        while rest.len() > 0
            invariant
                address == Some(addr),
                found == persons_in,
                persons@ == found,
                all_found(found),
                members@.len() + rest@.len() == found.len(),
                rest@ == found.skip(members@.len() as int),
                forall|j: int| 0 <= j < members@.len() ==> read_person(found[j]->0) == Some(
                    #[trigger] members@[j],
                ),
                forall|j: int| 0 <= j < members@.len() ==> (#[trigger] members@[j]).wf(),
            decreases rest@.len(),
        {
            let ghost k = members@.len() as int;
            let ghost before = rest@;
            let next = rest.remove(0);
            assert(before[0] == found[k]);
            assert(rest@ =~= found.skip(k + 1));
            match next {
                Some(p) => match p.to_domain() {
                    Ok(q) => members.push(q),
                    Err(e) => {
                        assert(read_person(persons@[k]->0) is None);
                        return Err(e);
                    },
                },
                None => {
                    assert(found[k] is Some);
                    return Err(CosiError::Integrity(RefKind::Person));
                },
            }
        }
        let h = Household {
            house_name: self.house_name,
            address: addr,
            persons: members,
            relations: self.relations,
        };
        assert(forall|j: int| 0 <= j < found.len() ==> #[trigger] unwrap_all(found)[j] == found[j]->0);
        assert(forall|j: int|
            0 <= j < persons@.len() ==> read_person(#[trigger] persons@[j]->0) is Some) by {
            assert forall|j: int| 0 <= j < persons@.len() implies read_person(
                #[trigger] persons@[j]->0,
            ) is Some by {
                assert(read_person(found[j]->0) == Some(members@[j]));
            }
        }
        Ok(h)
    }
}

/// Storing a household and reading it back gives a household with the same
/// name and relations, and an address and members of the same content in
/// the same order, when the content lookups found records of that content
/// and the id lookups return them.
pub proof fn lemma_household_round_trip(
    h: Household,
    address_id: OID,
    person_ids: Seq<OID>,
    address_rec: Address,
    person_recs: Seq<PersonImpl>,
    s: HouseholdImpl,
    back: Household,
)
    requires
        h.wf(),
        forall|i: int| 0 <= i < h.persons@.len() ==> (#[trigger] h.persons@[i]).four_digit_years(),
        person_ids.len() == h.persons@.len(),
        person_recs.len() == h.persons@.len(),
        address_rec.fields() == h.address.fields(),
        forall|i: int|
            0 <= i < person_recs.len() ==> (#[trigger] person_recs[i]).fields()
                == h.persons@[i].storage_fields(),
        household_stored(h, address_id, person_ids, s),
        household_read(s, address_rec, person_recs, back),
    ensures
        forall|i: int| 0 <= i < person_recs.len() ==> read_person(#[trigger] person_recs[i]) is Some,
        back.house_name == h.house_name,
        back.address.fields() == h.address.fields(),
        back.persons@.len() == h.persons@.len(),
        forall|i: int|
            0 <= i < h.persons@.len() ==> (#[trigger] back.persons@[i]).storage_fields()
                == h.persons@[i].storage_fields(),
        back.relations@ == h.relations@,
        back.same_content(h),
{
    assert forall|i: int| 0 <= i < h.persons@.len() implies (#[trigger] back.persons@[i]).storage_fields()
        == h.persons@[i].storage_fields() && read_person(person_recs[i]) is Some by {
        crate::person::lemma_person_round_trip(h.persons@[i], person_recs[i]);
    }
}

} // verus!

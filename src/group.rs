use vstd::prelude::*;

use crate::document::{
    entries_view, field_spec, literal, opt_text, push_field, text_field, text_value, COSIForm,
    Document, Entry, FieldView, Value, ValueView,
};
use crate::error::{CosiError, RefKind};
use crate::oid::OID;
use crate::person::{read_person, Person, PersonImpl};

verus! {

/// A named group of people; it is stored as it is.
#[derive(Debug)]
pub struct Group {
    pub group_name: String,
    pub group_desc: String,
}

/// A partial group: a search filter or a partial update.
#[derive(Debug)]
pub struct GroupOptional {
    pub group_name: Option<String>,
    pub group_desc: Option<String>,
}

/// A person's membership of a group, with the full person and group.
#[derive(Debug)]
pub struct GroupRelation {
    pub person: Person,
    pub group: Group,
    pub role: String,
}

/// A membership as stored: the person and the group by id.
#[derive(Debug)]
pub struct GroupRelationImpl {
    pub person: OID,
    pub group: OID,
    pub role: String,
}

/// A partial membership; the ids are given as text.
#[derive(Debug)]
pub struct GroupRelationOptional {
    pub person: Option<String>,
    pub group: Option<String>,
    pub role: Option<String>,
}

impl Group {
    /// A copy with the same fields.
    pub fn duplicate(&self) -> (r: Group)
        ensures
            r == *self,
    {
        Group { group_name: self.group_name.clone(), group_desc: self.group_desc.clone() }
    }

    /// The filter that finds the stored record of this group by content.
    pub fn content_filter(&self) -> (r: Document)
        ensures
            r@ == self.fields(),
    {
        Document { entries: self.duplicate().into_entries() }
    }
}

impl Default for Group {
    fn default() -> (r: Group)
        ensures
            r.group_name@ == "ERR"@,
            r.group_desc@ == "ERR"@,
    {
        Group { group_name: literal("ERR"), group_desc: literal("ERR") }
    }
}

impl COSIForm for Group {
    open spec fn fields(&self) -> Seq<FieldView> {
        seq![
            ("group_name"@, ValueView::Text(self.group_name@)),
            ("group_desc"@, ValueView::Text(self.group_desc@)),
        ]
    }

    open spec fn insert_issue(&self) -> Option<CosiError> {
        None
    }

    fn into_entries(self) -> (r: Vec<Entry>) {
        let mut d: Vec<Entry> = Vec::new();
        push_field(&mut d, "group_name", Some(text_value(self.group_name)));
        push_field(&mut d, "group_desc", Some(text_value(self.group_desc)));
        assert(entries_view(d@) =~= self.fields());
        d
    }

    fn check_insert(&self) -> (r: Result<(), CosiError>) {
        Ok(())
    }
}

impl COSIForm for GroupOptional {
    open spec fn fields(&self) -> Seq<FieldView> {
        field_spec("group_name"@, text_field(self.group_name)) + field_spec(
            "group_desc"@,
            text_field(self.group_desc),
        )
    }

    open spec fn insert_issue(&self) -> Option<CosiError> {
        None
    }

    fn into_entries(self) -> (r: Vec<Entry>) {
        let mut d: Vec<Entry> = Vec::new();
        push_field(&mut d, "group_name", opt_text(self.group_name));
        push_field(&mut d, "group_desc", opt_text(self.group_desc));
        assert(entries_view(d@) =~= self.fields());
        d
    }

    fn check_insert(&self) -> (r: Result<(), CosiError>) {
        Ok(())
    }
}

impl COSIForm for GroupRelationImpl {
    open spec fn fields(&self) -> Seq<FieldView> {
        seq![
            ("person"@, ValueView::Id(self.person)),
            ("group"@, ValueView::Id(self.group)),
            ("role"@, ValueView::Text(self.role@)),
        ]
    }

    open spec fn insert_issue(&self) -> Option<CosiError> {
        None
    }

    fn into_entries(self) -> (r: Vec<Entry>) {
        let mut d: Vec<Entry> = Vec::new();
        push_field(&mut d, "person", Some(Value::Id(self.person)));
        push_field(&mut d, "group", Some(Value::Id(self.group)));
        push_field(&mut d, "role", Some(text_value(self.role)));
        assert(entries_view(d@) =~= self.fields());
        d
    }

    fn check_insert(&self) -> (r: Result<(), CosiError>) {
        Ok(())
    }
}

impl COSIForm for GroupRelationOptional {
    open spec fn fields(&self) -> Seq<FieldView> {
        field_spec("person"@, text_field(self.person)) + field_spec("group"@, text_field(self.group))
            + field_spec("role"@, text_field(self.role))
    }

    open spec fn insert_issue(&self) -> Option<CosiError> {
        None
    }

    fn into_entries(self) -> (r: Vec<Entry>) {
        let mut d: Vec<Entry> = Vec::new();
        push_field(&mut d, "person", opt_text(self.person));
        push_field(&mut d, "group", opt_text(self.group));
        push_field(&mut d, "role", opt_text(self.role));
        assert(entries_view(d@) =~= self.fields());
        d
    }

    fn check_insert(&self) -> (r: Result<(), CosiError>) {
        Ok(())
    }
}

/// The stored form of a membership, given the ids that the content lookups
/// of its person and its group found. A person or group that matches no
/// stored record fails the conversion.
pub open spec fn relation_to_storage(
    r: GroupRelation,
    person_id: Option<OID>,
    group_id: Option<OID>,
) -> Result<GroupRelationImpl, CosiError> {
    match person_id {
        None => Err(CosiError::Resolution(RefKind::Person)),
        Some(p) => match group_id {
            None => Err(CosiError::Resolution(RefKind::Group)),
            Some(g) => Ok(GroupRelationImpl { person: p, group: g, role: r.role }),
        },
    }
}

/// The membership a stored record is read as, given the records that the
/// lookups of its two ids found. An id that resolves to nothing fails the
/// conversion.
pub open spec fn relation_to_domain(
    s: GroupRelationImpl,
    person: Option<PersonImpl>,
    group: Option<Group>,
) -> Result<GroupRelation, CosiError> {
    match person {
        None => Err(CosiError::Integrity(RefKind::Person)),
        Some(p) => match group {
            None => Err(CosiError::Integrity(RefKind::Group)),
            Some(g) => match read_person(p) {
                None => Err(CosiError::MalformedRecord),
                Some(q) => Ok(GroupRelation { person: q, group: g, role: s.role }),
            },
        },
    }
}

impl GroupRelation {
    /// The two content filters to look up: the person's and the group's.
    pub fn lookup_filters(&self) -> (r: (Document, Document))
        requires
            self.person.wf(),
        ensures
            r.0@ == self.person.storage_fields(),
            r.1@ == self.group.fields(),
    {
        (self.person.content_filter(), self.group.content_filter())
    }

    pub fn to_storage(self, person_id: Option<OID>, group_id: Option<OID>) -> (r: Result<
        GroupRelationImpl,
        CosiError,
    >)
        ensures
            r == relation_to_storage(self, person_id, group_id),
    {
        match person_id {
            None => Err(CosiError::Resolution(RefKind::Person)),
            Some(p) => match group_id {
                None => Err(CosiError::Resolution(RefKind::Group)),
                Some(g) => Ok(GroupRelationImpl { person: p, group: g, role: self.role }),
            },
        }
    }
}

impl GroupRelationImpl {
    pub fn to_domain(self, person: Option<PersonImpl>, group: Option<Group>) -> (r: Result<
        GroupRelation,
        CosiError,
    >)
        ensures
            r == relation_to_domain(self, person, group),
            person is None ==> r == Err::<GroupRelation, CosiError>(
                CosiError::Integrity(RefKind::Person),
            ),
            r matches Ok(g) ==> g.person.wf(),
    {
        match person {
            None => Err(CosiError::Integrity(RefKind::Person)),
            Some(p) => match group {
                None => Err(CosiError::Integrity(RefKind::Group)),
                Some(g) => match p.to_domain() {
                    Err(e) => Err(e),
                    Ok(q) => Ok(GroupRelation { person: q, group: g, role: self.role }),
                },
            },
        }
    }
}

/// Storing a membership and reading it back gives a membership with the
/// same role and with a person and a group of the same content, when the
/// content lookups found records of that content and the id lookups return
/// them.
pub proof fn lemma_group_relation_round_trip(
    r: GroupRelation,
    person_id: OID,
    group_id: OID,
    person_rec: PersonImpl,
    group_rec: Group,
)
    requires
        r.person.wf(),
        r.person.four_digit_years(),
        person_rec.fields() == r.person.storage_fields(),
        group_rec.fields() == r.group.fields(),
    ensures
        ({
            let stored = relation_to_storage(r, Some(person_id), Some(group_id));
            let back = relation_to_domain(stored->Ok_0, Some(person_rec), Some(group_rec));
            &&& stored is Ok
            &&& stored->Ok_0.person == person_id
            &&& stored->Ok_0.group == group_id
            &&& back is Ok
            &&& back->Ok_0.person.storage_fields() == r.person.storage_fields()
            &&& back->Ok_0.group.fields() == r.group.fields()
            &&& back->Ok_0.role == r.role
        }),
{
    crate::person::lemma_person_round_trip(r.person, person_rec);
}

} // verus!

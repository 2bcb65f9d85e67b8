use vstd::prelude::*;

use crate::error::CosiError;
use crate::event::{Days, EventKeyType, Reoccurring};
use crate::household::HouseRelation;
use crate::oid::OID;
use crate::person::Sex;

verus! {

/// A field value of a filter or insert document: one of the kinds the
/// registry stores.
#[derive(Debug)]
pub enum Value {
    Null,
    Int(i64),
    Text(String),
    TextList(Vec<String>),
    Id(OID),
    IdList(Vec<OID>),
    DayList(Vec<Days>),
    Relations(Vec<HouseRelation>),
    Sex(Sex),
    KeyType(EventKeyType),
    Recurrence(Reoccurring),
    /// A case-insensitive regular expression the field must match.
    Pattern(String),
}

/// The mathematical content of a `Value`.
pub enum ValueView {
    Null,
    Int(int),
    Text(Seq<char>),
    TextList(Seq<Seq<char>>),
    Id(OID),
    IdList(Seq<OID>),
    DayList(Seq<Days>),
    Relations(Seq<HouseRelation>),
    Sex(Sex),
    KeyType(EventKeyType),
    Recurrence(Reoccurring),
    Pattern(Seq<char>),
}

pub open spec fn texts_view(v: Seq<String>) -> Seq<Seq<char>> {
    v.map_values(|s: String| s@)
}

impl View for Value {
    type V = ValueView;

    open spec fn view(&self) -> ValueView {
        match self {
            Value::Null => ValueView::Null,
            Value::Int(i) => ValueView::Int(*i as int),
            Value::Text(s) => ValueView::Text(s@),
            Value::TextList(v) => ValueView::TextList(texts_view(v@)),
            Value::Id(o) => ValueView::Id(*o),
            Value::IdList(v) => ValueView::IdList(v@),
            Value::DayList(v) => ValueView::DayList(v@),
            Value::Relations(v) => ValueView::Relations(v@),
            Value::Sex(s) => ValueView::Sex(*s),
            Value::KeyType(k) => ValueView::KeyType(*k),
            Value::Recurrence(r) => ValueView::Recurrence(*r),
            Value::Pattern(p) => ValueView::Pattern(p@),
        }
    }
}

/// One named field of a document.
#[derive(Debug)]
pub struct Entry {
    pub key: String,
    pub value: Value,
}

/// A field as the specifications see it: its name and its value.
pub type FieldView = (Seq<char>, ValueView);

impl View for Entry {
    type V = FieldView;

    open spec fn view(&self) -> FieldView {
        (self.key@, self.value@)
    }
}

pub open spec fn entries_view(v: Seq<Entry>) -> Seq<FieldView> {
    v.map_values(|e: Entry| e@)
}

/// An ordered list of named fields: a query filter or a record to write.
#[derive(Debug)]
pub struct Document {
    pub entries: Vec<Entry>,
}

impl View for Document {
    type V = Seq<FieldView>;

    open spec fn view(&self) -> Seq<FieldView> {
        entries_view(self.entries@)
    }
}

/// The one-field list for a field that is present, the empty list for one
/// that is absent.
pub open spec fn field_spec(key: Seq<char>, v: Option<ValueView>) -> Seq<FieldView> {
    match v {
        Some(x) => seq![(key, x)],
        None => Seq::empty(),
    }
}

pub open spec fn opt_view(v: Option<Value>) -> Option<ValueView> {
    match v {
        Some(x) => Some(x@),
        None => None,
    }
}

/// The fields of a list whose value is not null, in their order.
pub open spec fn without_nulls(s: Seq<FieldView>) -> Seq<FieldView>
    decreases s.len(),
{
    if s.len() == 0 {
        Seq::empty()
    } else {
        let rest = without_nulls(s.drop_last());
        if s.last().1 is Null {
            rest
        } else {
            rest.push(s.last())
        }
    }
}

pub open spec fn has_no_null(s: Seq<FieldView>) -> bool {
    forall|k: int| 0 <= k < s.len() ==> !(#[trigger] s[k].1 is Null)
}

/// Dropping the nulls leaves no null, and keeps every field that is not null.
pub proof fn lemma_without_nulls(s: Seq<FieldView>)
    ensures
        has_no_null(without_nulls(s)),
        forall|k: int| 0 <= k < s.len() && !(s[k].1 is Null) ==> without_nulls(s).contains(#[trigger] s[k]),
    decreases s.len(),
{
    if s.len() > 0 {
        lemma_without_nulls(s.drop_last());
        let rest = without_nulls(s.drop_last());
        assert forall|k: int| 0 <= k < s.len() && !(s[k].1 is Null) implies without_nulls(s).contains(
            #[trigger] s[k],
        ) by {
            if k < s.len() - 1 {
                assert(s.drop_last()[k] == s[k]);
                let w = choose|w: int| 0 <= w < rest.len() && rest[w] == s[k];
                if !(s.last().1 is Null) {
                    assert(rest.push(s.last())[w] == s[k]);
                }
            } else {
                if !(s.last().1 is Null) {
                    assert(rest.push(s.last())[rest.len() as int] == s[k]);
                }
            }
        }
    }
}

/// Null-handling duality: whatever a form holds, its query document has no
/// null field and keeps every field that is not null, while its insert
/// document (`sanitize_insert`) is exactly the fields it carries, nulls
/// included.
pub proof fn lemma_null_handling_duality<F: COSIForm>(form: F)
    ensures
        has_no_null(without_nulls(form.fields())),
        forall|k: int|
            0 <= k < form.fields().len() && !(form.fields()[k].1 is Null) ==> without_nulls(
                form.fields(),
            ).contains(#[trigger] form.fields()[k]),
{
    lemma_without_nulls(form.fields());
}

/// Appends a field to a document under construction when it is present.
pub fn push_field(doc: &mut Vec<Entry>, key: &str, v: Option<Value>)
    ensures
        entries_view(final(doc)@) == entries_view(old(doc)@) + field_spec(key@, opt_view(v)),
{
    match v {
        Some(x) => {
            let k = key.to_string();
            proof {
                vstd::string::to_string_from_display_ensures_for_str(key, k);
            }
            doc.push(Entry { key: k, value: x });
            assert(entries_view(final(doc)@) =~= entries_view(old(doc)@) + field_spec(
                key@,
                opt_view(v),
            ));
        },
        None => {
            assert(entries_view(old(doc)@) + field_spec(key@, opt_view(v)) =~= entries_view(
                old(doc)@,
            ));
        },
    }
}

/// Builds a document from serialized fields. Null fields are dropped unless
/// `strict` holds: a filter must not read an absent field as "equals null",
/// while a write must keep a field that is explicitly cleared.
pub fn document_from(fields: Vec<Entry>, strict: bool) -> (r: Document)
    ensures
        strict ==> r@ == entries_view(fields@),
        !strict ==> r@ == without_nulls(entries_view(fields@)),
{
    if strict {
        return Document { entries: fields };
    }
    let ghost all = entries_view(fields@);
    let ghost n = all.len();
    let mut out: Vec<Entry> = Vec::new();
    let mut rest = fields;
    while rest.len() > 0
        invariant
            n == all.len(),
            rest@.len() <= n,
            entries_view(rest@) == all.skip(n - rest@.len()),
            entries_view(out@) == without_nulls(all.take(n - rest@.len())),
        decreases rest@.len(),
    {
        let ghost done = n - rest@.len();
        let ghost before_rest = rest@;
        let e = rest.remove(0);
        assert(entries_view(before_rest)[0] == e@);
        assert(entries_view(rest@) =~= entries_view(before_rest).skip(1));
        assert(all.skip(done).skip(1) =~= all.skip(done + 1));
        assert(all.take(done + 1).drop_last() =~= all.take(done));
        assert(all.take(done + 1).last() == all[done]);
        match e.value {
            Value::Null => {},
            _ => {
                let ghost before = out@;
                out.push(e);
                assert(entries_view(out@) =~= entries_view(before).push(all[done]));
            },
        }
    }
    assert(all.take(n as int) =~= all);
    Document { entries: out }
}

/// A form that a user submits: it serializes field by field, leaving out the
/// fields it does not carry.
pub trait COSIForm: Sized {
    /// The serialized fields, in order; an absent field is left out and a
    /// field set to null is present with a null value.
    spec fn fields(&self) -> Seq<FieldView>;

    /// The first entity rule that inserting this form would break, if any.
    spec fn insert_issue(&self) -> Option<CosiError>;

    fn into_entries(self) -> (r: Vec<Entry>)
        ensures
            entries_view(r@) == self.fields(),
    ;

    fn check_insert(&self) -> (r: Result<(), CosiError>)
        ensures
            r is Ok <==> self.insert_issue() is None,
            r matches Err(e) ==> self.insert_issue() == Some(e),
    ;

    /// The document of this form; `strict` keeps null fields.
    fn convert_to_document(self, strict: bool) -> (r: Result<Document, CosiError>)
        ensures
            r matches Ok(d) && (strict ==> d@ == self.fields()) && (!strict ==> d@ == without_nulls(
                self.fields(),
            )),
    {
        let e = self.into_entries();
        Ok(document_from(e, strict))
    }

    /// The filter this form asks for: absent and null fields impose nothing.
    fn sanitize_query(self) -> (r: Result<Document, CosiError>)
        ensures
            r matches Ok(d) && d@ == without_nulls(self.fields()) && has_no_null(d@),
    {
        proof {
            lemma_without_nulls(self.fields());
        }
        self.convert_to_document(false)
    }

    /// The document to write for this form: every field it carries, nulls
    /// included, once the entity's own rules hold.
    fn sanitize_insert(self) -> (r: Result<Document, CosiError>)
        ensures
            r is Ok <==> self.insert_issue() is None,
            r matches Ok(d) ==> d@ == self.fields(),
            r matches Err(e) ==> self.insert_issue() == Some(e),
    {
        match self.check_insert() {
            Ok(()) => self.convert_to_document(true),
            Err(e) => Err(e),
        }
    }
}

} // verus!

verus! {

/// A string holding the given text.
pub fn literal(s: &str) -> (r: String)
    ensures
        r@ == s@,
{
    let r = s.to_string();
    proof {
        vstd::string::to_string_from_display_ensures_for_str(s, r);
    }
    r
}

/// A text field that is present or absent.
pub open spec fn text_field(v: Option<String>) -> Option<ValueView> {
    match v {
        Some(s) => Some(ValueView::Text(s@)),
        None => None,
    }
}

/// A text that may be null.
pub open spec fn nullable_text(v: Option<String>) -> ValueView {
    match v {
        Some(s) => ValueView::Text(s@),
        None => ValueView::Null,
    }
}

/// A nullable text field: absent, set to null, or set to a text.
pub open spec fn nullable_text_field(v: Option<Option<String>>) -> Option<ValueView> {
    match v {
        Some(x) => Some(nullable_text(x)),
        None => None,
    }
}

pub fn text_value(s: String) -> (r: Value)
    ensures
        r@ == ValueView::Text(s@),
{
    Value::Text(s)
}

pub fn opt_text(v: Option<String>) -> (r: Option<Value>)
    ensures
        opt_view(r) == text_field(v),
{
    match v {
        Some(s) => Some(Value::Text(s)),
        None => None,
    }
}

pub fn nullable(v: Option<String>) -> (r: Value)
    ensures
        r@ == nullable_text(v),
{
    match v {
        Some(s) => Value::Text(s),
        None => Value::Null,
    }
}

pub fn opt_nullable(v: Option<Option<String>>) -> (r: Option<Value>)
    ensures
        opt_view(r) == nullable_text_field(v),
{
    match v {
        Some(x) => Some(nullable(x)),
        None => None,
    }
}

pub fn clone_opt_text(v: &Option<String>) -> (r: Option<String>)
    ensures
        r == *v,
{
    match v {
        Some(s) => Some(s.clone()),
        None => None,
    }
}

pub fn clone_texts(v: &Vec<String>) -> (r: Vec<String>)
    ensures
        r@ == v@,
{
    let r = v.clone();
    assert(r@ =~= v@);
    r
}

} // verus!

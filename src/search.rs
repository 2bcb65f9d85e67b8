use vstd::prelude::*;

use crate::document::{entries_view, literal, push_field, Document, Entry, FieldView, Value, ValueView};

verus! {

/// What `str::to_lowercase` makes of a text.
pub uninterp spec fn lower_of(s: Seq<char>) -> Seq<char>;

/// Relies on `str::to_lowercase`: the result depends on the characters
/// alone.
#[verifier::external_body]
fn lowercase(s: &str) -> (r: String)
    ensures
        r@ == lower_of(s@),
{
    s.to_lowercase()
}

/// The case-insensitive pattern that matches any text containing the
/// lower-cased query.
pub fn search_pattern(query: &str) -> (r: String)
    ensures
        r@ == "(?i).*"@ + lower_of(query@) + ".*"@,
{
    let lower = lowercase(query);
    let mut r = literal("(?i).*");
    r.append(lower.as_str());
    r.append(".*");
    r
}

/// The fields of each collection that a search looks into.
pub open spec fn address_search_fields() -> Seq<Seq<char>> {
    seq!["line_one"@, "line_two"@, "line_three"@, "city"@]
}

pub open spec fn household_search_fields() -> Seq<Seq<char>> {
    seq!["house_name"@]
}

pub open spec fn person_search_fields() -> Seq<Seq<char>> {
    seq!["first_name"@, "middle_name"@, "last_name"@]
}

/// One lookup per field: the field's name and a filter on that field alone.
pub open spec fn field_searches(fields: Seq<Seq<char>>, pattern: Seq<char>) -> Seq<(Seq<char>, Seq<FieldView>)> {
    fields.map_values(|f: Seq<char>| (f, seq![(f, ValueView::Pattern(pattern))]))
}

pub open spec fn searches_view(v: Seq<(String, Document)>) -> Seq<(Seq<char>, Seq<FieldView>)> {
    v.map_values(|p: (String, Document)| (p.0@, p.1@))
}

/// The lookups of a search, by collection.
#[derive(Debug)]
pub struct SearchPlan {
    pub address: Vec<(String, Document)>,
    pub household: Vec<(String, Document)>,
    pub person: Vec<(String, Document)>,
}

fn push_search(v: &mut Vec<(String, Document)>, field: &str, pattern: &String)
    ensures
        searches_view(final(v)@) == searches_view(old(v)@).push(
            (field@, seq![(field@, ValueView::Pattern(pattern@))]),
        ),
{
    let mut d: Vec<Entry> = Vec::new();
    push_field(&mut d, field, Some(Value::Pattern(pattern.clone())));
    assert(entries_view(d@) =~= seq![(field@, ValueView::Pattern(pattern@))]);
    v.push((literal(field), Document { entries: d }));
    assert(searches_view(final(v)@) =~= searches_view(old(v)@).push(
        (field@, seq![(field@, ValueView::Pattern(pattern@))]),
    ));
}

/// Every lookup a search for `query` makes: each searched field of each
/// collection, matched against the query's pattern.
pub fn search_plan(query: &str) -> (r: SearchPlan)
    ensures
        searches_view(r.address@) == field_searches(address_search_fields(), "(?i).*"@ + lower_of(query@) + ".*"@),
        searches_view(r.household@) == field_searches(household_search_fields(), "(?i).*"@ + lower_of(query@) + ".*"@),
        searches_view(r.person@) == field_searches(person_search_fields(), "(?i).*"@ + lower_of(query@) + ".*"@),
{
    let pattern = search_pattern(query);
    let mut address: Vec<(String, Document)> = Vec::new();
    push_search(&mut address, "line_one", &pattern);
    push_search(&mut address, "line_two", &pattern);
    push_search(&mut address, "line_three", &pattern);
    push_search(&mut address, "city", &pattern);
    let mut household: Vec<(String, Document)> = Vec::new();
    push_search(&mut household, "house_name", &pattern);
    let mut person: Vec<(String, Document)> = Vec::new();
    push_search(&mut person, "first_name", &pattern);
    push_search(&mut person, "middle_name", &pattern);
    push_search(&mut person, "last_name", &pattern);
    assert(searches_view(address@) =~= field_searches(address_search_fields(), pattern@));
    assert(searches_view(household@) =~= field_searches(household_search_fields(), pattern@));
    assert(searches_view(person@) =~= field_searches(person_search_fields(), pattern@));
    SearchPlan { address, household, person }
}

} // verus!

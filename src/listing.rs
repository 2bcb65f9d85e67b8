use vstd::prelude::*;

use crate::address::Address;
use crate::document::{literal, Document};
use crate::error::CosiError;
use crate::event::{Event, EventRegistration};
use crate::group::{relation_to_domain, Group, GroupRelation, GroupRelationImpl};
use crate::household::Household;
use crate::person::{Person, PersonImpl};

verus! {

/// The fixed number of items on a page.
pub const PAGE_SIZE: u64 = 100;

/// One page of a listing and where it stands.
#[derive(Debug)]
pub struct PaginateData<T> {
    pub page: u64,
    pub total_pages: u64,
    pub total_result: u64,
    pub data: Vec<T>,
}

/// The part of a collection that a page reads.
#[derive(Clone, Copy, Debug, PartialEq, Eq, Structural)]
pub struct PageWindow {
    pub skip: u64,
    pub limit: u64,
}

/// How the total of a listing is counted.
#[derive(Clone, Copy, Debug, PartialEq, Eq, Structural)]
pub enum CountMode {
    /// Count the documents that match the filter exactly.
    Exact,
    /// Take the collection's fast estimate of its size.
    Estimated,
}

/// The number of pages that `total` items fill, the last one maybe partly.
pub open spec fn pages_for(total: int, size: int) -> int {
    (total + size - 1) / size
}

/// How many pages `total_count` items fill: none for no item, and an exact
/// multiple of the page size fills no extra page.
pub fn total_pages(total_count: u64, page_size: u64) -> (r: u64)
    requires
        page_size > 0,
    ensures
        r as int == pages_for(total_count as int, page_size as int),
        r as int * page_size >= total_count,
        r > 0 ==> (r - 1) * page_size < total_count,
{
    let q = total_count / page_size;
    if total_count % page_size != 0 {
        assert(q < 0xffff_ffff_ffff_ffffu64) by (nonlinear_arith)
            requires
                page_size > 0,
                q == total_count / page_size,
                total_count % page_size != 0,
                total_count <= 0xffff_ffff_ffff_ffffu64,
        {
            assert(page_size >= 2);
        }
    }
    let r = if total_count % page_size == 0 {
        q
    } else {
        q + 1
    };
    assert(r as int == pages_for(total_count as int, page_size as int)) by (nonlinear_arith)
        requires
            page_size > 0,
            q == total_count / page_size,
            r == (if total_count % page_size == 0 {
                q as int
            } else {
                q + 1
            }),
    {
    }
    assert(r as int * page_size >= total_count && (r > 0 ==> (r - 1) * page_size < total_count))
        by (nonlinear_arith)
        requires
            page_size > 0,
            q == total_count / page_size,
            r == (if total_count % page_size == 0 {
                q as int
            } else {
                q + 1
            }),
    {
    }
    r
}

/// The window of page `page` (the first page when absent): it skips the
/// pages before it and reads one page.
pub fn page_window(page: Option<u64>, page_size: u64) -> (r: PageWindow)
    requires
        page matches Some(p) ==> p * page_size <= u64::MAX,
    ensures
        r.skip == page_size * (match page {
            Some(p) => p,
            None => 0,
        }),
        r.limit == page_size,
{
    let p = match page {
        Some(p) => p,
        None => 0,
    };
    PageWindow { skip: page_size * p, limit: page_size }
}

/// A filter that restricts the listing is counted exactly; the whole
/// collection is counted by the fast estimate.
pub fn count_mode(filter: &Document) -> (r: CountMode)
    ensures
        filter@.len() == 0 ==> r == CountMode::Estimated,
        filter@.len() > 0 ==> r == CountMode::Exact,
{
    if filter.entries.len() == 0 {
        CountMode::Estimated
    } else {
        CountMode::Exact
    }
}

/// Puts a page of results together with its position in the listing.
pub fn paginate<T>(page: Option<u64>, total_count: u64, data: Vec<T>) -> (r: PaginateData<T>)
    ensures
        r.page == (match page {
            Some(p) => p,
            None => 0,
        }),
        r.total_pages as int == pages_for(total_count as int, PAGE_SIZE as int),
        r.total_result == total_count,
        r.data == data,
{
    let p = match page {
        Some(p) => p,
        None => 0,
    };
    PaginateData { page: p, total_pages: total_pages(total_count, PAGE_SIZE), total_result: total_count, data: data }
}

/// A resolved object to put into a listed document in place of its id.
#[derive(Debug)]
pub enum Embedded {
    Null,
    Address(Address),
    Persons(Vec<Person>),
    Person(Person),
    Group(Group),
    Household(Household),
    Event(Event),
}

/// One field of a listed document to replace.
#[derive(Debug)]
pub struct Patch {
    pub key: String,
    pub value: Embedded,
}

fn patch(key: &str, value: Embedded) -> (r: Patch)
    ensures
        r.key@ == key@,
        r.value == value,
{
    Patch { key: literal(key), value: value }
}

impl Household {
    /// The fields of a listed household to replace: its address and its
    /// members, in place of their ids.
    pub fn inline_patches(self) -> (r: Vec<Patch>)
        ensures
            r@.len() == 2,
            r@[0].key@ == "address"@,
            r@[0].value == Embedded::Address(self.address),
            r@[1].key@ == "persons"@,
            r@[1].value == Embedded::Persons(self.persons),
    {
        let mut r: Vec<Patch> = Vec::new();
        r.push(patch("address", Embedded::Address(self.address)));
        r.push(patch("persons", Embedded::Persons(self.persons)));
        r
    }
}

impl GroupRelation {
    /// The fields of a listed membership to replace: its person and its
    /// group, in place of their ids.
    pub fn inline_patches(self) -> (r: Vec<Patch>)
        ensures
            r@.len() == 2,
            r@[0].key@ == "person"@,
            r@[0].value == Embedded::Person(self.person),
            r@[1].key@ == "group"@,
            r@[1].value == Embedded::Group(self.group),
    {
        let mut r: Vec<Patch> = Vec::new();
        r.push(patch("person", Embedded::Person(self.person)));
        r.push(patch("group", Embedded::Group(self.group)));
        r
    }
}

/// The embedded value of an optional party: the object, or null.
pub open spec fn embedded_or_null<T>(v: Option<T>, f: spec_fn(T) -> Embedded) -> Embedded {
    match v {
        Some(x) => f(x),
        None => Embedded::Null,
    }
}

impl EventRegistration {
    /// The fields of a listed registration to replace: its event, and the
    /// three party fields, of which only the one the discriminator names
    /// holds an object; the other two are null.
    pub fn inline_patches(self) -> (r: Vec<Patch>)
        requires
            self.consistent(),
        ensures
            r@.len() == 4,
            r@[0].key@ == "event"@,
            r@[0].value == Embedded::Event(self.event),
            r@[1].key@ == "group"@,
            r@[1].value == embedded_or_null(self.group, |g| Embedded::Group(g)),
            r@[2].key@ == "household"@,
            r@[2].value == embedded_or_null(self.household, |h| Embedded::Household(h)),
            r@[3].key@ == "person"@,
            r@[3].value == embedded_or_null(self.person, |p| Embedded::Person(p)),
    {
        let mut r: Vec<Patch> = Vec::new();
        r.push(patch("event", Embedded::Event(self.event)));
        let group = match self.group {
            Some(g) => Embedded::Group(g),
            None => Embedded::Null,
        };
        r.push(patch("group", group));
        let household = match self.household {
            Some(h) => Embedded::Household(h),
            None => Embedded::Null,
        };
        r.push(patch("household", household));
        let person = match self.person {
            Some(p) => Embedded::Person(p),
            None => Embedded::Null,
        };
        r.push(patch("person", person));
        r
    }
}

/// Reads a batch of stored memberships back, each with the records its
/// lookups found. The first record that fails makes the whole batch fail:
/// no partial list is returned.
pub fn relations_to_domain(
    records: Vec<GroupRelationImpl>,
    found: Vec<(Option<PersonImpl>, Option<Group>)>,
) -> (r: Result<Vec<GroupRelation>, CosiError>)
    requires
        found@.len() == records@.len(),
    ensures
        r matches Ok(v) ==> v@.len() == records@.len() && forall|i: int|
            0 <= i < records@.len() ==> relation_to_domain(records@[i], found@[i].0, found@[i].1)
                == Ok::<GroupRelation, CosiError>(#[trigger] v@[i]),
        (exists|i: int|
            0 <= i < records@.len() && (#[trigger] relation_to_domain(
                records@[i],
                found@[i].0,
                found@[i].1,
            )) is Err) ==> r is Err,
        r matches Err(e) ==> exists|i: int|
            0 <= i < records@.len() && (forall|j: int|
                0 <= j < i ==> (#[trigger] relation_to_domain(records@[j], found@[j].0, found@[j].1))
                    is Ok) && relation_to_domain(records@[i], found@[i].0, found@[i].1) == Err::<
                GroupRelation,
                CosiError,
            >(e),
{
    let ghost recs = records@;
    let ghost fnd = found@;
    let mut rest_records = records;
    let mut rest_found = found;
    let mut out: Vec<GroupRelation> = Vec::new();
    while rest_records.len() > 0
        invariant
            recs == records@,
            fnd == found@,
            recs.len() == fnd.len(),
            rest_records@.len() == rest_found@.len(),
            out@.len() + rest_records@.len() == recs.len(),
            rest_records@ == recs.skip(out@.len() as int),
            rest_found@ == fnd.skip(out@.len() as int),
            forall|j: int|
                0 <= j < out@.len() ==> relation_to_domain(recs[j], fnd[j].0, fnd[j].1) == Ok::<
                    GroupRelation,
                    CosiError,
                >(#[trigger] out@[j]),
        decreases rest_records@.len(),
    {
        let ghost k = out@.len() as int;
        assert(rest_records@[0] == recs[k]);
        assert(rest_found@[0] == fnd[k]);
        let rec = rest_records.remove(0);
        let (person, group) = rest_found.remove(0);
        assert(rest_records@ =~= recs.skip(k + 1));
        assert(rest_found@ =~= fnd.skip(k + 1));
        match rec.to_domain(person, group) {
            Ok(g) => out.push(g),
            Err(e) => {
                assert forall|j: int| 0 <= j < k implies (#[trigger] relation_to_domain(
                    recs[j],
                    fnd[j].0,
                    fnd[j].1,
                )) is Ok by {
                    assert(relation_to_domain(recs[j], fnd[j].0, fnd[j].1) == Ok::<
                        GroupRelation,
                        CosiError,
                    >(out@[j]));
                }
                assert(relation_to_domain(recs[k], fnd[k].0, fnd[k].1) == Err::<GroupRelation, CosiError>(e));
                return Err(e);
            },
        }
    }
    proof {
        assert forall|i: int| 0 <= i < recs.len() implies !((#[trigger] relation_to_domain(
            recs[i],
            fnd[i].0,
            fnd[i].1,
        )) is Err) by {
            assert(relation_to_domain(recs[i], fnd[i].0, fnd[i].1) == Ok::<GroupRelation, CosiError>(
                out@[i],
            ));
        }
    }
    Ok(out)
}

} // verus!

use vstd::prelude::*;

use crate::document::{has_no_null, literal, without_nulls, COSIForm, Document};
use crate::error::CosiError;

verus! {

/// The query document of a search form.
pub fn convert_form_query<F: COSIForm>(form_data: F) -> (r: Result<Document, CosiError>)
    ensures
        r matches Ok(d) && d@ == without_nulls(form_data.fields()) && has_no_null(d@),
{
    form_data.sanitize_query()
}

/// The document to write for a submitted record.
pub fn convert_form_insert<I: COSIForm>(form_data: I) -> (r: Result<Document, CosiError>)
    ensures
        r is Ok <==> form_data.insert_issue() is None,
        r matches Ok(d) ==> d@ == form_data.fields(),
        r matches Err(e) ==> form_data.insert_issue() == Some(e),
{
    form_data.sanitize_insert()
}

/// What an update reports: the records it modified; none when the filter
/// matched records that already held the values; one when it inserted a
/// record instead; and a failure when it matched nothing and inserted
/// nothing.
pub fn update_outcome(matched_count: u64, modified_count: u64, upserted: bool) -> (r: Result<
    u64,
    CosiError,
>)
    ensures
        matched_count > 0 ==> r == Ok::<u64, CosiError>(modified_count),
        matched_count == 0 && upserted ==> r == Ok::<u64, CosiError>(1),
        matched_count == 0 && !upserted ==> r == Err::<u64, CosiError>(CosiError::NotFound),
{
    if matched_count > 0 {
        Ok(modified_count)
    } else if upserted {
        Ok(1)
    } else {
        Err(CosiError::NotFound)
    }
}

/// A failed collection creation is a storage failure.
pub fn creation_outcome(created: bool) -> (r: Result<(), CosiError>)
    ensures
        created <==> r is Ok,
        r matches Err(e) ==> e == CosiError::Storage,
{
    if created {
        Ok(())
    } else {
        Err(CosiError::Storage)
    }
}

} // verus!

verus! {

/// A collection of the document store that holds one kind of record.
pub trait COSICollection {
    /// The name of the collection.
    spec fn table_name() -> Seq<char>;

    fn get_table_name() -> (r: String)
        ensures
            r@ == Self::table_name(),
    ;
}

impl COSICollection for crate::address::Address {
    open spec fn table_name() -> Seq<char> {
        "address"@
    }

    fn get_table_name() -> (r: String) {
        literal("address")
    }
}

impl COSICollection for crate::auth::User {
    open spec fn table_name() -> Seq<char> {
        "user"@
    }

    fn get_table_name() -> (r: String) {
        literal("user")
    }
}

impl COSICollection for crate::group::Group {
    open spec fn table_name() -> Seq<char> {
        "group"@
    }

    fn get_table_name() -> (r: String) {
        literal("group")
    }
}

impl COSICollection for crate::group::GroupRelation {
    open spec fn table_name() -> Seq<char> {
        "grouprelation"@
    }

    fn get_table_name() -> (r: String) {
        literal("grouprelation")
    }
}

impl COSICollection for crate::household::Household {
    open spec fn table_name() -> Seq<char> {
        "household"@
    }

    fn get_table_name() -> (r: String) {
        literal("household")
    }
}

impl COSICollection for crate::event::Event {
    open spec fn table_name() -> Seq<char> {
        "event"@
    }

    fn get_table_name() -> (r: String) {
        literal("event")
    }
}

impl COSICollection for crate::event::EventRegistration {
    open spec fn table_name() -> Seq<char> {
        "eventregistration"@
    }

    fn get_table_name() -> (r: String) {
        literal("eventregistration")
    }
}

impl COSICollection for crate::login::UserLogin {
    open spec fn table_name() -> Seq<char> {
        "userlogin"@
    }

    fn get_table_name() -> (r: String) {
        literal("userlogin")
    }
}

impl COSICollection for crate::person::Person {
    open spec fn table_name() -> Seq<char> {
        "person"@
    }

    fn get_table_name() -> (r: String) {
        literal("person")
    }
}

} // verus!

use vstd::prelude::*;

use crate::document::{
    literal,    clone_opt_text, entries_view, field_spec, nullable, nullable_text, nullable_text_field,
    opt_nullable, opt_text, push_field, text_field, text_value, COSIForm, Document, Entry, FieldView,
    ValueView,
};
use crate::error::CosiError;

verus! {

/// A postal address; it is stored as it is.
#[derive(Debug)]
pub struct Address {
    pub line_one: String,
    pub line_two: String,
    pub line_three: String,
    pub city: String,
    pub region: String,
    pub postal_code: Option<String>,
    pub county: Option<String>,
    pub country: Option<String>,
}

/// A partial address: a search filter or a partial update.
#[derive(Debug)]
pub struct AddressForm {
    pub line_one: Option<String>,
    pub line_two: Option<String>,
    pub line_three: Option<String>,
    pub city: Option<String>,
    pub region: Option<String>,
    pub postal_code: Option<Option<String>>,
    pub county: Option<Option<String>>,
    pub country: Option<Option<String>>,
}

impl Address {
    /// A copy with the same fields.
    pub fn duplicate(&self) -> (r: Address)
        ensures
            r == *self,
    {
        Address {
            line_one: self.line_one.clone(),
            line_two: self.line_two.clone(),
            line_three: self.line_three.clone(),
            city: self.city.clone(),
            region: self.region.clone(),
            postal_code: clone_opt_text(&self.postal_code),
            county: clone_opt_text(&self.county),
            country: clone_opt_text(&self.country),
        }
    }

    /// The filter that finds the stored record of this address by content.
    pub fn content_filter(&self) -> (r: Document)
        ensures
            r@ == self.fields(),
    {
        Document { entries: self.duplicate().into_entries() }
    }
}

impl Default for Address {
    fn default() -> (r: Address)
        ensures
            r.line_one@ == "line_one"@,
            r.line_two@ == "line_two"@,
            r.line_three@ == "line_three"@,
            r.city@ == "city"@,
            r.region@ == "region"@,
            r.postal_code is None,
            r.county is None,
            r.country is None,
    {
        Address {
            line_one: literal("line_one"),
            line_two: literal("line_two"),
            line_three: literal("line_three"),
            city: literal("city"),
            region: literal("region"),
            postal_code: None,
            county: None,
            country: None,
        }
    }
}

impl COSIForm for Address {
    open spec fn fields(&self) -> Seq<FieldView> {
        seq![
            ("line_one"@, ValueView::Text(self.line_one@)),
            ("line_two"@, ValueView::Text(self.line_two@)),
            ("line_three"@, ValueView::Text(self.line_three@)),
            ("city"@, ValueView::Text(self.city@)),
            ("region"@, ValueView::Text(self.region@)),
            ("postal_code"@, nullable_text(self.postal_code)),
            ("county"@, nullable_text(self.county)),
            ("country"@, nullable_text(self.country)),
        ]
    }

    open spec fn insert_issue(&self) -> Option<CosiError> {
        None
    }

    fn into_entries(self) -> (r: Vec<Entry>) {
        let mut d: Vec<Entry> = Vec::new();
        push_field(&mut d, "line_one", Some(text_value(self.line_one)));
        push_field(&mut d, "line_two", Some(text_value(self.line_two)));
        push_field(&mut d, "line_three", Some(text_value(self.line_three)));
        push_field(&mut d, "city", Some(text_value(self.city)));
        push_field(&mut d, "region", Some(text_value(self.region)));
        push_field(&mut d, "postal_code", Some(nullable(self.postal_code)));
        push_field(&mut d, "county", Some(nullable(self.county)));
        push_field(&mut d, "country", Some(nullable(self.country)));
        assert(entries_view(d@) =~= self.fields());
        d
    }

    fn check_insert(&self) -> (r: Result<(), CosiError>) {
        Ok(())
    }
}

impl COSIForm for AddressForm {
    open spec fn fields(&self) -> Seq<FieldView> {
        field_spec("line_one"@, text_field(self.line_one)) + field_spec(
            "line_two"@,
            text_field(self.line_two),
        ) + field_spec("line_three"@, text_field(self.line_three)) + field_spec(
            "city"@,
            text_field(self.city),
        ) + field_spec("region"@, text_field(self.region)) + field_spec(
            "postal_code"@,
            nullable_text_field(self.postal_code),
        ) + field_spec("county"@, nullable_text_field(self.county)) + field_spec(
            "country"@,
            nullable_text_field(self.country),
        )
    }

    open spec fn insert_issue(&self) -> Option<CosiError> {
        None
    }

    fn into_entries(self) -> (r: Vec<Entry>) {
        let mut d: Vec<Entry> = Vec::new();
        push_field(&mut d, "line_one", opt_text(self.line_one));
        push_field(&mut d, "line_two", opt_text(self.line_two));
        push_field(&mut d, "line_three", opt_text(self.line_three));
        push_field(&mut d, "city", opt_text(self.city));
        push_field(&mut d, "region", opt_text(self.region));
        push_field(&mut d, "postal_code", opt_nullable(self.postal_code));
        push_field(&mut d, "county", opt_nullable(self.county));
        push_field(&mut d, "country", opt_nullable(self.country));
        assert(entries_view(d@) =~= self.fields());
        d
    }

    fn check_insert(&self) -> (r: Result<(), CosiError>) {
        Ok(())
    }
}

} // verus!

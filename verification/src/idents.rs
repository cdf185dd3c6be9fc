//! The identifiers that drive the generation: the marker item's name, the
//! collection's name taken from the `CollectionName` attribute, and the
//! optional derive list taken from `CollectionDerives`.

use vstd::prelude::*;
use crate::input::{MarkerInput, NamedAttr, attr_value_spec, attr_string_val};
use crate::text::split_trim_commas;

verus! {

/// The identifiers used when filling the template.
pub struct Idents {
    pub item: String,
    pub collection: String,
    pub derives: Option<Vec<String>>,
}

/// The error reported when the marker item carries no `CollectionName`
/// attribute.
pub open spec fn missing_name_msg() -> Seq<char> {
    "Need [CollectionName=\"...\"]"@
}

/// The derive names requested for the collection: the `CollectionDerives`
/// value split at commas and trimmed, or nothing when the attribute is
/// absent or empty.
pub open spec fn derives_spec(attrs: Seq<NamedAttr>) -> Option<Seq<Seq<char>>> {
    match attr_value_spec(attrs, "CollectionDerives"@) {
        None => None,
        Some(v) => if v.len() == 0 {
            None
        } else {
            Some(split_trim_commas(v))
        },
    }
}

/// Whether `derives` holds exactly the derive names that the attributes ask
/// for.
pub open spec fn derives_match(derives: Option<Vec<String>>, attrs: Seq<NamedAttr>) -> bool {
    match derives {
        None => derives_spec(attrs) is None,
        Some(v) => derives_spec(attrs) == Some(v.deep_view()),
    }
}

impl Idents {
    /// Reads the identifiers off the marker item. Fails exactly when the
    /// `CollectionName` attribute is missing.
    pub fn new(input: &MarkerInput) -> (r: Result<Idents, String>)
        ensures
            match r {
                Ok(idents) => {
                    &&& attr_value_spec(input.attrs@, "CollectionName"@) == Some(
                        idents.collection@,
                    )
                    &&& idents.item@ == input.ident@
                    &&& derives_match(idents.derives, input.attrs@)
                },
                Err(e) => {
                    &&& attr_value_spec(input.attrs@, "CollectionName"@) is None
                    &&& e@ == missing_name_msg()
                },
            },
    {
        let collection_name = match attr_string_val(input, "CollectionName") {
            Some(v) => v,
            None => {
                return Err(String::from_str("Need [CollectionName=\"...\"]"));
            },
        };
        let derives = Idents::parse_derives(input);

        Ok(Idents { item: input.ident.clone(), collection: collection_name, derives: derives })
    }

    /// Reads the requested derive list off the `CollectionDerives`
    /// attribute, if one is there and non-empty.
    pub fn parse_derives(input: &MarkerInput) -> (r: Option<Vec<String>>)
        ensures
            derives_match(r, input.attrs@),
    {
        match attr_string_val(input, "CollectionDerives") {
            Some(derives_str) => {
                if derives_str.as_str().unicode_len() == 0 {
                    return None;
                }
                Some(crate::text::split_commas_trimmed(derives_str.as_str()))
            },
            None => None,
        }
    }

    /// The identifiers, side by side.
    pub fn as_parts(&self) -> (r: (&String, &String, &Option<Vec<String>>))
        ensures
            r == (&self.item, &self.collection, &self.derives),
    {
        (&self.item, &self.collection, &self.derives)
    }
}

} // verus!

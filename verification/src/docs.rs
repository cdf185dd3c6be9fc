//! The doc comments attached to the generated items: each one is either the
//! value of its attribute or a default sentence built from the identifiers.

use vstd::prelude::*;
use crate::idents::Idents;
use crate::input::{MarkerInput, NamedAttr, attr_value_spec, attr_string_val};

verus! {

/// The doc comments of the wrapper type and its methods.
pub struct Docs {
    pub wrapper: String,
    pub new: String,
    pub is_empty: String,
    pub len: String,
    pub iter: String,
}

/// The attribute's value when it is present, the default sentence otherwise.
pub open spec fn doc_or_default(
    attrs: Seq<NamedAttr>,
    name: Seq<char>,
    default: Seq<char>,
) -> Seq<char> {
    match attr_value_spec(attrs, name) {
        Some(v) => v,
        None => default,
    }
}

/// The default doc comment of the wrapper type.
pub open spec fn default_wrapper_doc(item: Seq<char>) -> Seq<char> {
    "A collection of "@ + item + "s"@
}

/// The default doc comment of the generated `new`.
pub open spec fn default_new_doc(collection: Seq<char>) -> Seq<char> {
    "Creates a new, empty "@ + collection
}

/// The default doc comment of the generated `is_empty`.
pub open spec fn default_is_empty_doc(collection: Seq<char>, item: Seq<char>) -> Seq<char> {
    "Returns true if the "@ + collection + " contains no "@ + item + "s"@
}

/// The default doc comment of the generated `len`.
pub open spec fn default_len_doc(item: Seq<char>, collection: Seq<char>) -> Seq<char> {
    "Returns the number of "@ + item + "s in the "@ + collection
}

/// The default doc comment of the generated `iter`.
pub open spec fn default_iter_doc(collection: Seq<char>) -> Seq<char> {
    "Returns an iterator over the "@ + collection
}

/// All five doc comments, resolved against the attributes.
pub open spec fn docs_match(docs: Docs, attrs: Seq<NamedAttr>, idents: Idents) -> bool {
    &&& docs.wrapper@ == doc_or_default(
        attrs,
        "CollectionDoc"@,
        default_wrapper_doc(idents.item@),
    )
    &&& docs.new@ == doc_or_default(
        attrs,
        "CollectionNewDoc"@,
        default_new_doc(idents.collection@),
    )
    &&& docs.is_empty@ == doc_or_default(
        attrs,
        "CollectionIsEmptyDoc"@,
        default_is_empty_doc(idents.collection@, idents.item@),
    )
    &&& docs.len@ == doc_or_default(
        attrs,
        "CollectionLenDoc"@,
        default_len_doc(idents.item@, idents.collection@),
    )
    &&& docs.iter@ == doc_or_default(
        attrs,
        "CollectionIterDoc"@,
        default_iter_doc(idents.collection@),
    )
}

impl Docs {
    /// Resolves the five doc comments: each is its attribute's value where
    /// the attribute is present, its default sentence otherwise.
    pub fn new(input: &MarkerInput, idents: &Idents) -> (d: Docs)
        ensures
            docs_match(d, input.attrs@, *idents),
    {
        let wrapper = match attr_string_val(input, "CollectionDoc") {
            Some(v) => v,
            None => {
                let mut s = String::from_str("A collection of ");
                s.append(idents.item.as_str());
                s.append("s");
                s
            },
        };
        let new = match attr_string_val(input, "CollectionNewDoc") {
            Some(v) => v,
            None => {
                let mut s = String::from_str("Creates a new, empty ");
                s.append(idents.collection.as_str());
                s
            },
        };
        let is_empty = match attr_string_val(input, "CollectionIsEmptyDoc") {
            Some(v) => v,
            None => {
                let mut s = String::from_str("Returns true if the ");
                s.append(idents.collection.as_str());
                s.append(" contains no ");
                s.append(idents.item.as_str());
                s.append("s");
                s
            },
        };
        let len = match attr_string_val(input, "CollectionLenDoc") {
            Some(v) => v,
            None => {
                let mut s = String::from_str("Returns the number of ");
                s.append(idents.item.as_str());
                s.append("s in the ");
                s.append(idents.collection.as_str());
                s
            },
        };
        let iter = match attr_string_val(input, "CollectionIterDoc") {
            Some(v) => v,
            None => {
                let mut s = String::from_str("Returns an iterator over the ");
                s.append(idents.collection.as_str());
                s
            },
        };

        Docs { wrapper: wrapper, new: new, is_empty: is_empty, len: len, iter: iter }
    }

    /// The doc comments, side by side.
    pub fn as_parts(&self) -> (r: (&String, &String, &String, &String, &String))
        ensures
            r == (&self.wrapper, &self.new, &self.is_empty, &self.len, &self.iter),
    {
        (&self.wrapper, &self.new, &self.is_empty, &self.len, &self.iter)
    }
}

} // verus!

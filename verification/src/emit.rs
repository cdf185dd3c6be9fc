//! Fills the fixed code template: given the identifiers and doc comments,
//! emits the source text of the wrapper type, its conversion and iteration
//! impls, and its inherent methods.

use vstd::prelude::*;
use crate::docs::{Docs, doc_or_default, default_wrapper_doc, default_new_doc,
    default_is_empty_doc, default_len_doc, default_iter_doc};
use crate::idents::{Idents, derives_spec, missing_name_msg};
use crate::input::{MarkerInput, NamedAttr, attr_value_spec};
use crate::text::{escape_spec, escape_str, join_comma_space, join_with_comma_space};

verus! {

/// The derive attribute placed on the wrapper type: absent when no derive
/// was requested.
pub open spec fn derive_attr_text(derives: Option<Seq<Seq<char>>>) -> Seq<char> {
    match derives {
        None => Seq::<char>::empty(),
        Some(list) => "#[derive("@ + join_comma_space(list) + ")]\n"@,
    }
}

/// The wrapper type's declaration, with its doc comment and derive
/// attribute.
pub open spec fn header_text(
    item: Seq<char>,
    collection: Seq<char>,
    derives: Option<Seq<Seq<char>>>,
    wrapper_doc: Seq<char>,
) -> Seq<char> {
    "#[doc = \""@ + escape_spec(wrapper_doc) + "\"]\n"@ + derive_attr_text(derives)
        + "pub struct "@ + collection + "(Vec<"@ + item + ">);\n"@
}

/// The construction, iteration and extension impls of the wrapper type.
pub open spec fn conversions_text(item: Seq<char>, collection: Seq<char>) -> Seq<char> {
    "\nimpl ::std::iter::FromIterator<"@ + item + "> for "@ + collection
        + " {\n    fn from_iter<I: IntoIterator<Item = "@ + item
        + ">>(iter: I) -> Self {\n        let mut inner = vec![];\n        inner.extend(iter);\n        "@
        + collection + "(inner)\n    }\n}\n\nimpl From<Vec<"@ + item + ">> for "@ + collection
        + " {\n    fn from(ids: Vec<"@ + item + ">) -> "@ + collection
        + " {\n        let mut new = "@ + collection
        + "::new();\n        new.extend(ids);\n        new\n    }\n}\n\nimpl IntoIterator for "@
        + collection + " {\n    type Item = "@ + item
        + ";\n    type IntoIter = ::std::vec::IntoIter<"@ + item
        + ">;\n\n    fn into_iter(self) -> Self::IntoIter {\n        self.0.into_iter()\n    }\n}\n\nimpl<'a> IntoIterator for &'a "@
        + collection + " {\n    type Item = &'a "@ + item
        + ";\n    type IntoIter = ::std::slice::Iter<'a, "@ + item
        + ">;\n\n    fn into_iter(self) -> Self::IntoIter {\n        self.0.iter()\n    }\n}\n\nimpl Extend<"@
        + item + "> for "@ + collection + " {\n    fn extend<T: IntoIterator<Item = "@ + item
        + ">>(&mut self, iter: T) {\n        self.0.extend(iter);\n    }\n}\n"@
}

/// The inherent methods of the wrapper type, each under its doc comment.
pub open spec fn methods_text(
    item: Seq<char>,
    collection: Seq<char>,
    new_doc: Seq<char>,
    is_empty_doc: Seq<char>,
    len_doc: Seq<char>,
    iter_doc: Seq<char>,
) -> Seq<char> {
    "\nimpl "@ + collection + " {\n    #[doc = \""@ + escape_spec(new_doc)
        + "\"]\n    pub fn new() -> "@ + collection + " {\n        "@ + collection
        + "(vec![])\n    }\n\n    #[doc = \""@ + escape_spec(is_empty_doc)
        + "\"]\n    pub fn is_empty(&self) -> bool {\n        self.0.is_empty()\n    }\n\n    #[doc = \""@
        + escape_spec(len_doc)
        + "\"]\n    pub fn len(&self) -> usize {\n        self.0.len()\n    }\n\n    #[doc = \""@
        + escape_spec(iter_doc) + "\"]\n    pub fn iter<'a>(&'a self) -> ::std::slice::Iter<'a, "@
        + item + "> {\n        self.into_iter()\n    }\n}\n"@
}

/// The whole generated source text.
pub open spec fn generated_code(
    item: Seq<char>,
    collection: Seq<char>,
    derives: Option<Seq<Seq<char>>>,
    wrapper_doc: Seq<char>,
    new_doc: Seq<char>,
    is_empty_doc: Seq<char>,
    len_doc: Seq<char>,
    iter_doc: Seq<char>,
) -> Seq<char> {
    header_text(item, collection, derives, wrapper_doc) + conversions_text(item, collection)
        + methods_text(item, collection, new_doc, is_empty_doc, len_doc, iter_doc)
}

/// What the generation pipeline produces for a marker item whose attributes
/// carry a `CollectionName`.
pub open spec fn expansion(ident: Seq<char>, attrs: Seq<NamedAttr>) -> Seq<char> {
    let collection = attr_value_spec(attrs, "CollectionName"@)->0;
    generated_code(
        ident,
        collection,
        derives_spec(attrs),
        doc_or_default(attrs, "CollectionDoc"@, default_wrapper_doc(ident)),
        doc_or_default(attrs, "CollectionNewDoc"@, default_new_doc(collection)),
        doc_or_default(attrs, "CollectionIsEmptyDoc"@, default_is_empty_doc(collection, ident)),
        doc_or_default(attrs, "CollectionLenDoc"@, default_len_doc(ident, collection)),
        doc_or_default(attrs, "CollectionIterDoc"@, default_iter_doc(collection)),
    )
}

/// Emits the wrapper type's declaration.
fn emit_header(idents: &Idents, docs: &Docs) -> (r: String)
    ensures
        r@ == header_text(
            idents.item@,
            idents.collection@,
            idents.derives.deep_view(),
            docs.wrapper@,
        ),
{
    let mut out = String::from_str("#[doc = \"");
    out.append(escape_str(docs.wrapper.as_str()).as_str());
    out.append("\"]\n");
    match &idents.derives {
        None => {},
        Some(list) => {
            out.append("#[derive(");
            out.append(join_with_comma_space(list).as_str());
            out.append(")]\n");
        },
    }
    out.append("pub struct ");
    out.append(idents.collection.as_str());
    out.append("(Vec<");
    out.append(idents.item.as_str());
    out.append(">);\n");
    proof {
        assert(out@ =~= header_text(
            idents.item@,
            idents.collection@,
            idents.derives.deep_view(),
            docs.wrapper@,
        ));
    }
    out
}

/// Emits the construction, iteration and extension impls.
fn emit_conversions(idents: &Idents) -> (r: String)
    ensures
        r@ == conversions_text(idents.item@, idents.collection@),
{
    let item = idents.item.as_str();
    let collection = idents.collection.as_str();
    let mut out = String::from_str("\nimpl ::std::iter::FromIterator<");
    out.append(item);
    out.append("> for ");
    out.append(collection);
    out.append(" {\n    fn from_iter<I: IntoIterator<Item = ");
    out.append(item);
    out.append(">>(iter: I) -> Self {\n        let mut inner = vec![];\n        inner.extend(iter);\n        ");
    out.append(collection);
    out.append("(inner)\n    }\n}\n\nimpl From<Vec<");
    out.append(item);
    out.append(">> for ");
    out.append(collection);
    out.append(" {\n    fn from(ids: Vec<");
    out.append(item);
    out.append(">) -> ");
    out.append(collection);
    out.append(" {\n        let mut new = ");
    out.append(collection);
    out.append("::new();\n        new.extend(ids);\n        new\n    }\n}\n\nimpl IntoIterator for ");
    out.append(collection);
    out.append(" {\n    type Item = ");
    out.append(item);
    out.append(";\n    type IntoIter = ::std::vec::IntoIter<");
    out.append(item);
    out.append(">;\n\n    fn into_iter(self) -> Self::IntoIter {\n        self.0.into_iter()\n    }\n}\n\nimpl<'a> IntoIterator for &'a ");
    out.append(collection);
    out.append(" {\n    type Item = &'a ");
    out.append(item);
    out.append(";\n    type IntoIter = ::std::slice::Iter<'a, ");
    out.append(item);
    out.append(">;\n\n    fn into_iter(self) -> Self::IntoIter {\n        self.0.iter()\n    }\n}\n\nimpl Extend<");
    out.append(item);
    out.append("> for ");
    out.append(collection);
    out.append(" {\n    fn extend<T: IntoIterator<Item = ");
    out.append(item);
    out.append(">>(&mut self, iter: T) {\n        self.0.extend(iter);\n    }\n}\n");
    out
}

/// Emits the inherent methods, each under its doc comment.
fn emit_methods(idents: &Idents, docs: &Docs) -> (r: String)
    ensures
        r@ == methods_text(
            idents.item@,
            idents.collection@,
            docs.new@,
            docs.is_empty@,
            docs.len@,
            docs.iter@,
        ),
{
    let item = idents.item.as_str();
    let collection = idents.collection.as_str();
    let mut out = String::from_str("\nimpl ");
    out.append(collection);
    out.append(" {\n    #[doc = \"");
    out.append(escape_str(docs.new.as_str()).as_str());
    out.append("\"]\n    pub fn new() -> ");
    out.append(collection);
    out.append(" {\n        ");
    out.append(collection);
    out.append("(vec![])\n    }\n\n    #[doc = \"");
    out.append(escape_str(docs.is_empty.as_str()).as_str());
    out.append("\"]\n    pub fn is_empty(&self) -> bool {\n        self.0.is_empty()\n    }\n\n    #[doc = \"");
    out.append(escape_str(docs.len.as_str()).as_str());
    out.append("\"]\n    pub fn len(&self) -> usize {\n        self.0.len()\n    }\n\n    #[doc = \"");
    out.append(escape_str(docs.iter.as_str()).as_str());
    out.append("\"]\n    pub fn iter<'a>(&'a self) -> ::std::slice::Iter<'a, ");
    out.append(item);
    out.append("> {\n        self.into_iter()\n    }\n}\n");
    out
}

/// Fills the template with the identifiers and doc comments.
pub fn generate_wrapped_vec(idents: &Idents, docs: &Docs) -> (r: String)
    ensures
        r@ == generated_code(
            idents.item@,
            idents.collection@,
            idents.derives.deep_view(),
            docs.wrapper@,
            docs.new@,
            docs.is_empty@,
            docs.len@,
            docs.iter@,
        ),
{
    let mut out = emit_header(idents, docs);
    out.append(emit_conversions(idents).as_str());
    out.append(emit_methods(idents, docs).as_str());
    out
}

/// Runs the whole pipeline on a marker item: reads the identifiers and doc
/// comments off its attributes and fills the template. Fails exactly when
/// the `CollectionName` attribute is missing.
pub fn impl_wrapped_vec(input: &MarkerInput) -> (r: Result<String, String>)
    ensures
        match r {
            Ok(code) => attr_value_spec(input.attrs@, "CollectionName"@) is Some && code@
                == expansion(input.ident@, input.attrs@),
            Err(e) => attr_value_spec(input.attrs@, "CollectionName"@) is None && e@
                == missing_name_msg(),
        },
{
    let idents = match Idents::new(input) {
        Ok(idents) => idents,
        Err(e) => {
            return Err(e);
        },
    };
    let docs = Docs::new(input, &idents);
    let code = generate_wrapped_vec(&idents, &docs);
    proof {
        assert(idents.derives.deep_view() == derives_spec(input.attrs@));
    }
    Ok(code)
}

} // verus!

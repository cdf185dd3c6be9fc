use wrapped_vec::docs::Docs;
use wrapped_vec::emit::{generate_wrapped_vec, impl_wrapped_vec};
use wrapped_vec::idents::Idents;
use wrapped_vec::input::{attr_string_val, MarkerInput, NamedAttr};
use wrapped_vec::text::{join_with_comma_space, split_commas_trimmed, str_eq, trim_substr};

fn attr(name: &str, value: &str) -> NamedAttr {
    NamedAttr {
        name: name.to_string(),
        value: value.to_string(),
    }
}

fn marker(ident: &str, attrs: Vec<NamedAttr>) -> MarkerInput {
    MarkerInput {
        ident: ident.to_string(),
        attrs,
    }
}

#[test]
fn missing_collection_name_fails() {
    let input = marker("Fruit", vec![]);
    let err = impl_wrapped_vec(&input).unwrap_err();
    assert_eq!(err, "Need [CollectionName=\"...\"]");
}

#[test]
fn wrong_attribute_alone_fails() {
    let input = marker("Fruit", vec![attr("CollectionDoc", "Fruit basket")]);
    assert!(impl_wrapped_vec(&input).is_err());
}

#[test]
fn first_matching_attribute_wins() {
    let input = marker(
        "Fruit",
        vec![
            attr("CollectionName", "Fruits"),
            attr("CollectionName", "Basket"),
        ],
    );
    let code = impl_wrapped_vec(&input).unwrap();
    assert!(code.contains("pub struct Fruits(Vec<Fruit>);"));
    assert!(!code.contains("Basket"));
}

#[test]
fn default_docs_are_generated() {
    let input = marker("Fruit", vec![attr("CollectionName", "Fruits")]);
    let code = impl_wrapped_vec(&input).unwrap();
    assert!(code.contains("#[doc = \"A collection of Fruits\"]"));
    assert!(code.contains("#[doc = \"Creates a new, empty Fruits\"]"));
    assert!(code.contains("#[doc = \"Returns true if the Fruits contains no Fruits\"]"));
    assert!(code.contains("#[doc = \"Returns the number of Fruits in the Fruits\"]"));
    assert!(code.contains("#[doc = \"Returns an iterator over the Fruits\"]"));
}

#[test]
fn doc_attributes_override_defaults() {
    let input = marker(
        "Fruit",
        vec![
            attr("CollectionName", "Fruits"),
            attr("CollectionDoc", "All the fruit"),
            attr("CollectionNewDoc", "Makes a basket"),
            attr("CollectionIsEmptyDoc", "Basket empty?"),
            attr("CollectionLenDoc", "Counts fruit"),
            attr("CollectionIterDoc", "Walks the basket"),
        ],
    );
    let code = impl_wrapped_vec(&input).unwrap();
    assert!(code.contains("#[doc = \"All the fruit\"]"));
    assert!(code.contains("#[doc = \"Makes a basket\"]"));
    assert!(code.contains("#[doc = \"Basket empty?\"]"));
    assert!(code.contains("#[doc = \"Counts fruit\"]"));
    assert!(code.contains("#[doc = \"Walks the basket\"]"));
    assert!(!code.contains("A collection of Fruits"));
}

#[test]
fn doc_text_is_escaped() {
    let input = marker(
        "Fruit",
        vec![
            attr("CollectionName", "Fruits"),
            attr("CollectionDoc", "a\"b\\c\nd"),
        ],
    );
    let code = impl_wrapped_vec(&input).unwrap();
    assert!(code.contains("#[doc = \"a\\\"b\\\\c\\nd\"]"));
}

#[test]
fn derives_are_split_and_trimmed() {
    let input = marker(
        "Fruit",
        vec![
            attr("CollectionName", "Fruits"),
            attr("CollectionDerives", "  Clone ,   Debug,PartialEq "),
        ],
    );
    let code = impl_wrapped_vec(&input).unwrap();
    assert!(code.contains("#[derive(Clone, Debug, PartialEq)]"));
}

#[test]
fn empty_derives_are_dropped() {
    let input = marker(
        "Fruit",
        vec![
            attr("CollectionName", "Fruits"),
            attr("CollectionDerives", ""),
        ],
    );
    let code = impl_wrapped_vec(&input).unwrap();
    assert!(!code.contains("#[derive"));
}

#[test]
fn no_derives_without_attribute() {
    let input = marker("Fruit", vec![attr("CollectionName", "Fruits")]);
    let code = impl_wrapped_vec(&input).unwrap();
    assert!(!code.contains("#[derive"));
}

#[test]
fn generated_code_parses_as_rust() {
    let input = marker(
        "Fruit",
        vec![
            attr("CollectionName", "Fruits"),
            attr("CollectionDerives", "Clone, Debug"),
            attr("CollectionDoc", "needs escaping: \" and \\"),
        ],
    );
    let code = impl_wrapped_vec(&input).unwrap();
    let file = syn::parse_file(&code).expect("generated text is valid Rust");
    assert_eq!(file.items.len(), 7);
}

#[test]
fn idents_are_read_off_the_marker() {
    let input = marker(
        "Fruit",
        vec![
            attr("CollectionName", "Fruits"),
            attr("CollectionDerives", "Clone"),
        ],
    );
    let idents = Idents::new(&input).unwrap();
    let (item, collection, derives) = idents.as_parts();
    assert_eq!(item, "Fruit");
    assert_eq!(collection, "Fruits");
    assert_eq!(derives.as_ref().unwrap(), &vec!["Clone".to_string()]);
}

#[test]
fn docs_as_parts_returns_all_five() {
    let input = marker("Pear", vec![attr("CollectionName", "Pears")]);
    let idents = Idents::new(&input).unwrap();
    let docs = Docs::new(&input, &idents);
    let (wrapper, new, is_empty, len, iter) = docs.as_parts();
    assert_eq!(wrapper, "A collection of Pears");
    assert_eq!(new, "Creates a new, empty Pears");
    assert_eq!(is_empty, "Returns true if the Pears contains no Pears");
    assert_eq!(len, "Returns the number of Pears in the Pears");
    assert_eq!(iter, "Returns an iterator over the Pears");
}

#[test]
fn generate_uses_given_parts() {
    let idents = Idents {
        item: "Coin".to_string(),
        collection: "Purse".to_string(),
        derives: None,
    };
    let docs = Docs {
        wrapper: "w".to_string(),
        new: "n".to_string(),
        is_empty: "e".to_string(),
        len: "l".to_string(),
        iter: "i".to_string(),
    };
    let code = generate_wrapped_vec(&idents, &docs);
    assert!(code.starts_with("#[doc = \"w\"]\npub struct Purse(Vec<Coin>);\n"));
    assert!(code.contains("#[doc = \"n\"]\n    pub fn new() -> Purse {"));
    assert!(code.ends_with("pub fn iter<'a>(&'a self) -> ::std::slice::Iter<'a, Coin> {\n        self.into_iter()\n    }\n}\n"));
}

#[test]
fn attr_lookup_finds_first_value() {
    let input = marker(
        "Fruit",
        vec![
            attr("Other", "x"),
            attr("CollectionName", "Fruits"),
            attr("CollectionName", "Later"),
        ],
    );
    assert_eq!(
        attr_string_val(&input, "CollectionName"),
        Some("Fruits".to_string())
    );
    assert_eq!(attr_string_val(&input, "Missing"), None);
}

#[test]
fn str_eq_compares_contents() {
    assert!(str_eq("pear", "pear"));
    assert!(!str_eq("pear", "pearl"));
    assert!(!str_eq("pear", "peat"));
    assert!(str_eq("", ""));
}

#[test]
fn trim_substr_strips_whitespace() {
    assert_eq!(trim_substr("  pear\t\n", 0, 8), "pear");
    assert_eq!(trim_substr("  pear\t\n", 1, 5), "pea");
    assert_eq!(trim_substr("   ", 0, 3), "");
}

#[test]
fn split_commas_trimmed_keeps_every_piece() {
    assert_eq!(
        split_commas_trimmed("a, b , ,c"),
        vec![
            "a".to_string(),
            "b".to_string(),
            "".to_string(),
            "c".to_string()
        ]
    );
    assert_eq!(split_commas_trimmed(""), vec!["".to_string()]);
}

#[test]
fn join_puts_comma_space_between() {
    assert_eq!(
        join_with_comma_space(&vec!["A".to_string(), "B".to_string(), "C".to_string()]),
        "A, B, C"
    );
    assert_eq!(join_with_comma_space(&vec!["A".to_string()]), "A");
    assert_eq!(join_with_comma_space(&vec![]), "");
}

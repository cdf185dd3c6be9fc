use wrapped_vec::emit::impl_wrapped_vec;
use wrapped_vec::input::{MarkerInput, NamedAttr};

fn attr(name: &str, value: &str) -> NamedAttr {
    NamedAttr {
        name: name.to_string(),
        value: value.to_string(),
    }
}

fn fruit_marker() -> MarkerInput {
    MarkerInput {
        ident: "Fruit".to_string(),
        attrs: vec![attr("CollectionName", "Fruits")],
    }
}

fn expand(input: &MarkerInput) -> String {
    impl_wrapped_vec(input).unwrap()
}

#[test]
fn type_exists() {
    let code = expand(&fruit_marker());
    assert!(code.contains("pub struct Fruits(Vec<Fruit>);"));
}

#[test]
fn implements_new() {
    let code = expand(&fruit_marker());
    assert!(code.contains("pub fn new() -> Fruits {\n        Fruits(vec![])\n    }"));
}

#[test]
fn implements_is_empty() {
    let code = expand(&fruit_marker());
    assert!(code.contains("pub fn is_empty(&self) -> bool {\n        self.0.is_empty()\n    }"));
}

#[test]
fn implements_len() {
    let code = expand(&fruit_marker());
    assert!(code.contains("pub fn len(&self) -> usize {\n        self.0.len()\n    }"));
}

#[test]
fn implements_from_iterator() {
    let code = expand(&fruit_marker());
    assert!(code.contains("impl ::std::iter::FromIterator<Fruit> for Fruits {"));
}

#[test]
fn implements_into_iterator() {
    let code = expand(&fruit_marker());
    assert!(code.contains("impl IntoIterator for Fruits {"));
    assert!(code.contains("type IntoIter = ::std::vec::IntoIter<Fruit>;"));
}

#[test]
fn implements_into_iterator_ref() {
    let code = expand(&fruit_marker());
    assert!(code.contains("impl<'a> IntoIterator for &'a Fruits {"));
    assert!(code.contains("type IntoIter = ::std::slice::Iter<'a, Fruit>;"));
}

#[test]
fn implements_iter() {
    let code = expand(&fruit_marker());
    assert!(code.contains("pub fn iter<'a>(&'a self) -> ::std::slice::Iter<'a, Fruit> {"));
}

#[test]
fn implements_extend() {
    let code = expand(&fruit_marker());
    assert!(code.contains("impl Extend<Fruit> for Fruits {"));
}

#[test]
fn implements_from_vec() {
    let code = expand(&fruit_marker());
    assert!(code.contains("impl From<Vec<Fruit>> for Fruits {"));
}

#[test]
fn implements_derives() {
    let input = MarkerInput {
        ident: "Fruit".to_string(),
        attrs: vec![
            attr("CollectionName", "Fruits"),
            attr("CollectionDerives", "Clone, Debug"),
        ],
    };
    let code = expand(&input);
    assert!(code.contains("#[derive(Clone, Debug)]\npub struct Fruits(Vec<Fruit>);"));
}

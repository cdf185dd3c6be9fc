//! The model of the marker item: its identifier and the name/value
//! attributes written on it, as plain strings.

use vstd::prelude::*;
use crate::text::str_eq;

verus! {

/// One `name = "value"` attribute of the marker item.
pub struct NamedAttr {
    pub name: String,
    pub value: String,
}

impl View for NamedAttr {
    type V = (Seq<char>, Seq<char>);

    open spec fn view(&self) -> (Seq<char>, Seq<char>) {
        (self.name@, self.value@)
    }
}

impl DeepView for NamedAttr {
    type V = (Seq<char>, Seq<char>);

    open spec fn deep_view(&self) -> (Seq<char>, Seq<char>) {
        self@
    }
}

/// The marker item as the generator sees it: its identifier and its
/// attributes, in source order.
pub struct MarkerInput {
    pub ident: String,
    pub attrs: Vec<NamedAttr>,
}

/// The value of the first attribute named `name`, if any.
pub open spec fn attr_value_spec(attrs: Seq<NamedAttr>, name: Seq<char>) -> Option<Seq<char>>
    decreases attrs.len(),
{
    if attrs.len() == 0 {
        None
    } else if attrs[0].name@ == name {
        Some(attrs[0].value@)
    } else {
        attr_value_spec(attrs.drop_first(), name)
    }
}

/// Looks up the value of the first attribute named `attr_name`.
pub fn attr_string_val(input: &MarkerInput, attr_name: &str) -> (r: Option<String>)
    ensures
        match r {
            Some(v) => attr_value_spec(input.attrs@, attr_name@) == Some(v@),
            None => attr_value_spec(input.attrs@, attr_name@) is None,
        },
{
    let n = input.attrs.len();
    let mut i: usize = 0;
    proof {
        assert(input.attrs@.subrange(0, n as int) =~= input.attrs@);
    }
    while i < n
        invariant
            i <= n,
            n == input.attrs@.len(),
            attr_value_spec(input.attrs@, attr_name@) == attr_value_spec(
                input.attrs@.subrange(i as int, n as int),
                attr_name@,
            ),
        decreases n - i,
    {
        let attr = &input.attrs[i];
        proof {
            assert(input.attrs@.subrange(i as int, n as int)[0] == input.attrs@[i as int]);
        }
        if str_eq(attr.name.as_str(), attr_name) {
            return Some(attr.value.clone());
        }
        proof {
            assert(input.attrs@.subrange(i as int, n as int).drop_first() =~= input.attrs@.subrange(
                i + 1,
                n as int,
            ));
        }
        i += 1;
    }
    None
}

} // verus!

//! Putting an element together: attribute lists grown one entry at a time,
//! and leaf elements.

use vstd::prelude::*;
use crate::text::{bool_text, decimal_text, format_bool, format_number};
use crate::xml::query::{attribute_value, children_named};
use crate::xml::tree::{
    attribute_views, element_views, opt_text, Attribute, AttributeView, Element, ElementView,
};

verus! {

/// An attribute list with one more attribute at its end.
pub open spec fn with_attribute(
    attributes: Seq<AttributeView>,
    name: Seq<char>,
    value: Seq<char>,
) -> Seq<AttributeView> {
    attributes.push(AttributeView { name, value })
}

/// An attribute list with one more attribute at its end, where there is a
/// value for it.
pub open spec fn with_optional_attribute(
    attributes: Seq<AttributeView>,
    name: Seq<char>,
    value: Option<Seq<char>>,
) -> Seq<AttributeView> {
    match value {
        Some(text) => with_attribute(attributes, name, text),
        None => attributes,
    }
}

/// The notation of a number that may be absent.
pub open spec fn optional_decimal_text(value: Option<u64>) -> Option<Seq<char>> {
    match value {
        Some(n) => Some(decimal_text(n as nat)),
        None => None,
    }
}

/// The notation of a truth value that may be absent.
pub open spec fn optional_bool_text(value: Option<bool>) -> Option<Seq<char>> {
    match value {
        Some(b) => Some(bool_text(b)),
        None => None,
    }
}

/// An element without attributes or children that holds only character data.
pub open spec fn text_element(name: Seq<char>, text: Seq<char>) -> ElementView {
    ElementView {
        name,
        namespace: None,
        attributes: Seq::empty(),
        text,
        children: Seq::empty(),
    }
}

/// A list of elements with one more element at its end, where there is one.
pub open spec fn with_optional_child(
    children: Seq<ElementView>,
    child: Option<ElementView>,
) -> Seq<ElementView> {
    match child {
        Some(element) => children.push(element),
        None => children,
    }
}

/// What looking up any name gives in a list to which an attribute was added:
/// the new value under the new name, and what it gave before under every
/// other.
pub proof fn lemma_value_with_attribute(
    attributes: Seq<AttributeView>,
    name: Seq<char>,
    value: Seq<char>,
)
    ensures
        forall|other: Seq<char>| #[trigger]
            attribute_value(with_attribute(attributes, name, value), other) == if other == name {
                Some(value)
            } else {
                attribute_value(attributes, other)
            },
{
    let grown = with_attribute(attributes, name, value);
    assert(grown.drop_last() =~= attributes);
    assert(grown.last() == AttributeView { name, value });
}

/// What looking up any name gives in a list to which an attribute may have
/// been added.
pub proof fn lemma_value_with_optional_attribute(
    attributes: Seq<AttributeView>,
    name: Seq<char>,
    value: Option<Seq<char>>,
)
    ensures
        forall|other: Seq<char>| #[trigger]
            attribute_value(with_optional_attribute(attributes, name, value), other) == if other
                == name && value is Some {
                value
            } else {
                attribute_value(attributes, other)
            },
{
    if value is Some {
        lemma_value_with_attribute(attributes, name, value->Some_0);
    }
}

/// What selecting by any name gives in a list to which an element was added.
pub proof fn lemma_children_named_push(children: Seq<ElementView>, child: ElementView)
    ensures
        forall|name: Seq<char>| #[trigger]
            children_named(children.push(child), name) == if child.name == name {
                children_named(children, name).push(child)
            } else {
                children_named(children, name)
            },
{
    let grown = children.push(child);
    assert(grown.drop_last() =~= children);
    assert(grown.last() == child);
}

/// Adds an attribute at the end of a list.
pub fn push_attribute(attributes: &mut Vec<Attribute>, name: &str, value: &str)
    ensures
        attribute_views(final(attributes)@) == with_attribute(
            attribute_views(old(attributes)@),
            name@,
            value@,
        ),
{
    let ghost before = attribute_views(attributes@);
    attributes.push(Attribute { name: name.to_owned(), value: value.to_owned() });
    assert(attribute_views(attributes@) =~= with_attribute(before, name@, value@));
}

/// Adds an attribute at the end of a list, where there is a value for it.
pub fn push_optional_attribute(attributes: &mut Vec<Attribute>, name: &str, value: &Option<String>)
    ensures
        attribute_views(final(attributes)@) == with_optional_attribute(
            attribute_views(old(attributes)@),
            name@,
            opt_text(*value),
        ),
{
    match value {
        Some(text) => push_attribute(attributes, name, text.as_str()),
        None => {},
    }
}

/// Adds an attribute that holds a number.
pub fn push_number_attribute(attributes: &mut Vec<Attribute>, name: &str, value: u64)
    ensures
        attribute_views(final(attributes)@) == with_attribute(
            attribute_views(old(attributes)@),
            name@,
            decimal_text(value as nat),
        ),
{
    let text = format_number(value);
    push_attribute(attributes, name, text.as_str());
}

/// Adds an attribute that holds a number, where there is one.
pub fn push_optional_number_attribute(
    attributes: &mut Vec<Attribute>,
    name: &str,
    value: Option<u64>,
)
    ensures
        attribute_views(final(attributes)@) == with_optional_attribute(
            attribute_views(old(attributes)@),
            name@,
            optional_decimal_text(value),
        ),
{
    match value {
        Some(n) => push_number_attribute(attributes, name, n),
        None => {},
    }
}

/// Adds an attribute that holds a truth value.
pub fn push_bool_attribute(attributes: &mut Vec<Attribute>, name: &str, value: bool)
    ensures
        attribute_views(final(attributes)@) == with_attribute(
            attribute_views(old(attributes)@),
            name@,
            bool_text(value),
        ),
{
    let text = format_bool(value);
    push_attribute(attributes, name, text.as_str());
}

/// Adds an attribute that holds a truth value, where there is one.
pub fn push_optional_bool_attribute(
    attributes: &mut Vec<Attribute>,
    name: &str,
    value: Option<bool>,
)
    ensures
        attribute_views(final(attributes)@) == with_optional_attribute(
            attribute_views(old(attributes)@),
            name@,
            optional_bool_text(value),
        ),
{
    match value {
        Some(b) => push_bool_attribute(attributes, name, b),
        None => {},
    }
}

/// Builds an element that holds only character data.
pub fn make_text_element(name: &str, text: &str) -> (element: Element)
    ensures
        element@ == text_element(name@, text@),
{
    let element = Element {
        name: name.to_owned(),
        namespace: None,
        attributes: Vec::new(),
        text: text.to_owned(),
        children: Vec::new(),
    };
    assert(attribute_views(element.attributes@) =~= Seq::<AttributeView>::empty());
    assert(element_views(element.children@) =~= Seq::<ElementView>::empty());
    element
}

/// Adds an element at the end of a list.
pub fn push_child(children: &mut Vec<Element>, child: Element)
    ensures
        element_views(final(children)@) == element_views(old(children)@).push(child@),
{
    let ghost before = element_views(children@);
    children.push(child);
    assert(element_views(children@) =~= before.push(child@));
}

} // verus!

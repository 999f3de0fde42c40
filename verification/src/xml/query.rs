//! Looking things up in an element: attributes by name, children by name,
//! and attribute values read as numbers and truth values.

use vstd::prelude::*;
use crate::error::Error;
use crate::text::{bool_value, number_up_to, parse_bool, parse_number, text_is};
use crate::xml::tree::{
    attribute_views, element_views, opt_text, Attribute, AttributeView, Element, ElementView,
};

verus! {

/// The value of the attribute called `name`: that of the last one, where
/// several carry the name.
pub open spec fn attribute_value(attributes: Seq<AttributeView>, name: Seq<char>) -> Option<
    Seq<char>,
>
    decreases attributes.len(),
{
    if attributes.len() == 0 {
        None
    } else if attributes.last().name == name {
        Some(attributes.last().value)
    } else {
        attribute_value(attributes.drop_last(), name)
    }
}

/// A text that may be absent, with the empty text in its place.
pub open spec fn text_or_empty(value: Option<Seq<char>>) -> Seq<char> {
    match value {
        Some(text) => text,
        None => Seq::empty(),
    }
}

/// An optional number read from an attribute: `None` where the attribute is
/// there and holds no number up to `max`, `Some(None)` where it is absent.
pub open spec fn optional_number(value: Option<Seq<char>>, max: nat) -> Option<Option<nat>> {
    match value {
        None => Some(None),
        Some(text) => match number_up_to(text, max) {
            Some(n) => Some(Some(n)),
            None => None,
        },
    }
}

/// A number read from an attribute, 0 where the attribute is absent: `None`
/// where it is there and holds no number up to `max`.
pub open spec fn required_number(value: Option<Seq<char>>, max: nat) -> Option<nat> {
    match value {
        None => Some(0),
        Some(text) => number_up_to(text, max),
    }
}

/// An optional truth value read from an attribute: `None` where the attribute
/// is there and holds none, `Some(None)` where it is absent.
pub open spec fn optional_bool(value: Option<Seq<char>>) -> Option<Option<bool>> {
    match value {
        None => Some(None),
        Some(text) => match bool_value(text) {
            Some(b) => Some(Some(b)),
            None => None,
        },
    }
}

/// A truth value read from an attribute, `false` where the attribute is
/// absent: `None` where it is there and holds none.
pub open spec fn required_bool(value: Option<Seq<char>>) -> Option<bool> {
    match value {
        None => Some(false),
        Some(text) => bool_value(text),
    }
}

/// The elements of a list that are called `name`, in order.
pub open spec fn children_named(children: Seq<ElementView>, name: Seq<char>) -> Seq<ElementView>
    decreases children.len(),
{
    if children.len() == 0 {
        Seq::empty()
    } else if children.last().name == name {
        children_named(children.drop_last(), name).push(children.last())
    } else {
        children_named(children.drop_last(), name)
    }
}

/// The last element of a list that is called `name`.
pub open spec fn child_named(children: Seq<ElementView>, name: Seq<char>) -> Option<ElementView> {
    let found = children_named(children, name);
    if found.len() > 0 {
        Some(found.last())
    } else {
        None
    }
}

/// Selecting by name from two lists joined is joining what is selected from
/// each.
pub proof fn lemma_children_named_concat(
    first: Seq<ElementView>,
    second: Seq<ElementView>,
    name: Seq<char>,
)
    ensures
        children_named(first + second, name) == children_named(first, name) + children_named(
            second,
            name,
        ),
    decreases second.len(),
{
    if second.len() == 0 {
        assert(first + second =~= first);
        assert(children_named(first, name) + children_named(second, name) =~= children_named(
            first,
            name,
        ));
    } else {
        assert((first + second).drop_last() =~= first + second.drop_last());
        assert((first + second).last() == second.last());
        lemma_children_named_concat(first, second.drop_last(), name);
        if second.last().name == name {
            assert(children_named(first + second, name) =~= children_named(first, name)
                + children_named(second, name));
        }
    }
}

/// Selecting by a name that every element of the list carries selects them
/// all.
pub proof fn lemma_children_named_all(children: Seq<ElementView>, name: Seq<char>)
    requires
        forall|i: int| 0 <= i < children.len() ==> (#[trigger] children[i]).name == name,
    ensures
        children_named(children, name) == children,
    decreases children.len(),
{
    if children.len() > 0 {
        lemma_children_named_all(children.drop_last(), name);
        assert(children_named(children, name) =~= children);
    } else {
        assert(children_named(children, name) =~= children);
    }
}

/// Selecting by a name that no element of the list carries selects nothing.
pub proof fn lemma_children_named_none(children: Seq<ElementView>, name: Seq<char>)
    requires
        forall|i: int| 0 <= i < children.len() ==> (#[trigger] children[i]).name != name,
    ensures
        children_named(children, name) == Seq::<ElementView>::empty(),
    decreases children.len(),
{
    if children.len() > 0 {
        lemma_children_named_none(children.drop_last(), name);
    }
}

/// The children called `name`, each read by `decode`, in order.
pub open spec fn mapped_children<T>(
    children: Seq<ElementView>,
    name: Seq<char>,
    decode: spec_fn(ElementView) -> T,
) -> Seq<T> {
    children_named(children, name).map_values(decode)
}

/// What one more element at the end of a list adds to the children read from
/// it.
pub proof fn lemma_mapped_children_push<T>(
    children: Seq<ElementView>,
    child: ElementView,
    name: Seq<char>,
    decode: spec_fn(ElementView) -> T,
)
    ensures
        mapped_children(children.push(child), name, decode) == if child.name == name {
            mapped_children(children, name, decode).push(decode(child))
        } else {
            mapped_children(children, name, decode)
        },
{
    let grown = children.push(child);
    assert(grown.drop_last() =~= children);
    assert(grown.last() == child);
    if child.name == name {
        assert(mapped_children(grown, name, decode) =~= mapped_children(
            children,
            name,
            decode,
        ).push(decode(child)));
    }
}

/// A list of encoded items, each of which is called `name` and reads as the
/// item it was made from, followed by elements of other names, reads as the
/// items.
pub proof fn lemma_mapped_children_encoded<T>(
    items: Seq<T>,
    others: Seq<ElementView>,
    name: Seq<char>,
    encode: spec_fn(T) -> ElementView,
    decode: spec_fn(ElementView) -> T,
)
    requires
        forall|item: T| (#[trigger] encode(item)).name == name,
        forall|item: T| decode(#[trigger] encode(item)) == item,
        forall|i: int| 0 <= i < others.len() ==> (#[trigger] others[i]).name != name,
    ensures
        mapped_children(items.map_values(encode) + others, name, decode) == items,
{
    let encoded = items.map_values(encode);
    lemma_children_named_concat(encoded, others, name);
    lemma_children_named_all(encoded, name);
    lemma_children_named_none(others, name);
    assert(encoded + Seq::<ElementView>::empty() =~= encoded);
    assert(encoded.map_values(decode) =~= items);
}

/// The children called `name`, each decoded, in order: `None` where one of
/// them does not decode.
pub open spec fn decoded_children<T>(
    children: Seq<ElementView>,
    name: Seq<char>,
    decode: spec_fn(ElementView) -> Option<T>,
) -> Option<Seq<T>>
    decreases children.len(),
{
    if children.len() == 0 {
        Some(Seq::empty())
    } else if children.last().name != name {
        decoded_children(children.drop_last(), name, decode)
    } else {
        match (decoded_children(children.drop_last(), name, decode), decode(children.last())) {
            (Some(before), Some(value)) => Some(before.push(value)),
            _ => None,
        }
    }
}

/// Decoding the children called `name` of two lists joined is decoding those
/// of each and joining the results.
pub proof fn lemma_decoded_children_concat<T>(
    first: Seq<ElementView>,
    second: Seq<ElementView>,
    name: Seq<char>,
    decode: spec_fn(ElementView) -> Option<T>,
)
    ensures
        decoded_children(first + second, name, decode) == match (
            decoded_children(first, name, decode),
            decoded_children(second, name, decode),
        ) {
            (Some(a), Some(b)) => Some(a + b),
            _ => None,
        },
    decreases second.len(),
{
    if second.len() == 0 {
        assert(first + second =~= first);
        if decoded_children(first, name, decode) is Some {
            assert(decoded_children(first, name, decode)->Some_0 + Seq::<T>::empty()
                =~= decoded_children(first, name, decode)->Some_0);
        }
    } else {
        assert((first + second).drop_last() =~= first + second.drop_last());
        assert((first + second).last() == second.last());
        lemma_decoded_children_concat(first, second.drop_last(), name, decode);
        let a = decoded_children(first, name, decode);
        let b = decoded_children(second.drop_last(), name, decode);
        if second.last().name == name && a is Some && b is Some && decode(second.last()) is Some {
            assert((a->Some_0 + b->Some_0).push(decode(second.last())->Some_0) =~= a->Some_0
                + b->Some_0.push(decode(second.last())->Some_0));
        }
    }
}

/// Where the children at the beginning of a list do not decode, the whole
/// list does not.
pub proof fn lemma_decoded_children_prefix<T>(
    children: Seq<ElementView>,
    upto: int,
    name: Seq<char>,
    decode: spec_fn(ElementView) -> Option<T>,
)
    requires
        0 <= upto <= children.len(),
        decoded_children(children.take(upto), name, decode) is None,
    ensures
        decoded_children(children, name, decode) is None,
{
    assert(children.take(upto) + children.skip(upto) =~= children);
    lemma_decoded_children_concat(children.take(upto), children.skip(upto), name, decode);
}

/// A list without children called `name` decodes to the empty list.
pub proof fn lemma_decoded_children_none<T>(
    children: Seq<ElementView>,
    name: Seq<char>,
    decode: spec_fn(ElementView) -> Option<T>,
)
    requires
        forall|i: int| 0 <= i < children.len() ==> (#[trigger] children[i]).name != name,
    ensures
        decoded_children(children, name, decode) == Some(Seq::<T>::empty()),
    decreases children.len(),
{
    if children.len() > 0 {
        lemma_decoded_children_none(children.drop_last(), name, decode);
    }
}

/// A list of encoded items, each of which is called `name` and decodes to the
/// item it was made from, decodes to the items.
pub proof fn lemma_decoded_children_encoded<T>(
    items: Seq<T>,
    name: Seq<char>,
    encode: spec_fn(T) -> ElementView,
    decode: spec_fn(ElementView) -> Option<T>,
)
    requires
        forall|item: T| (#[trigger] encode(item)).name == name,
        forall|item: T| decode(#[trigger] encode(item)) == Some(item),
    ensures
        decoded_children(items.map_values(encode), name, decode) == Some(items),
    decreases items.len(),
{
    let children = items.map_values(encode);
    if items.len() == 0 {
        assert(items =~= Seq::<T>::empty());
    } else {
        assert(children.drop_last() =~= items.drop_last().map_values(encode));
        assert(children.last() == encode(items.last()));
        lemma_decoded_children_encoded(items.drop_last(), name, encode, decode);
        assert(items.drop_last().push(items.last()) =~= items);
    }
}

/// Finds the value of the attribute called `name`.
pub fn find_attribute(attributes: &Vec<Attribute>, name: &str) -> (value: Option<String>)
    ensures
        opt_text(value) == attribute_value(attribute_views(attributes@), name@),
{
    let ghost all = attribute_views(attributes@);
    let mut i: usize = attributes.len();
    assert(all.take(i as int) =~= all);
    while i > 0
        invariant
            i <= attributes.len(),
            all == attribute_views(attributes@),
            attribute_value(all, name@) == attribute_value(all.take(i as int), name@),
        decreases i,
    {
        let ghost upto = all.take(i as int);
        i -= 1;
        assert(upto.last() == attributes@[i as int]@);
        assert(upto.drop_last() =~= all.take(i as int));
        if text_is(attributes[i].name.as_str(), name) {
            return Some(attributes[i].value.clone());
        }
    }
    None
}

/// The text of an attribute, empty where the attribute is absent.
pub fn attribute_text(attributes: &Vec<Attribute>, name: &str) -> (value: String)
    ensures
        value@ == text_or_empty(attribute_value(attribute_views(attributes@), name@)),
{
    match find_attribute(attributes, name) {
        Some(text) => text,
        None => String::new(),
    }
}

/// Reads an optional attribute as a number up to `max`.
pub fn attribute_optional_number(attributes: &Vec<Attribute>, name: &str, max: u64) -> (r: Result<
    Option<u64>,
    Error,
>)
    ensures
        match optional_number(attribute_value(attribute_views(attributes@), name@), max as nat) {
            Some(Some(n)) => r == Ok::<Option<u64>, Error>(Some(n as u64)),
            Some(None) => r == Ok::<Option<u64>, Error>(None),
            None => r is Err && r->Err_0 is Parse,
        },
{
    match find_attribute(attributes, name) {
        None => Ok(None),
        Some(text) => match parse_number(text.as_str(), max) {
            Some(n) => Ok(Some(n)),
            None => Err(Error::parse("an attribute does not hold a number in range")),
        },
    }
}

/// Reads an attribute as a number up to `max`; an absent attribute reads as 0.
pub fn attribute_number(attributes: &Vec<Attribute>, name: &str, max: u64) -> (r: Result<
    u64,
    Error,
>)
    ensures
        match required_number(attribute_value(attribute_views(attributes@), name@), max as nat) {
            Some(n) => r == Ok::<u64, Error>(n as u64),
            None => r is Err && r->Err_0 is Parse,
        },
{
    match find_attribute(attributes, name) {
        None => Ok(0),
        Some(text) => match parse_number(text.as_str(), max) {
            Some(n) => Ok(n),
            None => Err(Error::parse("an attribute does not hold a number in range")),
        },
    }
}

/// Reads an optional attribute as a truth value.
pub fn attribute_optional_bool(attributes: &Vec<Attribute>, name: &str) -> (r: Result<
    Option<bool>,
    Error,
>)
    ensures
        match optional_bool(attribute_value(attribute_views(attributes@), name@)) {
            Some(value) => r == Ok::<Option<bool>, Error>(value),
            None => r is Err && r->Err_0 is Parse,
        },
{
    match find_attribute(attributes, name) {
        None => Ok(None),
        Some(text) => match parse_bool(text.as_str()) {
            Some(b) => Ok(Some(b)),
            None => Err(Error::parse("an attribute does not hold a truth value")),
        },
    }
}

/// Reads an attribute as a truth value; an absent attribute reads as `false`.
pub fn attribute_bool(attributes: &Vec<Attribute>, name: &str) -> (r: Result<bool, Error>)
    ensures
        match required_bool(attribute_value(attribute_views(attributes@), name@)) {
            Some(value) => r == Ok::<bool, Error>(value),
            None => r is Err && r->Err_0 is Parse,
        },
{
    match find_attribute(attributes, name) {
        None => Ok(false),
        Some(text) => match parse_bool(text.as_str()) {
            Some(b) => Ok(b),
            None => Err(Error::parse("an attribute does not hold a truth value")),
        },
    }
}

/// Finds the last child called `name`.
pub fn find_child<'a>(children: &'a Vec<Element>, name: &str) -> (child: Option<&'a Element>)
    ensures
        match child_named(element_views(children@), name@) {
            Some(found) => child is Some && child->Some_0@ == found,
            None => child is None,
        },
{
    let ghost all = element_views(children@);
    let mut i: usize = children.len();
    assert(all.take(i as int) =~= all);
    while i > 0
        invariant
            i <= children.len(),
            all == element_views(children@),
            child_named(all, name@) == child_named(all.take(i as int), name@),
        decreases i,
    {
        let ghost upto = all.take(i as int);
        i -= 1;
        assert(upto.last() == children@[i as int]@);
        assert(upto.drop_last() =~= all.take(i as int));
        if text_is(children[i].name.as_str(), name) {
            return Some(&children[i]);
        }
        assert(children_named(upto, name@) == children_named(upto.drop_last(), name@));
    }
    None
}

/// The character data of the last child called `name`, empty where there is
/// no such child.
pub open spec fn child_text(children: Seq<ElementView>, name: Seq<char>) -> Seq<char> {
    match child_named(children, name) {
        Some(child) => child.text,
        None => Seq::empty(),
    }
}

/// Reads the character data of the last child called `name`.
pub fn find_child_text(children: &Vec<Element>, name: &str) -> (text: String)
    ensures
        text@ == child_text(element_views(children@), name@),
{
    match find_child(children, name) {
        Some(child) => child.text.clone(),
        None => String::new(),
    }
}

} // verus!

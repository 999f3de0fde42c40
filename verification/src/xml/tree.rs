//! Elements and their mathematical model.

use vstd::prelude::*;

verus! {

/// One attribute of an element: its local name and its value.
#[derive(Debug, PartialEq, Eq)]
pub struct Attribute {
    pub name: String,
    pub value: String,
}

/// The model of an [`Attribute`].
pub ghost struct AttributeView {
    pub name: Seq<char>,
    pub value: Seq<char>,
}

impl View for Attribute {
    type V = AttributeView;

    open spec fn view(&self) -> AttributeView {
        AttributeView { name: self.name@, value: self.value@ }
    }
}

/// An element: its local name, the namespace it belongs to, its attributes in
/// document order, the character data directly inside it, and its child
/// elements in document order.
#[derive(Debug, PartialEq, Eq)]
pub struct Element {
    pub name: String,
    pub namespace: Option<String>,
    pub attributes: Vec<Attribute>,
    pub text: String,
    pub children: Vec<Element>,
}

/// The model of an [`Element`].
pub ghost struct ElementView {
    pub name: Seq<char>,
    pub namespace: Option<Seq<char>>,
    pub attributes: Seq<AttributeView>,
    pub text: Seq<char>,
    pub children: Seq<ElementView>,
}

/// The model of an optional string.
pub open spec fn opt_text(value: Option<String>) -> Option<Seq<char>> {
    match value {
        Some(s) => Some(s@),
        None => None,
    }
}

/// The models of a list of attributes, in order.
pub open spec fn attribute_views(attributes: Seq<Attribute>) -> Seq<AttributeView> {
    attributes.map_values(|a: Attribute| a@)
}

/// The models of a list of elements, in order.
pub open spec fn element_views(elements: Seq<Element>) -> Seq<ElementView>
    decreases elements,
{
    Seq::new(
        elements.len(),
        |i: int|
            if 0 <= i < elements.len() {
                element_view(elements[i])
            } else {
                arbitrary()
            },
    )
}

/// The model of one element.
pub open spec fn element_view(element: Element) -> ElementView
    decreases element,
{
    ElementView {
        name: element.name@,
        namespace: opt_text(element.namespace),
        attributes: attribute_views(element.attributes@),
        text: element.text@,
        children: element_views(element.children@),
    }
}

impl View for Element {
    type V = ElementView;

    open spec fn view(&self) -> ElementView {
        element_view(*self)
    }
}

} // verus!

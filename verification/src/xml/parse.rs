//! From tokens to the element tree.

use vstd::prelude::*;
use vstd::string::StringExecFns;
use crate::error::Error;
use crate::xml::reader::{document_tokens, read_tokens};
use crate::xml::token::{reader_message, token_views, Token, TokenView};
use crate::xml::tree::{attribute_views, element_views, opt_text, Attribute, Element, ElementView};

verus! {

/// The content of an element whose tokens start at `at`: the character data
/// and the child elements met up to the closing tag, appended to `text` and
/// `children`, and the place of that closing tag.
pub open spec fn content_from(
    tokens: Seq<TokenView>,
    at: int,
    text: Seq<char>,
    children: Seq<ElementView>,
) -> Option<(Seq<char>, Seq<ElementView>, int)>
    decreases tokens.len() - at, 1nat,
{
    if 0 <= at < tokens.len() {
        match tokens[at] {
            TokenView::Text(data) => content_from(tokens, at + 1, text + data, children),
            TokenView::Start { .. } => match element_at(tokens, at) {
                Some((child, next)) => if at < next <= tokens.len() {
                    content_from(tokens, next, text, children.push(child))
                } else {
                    None
                },
                None => None,
            },
            TokenView::End { .. } => Some((text, children, at)),
            _ => None,
        }
    } else {
        None
    }
}

/// The element whose opening tag stands at `at`, and the place after its
/// closing tag. There is none where the tokens from `at` on are not one
/// well-nested element.
pub open spec fn element_at(tokens: Seq<TokenView>, at: int) -> Option<(ElementView, int)>
    decreases tokens.len() - at, 0nat,
{
    if 0 <= at < tokens.len() {
        match tokens[at] {
            TokenView::Start { name, namespace, attributes } => match content_from(
                tokens,
                at + 1,
                Seq::empty(),
                Seq::empty(),
            ) {
                Some((text, children, end)) => if 0 <= end < tokens.len() && tokens[end]
                    == (TokenView::End { name }) {
                    Some((ElementView { name, namespace, attributes, text, children }, end + 1))
                } else {
                    None
                },
                None => None,
            },
            _ => None,
        }
    } else {
        None
    }
}

/// The document that a token list spells: one root element, followed by the
/// end of the document and nothing more.
pub open spec fn tree_of(tokens: Seq<TokenView>) -> Option<ElementView> {
    match element_at(tokens, 0) {
        Some((root, next)) => if next == tokens.len() - 1 && tokens[next] is EndOfDocument {
            Some(root)
        } else {
            None
        },
        None => None,
    }
}

/// A copy of an optional string.
pub fn clone_opt_text(value: &Option<String>) -> (copy: Option<String>)
    ensures
        opt_text(copy) == opt_text(*value),
{
    match value {
        Some(text) => Some(text.clone()),
        None => None,
    }
}

/// A copy of a list of attributes.
pub fn clone_attributes(attributes: &Vec<Attribute>) -> (copy: Vec<Attribute>)
    ensures
        attribute_views(copy@) == attribute_views(attributes@),
{
    let mut copy: Vec<Attribute> = Vec::new();
    let mut i: usize = 0;
    while i < attributes.len()
        invariant
            i <= attributes.len(),
            attribute_views(copy@) == attribute_views(attributes@).take(i as int),
        decreases attributes.len() - i,
    {
        let ghost before = attribute_views(copy@);
        copy.push(Attribute { name: attributes[i].name.clone(), value: attributes[i].value.clone() });
        assert(attribute_views(copy@) =~= before.push(attributes@[i as int]@));
        i += 1;
        assert(attribute_views(attributes@).take(i as int) =~= before.push(attributes@[i - 1]@));
    }
    assert(attribute_views(attributes@).take(i as int) =~= attribute_views(attributes@));
    copy
}

/// Adding an element at the end of a list adds its model at the end of the
/// list's models.
pub proof fn lemma_element_views_push(elements: Seq<Element>, last: Element)
    ensures
        element_views(elements.push(last)) == element_views(elements).push(last@),
{
    assert(element_views(elements.push(last)) =~= element_views(elements).push(last@));
}

/// Builds the element whose opening tag stands at `at`.
pub fn parse_element(tokens: &Vec<Token>, at: usize) -> (r: Result<(Element, usize), Error>)
    ensures
        match element_at(token_views(tokens@), at as int) {
            Some((element, next)) => r is Ok && r->Ok_0.0@ == element && r->Ok_0.1 == next && at
                < next <= tokens.len(),
            None => r is Err && r->Err_0 is Parse,
        },
    decreases tokens.len() - at,
{
    let ghost all = token_views(tokens@);
    if at >= tokens.len() {
        return Err(Error::parse("unexpected end of document"));
    }
    match &tokens[at] {
        Token::Start { name, namespace, attributes } => {
            let mut text = String::new();
            let mut children: Vec<Element> = Vec::new();
            let mut pos: usize = at + 1;
            assert(element_views(children@) =~= Seq::<ElementView>::empty());
            loop
                invariant
                    all == token_views(tokens@),
                    at < pos <= tokens.len(),
                    all[at as int] == (TokenView::Start {
                        name: name@,
                        namespace: opt_text(*namespace),
                        attributes: attribute_views(attributes@),
                    }),
                    content_from(all, at + 1, Seq::empty(), Seq::empty()) == content_from(
                        all,
                        pos as int,
                        text@,
                        element_views(children@),
                    ),
                decreases tokens.len() - pos,
            {
                if pos >= tokens.len() {
                    return Err(Error::parse("unexpected end of document"));
                }
                match &tokens[pos] {
                    Token::Text(data) => {
                        text.append(data.as_str());
                        pos += 1;
                    },
                    Token::Start { .. } => {
                        match parse_element(tokens, pos) {
                            Ok((child, next)) => {
                                proof {
                                    lemma_element_views_push(children@, child);
                                }
                                children.push(child);
                                pos = next;
                            },
                            Err(error) => {
                                return Err(error);
                            },
                        }
                    },
                    Token::End { name: closing } => {
                        if *closing == *name {
                            let element = Element {
                                name: name.clone(),
                                namespace: clone_opt_text(namespace),
                                attributes: clone_attributes(attributes),
                                text,
                                children,
                            };
                            return Ok((element, pos + 1));
                        } else {
                            return Err(Error::parse("closing tag does not match the opening tag"));
                        }
                    },
                    _ => {
                        return Err(Error::parse("unexpected content in element"));
                    },
                }
            }
        },
        _ => Err(Error::parse("expected an opening tag")),
    }
}

/// Builds the document that a token list spells. Where the list ends in a
/// reader's error, the error carries the reader's message.
pub fn parse_document(tokens: &Vec<Token>) -> (r: Result<Element, Error>)
    ensures
        match tree_of(token_views(tokens@)) {
            Some(root) => r is Ok && r->Ok_0@ == root,
            None => r is Err && r->Err_0 is Parse,
        },
        reader_message(token_views(tokens@)) is Some ==> r is Err && r->Err_0->Parse_0@
            == reader_message(token_views(tokens@))->Some_0,
{
    if tokens.len() > 0 {
        match &tokens[tokens.len() - 1] {
            Token::Malformed(message) => {
                return Err(Error::Parse(message.clone()));
            },
            _ => {},
        }
    }
    match parse_element(tokens, 0) {
        Ok((root, next)) => {
            if next == tokens.len() - 1 {
                match &tokens[next] {
                    Token::EndOfDocument => Ok(root),
                    _ => Err(Error::parse("unexpected content after the root element")),
                }
            } else {
                Err(Error::parse("unexpected content after the root element"))
            }
        },
        Err(error) => Err(error),
    }
}

/// Reads a text as one document. Where the reader stopped on an error, the
/// error carries the reader's message.
pub fn read_document(text: &str) -> (r: Result<Element, Error>)
    ensures
        match tree_of(document_tokens(text@)) {
            Some(root) => r is Ok && r->Ok_0@ == root,
            None => r is Err && r->Err_0 is Parse,
        },
        reader_message(document_tokens(text@)) is Some ==> r is Err && r->Err_0->Parse_0@
            == reader_message(document_tokens(text@))->Some_0,
{
    let tokens = read_tokens(text);
    parse_document(&tokens)
}

} // verus!

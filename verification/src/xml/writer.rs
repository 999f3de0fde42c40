//! Writing: from the element tree to tokens, and from tokens to text.

use vstd::prelude::*;
use crate::error::Error;
use crate::xml::token::TokenView;
use crate::xml::tree::{attribute_views, opt_text, Attribute, Element, ElementView};
use yaserde::ser::{Config, Serializer};
use yaserde::xml::writer::XmlEvent;

verus! {

/// A writer into a buffer of its own: `yaserde`'s `Serializer`, which wraps
/// the event writer of `xml-rs`.
#[verifier::external_body]
pub struct TokenWriter {
    inner: Serializer<Vec<u8>>,
}

/// The tokens that a writer has accepted so far, in order.
pub uninterp spec fn written(writer: TokenWriter) -> Seq<TokenView>;

/// The text that a writer holds once it has accepted exactly these tokens.
pub uninterp spec fn rendered(tokens: Seq<TokenView>) -> Seq<char>;

/// The names of the elements that a token list has opened and not yet
/// closed, the innermost last.
pub open spec fn open_names(tokens: Seq<TokenView>) -> Seq<Seq<char>>
    decreases tokens.len(),
{
    if tokens.len() == 0 {
        Seq::empty()
    } else {
        let before = open_names(tokens.drop_last());
        match tokens.last() {
            TokenView::Start { name, .. } => before.push(name),
            TokenView::End { .. } => if before.len() > 0 {
                before.drop_last()
            } else {
                before
            },
            _ => before,
        }
    }
}

/// Whether `name` is the name of the innermost element that a token list has
/// left open.
pub open spec fn closes_innermost(tokens: Seq<TokenView>, name: Seq<char>) -> bool {
    open_names(tokens).len() > 0 && open_names(tokens).last() == name
}

/// `Serializer::new_from_writer` on an empty buffer, with `yaserde`'s default
/// configuration. The new writer has accepted nothing.
#[verifier::external_body]
fn open_writer() -> (writer: TokenWriter)
    ensures
        written(writer) == Seq::<TokenView>::empty(),
{
    TokenWriter { inner: Serializer::new_from_writer(Vec::new(), &Config::default()) }
}

/// `Serializer::write` of an opening tag with the given attributes; a
/// namespace, where there is one, is declared as the element's default
/// namespace. The emitter of `xml-rs` refuses an opening tag only where its
/// sink fails, and the sink is a buffer in memory: the call succeeds, and the
/// tag is the last token written.
#[verifier::external_body]
fn write_start(
    writer: &mut TokenWriter,
    name: &str,
    namespace: &Option<String>,
    attributes: &Vec<Attribute>,
) -> (r: Result<(), String>)
    ensures
        r is Ok,
        written(*final(writer)) == written(*old(writer)).push(
            TokenView::Start {
                name: name@,
                namespace: opt_text(*namespace),
                attributes: attribute_views(attributes@),
            },
        ),
{
    let mut event = XmlEvent::start_element(name);
    if let Some(uri) = namespace {
        event = event.default_ns(uri.as_str());
    }
    for attribute in attributes.iter() {
        event = event.attr(attribute.name.as_str(), attribute.value.as_str());
    }
    writer.inner.write(event).map_err(|e| e.to_string())
}

/// `Serializer::write` of character data. The emitter refuses character data
/// only where its sink fails: the call succeeds, and the data is the last
/// token written.
#[verifier::external_body]
fn write_text(writer: &mut TokenWriter, text: &str) -> (r: Result<(), String>)
    ensures
        r is Ok,
        written(*final(writer)) == written(*old(writer)).push(TokenView::Text(text@)),
{
    writer.inner.write(XmlEvent::characters(text)).map_err(|e| e.to_string())
}

/// `Serializer::write` of the closing tag of the element called `name`. The
/// emitter keeps the names of the open elements and refuses a closing tag
/// only where none is open or the innermost has another name: where `name`
/// closes the innermost open element the call succeeds. The writer comes back
/// with the tag as its last token; one that refused the tag has lost track of
/// its open elements and is dropped with the error.
#[verifier::external_body]
fn write_end(writer: TokenWriter, name: &str) -> (r: Result<TokenWriter, String>)
    ensures
        closes_innermost(written(writer), name@) ==> r is Ok,
        r is Ok ==> written(r->Ok_0) == written(writer).push(TokenView::End { name: name@ }),
{
    let mut writer = writer;
    match writer.inner.write(XmlEvent::end_element().name(name)) {
        Ok(()) => Ok(writer),
        Err(error) => Err(error.to_string()),
    }
}

/// `Serializer::into_inner`, with the buffer's bytes read as UTF-8: the text
/// of what the writer accepted.
#[verifier::external_body]
fn close_writer(writer: TokenWriter) -> (text: String)
    ensures
        text@ == rendered(written(writer)),
{
    String::from_utf8_lossy(&writer.inner.into_inner()).into_owned()
}

/// The tokens that spell a list of elements, one after the other.
pub open spec fn children_tokens(children: Seq<ElementView>) -> Seq<TokenView>
    decreases children,
{
    if children.len() == 0 {
        Seq::empty()
    } else {
        children_tokens(children.drop_last()) + element_tokens(children.last())
    }
}

/// The token for the character data of an element: none where it is empty.
pub open spec fn text_tokens(text: Seq<char>) -> Seq<TokenView> {
    if text.len() == 0 {
        Seq::empty()
    } else {
        seq![TokenView::Text(text)]
    }
}

/// The tokens that spell an element: its opening tag, its character data,
/// its children in order, its closing tag.
pub open spec fn element_tokens(element: ElementView) -> Seq<TokenView>
    decreases element,
{
    seq![
        TokenView::Start {
            name: element.name,
            namespace: element.namespace,
            attributes: element.attributes,
        },
    ] + text_tokens(element.text) + children_tokens(element.children) + seq![
        TokenView::End { name: element.name },
    ]
}

/// What one more token does to the open names: an opening tag adds its
/// name, a closing tag takes the innermost away, anything else leaves them.
pub proof fn lemma_open_names_push(tokens: Seq<TokenView>, token: TokenView)
    ensures
        open_names(tokens.push(token)) == match token {
            TokenView::Start { name, .. } => open_names(tokens).push(name),
            TokenView::End { .. } => if open_names(tokens).len() > 0 {
                open_names(tokens).drop_last()
            } else {
                open_names(tokens)
            },
            _ => open_names(tokens),
        },
{
    assert(tokens.push(token).drop_last() =~= tokens);
    assert(tokens.push(token).last() == token);
}

/// The tokens of a list of elements open nothing that they do not close.
pub proof fn lemma_children_tokens_balanced(before: Seq<TokenView>, children: Seq<ElementView>)
    ensures
        open_names(before + children_tokens(children)) == open_names(before),
    decreases children,
{
    if children.len() == 0 {
        assert(before + children_tokens(children) =~= before);
    } else {
        let front = children_tokens(children.drop_last());
        let last = element_tokens(children.last());
        assert(before + children_tokens(children) =~= (before + front) + last);
        lemma_children_tokens_balanced(before, children.drop_last());
        lemma_element_tokens_balanced(before + front, children.last());
    }
}

/// Behind the opening tag, the character data and the children of an
/// element, that element is the innermost open one.
pub proof fn lemma_element_tokens_open(before: Seq<TokenView>, element: ElementView)
    ensures
        open_names(
            before.push(
                TokenView::Start {
                    name: element.name,
                    namespace: element.namespace,
                    attributes: element.attributes,
                },
            ) + text_tokens(element.text) + children_tokens(element.children),
        ) == open_names(before).push(element.name),
    decreases element, 0nat,
{
    let opening = TokenView::Start {
        name: element.name,
        namespace: element.namespace,
        attributes: element.attributes,
    };
    let opened = before.push(opening);
    lemma_open_names_push(before, opening);
    let with_text = opened + text_tokens(element.text);
    if element.text.len() == 0 {
        assert(with_text =~= opened);
    } else {
        assert(with_text =~= opened.push(TokenView::Text(element.text)));
        lemma_open_names_push(opened, TokenView::Text(element.text));
    }
    lemma_children_tokens_balanced(with_text, element.children);
}

/// The tokens of an element open nothing that they do not close.
pub proof fn lemma_element_tokens_balanced(before: Seq<TokenView>, element: ElementView)
    ensures
        open_names(before + element_tokens(element)) == open_names(before),
    decreases element, 1nat,
{
    let opening = TokenView::Start {
        name: element.name,
        namespace: element.namespace,
        attributes: element.attributes,
    };
    let closing = TokenView::End { name: element.name };
    let inside = before.push(opening) + text_tokens(element.text) + children_tokens(
        element.children,
    );
    lemma_element_tokens_open(before, element);
    lemma_open_names_push(inside, closing);
    assert(before + element_tokens(element) =~= inside.push(closing));
    assert(open_names(before).push(element.name).drop_last() =~= open_names(before));
}

/// Writes one element with all that it holds, and hands the writer back. The
/// writer accepts every token of an element, so the call succeeds.
pub fn write_element(writer: TokenWriter, element: &Element) -> (r: Result<TokenWriter, Error>)
    ensures
        r is Ok,
        written(r->Ok_0) == written(writer) + element_tokens(element@),
    decreases element,
{
    let mut writer = writer;
    let ghost start = written(writer);
    let ghost model = element@;
    let ghost opening = seq![
        TokenView::Start {
            name: model.name,
            namespace: model.namespace,
            attributes: model.attributes,
        },
    ];
    match write_start(&mut writer, element.name.as_str(), &element.namespace, &element.attributes) {
        Err(detail) => {
            return Err(Error::Serialize(detail));
        },
        Ok(()) => {},
    }
    if !element.text.as_str().is_empty() {
        match write_text(&mut writer, element.text.as_str()) {
            Err(detail) => {
                return Err(Error::Serialize(detail));
            },
            Ok(()) => {},
        }
    }
    assert(written(writer) =~= start + opening + text_tokens(model.text));
    let mut i: usize = 0;
    assert(model.children.take(0) =~= Seq::<ElementView>::empty());
    assert(written(writer) =~= start + opening + text_tokens(model.text) + children_tokens(
        model.children.take(0),
    ));
    while i < element.children.len()
        invariant
            i <= element.children.len(),
            model == element@,
            written(writer) == start + opening + text_tokens(model.text) + children_tokens(
                model.children.take(i as int),
            ),
        decreases element.children.len() - i,
    {
        let ghost before = written(writer);
        writer = match write_element(writer, &element.children[i]) {
            Err(error) => {
                return Err(error);
            },
            Ok(handed_back) => handed_back,
        };
        proof {
            let upto = model.children.take(i as int + 1);
            assert(upto.drop_last() =~= model.children.take(i as int));
            assert(upto.last() == element.children@[i as int]@);
            assert(written(writer) =~= start + opening + text_tokens(model.text)
                + children_tokens(upto));
        }
        i += 1;
    }
    assert(model.children.take(i as int) =~= model.children);
    proof {
        lemma_element_tokens_open(start, model);
        assert(start + opening =~= start.push(opening[0]));
    }
    match write_end(writer, element.name.as_str()) {
        Err(detail) => Err(Error::Serialize(detail)),
        Ok(handed_back) => {
            assert(written(handed_back) =~= start + element_tokens(model));
            Ok(handed_back)
        },
    }
}

/// Writes a document whose root is `root` and returns its text. The writer
/// accepts every token of a tree of elements, so the call succeeds.
pub fn write_document(root: &Element) -> (r: Result<String, Error>)
    ensures
        r is Ok,
        r->Ok_0@ == rendered(element_tokens(root@)),
{
    let writer = open_writer();
    match write_element(writer, root) {
        Err(error) => Err(error),
        Ok(writer) => {
            assert(written(writer) =~= element_tokens(root@));
            Ok(close_writer(writer))
        },
    }
}

} // verus!

//! Reading: from text to tokens, and from tokens to the element tree.

use vstd::prelude::*;
use crate::xml::token::{is_final, token_views, Token, TokenView};
use crate::xml::tree::Attribute;
use std::io::Cursor;
use yaserde::de::Deserializer;
use yaserde::xml::reader::XmlEvent;

verus! {

/// A pull reader over the bytes of one text: `yaserde`'s `Deserializer`, which
/// wraps the event reader of `xml-rs`.
#[verifier::external_body]
pub struct TokenReader {
    inner: Deserializer<Cursor<Vec<u8>>>,
}

/// The tokens that a reader has yet to report, up to and including the first
/// one at which it stops.
pub uninterp spec fn pending(reader: TokenReader) -> Seq<TokenView>;

/// The tokens of a text: what a fresh reader on it reports, up to and
/// including the first token at which it stops.
pub uninterp spec fn document_tokens(text: Seq<char>) -> Seq<TokenView>;

/// `Deserializer::new_from_reader` on the bytes of `text`. Nothing is read
/// yet: the reader has the whole text before it.
#[verifier::external_body]
fn open_reader(text: &str) -> (reader: TokenReader)
    ensures
        pending(reader) == document_tokens(text@),
{
    TokenReader { inner: Deserializer::new_from_reader(Cursor::new(text.as_bytes().to_vec())) }
}

/// `Deserializer::next_event`, with the event or the reader's error turned
/// into a [`Token`]. The call reports the first pending token and leaves the
/// rest pending; the end of the document and an error are reported last.
#[verifier::external_body]
fn next_token(reader: &mut TokenReader) -> (token: Token)
    ensures
        pending(*old(reader)).len() > 0,
        token@ == pending(*old(reader)).first(),
        is_final(token@) ==> pending(*old(reader)).len() == 1,
        !is_final(token@) ==> pending(*final(reader)) == pending(*old(reader)).drop_first(),
{
    match reader.inner.next_event() {
        Ok(XmlEvent::StartElement { name, attributes, .. }) => Token::Start {
            name: name.local_name,
            namespace: name.namespace,
            attributes: attributes
                .into_iter()
                .map(|a| Attribute { name: a.name.local_name, value: a.value })
                .collect(),
        },
        Ok(XmlEvent::EndElement { name }) => Token::End { name: name.local_name },
        Ok(XmlEvent::Characters(text)) => Token::Text(text),
        Ok(XmlEvent::EndDocument) => Token::EndOfDocument,
        Ok(_) => Token::Other,
        Err(message) => Token::Malformed(message),
    }
}

/// Reads a text to its end and returns its tokens.
pub fn read_tokens(text: &str) -> (tokens: Vec<Token>)
    ensures
        token_views(tokens@) == document_tokens(text@),
{
    let mut reader = open_reader(text);
    let mut tokens: Vec<Token> = Vec::new();
    assert(token_views(tokens@) + pending(reader) =~= document_tokens(text@));
    loop
        invariant
            token_views(tokens@) + pending(reader) == document_tokens(text@),
        decreases pending(reader).len(),
    {
        let ghost before = token_views(tokens@);
        let ghost ahead = pending(reader);
        let token = next_token(&mut reader);
        let stop = match token {
            Token::EndOfDocument => true,
            Token::Malformed(_) => true,
            _ => false,
        };
        tokens.push(token);
        assert(token_views(tokens@) =~= before.push(ahead.first()));
        if stop {
            assert(ahead =~= seq![ahead.first()]);
            assert(token_views(tokens@) =~= before + ahead);
            return tokens;
        }
        assert(token_views(tokens@) + pending(reader) =~= before + ahead);
    }
}

} // verus!

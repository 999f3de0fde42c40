//! The flat form of a document: one token per tag or run of character data.

use vstd::prelude::*;
use crate::xml::tree::{attribute_views, opt_text, Attribute, AttributeView};

verus! {

/// One step of a document as a reader reports it.
#[derive(Debug, PartialEq, Eq)]
pub enum Token {
    /// An opening tag.
    Start { name: String, namespace: Option<String>, attributes: Vec<Attribute> },
    /// A closing tag.
    End { name: String },
    /// Character data.
    Text(String),
    /// Anything else that a document may hold.
    Other,
    /// The document ended as it should.
    EndOfDocument,
    /// The text is not well-formed; the reader's message is attached.
    Malformed(String),
}

/// The model of a [`Token`].
pub ghost enum TokenView {
    Start { name: Seq<char>, namespace: Option<Seq<char>>, attributes: Seq<AttributeView> },
    End { name: Seq<char> },
    Text(Seq<char>),
    Other,
    EndOfDocument,
    Malformed(Seq<char>),
}

impl View for Token {
    type V = TokenView;

    open spec fn view(&self) -> TokenView {
        match *self {
            Token::Start { name, namespace, attributes } => TokenView::Start {
                name: name@,
                namespace: opt_text(namespace),
                attributes: attribute_views(attributes@),
            },
            Token::End { name } => TokenView::End { name: name@ },
            Token::Text(text) => TokenView::Text(text@),
            Token::Other => TokenView::Other,
            Token::EndOfDocument => TokenView::EndOfDocument,
            Token::Malformed(message) => TokenView::Malformed(message@),
        }
    }
}

/// Whether a reader stops at this token.
pub open spec fn is_final(token: TokenView) -> bool {
    token is EndOfDocument || token is Malformed
}

/// The message of the reader that stopped on an error: that of the last
/// token, where it says that the text is not well-formed.
pub open spec fn reader_message(tokens: Seq<TokenView>) -> Option<Seq<char>> {
    if tokens.len() > 0 && tokens.last() is Malformed {
        Some(tokens.last()->Malformed_0)
    } else {
        None
    }
}

/// The models of a list of tokens, in order.
pub open spec fn token_views(tokens: Seq<Token>) -> Seq<TokenView> {
    tokens.map_values(|t: Token| t@)
}

} // verus!

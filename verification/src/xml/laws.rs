//! What holds of the two directions between tokens and trees.

use vstd::prelude::*;
use crate::xml::parse::{content_from, element_at, tree_of};
use crate::xml::query::{child_named, child_text, children_named, decoded_children, mapped_children};
use crate::xml::token::TokenView;
use crate::xml::tree::ElementView;
use crate::xml::writer::{children_tokens, element_tokens, text_tokens};

verus! {

/// An element is spelled by at least its two tags.
pub proof fn lemma_element_tokens_len(element: ElementView)
    ensures
        element_tokens(element).len() == 2 + text_tokens(element.text).len() + children_tokens(
            element.children,
        ).len(),
{
}

/// Where the tokens from `at` on spell a list of elements, reading content
/// from `at` reads those elements and goes on behind them.
pub proof fn lemma_children_read_back(
    tokens: Seq<TokenView>,
    at: int,
    children: Seq<ElementView>,
    text: Seq<char>,
    before: Seq<ElementView>,
)
    requires
        0 <= at,
        at + children_tokens(children).len() < tokens.len(),
        forall|i: int|
            0 <= i < children_tokens(children).len() ==> tokens[at + i] == children_tokens(
                children,
            )[i],
    ensures
        content_from(tokens, at, text, before) == content_from(
            tokens,
            at + children_tokens(children).len(),
            text,
            before + children,
        ),
    decreases children,
{
    if children.len() == 0 {
        assert(before + children =~= before);
    } else {
        let front = children.drop_last();
        let last = children.last();
        let front_len = children_tokens(front).len() as int;
        let last_tokens = element_tokens(last);
        lemma_element_tokens_len(last);
        assert(children_tokens(children) == children_tokens(front) + last_tokens);
        assert forall|i: int| 0 <= i < front_len implies tokens[at + i] == children_tokens(
            front,
        )[i] by {
            assert(children_tokens(children)[i] == children_tokens(front)[i]);
        }
        lemma_children_read_back(tokens, at, front, text, before);
        let middle = at + front_len;
        assert forall|i: int| 0 <= i < last_tokens.len() implies tokens[middle + i]
            == last_tokens[i] by {
            assert(children_tokens(children)[front_len + i] == last_tokens[i]);
            assert(tokens[at + (front_len + i)] == children_tokens(children)[front_len + i]);
        }
        lemma_element_read_back(tokens, middle, last);
        assert(tokens[middle] == last_tokens[0]);
        assert(tokens[middle] is Start);
        let next = middle + last_tokens.len();
        assert(element_at(tokens, middle) == Some((last, next)));
        assert(content_from(tokens, middle, text, before + front) == content_from(
            tokens,
            next,
            text,
            (before + front).push(last),
        ));
        assert((before + front).push(last) =~= before + children);
    }
}

/// Where the tokens from `at` on spell an element, the element read at `at`
/// is that element, and reading goes on behind it.
pub proof fn lemma_element_read_back(tokens: Seq<TokenView>, at: int, element: ElementView)
    requires
        0 <= at,
        at + element_tokens(element).len() <= tokens.len(),
        forall|i: int|
            0 <= i < element_tokens(element).len() ==> tokens[at + i] == element_tokens(
                element,
            )[i],
    ensures
        element_at(tokens, at) == Some((element, at + element_tokens(element).len())),
    decreases element,
{
    let spelled = element_tokens(element);
    let opening = seq![
        TokenView::Start {
            name: element.name,
            namespace: element.namespace,
            attributes: element.attributes,
        },
    ];
    let data = text_tokens(element.text);
    let inner = children_tokens(element.children);
    let offset = 1 + data.len() as int;
    lemma_element_tokens_len(element);
    assert(spelled == opening + data + inner + seq![TokenView::End { name: element.name }]);
    assert(tokens[at + 0] == spelled[0]);
    assert(spelled[0] == opening[0]);
    assert forall|i: int| 0 <= i < inner.len() implies tokens[at + offset + i] == inner[i] by {
        assert(spelled[offset + i] == inner[i]);
        assert(tokens[at + (offset + i)] == spelled[offset + i]);
    }
    let empty_text = Seq::<char>::empty();
    let none = Seq::<ElementView>::empty();
    let text = if element.text.len() == 0 {
        empty_text
    } else {
        empty_text + element.text
    };
    assert(text =~= element.text);
    if element.text.len() > 0 {
        assert(spelled[1] == TokenView::Text(element.text));
        assert(tokens[at + 1] == spelled[1]);
        assert(content_from(tokens, at + 1, empty_text, none) == content_from(
            tokens,
            at + 2,
            text,
            none,
        ));
    }
    lemma_children_read_back(tokens, at + offset, element.children, text, none);
    let end = at + offset + inner.len();
    assert(none + element.children =~= element.children);
    assert(spelled[offset + inner.len()] == TokenView::End { name: element.name });
    assert(tokens[at + (offset + inner.len())] == spelled[offset + inner.len()]);
    assert(content_from(tokens, end, text, element.children) == Some(
        (text, element.children, end),
    ));
    assert(content_from(tokens, at + 1, empty_text, none) == Some((text, element.children, end)));
}

/// Reading back what was written: the tokens that spell an element, followed
/// by the end of the document, are the document whose root is that element.
pub proof fn lemma_tokens_round_trip(root: ElementView)
    ensures
        tree_of(element_tokens(root).push(TokenView::EndOfDocument)) == Some(root),
{
    let tokens = element_tokens(root).push(TokenView::EndOfDocument);
    lemma_element_tokens_len(root);
    lemma_element_read_back(tokens, 0, root);
}

/// Whether two elements are the same but for the namespaces of the elements
/// in them: the same names, attributes and character data throughout.
pub open spec fn alike(a: ElementView, b: ElementView) -> bool
    decreases a,
{
    &&& a.name == b.name
    &&& a.attributes == b.attributes
    &&& a.text == b.text
    &&& a.children.len() == b.children.len()
    &&& forall|i: int| 0 <= i < a.children.len() ==> alike(a.children[i], b.children[i])
}

/// Whether two lists of elements are alike, element by element.
pub open spec fn all_alike(first: Seq<ElementView>, second: Seq<ElementView>) -> bool {
    &&& first.len() == second.len()
    &&& forall|i: int| 0 <= i < first.len() ==> alike(first[i], second[i])
}

/// Selecting by name from lists that are alike gives lists that are alike.
pub proof fn lemma_children_named_alike(
    first: Seq<ElementView>,
    second: Seq<ElementView>,
    name: Seq<char>,
)
    requires
        all_alike(first, second),
    ensures
        all_alike(children_named(first, name), children_named(second, name)),
    decreases first.len(),
{
    if first.len() > 0 {
        assert(alike(first.last(), second.last()));
        assert(all_alike(first.drop_last(), second.drop_last())) by {
            assert forall|i: int| 0 <= i < first.drop_last().len() implies alike(
                first.drop_last()[i],
                second.drop_last()[i],
            ) by {
                assert(alike(first[i], second[i]));
            }
        }
        lemma_children_named_alike(first.drop_last(), second.drop_last(), name);
    }
}

/// The last child of a name is there in both of two lists that are alike, or
/// in neither, and the two are alike.
pub proof fn lemma_child_named_alike(
    first: Seq<ElementView>,
    second: Seq<ElementView>,
    name: Seq<char>,
)
    requires
        all_alike(first, second),
    ensures
        child_named(first, name) is Some <==> child_named(second, name) is Some,
        child_named(first, name) is Some ==> alike(
            child_named(first, name)->Some_0,
            child_named(second, name)->Some_0,
        ),
        child_text(first, name) == child_text(second, name),
{
    lemma_children_named_alike(first, second, name);
    let found = children_named(first, name);
    if found.len() > 0 {
        assert(alike(found[found.len() - 1], children_named(second, name)[found.len() - 1]));
    }
}

/// Children read by a function that does not tell alike elements apart read
/// the same from lists that are alike.
pub proof fn lemma_mapped_children_alike<T>(
    first: Seq<ElementView>,
    second: Seq<ElementView>,
    name: Seq<char>,
    decode: spec_fn(ElementView) -> T,
)
    requires
        all_alike(first, second),
        forall|a: ElementView, b: ElementView| alike(a, b) ==> #[trigger] decode(a) == #[trigger] decode(b),
    ensures
        mapped_children(first, name, decode) == mapped_children(second, name, decode),
{
    lemma_children_named_alike(first, second, name);
    let one = children_named(first, name);
    let other = children_named(second, name);
    assert forall|i: int| 0 <= i < one.len() implies decode(one[i]) == decode(other[i]) by {
        assert(alike(one[i], other[i]));
    }
    assert(one.map_values(decode) =~= other.map_values(decode));
}

/// Children decoded by a function that does not tell alike elements apart
/// decode the same from lists that are alike.
pub proof fn lemma_decoded_children_alike<T>(
    first: Seq<ElementView>,
    second: Seq<ElementView>,
    name: Seq<char>,
    decode: spec_fn(ElementView) -> Option<T>,
)
    requires
        all_alike(first, second),
        forall|a: ElementView, b: ElementView| alike(a, b) ==> #[trigger] decode(a) == #[trigger] decode(b),
    ensures
        decoded_children(first, name, decode) == decoded_children(second, name, decode),
    decreases first.len(),
{
    if first.len() > 0 {
        assert(alike(first.last(), second.last()));
        assert(all_alike(first.drop_last(), second.drop_last())) by {
            assert forall|i: int| 0 <= i < first.drop_last().len() implies alike(
                first.drop_last()[i],
                second.drop_last()[i],
            ) by {
                assert(alike(first[i], second[i]));
            }
        }
        lemma_decoded_children_alike(first.drop_last(), second.drop_last(), name, decode);
    }
}

} // verus!

//! Placeholders inside literal text: where a literal is cut into plain text
//! and `{namespace:name}` placeholders.

use crate::template::{ItemView, TemplateItem, item_views};
use crate::text::{find_char, first_at, lemma_first_at, push_range, string_of};
use vstd::prelude::*;

verus! {

/// What the text between a `{` and the next `}` stands for: a placeholder
/// where it holds a `:`, cut at the first one, else the braced text itself.
pub open spec fn braced_item(inner: Seq<char>) -> ItemView {
    match first_at(inner, 0, ':') {
        Some(colon) => ItemView::NamedPlaceholder(
            inner.subrange(0, colon),
            inner.subrange(colon + 1, inner.len() as int),
        ),
        None => ItemView::Literal(seq!['{'] + inner + seq!['}']),
    }
}

/// The items that the text from `from` on is cut into. Each `{` that has a
/// `}` after it opens a braced part, which ends at the first such `}`; text
/// before a braced part, and text after the last one, is literal. A `{`
/// without a `}` after it is literal text like any other.
pub open spec fn split_literal(text: Seq<char>, from: int) -> Seq<ItemView>
    decreases text.len() - from,
    via split_literal_decreases
{
    if from < 0 || from >= text.len() {
        Seq::empty()
    } else {
        match first_at(text, from, '{') {
            None => seq![ItemView::Literal(text.subrange(from, text.len() as int))],
            Some(open) => match first_at(text, open, '}') {
                None => seq![ItemView::Literal(text.subrange(from, text.len() as int))],
                Some(close) => {
                    let head = if open > from {
                        seq![ItemView::Literal(text.subrange(from, open))]
                    } else {
                        Seq::empty()
                    };
                    head.push(braced_item(text.subrange(open + 1, close))) + split_literal(
                        text,
                        close + 1,
                    )
                },
            },
        }
    }
}

#[via_fn]
proof fn split_literal_decreases(text: Seq<char>, from: int) {
    if 0 <= from < text.len() {
        lemma_first_at(text, from, '{');
        if let Some(open) = first_at(text, from, '{') {
            lemma_first_at(text, open, '}');
        }
    }
}

/// Cuts the text between a `{` and a `}` at its first `:`.
fn braced(text: &Vec<char>, open: usize, close: usize) -> (item: TemplateItem)
    requires
        open < close < text.len(),
        text@[open as int] == '{',
        text@[close as int] == '}',
    ensures
        item@ == braced_item(text@.subrange(open + 1, close as int)),
{
    let mut inner: Vec<char> = Vec::new();
    push_range(&mut inner, text, open + 1, close);
    assert(inner@ == text@.subrange(open + 1, close as int));
    match find_char(&inner, 0, ':') {
        Some(colon) => {
            proof {
                lemma_first_at(inner@, 0, ':');
            }
            let mut namespace: Vec<char> = Vec::new();
            push_range(&mut namespace, &inner, 0, colon);
            let mut name: Vec<char> = Vec::new();
            push_range(&mut name, &inner, colon + 1, inner.len());
            assert(namespace@ == inner@.subrange(0, colon as int));
            assert(name@ == inner@.subrange(colon + 1, inner.len() as int));
            TemplateItem::NamedPlaceholder(string_of(&namespace), string_of(&name))
        },
        None => {
            let mut whole: Vec<char> = Vec::new();
            push_range(&mut whole, text, open, close + 1);
            assert(whole@ =~= seq!['{'] + inner@ + seq!['}']);
            TemplateItem::Literal(string_of(&whole))
        },
    }
}

/// The literal item that holds `text[from..to]`.
fn literal_of(text: &Vec<char>, from: usize, to: usize) -> (item: TemplateItem)
    requires
        from <= to <= text.len(),
    ensures
        item@ == ItemView::Literal(text@.subrange(from as int, to as int)),
{
    let mut part: Vec<char> = Vec::new();
    push_range(&mut part, text, from, to);
    TemplateItem::Literal(string_of(&part))
}

/// Appends to `out` the items that `text` is cut into.
pub fn push_split(out: &mut Vec<TemplateItem>, text: &Vec<char>)
    ensures
        item_views(final(out)@) == item_views(old(out)@) + split_literal(text@, 0),
{
    let mut from: usize = 0;
    while from < text.len()
        invariant
            from <= text.len(),
            item_views(old(out)@) + split_literal(text@, 0) == item_views(out@) + split_literal(
                text@,
                from as int,
            ),
        decreases text.len() - from,
    {
        let ghost before = out@;
        let ghost rest = split_literal(text@, from as int);
        let found = find_char(text, from, '{');
        proof {
            lemma_first_at(text@, from as int, '{');
        }
        let close = match found {
            Some(open) => {
                proof {
                    lemma_first_at(text@, open as int, '}');
                }
                find_char(text, open, '}')
            },
            None => None,
        };
        match (found, close) {
            (Some(open), Some(close)) => {
                if open > from {
                    let head = literal_of(text, from, open);
                    out.push(head);
                }
                let piece = braced(text, open, close);
                out.push(piece);
                assert(item_views(out@) + split_literal(text@, close + 1) == item_views(before)
                    + rest);
                from = close + 1;
            },
            _ => {
                let tail = literal_of(text, from, text.len());
                out.push(tail);
                assert(item_views(out@) == item_views(before) + rest);
                from = text.len();
            },
        }
    }
}

} // verus!

//! Reading a template: from the tokens of a format string to template items.

use crate::calendar::{strftime_items, strftime_tokens, token_views, RawToken, RawTokenView};
use crate::field::{field_accepted, Pad};
use crate::names::{fixed_kind, fixed_kind_named, numeric_kind, numeric_kind_named, pad_named, pad_of};
use crate::split::{push_split, split_literal};
use crate::template::{item_views, ItemView, TemplateItem};
use crate::text::chars_of;
use vstd::prelude::*;

verus! {

/// The item that one token stands for, before literal text is cut up. A
/// calendar field that templates do not take, a padding without a name and an
/// unrecognized specifier all give `Invalid`.
pub open spec fn token_item(token: RawTokenView) -> ItemView {
    match token {
        RawTokenView::Text(text) => ItemView::Literal(text),
        RawTokenView::Numeric(kind, pad) => match pad_named(pad) {
            Some(pad) => if field_accepted(numeric_kind_named(kind)) {
                ItemView::CalendarField(numeric_kind_named(kind), pad)
            } else {
                ItemView::Invalid
            },
            None => ItemView::Invalid,
        },
        RawTokenView::Fixed(kind) => if field_accepted(fixed_kind_named(kind)) {
            ItemView::CalendarField(fixed_kind_named(kind), Pad::Unpadded)
        } else {
            ItemView::Invalid
        },
        RawTokenView::Error => ItemView::Invalid,
    }
}

/// Whether a token makes the whole template fail.
pub open spec fn token_rejected(token: RawTokenView) -> bool {
    token_item(token) is Invalid
}

/// The items that one token contributes: a calendar field itself, literal
/// text cut into plain text and placeholders.
pub open spec fn token_pieces(token: RawTokenView) -> Seq<ItemView> {
    match token {
        RawTokenView::Text(text) => split_literal(text, 0),
        _ => seq![token_item(token)],
    }
}

/// The items that a sequence of tokens contributes, in order.
pub open spec fn expand_tokens(tokens: Seq<RawTokenView>) -> Seq<ItemView>
    decreases tokens.len(),
{
    if tokens.len() == 0 {
        Seq::empty()
    } else {
        expand_tokens(tokens.drop_last()) + token_pieces(tokens.last())
    }
}

/// Whether some token of the sequence makes the template fail.
pub open spec fn any_rejected(tokens: Seq<RawTokenView>) -> bool {
    exists|i: int| 0 <= i < tokens.len() && token_rejected(#[trigger] tokens[i])
}

/// The template that a sequence of tokens stands for: nothing where any
/// token is rejected, else what the tokens contribute.
pub open spec fn template_of_tokens(tokens: Seq<RawTokenView>) -> Option<Seq<ItemView>> {
    if any_rejected(tokens) {
        None
    } else {
        Some(expand_tokens(tokens))
    }
}

/// The template that a format string stands for.
pub open spec fn template_of(text: Seq<char>) -> Option<Seq<ItemView>> {
    template_of_tokens(strftime_items(text))
}

/// The item that one token stands for, before literal text is cut up.
pub fn own_strftime(token: &RawToken) -> (item: TemplateItem)
    ensures
        item@ == token_item(token@),
{
    match token {
        RawToken::Text(text) => TemplateItem::Literal(text.clone()),
        RawToken::Numeric(kind, pad) => {
            let field = numeric_kind(kind.as_str());
            match pad_of(pad.as_str()) {
                Some(pad) => if field.is_accepted() {
                    TemplateItem::CalendarField(field, pad)
                } else {
                    TemplateItem::Invalid
                },
                None => TemplateItem::Invalid,
            }
        },
        RawToken::Fixed(kind) => {
            let field = fixed_kind(kind.as_str());
            if field.is_accepted() {
                TemplateItem::CalendarField(field, Pad::Unpadded)
            } else {
                TemplateItem::Invalid
            }
        },
        RawToken::Error => TemplateItem::Invalid,
    }
}

/// Builds the template that a sequence of tokens stands for. It fails as a
/// whole, with `None`, exactly where one of the tokens is rejected.
pub fn parse_tokens(tokens: &Vec<RawToken>) -> (pattern: Option<Vec<TemplateItem>>)
    ensures
        pattern.is_none() == any_rejected(token_views(tokens@)),
        match pattern {
            Some(items) => template_of_tokens(token_views(tokens@)) == Some(item_views(items@)),
            None => template_of_tokens(token_views(tokens@)).is_none(),
        },
{
    let ghost views = token_views(tokens@);
    let mut items: Vec<TemplateItem> = Vec::new();
    let mut i: usize = 0;
    while i < tokens.len()
        invariant
            i <= tokens.len(),
            views == token_views(tokens@),
            forall|k: int| 0 <= k < i ==> !token_rejected(#[trigger] views[k]),
            item_views(items@) == expand_tokens(views.take(i as int)),
        decreases tokens.len() - i,
    {
        proof {
            assert(views.take(i + 1).drop_last() == views.take(i as int));
            assert(views.take(i + 1).last() == tokens@[i as int]@);
        }
        let item = own_strftime(&tokens[i]);
        match item {
            TemplateItem::Invalid => {
                assert(token_rejected(views[i as int]));
                return None;
            },
            TemplateItem::Literal(text) => {
                let chars = chars_of(text.as_str());
                push_split(&mut items, &chars);
            },
            field => {
                let ghost before = items@;
                items.push(field);
                assert(item_views(items@) == item_views(before) + seq![field@]);
            },
        }
        i += 1;
    }
    assert(views.take(tokens.len() as int) == views);
    Some(items)
}

/// Reads a template from its format string. Returns `None` exactly where
/// the string holds a specifier that is not recognized, a calendar field
/// that templates do not take, or a padding on a field that has none:
/// nothing of such a template is accepted.
pub fn parse_pattern(text: &str) -> (pattern: Option<Vec<TemplateItem>>)
    ensures
        pattern.is_none() == any_rejected(strftime_items(text@)),
        match pattern {
            Some(items) => template_of(text@) == Some(item_views(items@)),
            None => template_of(text@).is_none(),
        },
{
    let tokens = strftime_tokens(text);
    parse_tokens(&tokens)
}

} // verus!

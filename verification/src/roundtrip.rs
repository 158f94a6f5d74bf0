//! Writing a template back is lossless: the format string of what was read
//! is the spelling of the tokens it was read from.

use crate::calendar::{strftime_items, RawTokenView};
use crate::field::{field_accepted, field_text};
use crate::names::{fixed_kind_named, numeric_kind_named};
use crate::parse::{
    any_rejected, expand_tokens, template_of, template_of_tokens, token_item, token_pieces,
    token_rejected,
};
use crate::split::{braced_item, split_literal};
use crate::template::{
    escaped, item_text, pattern_text, placeholder_source, ItemView, PatternError,
};
use crate::text::{first_at, lemma_first_at};
use vstd::prelude::*;

verus! {

/// Doubling every `%` goes through concatenation.
pub proof fn lemma_escaped_concat(a: Seq<char>, b: Seq<char>)
    ensures
        escaped(a + b) == escaped(a) + escaped(b),
    decreases b.len(),
{
    if b.len() == 0 {
        assert(a + b == a);
    } else {
        assert((a + b).drop_last() == a + b.drop_last());
        lemma_escaped_concat(a, b.drop_last());
        if b.last() == '%' {
            assert(escaped(a) + (escaped(b.drop_last()) + seq!['%', '%']) == (escaped(a) + escaped(
                b.drop_last(),
            )) + seq!['%', '%']);
        } else {
            assert(escaped(a) + escaped(b.drop_last()).push(b.last()) == (escaped(a) + escaped(
                b.drop_last(),
            )).push(b.last()));
        }
    }
}

/// Text of one character that is no `%` is spelled as it stands.
pub proof fn lemma_escaped_plain(c: char)
    requires
        c != '%',
    ensures
        escaped(seq![c]) == seq![c],
{
    assert(seq![c].drop_last() == Seq::<char>::empty());
    assert(escaped(Seq::<char>::empty()) == Seq::<char>::empty());
    assert(seq![c].last() == c);
    assert(Seq::<char>::empty().push(c) == seq![c]);
}

/// The format string of two sequences of items put together is the two
/// format strings put together.
pub proof fn lemma_pattern_text_concat(a: Seq<ItemView>, b: Seq<ItemView>)
    requires
        pattern_text(a).is_ok(),
        pattern_text(b).is_ok(),
    ensures
        pattern_text(a + b) == Ok::<Seq<char>, PatternError>(
            pattern_text(a)->Ok_0 + pattern_text(b)->Ok_0,
        ),
    decreases b.len(),
{
    if b.len() == 0 {
        assert(a + b == a);
        assert(pattern_text(a)->Ok_0 + Seq::<char>::empty() == pattern_text(a)->Ok_0);
    } else {
        assert((a + b).drop_last() == a + b.drop_last());
        lemma_pattern_text_concat(a, b.drop_last());
        let head = pattern_text(a)->Ok_0;
        let middle = pattern_text(b.drop_last())->Ok_0;
        let tail = item_text(b.last())->Ok_0;
        assert((head + middle) + tail == head + (middle + tail));
    }
}

/// The format string of a single item is its spelling.
pub proof fn lemma_pattern_text_single(item: ItemView)
    ensures
        pattern_text(seq![item]) == item_text(item),
{
    assert(seq![item].drop_last() == Seq::<ItemView>::empty());
    assert(pattern_text(Seq::<ItemView>::empty()) == Ok::<Seq<char>, PatternError>(Seq::empty()));
    assert(seq![item].last() == item);
    if let Ok(text) = item_text(item) {
        assert(Seq::<char>::empty() + text == text);
    }
}

/// What stands between braces is spelled as the braced text itself, every
/// `%` doubled, whether it is a placeholder or not.
pub proof fn lemma_braced_text(inner: Seq<char>)
    ensures
        item_text(braced_item(inner)) == Ok::<Seq<char>, PatternError>(
            escaped(seq!['{'] + inner + seq!['}']),
        ),
{
    lemma_escaped_plain('{');
    lemma_escaped_plain('}');
    lemma_escaped_plain(':');
    lemma_escaped_concat(seq!['{'], inner);
    lemma_escaped_concat(seq!['{'] + inner, seq!['}']);
    match first_at(inner, 0, ':') {
        Some(colon) => {
            lemma_first_at(inner, 0, ':');
            let namespace = inner.subrange(0, colon);
            let name = inner.subrange(colon + 1, inner.len() as int);
            assert(inner == namespace + seq![':'] + name);
            lemma_escaped_concat(namespace, seq![':']);
            lemma_escaped_concat(namespace + seq![':'], name);
            assert(placeholder_source(escaped(namespace), escaped(name)) == seq!['{'] + escaped(
                inner,
            ) + seq!['}']);
        },
        None => {},
    }
}

/// Cutting literal text into items loses nothing: the format string of the
/// items is the text itself, every `%` doubled.
pub proof fn lemma_split_text(text: Seq<char>, from: int)
    requires
        0 <= from <= text.len(),
    ensures
        pattern_text(split_literal(text, from)) == Ok::<Seq<char>, PatternError>(
            escaped(text.subrange(from, text.len() as int)),
        ),
    decreases text.len() - from,
{
    let end = text.len() as int;
    if from >= text.len() {
        assert(text.subrange(from, end) == Seq::<char>::empty());
    } else {
        lemma_first_at(text, from, '{');
        let whole = ItemView::Literal(text.subrange(from, end));
        lemma_pattern_text_single(whole);
        if let Some(open) = first_at(text, from, '{') {
            lemma_first_at(text, open, '}');
            if let Some(close) = first_at(text, open, '}') {
                let inner = text.subrange(open + 1, close);
                let piece = braced_item(inner);
                let head = if open > from {
                    seq![ItemView::Literal(text.subrange(from, open))]
                } else {
                    Seq::<ItemView>::empty()
                };
                lemma_split_text(text, close + 1);
                lemma_braced_text(inner);
                lemma_pattern_text_single(piece);
                lemma_pattern_text_single(ItemView::Literal(text.subrange(from, open)));
                if open == from {
                    assert(text.subrange(from, open) == Seq::<char>::empty());
                    assert(escaped(Seq::<char>::empty()) == Seq::<char>::empty());
                    assert(pattern_text(Seq::<ItemView>::empty()) == Ok::<Seq<char>, PatternError>(
                        Seq::empty(),
                    ));
                }
                assert(pattern_text(head) == Ok::<Seq<char>, PatternError>(
                    escaped(text.subrange(from, open)),
                ));
                assert(head.push(piece) == head + seq![piece]);
                lemma_pattern_text_concat(head, seq![piece]);
                lemma_pattern_text_concat(head + seq![piece], split_literal(text, close + 1));
                let braces = seq!['{'] + inner + seq!['}'];
                assert(braces == text.subrange(open, close + 1));
                lemma_escaped_concat(text.subrange(from, open), braces);
                assert(text.subrange(from, open) + braces == text.subrange(from, close + 1));
                lemma_escaped_concat(text.subrange(from, close + 1), text.subrange(close + 1, end));
                assert(text.subrange(from, close + 1) + text.subrange(close + 1, end)
                    == text.subrange(from, end));
            }
        }
    }
}

/// The spelling of one token in a format string: text with every `%`
/// doubled, a calendar field by its canonical spelling. A rejected token has
/// the empty spelling.
pub open spec fn token_text(token: RawTokenView) -> Seq<char> {
    match token_item(token) {
        ItemView::Literal(text) => escaped(text),
        ItemView::CalendarField(kind, pad) => match field_text(kind, pad) {
            Some(text) => text,
            None => Seq::empty(),
        },
        _ => Seq::empty(),
    }
}

/// The spellings of a sequence of tokens, put together in order.
pub open spec fn tokens_text(tokens: Seq<RawTokenView>) -> Seq<char>
    decreases tokens.len(),
{
    if tokens.len() == 0 {
        Seq::empty()
    } else {
        tokens_text(tokens.drop_last()) + token_text(tokens.last())
    }
}

/// Whether a format string is spelled canonically: it is read as a template,
/// and spelling each of its tokens gives the string back.
pub open spec fn canonical(text: Seq<char>) -> bool {
    !any_rejected(strftime_items(text)) && tokens_text(strftime_items(text)) == text
}

/// What a token that is not rejected contributes is spelled as the token.
pub proof fn lemma_token_pieces_text(token: RawTokenView)
    requires
        !token_rejected(token),
    ensures
        pattern_text(token_pieces(token)) == Ok::<Seq<char>, PatternError>(token_text(token)),
{
    match token {
        RawTokenView::Text(text) => {
            lemma_split_text(text, 0);
            assert(text.subrange(0, text.len() as int) == text);
        },
        _ => {
            lemma_pattern_text_single(token_item(token));
        },
    }
}

/// Every template that is read from tokens has a format string, and it is
/// the spelling of the tokens.
pub proof fn lemma_template_text(tokens: Seq<RawTokenView>)
    requires
        !any_rejected(tokens),
    ensures
        pattern_text(expand_tokens(tokens)) == Ok::<Seq<char>, PatternError>(tokens_text(tokens)),
    decreases tokens.len(),
{
    if tokens.len() > 0 {
        let front = tokens.drop_last();
        assert(!any_rejected(front)) by {
            if any_rejected(front) {
                let i = choose|i: int| 0 <= i < front.len() && token_rejected(#[trigger] front[i]);
                assert(token_rejected(tokens[i]));
            }
        }
        assert(!token_rejected(tokens[tokens.len() - 1]));
        lemma_template_text(front);
        lemma_token_pieces_text(tokens.last());
        lemma_pattern_text_concat(expand_tokens(front), token_pieces(tokens.last()));
    }
}

/// Writing back what was read gives the format string back: for every
/// format string `text` that is spelled canonically, the template read from
/// it has `text` as its format string.
pub proof fn round_trip(text: Seq<char>)
    requires
        canonical(text),
    ensures
        template_of(text).is_some(),
        pattern_text(template_of(text).unwrap()) == Ok::<Seq<char>, PatternError>(text),
{
    lemma_template_text(strftime_items(text));
}

/// Every template that is read has a format string: for every sequence of
/// tokens that gives a template, writing the template back succeeds and
/// gives the spelling of the tokens.
pub proof fn read_templates_have_text(tokens: Seq<RawTokenView>)
    requires
        template_of_tokens(tokens).is_some(),
    ensures
        pattern_text(template_of_tokens(tokens).unwrap()) == Ok::<Seq<char>, PatternError>(
            tokens_text(tokens),
        ),
{
    lemma_template_text(tokens);
}

/// A single rejected token fails the whole template: a format string whose
/// token at `at` is an unrecognized specifier, a calendar field that
/// templates do not take or a padding without a name gives no template.
pub proof fn rejected_token_fails(text: Seq<char>, at: int)
    requires
        0 <= at < strftime_items(text).len(),
        token_rejected(strftime_items(text)[at]),
    ensures
        template_of(text).is_none(),
{
}

/// A field that templates do not take fails the whole template: a format
/// string in which the calendar library finds an internal field, an offset
/// from UTC that prints `Z`, or another field that is not accepted, gives
/// no template, whatever else it holds.
pub proof fn unsupported_field_fails(text: Seq<char>, at: int)
    requires
        0 <= at < strftime_items(text).len(),
        match strftime_items(text)[at] {
            RawTokenView::Numeric(kind, _) => !field_accepted(numeric_kind_named(kind)),
            RawTokenView::Fixed(kind) => !field_accepted(fixed_kind_named(kind)),
            RawTokenView::Error => true,
            RawTokenView::Text(_) => false,
        },
    ensures
        template_of(text).is_none(),
{
    assert(token_rejected(strftime_items(text)[at]));
}

} // verus!

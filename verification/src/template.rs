//! Template items, and the format string that a sequence of them stands for.

use crate::field::{field_text, push_field_text, FieldKind, Pad};
use crate::text::{chars_of, string_of};
use vstd::prelude::*;

verus! {

/// One item of an output template.
#[derive(Clone, Debug, PartialEq, Eq)]
pub enum TemplateItem {
    /// Text that is copied as it stands.
    Literal(String),
    /// A calendar field and its padding.
    CalendarField(FieldKind, Pad),
    /// A placeholder `{namespace:name}`: the namespace, then the name.
    NamedPlaceholder(String, String),
    /// An item that no template may hold.
    Invalid,
}

/// The mathematical value of a `TemplateItem`.
pub enum ItemView {
    Literal(Seq<char>),
    CalendarField(FieldKind, Pad),
    NamedPlaceholder(Seq<char>, Seq<char>),
    Invalid,
}

impl View for TemplateItem {
    type V = ItemView;

    open spec fn view(&self) -> ItemView {
        match self {
            TemplateItem::Literal(text) => ItemView::Literal(text@),
            TemplateItem::CalendarField(kind, pad) => ItemView::CalendarField(*kind, *pad),
            TemplateItem::NamedPlaceholder(namespace, name) => ItemView::NamedPlaceholder(
                namespace@,
                name@,
            ),
            TemplateItem::Invalid => ItemView::Invalid,
        }
    }
}

/// The values of a sequence of items.
pub open spec fn item_views(items: Seq<TemplateItem>) -> Seq<ItemView> {
    items.map_values(|item: TemplateItem| item@)
}

/// Why a sequence of items has no format string.
#[derive(Clone, Copy, Debug, PartialEq, Eq, Structural)]
pub enum PatternError {
    /// It holds a calendar field that no format string spells.
    InternalFormat,
    /// It holds an `Invalid` item.
    FormatError,
}

impl PatternError {
    /// The message that belongs to the error.
    pub fn message(&self) -> (text: &'static str)
        ensures
            text@ == match self {
                PatternError::InternalFormat => "internal format found"@,
                PatternError::FormatError => "format error found"@,
            },
    {
        match self {
            PatternError::InternalFormat => "internal format found",
            PatternError::FormatError => "format error found",
        }
    }
}

/// Literal text as a format string spells it: every `%` doubled.
pub open spec fn escaped(text: Seq<char>) -> Seq<char>
    decreases text.len(),
{
    if text.len() == 0 {
        Seq::empty()
    } else if text.last() == '%' {
        escaped(text.drop_last()) + seq!['%', '%']
    } else {
        escaped(text.drop_last()).push(text.last())
    }
}

/// A placeholder as a template spells it: `{namespace:name}`.
pub open spec fn placeholder_source(namespace: Seq<char>, name: Seq<char>) -> Seq<char> {
    seq!['{'] + namespace + seq![':'] + name + seq!['}']
}

/// A placeholder as a format string spells it: `{namespace:name}`, every
/// `%` in the two parts doubled.
pub open spec fn placeholder_text(namespace: Seq<char>, name: Seq<char>) -> Seq<char> {
    placeholder_source(escaped(namespace), escaped(name))
}

/// The spelling of one item in a format string.
pub open spec fn item_text(item: ItemView) -> Result<Seq<char>, PatternError> {
    match item {
        ItemView::Literal(text) => Ok(escaped(text)),
        ItemView::CalendarField(kind, pad) => match field_text(kind, pad) {
            Some(text) => Ok(text),
            None => Err(PatternError::InternalFormat),
        },
        ItemView::NamedPlaceholder(namespace, name) => Ok(placeholder_text(namespace, name)),
        ItemView::Invalid => Err(PatternError::FormatError),
    }
}

/// The format string of a sequence of items: the spellings of its items in
/// order, or the error of the first item that has no spelling.
pub open spec fn pattern_text(items: Seq<ItemView>) -> Result<Seq<char>, PatternError>
    decreases items.len(),
{
    if items.len() == 0 {
        Ok(Seq::empty())
    } else {
        match pattern_text(items.drop_last()) {
            Err(e) => Err(e),
            Ok(head) => match item_text(items.last()) {
                Err(e) => Err(e),
                Ok(tail) => Ok(head + tail),
            },
        }
    }
}

/// Appends `text` to `out`, every `%` doubled.
pub fn push_escaped(out: &mut Vec<char>, text: &Vec<char>)
    ensures
        final(out)@ == old(out)@ + escaped(text@),
{
    let mut i: usize = 0;
    while i < text.len()
        invariant
            i <= text.len(),
            out@ == old(out)@ + escaped(text@.take(i as int)),
        decreases text.len() - i,
    {
        assert(text@.take(i + 1).drop_last() == text@.take(i as int));
        if text[i] == '%' {
            out.push('%');
            out.push('%');
            assert(out@ == old(out)@ + (escaped(text@.take(i as int)) + seq!['%', '%']));
        } else {
            out.push(text[i]);
            assert(out@ == old(out)@ + escaped(text@.take(i as int)).push(text@[i as int]));
        }
        i += 1;
    }
    assert(text@.take(text.len() as int) == text@);
}

/// Appends the spelling of a placeholder to `out`.
pub fn push_placeholder(out: &mut Vec<char>, namespace: &Vec<char>, name: &Vec<char>)
    ensures
        final(out)@ == old(out)@ + placeholder_text(namespace@, name@),
{
    out.push('{');
    push_escaped(out, namespace);
    out.push(':');
    push_escaped(out, name);
    out.push('}');
    assert(out@ == old(out)@ + placeholder_text(namespace@, name@));
}

/// Appends the spelling of one item to `out`, or reports why it has none and
/// leaves `out` as it was.
pub fn push_item_text(out: &mut Vec<char>, item: &TemplateItem) -> (done: Result<(), PatternError>)
    ensures
        match item_text(item@) {
            Ok(text) => done.is_ok() && final(out)@ == old(out)@ + text,
            Err(e) => done == Err::<(), PatternError>(e) && final(out)@ == old(out)@,
        },
{
    match item {
        TemplateItem::Literal(text) => {
            let chars = chars_of(text.as_str());
            push_escaped(out, &chars);
            Ok(())
        },
        TemplateItem::CalendarField(kind, pad) => {
            if push_field_text(out, *kind, *pad) {
                Ok(())
            } else {
                Err(PatternError::InternalFormat)
            }
        },
        TemplateItem::NamedPlaceholder(namespace, name) => {
            let namespace_chars = chars_of(namespace.as_str());
            let name_chars = chars_of(name.as_str());
            push_placeholder(out, &namespace_chars, &name_chars);
            Ok(())
        },
        TemplateItem::Invalid => Err(PatternError::FormatError),
    }
}

/// The format string that a sequence of items stands for. Fails on the
/// first item that has no spelling: `InternalFormat` for a calendar field
/// without one, `FormatError` for an `Invalid` item.
pub fn pattern_to_string(pattern: &Vec<TemplateItem>) -> (text: Result<String, PatternError>)
    ensures
        match pattern_text(item_views(pattern@)) {
            Ok(chars) => text.is_ok() && text->Ok_0@ == chars,
            Err(e) => text == Err::<String, PatternError>(e),
        },
{
    let mut out: Vec<char> = Vec::new();
    let mut i: usize = 0;
    while i < pattern.len()
        invariant
            i <= pattern.len(),
            pattern_text(item_views(pattern@).take(i as int)) == Ok::<Seq<char>, PatternError>(
                out@,
            ),
        decreases pattern.len() - i,
    {
        proof {
            let views = item_views(pattern@);
            assert(views.take(i + 1).drop_last() == views.take(i as int));
            assert(views.take(i + 1).last() == pattern@[i as int]@);
        }
        match push_item_text(&mut out, &pattern[i]) {
            Ok(()) => {},
            Err(e) => {
                proof {
                    lemma_pattern_text_error(item_views(pattern@), i as int);
                }
                return Err(e);
            },
        }
        i += 1;
    }
    assert(item_views(pattern@).take(pattern.len() as int) == item_views(pattern@));
    Ok(string_of(&out))
}

/// Where the first `at` items have a format string and the next one has an
/// error, the whole sequence has that error.
pub proof fn lemma_pattern_text_error(items: Seq<ItemView>, at: int)
    requires
        0 <= at < items.len(),
        pattern_text(items.take(at)).is_ok(),
        item_text(items[at]).is_err(),
    ensures
        pattern_text(items).is_err(),
        pattern_text(items)->Err_0 == item_text(items[at])->Err_0,
    decreases items.len(),
{
    if at == items.len() - 1 {
        assert(items.drop_last() == items.take(at));
    } else {
        assert(items.drop_last().take(at) == items.take(at));
        lemma_pattern_text_error(items.drop_last(), at);
    }
}

} // verus!

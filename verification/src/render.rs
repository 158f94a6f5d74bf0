//! Rendering a template into a file name.

use crate::calendar::{format_civil, format_utc, formatted_civil, formatted_utc, CivilDateTime};
use crate::field::{field_text, push_field_text};
use crate::matcher::{capture_views, resolution, resolve, Capture};
use crate::template::{item_views, pattern_text, placeholder_source, ItemView, TemplateItem};
use crate::text::{chars_of, push_range, string_of};
use crate::field::{FieldKind, Pad};
use crate::timestamp::ResolvedTimestamp;
use vstd::prelude::*;

verus! {

/// Why a template could not be rendered.
#[derive(Clone, Copy, Debug, PartialEq, Eq, Structural)]
pub enum RenderError {
    /// The name was asked for in UTC, and the timestamp has no instant.
    MissingInstant,
    /// The template holds an `Invalid` item, or a calendar field that no
    /// format string spells.
    InvalidItem,
    /// A calendar field has no text for the timestamp.
    Unformattable,
}

/// The values of a sequence of optional strings.
pub open spec fn option_views(values: Seq<Option<String>>) -> Seq<Option<Seq<char>>> {
    values.map_values(
        |value: Option<String>|
            match value {
                Some(text) => Some(text@),
                None => None,
            },
    )
}

/// The value at `at`, nothing where the sequence is shorter.
pub open spec fn value_at(values: Seq<Option<Seq<char>>>, at: int) -> Option<Seq<char>> {
    if 0 <= at < values.len() {
        values[at]
    } else {
        None
    }
}

/// The text that one item gives, `value` being what was found for it: the
/// formatted field for a calendar field, the resolved text for a
/// placeholder. Literal text stands as it is; a placeholder for which
/// nothing was found stands as it was written, braces included.
pub open spec fn piece(item: ItemView, value: Option<Seq<char>>) -> Result<Seq<char>, RenderError> {
    match item {
        ItemView::Literal(text) => Ok(text),
        ItemView::CalendarField(kind, pad) => if field_text(kind, pad).is_none() {
            Err(RenderError::InvalidItem)
        } else {
            match value {
                Some(text) => Ok(text),
                None => Err(RenderError::Unformattable),
            }
        },
        ItemView::NamedPlaceholder(namespace, name) => match value {
            Some(text) => Ok(text),
            None => Ok(placeholder_source(namespace, name)),
        },
        ItemView::Invalid => Err(RenderError::InvalidItem),
    }
}

/// The text that the first `upto` items give, in order, or the error of the
/// first item that gives none.
pub open spec fn assembled_upto(items: Seq<ItemView>, values: Seq<Option<Seq<char>>>, upto: int)
    -> Result<Seq<char>, RenderError>
    decreases upto,
{
    if upto <= 0 {
        Ok(Seq::empty())
    } else {
        match assembled_upto(items, values, upto - 1) {
            Err(e) => Err(e),
            Ok(head) => match piece(items[upto - 1], value_at(values, upto - 1)) {
                Err(e) => Err(e),
                Ok(tail) => Ok(head + tail),
            },
        }
    }
}

/// The text that a template gives, `values[i]` being what was found for
/// item `i`.
pub open spec fn assembled(items: Seq<ItemView>, values: Seq<Option<Seq<char>>>) -> Result<
    Seq<char>,
    RenderError,
> {
    assembled_upto(items, values, items.len() as int)
}

/// Puts the text of a template together from what was found for its items:
/// `values[i]` belongs to item `i`, and an item beyond the end of `values`
/// has nothing found. Fails with the error of the first item that has no
/// text: `InvalidItem` for an `Invalid` item or a calendar field without a
/// spelling, `Unformattable` for a calendar field with nothing found.
pub fn assemble(items: &Vec<TemplateItem>, values: &Vec<Option<String>>) -> (text: Result<
    String,
    RenderError,
>)
    ensures
        match assembled(item_views(items@), option_views(values@)) {
            Ok(chars) => text.is_ok() && text->Ok_0@ == chars,
            Err(e) => text == Err::<String, RenderError>(e),
        },
{
    let ghost views = item_views(items@);
    let ghost found = option_views(values@);
    let mut out: Vec<char> = Vec::new();
    let mut i: usize = 0;
    while i < items.len()
        invariant
            i <= items.len(),
            views == item_views(items@),
            found == option_views(values@),
            assembled_upto(views, found, i as int) == Ok::<Seq<char>, RenderError>(out@),
        decreases items.len() - i,
    {
        assert(views[i as int] == items@[i as int]@);
        let value: Option<&String> = if i < values.len() {
            assert(found[i as int] == option_views(values@)[i as int]);
            values[i].as_ref()
        } else {
            None
        };
        assert(value.is_some() == value_at(found, i as int).is_some());
        assert(value matches Some(s) ==> value_at(found, i as int) == Some(s@));
        let ghost before = out@;
        match &items[i] {
            TemplateItem::Literal(text) => {
                let chars = chars_of(text.as_str());
                push_range(&mut out, &chars, 0, chars.len());
                assert(chars@.subrange(0, chars.len() as int) == chars@);
            },
            TemplateItem::CalendarField(kind, pad) => {
                let mut spelled: Vec<char> = Vec::new();
                if !push_field_text(&mut spelled, *kind, *pad) {
                    proof {
                        lemma_assembled_error(views, found, i as int, items.len() as int);
                    }
                    return Err(RenderError::InvalidItem);
                }
                match value {
                    Some(text) => {
                        let chars = chars_of(text.as_str());
                        push_range(&mut out, &chars, 0, chars.len());
                        assert(chars@.subrange(0, chars.len() as int) == chars@);
                    },
                    None => {
                        proof {
                            lemma_assembled_error(views, found, i as int, items.len() as int);
                        }
                        return Err(RenderError::Unformattable);
                    },
                }
            },
            TemplateItem::NamedPlaceholder(namespace, name) => {
                match value {
                    Some(text) => {
                        let chars = chars_of(text.as_str());
                        push_range(&mut out, &chars, 0, chars.len());
                        assert(chars@.subrange(0, chars.len() as int) == chars@);
                    },
                    None => {
                        let namespace_chars = chars_of(namespace.as_str());
                        let name_chars = chars_of(name.as_str());
                        out.push('{');
                        push_range(&mut out, &namespace_chars, 0, namespace_chars.len());
                        out.push(':');
                        push_range(&mut out, &name_chars, 0, name_chars.len());
                        out.push('}');
                        assert(namespace_chars@.subrange(0, namespace_chars.len() as int)
                            == namespace_chars@);
                        assert(name_chars@.subrange(0, name_chars.len() as int) == name_chars@);
                        assert(out@ == before + placeholder_source(namespace@, name@));
                    },
                }
            },
            TemplateItem::Invalid => {
                proof {
                    lemma_assembled_error(views, found, i as int, items.len() as int);
                }
                return Err(RenderError::InvalidItem);
            },
        }
        assert(piece(views[i as int], value_at(found, i as int)).is_ok());
        assert(out@ == before + piece(views[i as int], value_at(found, i as int))->Ok_0);
        i += 1;
    }
    Ok(string_of(&out))
}

/// Where the items before `at` give a text and item `at` gives an error,
/// every longer run of items gives that error.
pub proof fn lemma_assembled_error(
    items: Seq<ItemView>,
    values: Seq<Option<Seq<char>>>,
    at: int,
    upto: int,
)
    requires
        0 <= at < upto,
        assembled_upto(items, values, at).is_ok(),
        piece(items[at], value_at(values, at)).is_err(),
    ensures
        assembled_upto(items, values, upto).is_err(),
        assembled_upto(items, values, upto)->Err_0 == piece(items[at], value_at(values, at))->Err_0,
    decreases upto,
{
    if upto > at + 1 {
        lemma_assembled_error(items, values, at, upto - 1);
    }
}

/// The text of a calendar field for a date-time: what the calendar library
/// writes for the field's canonical spelling, the date-time taken as UTC
/// where `zoned` holds and as civil time where not.
pub open spec fn field_value(kind: FieldKind, pad: Pad, at: CivilDateTime, zoned: bool) -> Option<
    Seq<char>,
> {
    match field_text(kind, pad) {
        Some(format) => if zoned {
            formatted_utc(at, format)
        } else {
            formatted_civil(at, format)
        },
        None => None,
    }
}

/// What is found for one item: the text of a calendar field, what a
/// placeholder resolves to, nothing for the others.
pub open spec fn item_value(
    item: ItemView,
    at: CivilDateTime,
    zoned: bool,
    captures: Seq<(Seq<char>, Seq<char>)>,
) -> Option<Seq<char>> {
    match item {
        ItemView::CalendarField(kind, pad) => field_value(kind, pad, at, zoned),
        ItemView::NamedPlaceholder(namespace, name) => resolution(namespace, name, captures),
        _ => None,
    }
}

/// What is found for each item of a template.
pub open spec fn values_of(
    items: Seq<ItemView>,
    at: CivilDateTime,
    zoned: bool,
    captures: Seq<(Seq<char>, Seq<char>)>,
) -> Seq<Option<Seq<char>>> {
    Seq::new(items.len(), |i: int| item_value(items[i], at, zoned, captures))
}

/// The name that a template gives for a timestamp and the captures of a
/// match. In UTC the timestamp's instant is formatted, and a timestamp
/// without one gives `MissingInstant`; else its civil time is formatted.
pub open spec fn rendered(
    items: Seq<ItemView>,
    timestamp: ResolvedTimestamp,
    use_utc: bool,
    captures: Seq<(Seq<char>, Seq<char>)>,
) -> Result<Seq<char>, RenderError> {
    if use_utc {
        match timestamp.instant {
            Some(at) => assembled(items, values_of(items, at, true, captures)),
            None => Err(RenderError::MissingInstant),
        }
    } else {
        assembled(items, values_of(items, timestamp.civil, false, captures))
    }
}

/// Formats one calendar field for a date-time.
pub fn format_field(kind: FieldKind, pad: Pad, at: &CivilDateTime, zoned: bool) -> (text: Option<
    String,
>)
    ensures
        text.is_some() == field_value(kind, pad, *at, zoned).is_some(),
        text matches Some(s) ==> field_value(kind, pad, *at, zoned) == Some(s@),
{
    let mut spelled: Vec<char> = Vec::new();
    if !push_field_text(&mut spelled, kind, pad) {
        return None;
    }
    let format = string_of(&spelled);
    if zoned {
        format_utc(at, format.as_str())
    } else {
        format_civil(at, format.as_str())
    }
}

/// Finds, for each item of a template, the text of its calendar field or
/// what its placeholder resolves to.
pub fn find_values(
    items: &Vec<TemplateItem>,
    at: &CivilDateTime,
    zoned: bool,
    captures: &Vec<Capture>,
) -> (values: Vec<Option<String>>)
    ensures
        option_views(values@) == values_of(item_views(items@), *at, zoned, capture_views(captures@)),
{
    let ghost views = item_views(items@);
    let ghost bound = capture_views(captures@);
    let mut values: Vec<Option<String>> = Vec::new();
    let mut i: usize = 0;
    while i < items.len()
        invariant
            i <= items.len(),
            views == item_views(items@),
            bound == capture_views(captures@),
            values.len() == i,
            forall|k: int|
                0 <= k < i ==> option_views(values@)[k] == item_value(
                    #[trigger] views[k],
                    *at,
                    zoned,
                    bound,
                ),
        decreases items.len() - i,
    {
        assert(views[i as int] == items@[i as int]@);
        let value = match &items[i] {
            TemplateItem::CalendarField(kind, pad) => format_field(*kind, *pad, at, zoned),
            TemplateItem::NamedPlaceholder(namespace, name) => resolve(
                namespace.as_str(),
                name.as_str(),
                captures,
            ),
            _ => None,
        };
        let ghost before = values@;
        values.push(value);
        assert(forall|k: int| 0 <= k < i ==> option_views(values@)[k] == option_views(before)[k]);
        i += 1;
    }
    assert(option_views(values@) =~= values_of(views, *at, zoned, bound));
    values
}

/// Renders a template into a file name, for the timestamp of a file and the
/// captures of its match. Literal text is copied; a calendar field is
/// formatted, from the timestamp's instant where `use_utc` holds and from
/// its civil time where not; a placeholder gives what it resolves to, and
/// stands as it was written where it resolves to nothing.
pub fn render(
    items: &Vec<TemplateItem>,
    timestamp: &ResolvedTimestamp,
    use_utc: bool,
    captures: &Vec<Capture>,
) -> (name: Result<String, RenderError>)
    ensures
        match rendered(item_views(items@), *timestamp, use_utc, capture_views(captures@)) {
            Ok(chars) => name.is_ok() && name->Ok_0@ == chars,
            Err(e) => name == Err::<String, RenderError>(e),
        },
{
    if use_utc {
        match timestamp.instant {
            Some(at) => {
                let values = find_values(items, &at, true, captures);
                assemble(items, &values)
            },
            None => Err(RenderError::MissingInstant),
        }
    } else {
        let values = find_values(items, &timestamp.civil, false, captures);
        assemble(items, &values)
    }
}

/// An error among the first items is the error of the whole.
proof fn lemma_pattern_text_prefix(items: Seq<ItemView>, upto: int)
    requires
        0 <= upto <= items.len(),
        pattern_text(items).is_ok(),
    ensures
        pattern_text(items.take(upto)).is_ok(),
    decreases items.len() - upto,
{
    if upto < items.len() {
        lemma_pattern_text_prefix(items, upto + 1);
        assert(items.take(upto + 1).drop_last() == items.take(upto));
    } else {
        assert(items.take(upto) == items);
    }
}

/// Where the first `upto` items give a text, so do the first `at` of them,
/// and their text is the start of it.
pub proof fn lemma_assembled_prefix(
    items: Seq<ItemView>,
    values: Seq<Option<Seq<char>>>,
    at: int,
    upto: int,
)
    requires
        0 <= at <= upto,
        assembled_upto(items, values, upto).is_ok(),
    ensures
        assembled_upto(items, values, at).is_ok(),
        assembled_upto(items, values, at)->Ok_0.len() <= assembled_upto(
            items,
            values,
            upto,
        )->Ok_0.len(),
        assembled_upto(items, values, upto)->Ok_0.subrange(
            0,
            assembled_upto(items, values, at)->Ok_0.len() as int,
        ) == assembled_upto(items, values, at)->Ok_0,
    decreases upto - at,
{
    let whole = assembled_upto(items, values, upto)->Ok_0;
    if at < upto {
        lemma_assembled_prefix(items, values, at, upto - 1);
        let shorter = assembled_upto(items, values, upto - 1)->Ok_0;
        let part = assembled_upto(items, values, at)->Ok_0;
        assert(whole.subrange(0, shorter.len() as int) == shorter);
        assert(whole.subrange(0, part.len() as int) == shorter.subrange(0, part.len() as int));
    } else {
        assert(whole.subrange(0, whole.len() as int) == whole);
    }
}

/// Rendering a legal template does not depend on what placeholders resolve
/// to: for every template that has a format string, and whatever was found
/// for its placeholders, the text is put together as soon as every calendar
/// field has its text.
pub proof fn legal_template_renders(items: Seq<ItemView>, values: Seq<Option<Seq<char>>>)
    requires
        pattern_text(items).is_ok(),
        forall|i: int|
            0 <= i < items.len() && (#[trigger] items[i]) is CalendarField ==> value_at(
                values,
                i,
            ).is_some(),
    ensures
        assembled(items, values).is_ok(),
{
    let n = items.len() as int;
    assert forall|upto: int| 0 <= upto <= n implies assembled_upto(
        items,
        values,
        upto,
    ).is_ok() by {
        lemma_legal_upto(items, values, upto);
    }
}

proof fn lemma_legal_upto(items: Seq<ItemView>, values: Seq<Option<Seq<char>>>, upto: int)
    requires
        0 <= upto <= items.len(),
        pattern_text(items).is_ok(),
        forall|i: int|
            0 <= i < items.len() && (#[trigger] items[i]) is CalendarField ==> value_at(
                values,
                i,
            ).is_some(),
    ensures
        assembled_upto(items, values, upto).is_ok(),
    decreases upto,
{
    if upto > 0 {
        lemma_legal_upto(items, values, upto - 1);
        lemma_pattern_text_prefix(items, upto);
        assert(items.take(upto).last() == items[upto - 1]);
        assert(items.take(upto).drop_last() == items.take(upto - 1));
        lemma_pattern_text_prefix(items, upto - 1);
    }
}

/// A legal template is rendered whatever the captures are: for every
/// template that has a format string, a timestamp that has the instant
/// where the name is asked for in UTC, and calendar fields that all have a
/// text for the timestamp, the name is rendered under every sequence of
/// captures.
pub proof fn legal_template_renders_under_all_captures(
    items: Seq<ItemView>,
    timestamp: ResolvedTimestamp,
    use_utc: bool,
    captures: Seq<(Seq<char>, Seq<char>)>,
)
    requires
        pattern_text(items).is_ok(),
        use_utc ==> timestamp.instant.is_some(),
        forall|i: int|
            0 <= i < items.len() && (#[trigger] items[i]) is CalendarField ==> field_value(
                items[i]->CalendarField_0,
                items[i]->CalendarField_1,
                if use_utc {
                    timestamp.instant.unwrap()
                } else {
                    timestamp.civil
                },
                use_utc,
            ).is_some(),
    ensures
        rendered(items, timestamp, use_utc, captures).is_ok(),
{
    let at = if use_utc {
        timestamp.instant.unwrap()
    } else {
        timestamp.civil
    };
    legal_template_renders(items, values_of(items, at, use_utc, captures));
}

/// A placeholder for which nothing was found appears as it was written,
/// braces included: in the text of a template, right after the text of the
/// items before it.
pub proof fn unresolved_placeholder_stands(
    items: Seq<ItemView>,
    values: Seq<Option<Seq<char>>>,
    at: int,
)
    requires
        0 <= at < items.len(),
        items[at] is NamedPlaceholder,
        value_at(values, at).is_none(),
        assembled(items, values).is_ok(),
    ensures
        ({
            let text = assembled(items, values)->Ok_0;
            let before = assembled_upto(items, values, at);
            let written = placeholder_source(
                items[at]->NamedPlaceholder_0,
                items[at]->NamedPlaceholder_1,
            );
            &&& before.is_ok()
            &&& before->Ok_0.len() + written.len() <= text.len()
            &&& text.subrange(
                before->Ok_0.len() as int,
                (before->Ok_0.len() + written.len()) as int,
            ) == written
        }),
{
    let n = items.len() as int;
    lemma_assembled_prefix(items, values, at + 1, n);
    lemma_assembled_prefix(items, values, at, at + 1);
    let text = assembled(items, values)->Ok_0;
    let through = assembled_upto(items, values, at + 1)->Ok_0;
    let before = assembled_upto(items, values, at)->Ok_0;
    let written = placeholder_source(items[at]->NamedPlaceholder_0, items[at]->NamedPlaceholder_1);
    assert(through == before + written);
    assert(text.subrange(0, through.len() as int) == through);
    assert(text.subrange(before.len() as int, (before.len() + written.len()) as int) == through.subrange(
        before.len() as int,
        through.len() as int,
    ));
    assert(through.subrange(before.len() as int, through.len() as int) == written);
}

} // verus!

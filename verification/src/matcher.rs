//! Matching file names against the source pattern, and the named captures
//! of a match.

use crate::text::same_text;
use regex::Regex;
use vstd::prelude::*;

verus! {

/// One capture group of a match: its name, if the pattern names it, and the
/// text it matched, if it took part in the match.
#[derive(Debug, PartialEq, Eq)]
pub struct Group {
    pub name: Option<String>,
    pub text: Option<String>,
}

/// The mathematical value of a `Group`.
pub struct GroupView {
    pub name: Option<Seq<char>>,
    pub text: Option<Seq<char>>,
}

impl View for Group {
    type V = GroupView;

    open spec fn view(&self) -> GroupView {
        GroupView {
            name: match self.name {
                Some(name) => Some(name@),
                None => None,
            },
            text: match self.text {
                Some(text) => Some(text@),
                None => None,
            },
        }
    }
}

/// The values of a sequence of groups.
pub open spec fn group_views(groups: Seq<Group>) -> Seq<GroupView> {
    groups.map_values(|group: Group| group@)
}

/// A named capture: the name of a group and what it matched, the empty text
/// where the group did not take part in the match.
#[derive(Debug, PartialEq, Eq)]
pub struct Capture {
    pub name: String,
    pub value: String,
}

impl View for Capture {
    type V = (Seq<char>, Seq<char>);

    open spec fn view(&self) -> (Seq<char>, Seq<char>) {
        (self.name@, self.value@)
    }
}

/// The values of a sequence of captures.
pub open spec fn capture_views(captures: Seq<Capture>) -> Seq<(Seq<char>, Seq<char>)> {
    captures.map_values(|capture: Capture| capture@)
}

/// A file name that the source pattern matches, with its named captures.
#[derive(Debug, PartialEq, Eq)]
pub struct MatchResult {
    pub file_name: String,
    pub captures: Vec<Capture>,
}

/// The message with which `regex::Regex::new` refuses a pattern; `None`
/// where it compiles.
pub uninterp spec fn regex_error(pattern: Seq<char>) -> Option<Seq<char>>;

/// The capture groups, in the order of the pattern and with the whole match
/// first, of the leftmost match that `regex::Regex::captures` finds in a
/// text; `None` where the pattern does not compile or nothing matches.
pub uninterp spec fn regex_groups(pattern: Seq<char>, haystack: Seq<char>) -> Option<
    Seq<GroupView>,
>;

/// Calls `regex::Regex::new` and hands out the error's message, if there is
/// an error.
#[verifier::external_body]
pub(crate) fn pattern_fault(pattern: &str) -> (error: Option<String>)
    ensures
        error.is_some() == regex_error(pattern@).is_some(),
        error matches Some(message) ==> regex_error(pattern@) == Some(message@),
{
    Regex::new(pattern).err().map(|e| e.to_string())
}

/// Compiles `pattern` with `regex::Regex::new`, calls `Regex::captures` on
/// `haystack`, and pairs what `Regex::capture_names` yields with the groups
/// of the match (`Captures::iter`), which come in the same order.
#[verifier::external_body]
pub(crate) fn match_groups(pattern: &str, haystack: &str) -> (groups: Option<Vec<Group>>)
    ensures
        groups.is_some() == regex_groups(pattern@, haystack@).is_some(),
        groups matches Some(found) ==> regex_groups(pattern@, haystack@) == Some(
            group_views(found@),
        ),
{
    let regex = Regex::new(pattern).ok()?;
    let found = regex.captures(haystack)?;
    let mut groups = Vec::new();
    for (name, text) in regex.capture_names().zip(found.iter()) {
        groups.push(Group {
            name: name.map(|n| n.to_string()),
            text: text.map(|m| m.as_str().to_string()),
        });
    }
    Some(groups)
}

/// The named captures among the groups of a match, in order: a group with a
/// name gives a capture, whose value is empty where the group matched
/// nothing.
pub open spec fn bindings(groups: Seq<GroupView>) -> Seq<(Seq<char>, Seq<char>)>
    decreases groups.len(),
{
    if groups.len() == 0 {
        Seq::empty()
    } else {
        let front = bindings(groups.drop_last());
        match groups.last().name {
            Some(name) => front.push(
                (
                    name,
                    match groups.last().text {
                        Some(text) => text,
                        None => Seq::empty(),
                    },
                ),
            ),
            None => front,
        }
    }
}

/// The captures of `file_name` under `pattern`; `None` where the pattern
/// does not match the name.
pub open spec fn match_of(pattern: Seq<char>, file_name: Seq<char>) -> Option<
    Seq<(Seq<char>, Seq<char>)>,
> {
    match regex_groups(pattern, file_name) {
        Some(groups) => Some(bindings(groups)),
        None => None,
    }
}

/// The named captures among the groups of a match.
pub fn captures_of(groups: &Vec<Group>) -> (captures: Vec<Capture>)
    ensures
        capture_views(captures@) == bindings(group_views(groups@)),
{
    let ghost views = group_views(groups@);
    let mut captures: Vec<Capture> = Vec::new();
    let mut i: usize = 0;
    while i < groups.len()
        invariant
            i <= groups.len(),
            views == group_views(groups@),
            capture_views(captures@) == bindings(views.take(i as int)),
        decreases groups.len() - i,
    {
        proof {
            assert(views.take(i + 1).drop_last() == views.take(i as int));
            assert(views.take(i + 1).last() == groups@[i as int]@);
        }
        if let Some(name) = &groups[i].name {
            let value = match &groups[i].text {
                Some(text) => text.clone(),
                None => String::new(),
            };
            let ghost before = captures@;
            captures.push(Capture { name: name.clone(), value });
            assert(capture_views(captures@) == capture_views(before).push(
                (name@, captures@.last().value@),
            ));
        }
        i += 1;
    }
    assert(views.take(groups.len() as int) == views);
    captures
}

/// Tests a file name against the source pattern. On a match, gives the name
/// together with every named group of the pattern: a group that did not take
/// part in the match is there with the empty text. `None` where the pattern
/// does not match, or does not compile.
pub fn match_file_name(pattern: &str, file_name: &str) -> (found: Option<MatchResult>)
    ensures
        found.is_some() == match_of(pattern@, file_name@).is_some(),
        found matches Some(hit) ==> hit.file_name@ == file_name@ && match_of(
            pattern@,
            file_name@,
        ) == Some(capture_views(hit.captures@)),
{
    match match_groups(pattern, file_name) {
        Some(groups) => Some(
            MatchResult { file_name: file_name.to_owned(), captures: captures_of(&groups) },
        ),
        None => None,
    }
}

/// The namespace of the placeholders that stand for named captures.
pub open spec fn regex_namespace() -> Seq<char> {
    "regex"@
}

/// The value of the first capture that goes by `name`, if there is one.
pub open spec fn lookup(captures: Seq<(Seq<char>, Seq<char>)>, name: Seq<char>) -> Option<
    Seq<char>,
>
    decreases captures.len(),
{
    if captures.len() == 0 {
        None
    } else if captures[0].0 == name {
        Some(captures[0].1)
    } else {
        lookup(captures.skip(1), name)
    }
}

/// A capture that is added at the end is found by its name, and takes no
/// other capture away.
pub proof fn lemma_lookup_push(
    captures: Seq<(Seq<char>, Seq<char>)>,
    added: (Seq<char>, Seq<char>),
    name: Seq<char>,
)
    ensures
        lookup(captures, name).is_some() ==> lookup(captures.push(added), name) == lookup(
            captures,
            name,
        ),
        added.0 == name ==> lookup(captures.push(added), name).is_some(),
    decreases captures.len(),
{
    let longer = captures.push(added);
    if captures.len() == 0 {
        assert(longer[0] == added);
    } else {
        assert(longer[0] == captures[0]);
        assert(longer.skip(1) == captures.skip(1).push(added));
        lemma_lookup_push(captures.skip(1), added, name);
    }
}

/// No named group is missing from the captures: for every group of a match
/// that has a name, the captures hold a value under that name.
pub proof fn named_groups_are_bound(groups: Seq<GroupView>, at: int)
    requires
        0 <= at < groups.len(),
        groups[at].name.is_some(),
    ensures
        lookup(bindings(groups), groups[at].name.unwrap()).is_some(),
    decreases groups.len(),
{
    let name = groups[at].name.unwrap();
    let front = bindings(groups.drop_last());
    if at < groups.len() - 1 {
        assert(groups.drop_last()[at] == groups[at]);
        named_groups_are_bound(groups.drop_last(), at);
    }
    if let Some(last_name) = groups.last().name {
        let value = match groups.last().text {
            Some(text) => text,
            None => Seq::empty(),
        };
        lemma_lookup_push(front, (last_name, value), name);
    }
}

/// What a placeholder stands for under the captures of a match. In the
/// namespace `regex` it is the capture of that name, and the empty text
/// where no capture goes by the name; in any other namespace it is nothing.
pub open spec fn resolution(
    namespace: Seq<char>,
    name: Seq<char>,
    captures: Seq<(Seq<char>, Seq<char>)>,
) -> Option<Seq<char>> {
    if namespace == regex_namespace() {
        match lookup(captures, name) {
            Some(value) => Some(value),
            None => Some(Seq::empty()),
        }
    } else {
        None
    }
}

/// Resolves a placeholder under the captures of a match.
pub fn resolve(namespace: &str, name: &str, captures: &Vec<Capture>) -> (value: Option<String>)
    ensures
        value.is_some() == resolution(namespace@, name@, capture_views(captures@)).is_some(),
        value matches Some(text) ==> resolution(namespace@, name@, capture_views(captures@))
            == Some(text@),
{
    if !same_text(namespace, "regex") {
        return None;
    }
    let ghost views = capture_views(captures@);
    assert(views.skip(0) == views);
    let mut i: usize = 0;
    while i < captures.len()
        invariant
            i <= captures.len(),
            views == capture_views(captures@),
            namespace@ == regex_namespace(),
            lookup(views, name@) == lookup(views.skip(i as int), name@),
        decreases captures.len() - i,
    {
        assert(views.skip(i as int)[0] == captures@[i as int]@);
        if same_text(captures[i].name.as_str(), name) {
            let value = captures[i].value.clone();
            assert(lookup(views.skip(i as int), name@) == Some(value@));
            return Some(value);
        }
        assert(views.skip(i as int).skip(1) == views.skip(i + 1));
        i += 1;
    }
    Some(String::new())
}

} // verus!

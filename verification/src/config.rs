//! The configuration: where the logs are and how they are named, where they
//! go and how they are to be named there.

use crate::matcher::{
    capture_views, match_file_name, match_of, pattern_fault, regex_error, MatchResult,
};
use crate::field::{FieldKind, Pad};
use crate::template::{
    item_views, pattern_text, pattern_to_string, ItemView, PatternError, TemplateItem,
};
use vstd::prelude::*;

verus! {

/// Why a configuration was refused.
#[derive(Debug, PartialEq, Eq)]
pub enum ConfigError {
    /// The document is no TOML; the message of the parser.
    InvalidDocument(String),
    /// The source pattern is no regular expression; the message of the
    /// compiler.
    InvalidSourcePattern(String),
    /// The output pattern is no template; the pattern.
    InvalidOutputPattern(String),
    /// The items given for the output pattern have no format string.
    IllegalTemplate(PatternError),
    /// The document could not be written; the message of the serializer.
    Unwritable(String),
}

/// The mathematical value of a `ConfigError`.
pub enum ConfigErrorView {
    InvalidDocument(Seq<char>),
    InvalidSourcePattern(Seq<char>),
    InvalidOutputPattern(Seq<char>),
    IllegalTemplate(PatternError),
    Unwritable(Seq<char>),
}

impl View for ConfigError {
    type V = ConfigErrorView;

    open spec fn view(&self) -> ConfigErrorView {
        match self {
            ConfigError::InvalidDocument(message) => ConfigErrorView::InvalidDocument(message@),
            ConfigError::InvalidSourcePattern(message) => ConfigErrorView::InvalidSourcePattern(
                message@,
            ),
            ConfigError::InvalidOutputPattern(pattern) => ConfigErrorView::InvalidOutputPattern(
                pattern@,
            ),
            ConfigError::IllegalTemplate(e) => ConfigErrorView::IllegalTemplate(*e),
            ConfigError::Unwritable(message) => ConfigErrorView::Unwritable(message@),
        }
    }
}

/// The folders that stand in where the document names none.
#[derive(Debug, PartialEq, Eq)]
pub struct Folders {
    pub source: String,
    pub output: String,
}

/// The pattern of the names under which VRChat writes its logs.
pub open spec fn default_source_pattern() -> Seq<char> {
    r"^output_log_(?:\d{4}-\d{2}-\d{2}_)?\d{2}-\d{2}-\d{2}(?P<in_sec_num>\d+)?\.txt$"@
}

/// Where the logs are, which of them are meant, and whether they stay.
#[derive(Debug)]
pub struct Source {
    folder: String,
    pattern: String,
    keep_old: bool,
}

/// The mathematical value of a `Source`.
pub struct SourceView {
    pub folder: Seq<char>,
    pub pattern: Seq<char>,
    pub keep_old: bool,
}

impl View for Source {
    type V = SourceView;

    closed spec fn view(&self) -> SourceView {
        SourceView { folder: self.folder@, pattern: self.pattern@, keep_old: self.keep_old }
    }
}

/// What `Source::new` gives.
pub open spec fn source_of(folder: Seq<char>, pattern: Seq<char>, keep_old: bool) -> Result<
    SourceView,
    ConfigErrorView,
> {
    match regex_error(pattern) {
        Some(message) => Err(ConfigErrorView::InvalidSourcePattern(message)),
        None => Ok(SourceView { folder, pattern, keep_old }),
    }
}

/// The value of a source or of the error in its place.
pub open spec fn source_result(made: Result<Source, ConfigError>) -> Result<
    SourceView,
    ConfigErrorView,
> {
    match made {
        Ok(source) => Ok(source@),
        Err(e) => Err(e@),
    }
}

impl Source {
    /// The pattern of every source compiles.
    #[verifier::type_invariant]
    closed spec fn compiles(&self) -> bool {
        regex_error(self.pattern@).is_none()
    }

    /// A source, where `pattern` is a regular expression; the error of the
    /// compiler where it is none.
    pub fn new(folder: String, pattern: String, keep_old: bool) -> (made: Result<
        Source,
        ConfigError,
    >)
        ensures
            source_result(made) == source_of(folder@, pattern@, keep_old),
    {
        match pattern_fault(pattern.as_str()) {
            Some(message) => Err(ConfigError::InvalidSourcePattern(message)),
            None => Ok(Source { folder, pattern, keep_old }),
        }
    }

    /// The source that stands where the document names none, in `folder`.
    pub fn default_in(folder: String) -> (made: Result<Source, ConfigError>)
        ensures
            source_result(made) == source_of(folder@, default_source_pattern(), true),
    {
        Source::new(
            folder,
            r"^output_log_(?:\d{4}-\d{2}-\d{2}_)?\d{2}-\d{2}-\d{2}(?P<in_sec_num>\d+)?\.txt$".to_owned(),
            true,
        )
    }

    pub fn folder(&self) -> (folder: &String)
        ensures
            folder@ == self@.folder,
    {
        &self.folder
    }

    pub fn pattern(&self) -> (pattern: &String)
        ensures
            pattern@ == self@.pattern,
            regex_error(pattern@).is_none(),
    {
        proof {
            use_type_invariant(self);
        }
        &self.pattern
    }

    pub fn keep_old(&self) -> (keep_old: bool)
        ensures
            keep_old == self@.keep_old,
    {
        self.keep_old
    }

    /// Tests the name of a file against the pattern. On a match, gives the
    /// name with every named group of the pattern, a group that took no
    /// part in the match with the empty text.
    pub fn matches(&self, file_name: &str) -> (found: Option<MatchResult>)
        ensures
            found.is_some() == match_of(self@.pattern, file_name@).is_some(),
            found matches Some(hit) ==> hit.file_name@ == file_name@ && match_of(
                self@.pattern,
                file_name@,
            ) == Some(capture_views(hit.captures@)),
    {
        match_file_name(self.pattern.as_str(), file_name)
    }
}

/// The template by which logs are named where the document gives none:
/// `output_log_`, the date, `_`, the time, the capture `in_sec_num` and
/// `.txt`.
pub open spec fn default_pattern() -> Seq<ItemView> {
    seq![
        ItemView::Literal("output_log_"@),
        ItemView::CalendarField(FieldKind::Year, Pad::Zero),
        ItemView::Literal("-"@),
        ItemView::CalendarField(FieldKind::Month, Pad::Zero),
        ItemView::Literal("-"@),
        ItemView::CalendarField(FieldKind::Day, Pad::Zero),
        ItemView::Literal("_"@),
        ItemView::CalendarField(FieldKind::Hour, Pad::Zero),
        ItemView::Literal("-"@),
        ItemView::CalendarField(FieldKind::Minute, Pad::Zero),
        ItemView::Literal("-"@),
        ItemView::CalendarField(FieldKind::Second, Pad::Zero),
        ItemView::NamedPlaceholder("regex"@, "in_sec_num"@),
        ItemView::Literal(".txt"@),
    ]
}

/// An output pattern of earlier versions that stands for the default.
pub open spec fn traditional_default() -> Seq<char> {
    "output_log_%0Y-%0m-%0d_%0H-%0M-%0S.txt"@
}

/// A sequence of items of which each has a spelling has a format string.
pub proof fn lemma_spelled_items_have_text(items: Seq<ItemView>)
    requires
        forall|i: int| 0 <= i < items.len() ==> crate::template::item_text(
            #[trigger] items[i],
        ).is_ok(),
    ensures
        pattern_text(items).is_ok(),
    decreases items.len(),
{
    if items.len() > 0 {
        let front = items.drop_last();
        assert forall|i: int| 0 <= i < front.len() implies crate::template::item_text(
            #[trigger] front[i],
        ).is_ok() by {
            assert(front[i] == items[i]);
        }
        lemma_spelled_items_have_text(front);
        assert(items.last() == items[items.len() - 1]);
    }
}

/// The default template.
pub fn default_output_pattern() -> (items: Vec<TemplateItem>)
    ensures
        item_views(items@) == default_pattern(),
        pattern_text(default_pattern()).is_ok(),
{
    let mut items: Vec<TemplateItem> = Vec::new();
    items.push(TemplateItem::Literal("output_log_".to_owned()));
    items.push(TemplateItem::CalendarField(FieldKind::Year, Pad::Zero));
    items.push(TemplateItem::Literal("-".to_owned()));
    items.push(TemplateItem::CalendarField(FieldKind::Month, Pad::Zero));
    items.push(TemplateItem::Literal("-".to_owned()));
    items.push(TemplateItem::CalendarField(FieldKind::Day, Pad::Zero));
    items.push(TemplateItem::Literal("_".to_owned()));
    items.push(TemplateItem::CalendarField(FieldKind::Hour, Pad::Zero));
    items.push(TemplateItem::Literal("-".to_owned()));
    items.push(TemplateItem::CalendarField(FieldKind::Minute, Pad::Zero));
    items.push(TemplateItem::Literal("-".to_owned()));
    items.push(TemplateItem::CalendarField(FieldKind::Second, Pad::Zero));
    items.push(TemplateItem::NamedPlaceholder("regex".to_owned(), "in_sec_num".to_owned()));
    items.push(TemplateItem::Literal(".txt".to_owned()));
    assert(item_views(items@) =~= default_pattern());
    proof {
        lemma_spelled_items_have_text(default_pattern());
    }
    items
}

/// Where the logs go, how they are named there, and from which time.
#[derive(Debug)]
pub struct Output {
    folder: String,
    pattern: Vec<TemplateItem>,
    utc_time: bool,
    file_ctime: bool,
}

/// The mathematical value of an `Output`.
pub struct OutputView {
    pub folder: Seq<char>,
    pub pattern: Seq<ItemView>,
    pub utc_time: bool,
    pub file_ctime: bool,
}

impl View for Output {
    type V = OutputView;

    closed spec fn view(&self) -> OutputView {
        OutputView {
            folder: self.folder@,
            pattern: item_views(self.pattern@),
            utc_time: self.utc_time,
            file_ctime: self.file_ctime,
        }
    }
}

/// What `Output::new` gives.
pub open spec fn output_of(
    folder: Seq<char>,
    pattern: Seq<ItemView>,
    utc_time: bool,
    file_ctime: bool,
) -> Result<OutputView, ConfigErrorView> {
    match pattern_text(pattern) {
        Err(e) => Err(ConfigErrorView::IllegalTemplate(e)),
        Ok(_) => Ok(OutputView { folder, pattern, utc_time, file_ctime }),
    }
}

/// The value of an output or of the error in its place.
pub open spec fn output_result(made: Result<Output, ConfigError>) -> Result<
    OutputView,
    ConfigErrorView,
> {
    match made {
        Ok(output) => Ok(output@),
        Err(e) => Err(e@),
    }
}

impl Output {
    /// The pattern of every output has a format string.
    #[verifier::type_invariant]
    closed spec fn legal(&self) -> bool {
        pattern_text(item_views(self.pattern@)).is_ok()
    }

    /// An output, where the items of `pattern` have a format string; the
    /// error of the first item without a spelling where they have none.
    pub fn new(folder: String, pattern: Vec<TemplateItem>, utc_time: bool, file_ctime: bool) -> (made:
        Result<Output, ConfigError>)
        ensures
            output_result(made) == output_of(folder@, item_views(pattern@), utc_time, file_ctime),
    {
        match pattern_to_string(&pattern) {
            Err(e) => Err(ConfigError::IllegalTemplate(e)),
            Ok(_) => Ok(Output { folder, pattern, utc_time, file_ctime }),
        }
    }

    /// The output that stands where the document names none, in `folder`.
    pub fn default_in(folder: String) -> (made: Output)
        ensures
            made@ == (OutputView {
                folder: folder@,
                pattern: default_pattern(),
                utc_time: false,
                file_ctime: false,
            }),
    {
        Output { folder, pattern: default_output_pattern(), utc_time: false, file_ctime: false }
    }

    pub fn folder(&self) -> (folder: &String)
        ensures
            folder@ == self@.folder,
    {
        &self.folder
    }

    pub fn pattern(&self) -> (pattern: &Vec<TemplateItem>)
        ensures
            item_views(pattern@) == self@.pattern,
            pattern_text(self@.pattern).is_ok(),
    {
        proof {
            use_type_invariant(self);
        }
        &self.pattern
    }

    /// The format string of the pattern.
    pub fn pattern_as_string(&self) -> (text: String)
        ensures
            pattern_text(self@.pattern) == Ok::<Seq<char>, PatternError>(text@),
    {
        proof {
            use_type_invariant(self);
        }
        match pattern_to_string(&self.pattern) {
            Ok(text) => text,
            Err(_) => String::new(),
        }
    }

    /// Gives up the output for its pattern.
    pub fn into_pattern(self) -> (pattern: Vec<TemplateItem>)
        ensures
            item_views(pattern@) == self@.pattern,
            pattern_text(self@.pattern).is_ok(),
    {
        proof {
            use_type_invariant(&self);
        }
        self.pattern
    }

    pub fn utc_time(&self) -> (utc_time: bool)
        ensures
            utc_time == self@.utc_time,
    {
        self.utc_time
    }

    pub fn file_ctime(&self) -> (file_ctime: bool)
        ensures
            file_ctime == self@.file_ctime,
    {
        self.file_ctime
    }
}

} // verus!

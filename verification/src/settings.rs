//! Reading the configuration from its document and writing it back.

use crate::config::{
    default_pattern, default_source_pattern, output_result, source_of, source_result,
    traditional_default, ConfigError, ConfigErrorView, Folders, Output, OutputView, Source,
    SourceView,
};
use crate::document::{
    entry_views, find_flag, find_text, flag_at, is_shallow, read_document, setting_views,
    shallow, text_at,
    toml_document, toml_entries, write_document, Entry, EntryView, Setting, SettingValue,
    SettingValueView, SettingView,
};
use crate::parse::{parse_pattern, template_of};
use crate::roundtrip::read_templates_have_text;
use crate::template::{pattern_text, ItemView};
use crate::text::same_text;
use vstd::prelude::*;

verus! {

/// The source after the document is read over `current`: each of `folder`,
/// `pattern` and `keep_old` that the section `source` holds with the right
/// type replaces the value in `current`. A pattern that does not compile
/// refuses the document.
pub open spec fn read_source(entries: Seq<EntryView>, current: SourceView) -> Result<
    SourceView,
    ConfigErrorView,
> {
    let folder = match text_at(entries, "source"@, "folder"@) {
        Some(folder) => folder,
        None => current.folder,
    };
    let keep_old = match flag_at(entries, "source"@, "keep_old"@) {
        Some(keep_old) => keep_old,
        None => current.keep_old,
    };
    match text_at(entries, "source"@, "pattern"@) {
        Some(pattern) => source_of(folder, pattern, keep_old),
        None => Ok(SourceView { folder, pattern: current.pattern, keep_old }),
    }
}

/// The output after the document is read over `current`: each of `folder`,
/// `pattern`, `utc_time` and `file_ctime` that the section `output` holds
/// with the right type replaces the value in `current`. The pattern is read
/// as a template, and a pattern that is none refuses the document; the
/// default of earlier versions leaves the pattern of `current`.
pub open spec fn read_output(entries: Seq<EntryView>, current: OutputView) -> Result<
    OutputView,
    ConfigErrorView,
> {
    let folder = match text_at(entries, "output"@, "folder"@) {
        Some(folder) => folder,
        None => current.folder,
    };
    let utc_time = match flag_at(entries, "output"@, "utc_time"@) {
        Some(utc_time) => utc_time,
        None => current.utc_time,
    };
    let file_ctime = match flag_at(entries, "output"@, "file_ctime"@) {
        Some(file_ctime) => file_ctime,
        None => current.file_ctime,
    };
    match text_at(entries, "output"@, "pattern"@) {
        Some(text) => if text == traditional_default() {
            Ok(OutputView { folder, pattern: current.pattern, utc_time, file_ctime })
        } else {
            match template_of(text) {
                Some(pattern) => Ok(OutputView { folder, pattern, utc_time, file_ctime }),
                None => Err(ConfigErrorView::InvalidOutputPattern(text)),
            }
        },
        None => Ok(OutputView { folder, pattern: current.pattern, utc_time, file_ctime }),
    }
}

impl Source {
    /// Reads the section `source` of the document over this source.
    pub fn read_from_file(self, entries: &Vec<Entry>) -> (read: Result<Source, ConfigError>)
        ensures
            source_result(read) == read_source(entry_views(entries@), self@),
    {
        let folder = match find_text(entries, "source", "folder") {
            Some(folder) => folder,
            None => self.folder().clone(),
        };
        let keep_old = match find_flag(entries, "source", "keep_old") {
            Some(keep_old) => keep_old,
            None => self.keep_old(),
        };
        match find_text(entries, "source", "pattern") {
            Some(pattern) => Source::new(folder, pattern, keep_old),
            None => {
                let pattern = self.pattern().clone();
                Source::new(folder, pattern, keep_old)
            },
        }
    }
}

impl Output {
    /// Reads the section `output` of the document over this output.
    pub fn read_from_file(self, entries: &Vec<Entry>) -> (read: Result<Output, ConfigError>)
        ensures
            output_result(read) == read_output(entry_views(entries@), self@),
    {
        let folder = match find_text(entries, "output", "folder") {
            Some(folder) => folder,
            None => self.folder().clone(),
        };
        let utc_time = match find_flag(entries, "output", "utc_time") {
            Some(utc_time) => utc_time,
            None => self.utc_time(),
        };
        let file_ctime = match find_flag(entries, "output", "file_ctime") {
            Some(file_ctime) => file_ctime,
            None => self.file_ctime(),
        };
        let given = match find_text(entries, "output", "pattern") {
            Some(text) => if same_text(text.as_str(), "output_log_%0Y-%0m-%0d_%0H-%0M-%0S.txt") {
                None
            } else {
                Some(text)
            },
            None => None,
        };
        match given {
            Some(text) => match parse_pattern(text.as_str()) {
                Some(pattern) => {
                    proof {
                        read_templates_have_text(crate::calendar::strftime_items(text@));
                    }
                    Output::new(folder, pattern, utc_time, file_ctime)
                },
                None => Err(ConfigError::InvalidOutputPattern(text)),
            },
            None => {
                let pattern = self.into_pattern();
                Output::new(folder, pattern, utc_time, file_ctime)
            },
        }
    }
}

/// The whole configuration.
#[derive(Debug)]
pub struct ConfigFile {
    source: Source,
    output: Output,
}

/// The mathematical value of a `ConfigFile`.
pub struct ConfigView {
    pub source: SourceView,
    pub output: OutputView,
}

impl View for ConfigFile {
    type V = ConfigView;

    closed spec fn view(&self) -> ConfigView {
        ConfigView { source: self.source@, output: self.output@ }
    }
}

/// The value of a configuration or of the error in its place.
pub open spec fn config_result(made: Result<ConfigFile, ConfigError>) -> Result<
    ConfigView,
    ConfigErrorView,
> {
    match made {
        Ok(config) => Ok(config@),
        Err(e) => Err(e@),
    }
}

/// The configuration after the document is read over `current`: first the
/// section `source`, then the section `output`; the first error refuses the
/// document.
pub open spec fn read_sections(entries: Seq<EntryView>, current: ConfigView) -> Result<
    ConfigView,
    ConfigErrorView,
> {
    match read_source(entries, current.source) {
        Err(e) => Err(e),
        Ok(source) => match read_output(entries, current.output) {
            Err(e) => Err(e),
            Ok(output) => Ok(ConfigView { source, output }),
        },
    }
}

/// The configuration that stands where there is no document.
pub open spec fn default_config(source_folder: Seq<char>, output_folder: Seq<char>) -> Result<
    ConfigView,
    ConfigErrorView,
> {
    match source_of(source_folder, default_source_pattern(), true) {
        Err(e) => Err(e),
        Ok(source) => Ok(
            ConfigView {
                source,
                output: OutputView {
                    folder: output_folder,
                    pattern: default_pattern(),
                    utc_time: false,
                    file_ctime: false,
                },
            },
        ),
    }
}

/// The message for a document that opens too many levels.
pub open spec fn too_deep() -> Seq<char> {
    "the document nests too deeply"@
}

/// The configuration that a document gives: the default where no document
/// is there, else what the document holds read over the default. Text that
/// is no TOML refuses the document with the parser's message, and text that
/// opens more than `MAX_LEVELS` levels is refused before it is parsed.
pub open spec fn configuration_of(
    document: Option<Seq<char>>,
    source_folder: Seq<char>,
    output_folder: Seq<char>,
) -> Result<ConfigView, ConfigErrorView> {
    match default_config(source_folder, output_folder) {
        Err(e) => Err(e),
        Ok(defaults) => match document {
            None => Ok(defaults),
            Some(text) => if !shallow(text) {
                Err(ConfigErrorView::InvalidDocument(too_deep()))
            } else {
                match toml_entries(text) {
                    Err(message) => Err(ConfigErrorView::InvalidDocument(message)),
                    Ok(entries) => read_sections(entries, defaults),
                }
            },
        },
    }
}

impl ConfigFile {
    pub fn new(source: Source, output: Output) -> (config: ConfigFile)
        ensures
            config@ == (ConfigView { source: source@, output: output@ }),
    {
        ConfigFile { source, output }
    }

    pub fn source(&self) -> (source: &Source)
        ensures
            source@ == self@.source,
    {
        &self.source
    }

    pub fn output(&self) -> (output: &Output)
        ensures
            output@ == self@.output,
    {
        &self.output
    }

    /// The configuration that stands where there is no document, the logs
    /// in `folders.source` and the renamed logs in `folders.output`.
    pub fn default_in(folders: Folders) -> (made: Result<ConfigFile, ConfigError>)
        ensures
            config_result(made) == default_config(folders.source@, folders.output@),
    {
        let Folders { source, output } = folders;
        match Source::default_in(source) {
            Err(e) => Err(e),
            Ok(source) => Ok(ConfigFile { source, output: Output::default_in(output) }),
        }
    }

    /// Reads the document over this configuration.
    pub fn read_from_file(self, entries: &Vec<Entry>) -> (read: Result<ConfigFile, ConfigError>)
        ensures
            config_result(read) == read_sections(entry_views(entries@), self@),
    {
        let ConfigFile { source, output } = self;
        match source.read_from_file(entries) {
            Err(e) => Err(e),
            Ok(source) => match output.read_from_file(entries) {
                Err(e) => Err(e),
                Ok(output) => Ok(ConfigFile { source, output }),
            },
        }
    }
}

/// Reads the configuration from the text of its document; `None` stands for
/// a document that is not there. Keys that are missing fall back on the
/// defaults one by one, and keys that the configuration does not know are
/// passed over.
/// A document that opens more than `MAX_LEVELS` levels is refused as
/// invalid without being parsed.
pub fn read_config(document: Option<&str>, folders: Folders) -> (read: Result<
    ConfigFile,
    ConfigError,
>)
    ensures
        config_result(read) == configuration_of(
            match document {
                Some(text) => Some(text@),
                None => None,
            },
            folders.source@,
            folders.output@,
        ),
{
    let config = match ConfigFile::default_in(folders) {
        Err(e) => {
            return Err(e);
        },
        Ok(config) => config,
    };
    match document {
        None => Ok(config),
        Some(text) => {
            if !is_shallow(text) {
                return Err(
                    ConfigError::InvalidDocument("the document nests too deeply".to_owned()),
                );
            }
            match read_document(text) {
                Err(message) => Err(ConfigError::InvalidDocument(message)),
                Ok(entries) => config.read_from_file(&entries),
            }
        },
    }
}

/// A text to write under `section` and `key`.
pub open spec fn text_setting(section: Seq<char>, key: Seq<char>, text: Seq<char>) -> SettingView {
    SettingView { section, key, value: SettingValueView::Text(text) }
}

/// A flag to write under `section` and `key`.
pub open spec fn flag_setting(section: Seq<char>, key: Seq<char>, flag: bool) -> SettingView {
    SettingView { section, key, value: SettingValueView::Flag(flag) }
}

/// The setting alone where `written` holds, nothing where not.
pub open spec fn when(written: bool, setting: SettingView) -> Seq<SettingView> {
    if written {
        seq![setting]
    } else {
        Seq::empty()
    }
}

/// The format string of a pattern that has one.
pub open spec fn text_of(pattern: Seq<ItemView>) -> Seq<char> {
    pattern_text(pattern)->Ok_0
}

/// What is written of a configuration: each value that differs from its
/// default, the source before the output. A pattern differs where its
/// format string does.
pub open spec fn saved_settings(
    config: ConfigView,
    source_folder: Seq<char>,
    output_folder: Seq<char>,
) -> Seq<SettingView> {
    when(
        config.source.folder != source_folder,
        text_setting("source"@, "folder"@, config.source.folder),
    ) + when(
        config.source.pattern != default_source_pattern(),
        text_setting("source"@, "pattern"@, config.source.pattern),
    ) + when(!config.source.keep_old, flag_setting("source"@, "keep_old"@, false)) + when(
        config.output.folder != output_folder,
        text_setting("output"@, "folder"@, config.output.folder),
    ) + when(
        text_of(config.output.pattern) != text_of(default_pattern()),
        text_setting("output"@, "pattern"@, text_of(config.output.pattern)),
    ) + when(config.output.utc_time, flag_setting("output"@, "utc_time"@, true)) + when(
        config.output.file_ctime,
        flag_setting("output"@, "file_ctime"@, true),
    )
}

fn push_text(settings: &mut Vec<Setting>, written: bool, section: &str, key: &str, text: &String)
    ensures
        setting_views(final(settings)@) == setting_views(old(settings)@) + when(
            written,
            text_setting(section@, key@, text@),
        ),
{
    if written {
        settings.push(
            Setting {
                section: section.to_owned(),
                key: key.to_owned(),
                value: SettingValue::Text(text.clone()),
            },
        );
    }
    assert(setting_views(settings@) =~= setting_views(old(settings)@) + when(
        written,
        text_setting(section@, key@, text@),
    ));
}

fn push_flag(settings: &mut Vec<Setting>, written: bool, section: &str, key: &str, flag: bool)
    ensures
        setting_views(final(settings)@) == setting_views(old(settings)@) + when(
            written,
            flag_setting(section@, key@, flag),
        ),
{
    if written {
        settings.push(
            Setting {
                section: section.to_owned(),
                key: key.to_owned(),
                value: SettingValue::Flag(flag),
            },
        );
    }
    assert(setting_views(settings@) =~= setting_views(old(settings)@) + when(
        written,
        flag_setting(section@, key@, flag),
    ));
}

/// Lists what is to be written of a configuration: the values that differ
/// from their defaults.
pub fn settings_of(config: &ConfigFile, folders: &Folders) -> (settings: Vec<Setting>)
    ensures
        setting_views(settings@) == saved_settings(config@, folders.source@, folders.output@),
{
    let source = config.source();
    let output = config.output();
    let mut settings: Vec<Setting> = Vec::new();
    assert(setting_views(settings@) =~= Seq::<SettingView>::empty());
    push_text(
        &mut settings,
        !same_text(source.folder().as_str(), folders.source.as_str()),
        "source",
        "folder",
        source.folder(),
    );
    push_text(
        &mut settings,
        !same_text(
            source.pattern().as_str(),
            r"^output_log_(?:\d{4}-\d{2}-\d{2}_)?\d{2}-\d{2}-\d{2}(?P<in_sec_num>\d+)?\.txt$",
        ),
        "source",
        "pattern",
        source.pattern(),
    );
    push_flag(&mut settings, !source.keep_old(), "source", "keep_old", false);
    push_text(
        &mut settings,
        !same_text(output.folder().as_str(), folders.output.as_str()),
        "output",
        "folder",
        output.folder(),
    );
    let pattern = output.pattern_as_string();
    let usual = Output::default_in(String::new()).pattern_as_string();
    push_text(
        &mut settings,
        !same_text(pattern.as_str(), usual.as_str()),
        "output",
        "pattern",
        &pattern,
    );
    push_flag(&mut settings, output.utc_time(), "output", "utc_time", true);
    push_flag(&mut settings, output.file_ctime(), "output", "file_ctime", true);
    assert(setting_views(settings@) =~= saved_settings(
        config@,
        folders.source@,
        folders.output@,
    ));
    settings
}

/// The document that a configuration is saved as, or why it could not be
/// written.
pub open spec fn saved_document(
    config: ConfigView,
    source_folder: Seq<char>,
    output_folder: Seq<char>,
) -> Result<Seq<char>, ConfigErrorView> {
    match toml_document(saved_settings(config, source_folder, output_folder)) {
        Ok(text) => Ok(text),
        Err(message) => Err(ConfigErrorView::Unwritable(message)),
    }
}

/// The value of a document or of the error in its place.
pub open spec fn document_result(written: Result<String, ConfigError>) -> Result<
    Seq<char>,
    ConfigErrorView,
> {
    match written {
        Ok(text) => Ok(text@),
        Err(e) => Err(e@),
    }
}

/// Writes the document of a configuration: a TOML text that holds the
/// values that differ from their defaults, and no others.
pub fn save_config(config: &ConfigFile, folders: &Folders) -> (written: Result<
    String,
    ConfigError,
>)
    ensures
        document_result(written) == saved_document(config@, folders.source@, folders.output@),
{
    let settings = settings_of(config, folders);
    match write_document(&settings) {
        Ok(text) => Ok(text),
        Err(message) => Err(ConfigError::Unwritable(message)),
    }
}

} // verus!

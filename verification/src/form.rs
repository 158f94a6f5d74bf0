//! The values of the configuration form, and the configuration they make.

use crate::config::{Output, OutputView, Source};
use crate::i18n::Message;
use crate::matcher::regex_error;
use crate::parse::{parse_pattern, template_of};
use crate::roundtrip::read_templates_have_text;
use crate::settings::{ConfigFile, ConfigView};
use crate::template::pattern_text;
use vstd::prelude::*;

verus! {

/// What the user has entered in the form.
#[derive(Debug, PartialEq, Eq)]
pub struct GUIInputs {
    pub source_folder: String,
    pub source_pattern: String,
    pub source_keep_original: bool,
    pub output_folder: String,
    pub output_pattern: String,
    pub output_use_utc: bool,
}

/// The mathematical value of a `GUIInputs`.
pub struct InputsView {
    pub source_folder: Seq<char>,
    pub source_pattern: Seq<char>,
    pub source_keep_original: bool,
    pub output_folder: Seq<char>,
    pub output_pattern: Seq<char>,
    pub output_use_utc: bool,
}

impl View for GUIInputs {
    type V = InputsView;

    open spec fn view(&self) -> InputsView {
        InputsView {
            source_folder: self.source_folder@,
            source_pattern: self.source_pattern@,
            source_keep_original: self.source_keep_original,
            output_folder: self.output_folder@,
            output_pattern: self.output_pattern@,
            output_use_utc: self.output_use_utc,
        }
    }
}

/// The configuration that the entries of the form make, or the message
/// that tells which of them is refused: the source pattern where it is no
/// regular expression, else the output pattern where it is no template.
/// The form has no entry for the time of creation, which stays unused.
pub open spec fn config_of_inputs(inputs: InputsView) -> Result<ConfigView, Message> {
    if regex_error(inputs.source_pattern).is_some() {
        Err(Message::InvalidSourcePatternText)
    } else {
        match template_of(inputs.output_pattern) {
            None => Err(Message::InvalidOutputPatternText),
            Some(pattern) => Ok(
                ConfigView {
                    source: crate::config::SourceView {
                        folder: inputs.source_folder,
                        pattern: inputs.source_pattern,
                        keep_old: inputs.source_keep_original,
                    },
                    output: OutputView {
                        folder: inputs.output_folder,
                        pattern,
                        utc_time: inputs.output_use_utc,
                        file_ctime: false,
                    },
                },
            ),
        }
    }
}

/// The value of a configuration or of the message in its place.
pub open spec fn inputs_result(made: Result<ConfigFile, Message>) -> Result<ConfigView, Message> {
    match made {
        Ok(config) => Ok(config@),
        Err(message) => Err(message),
    }
}

impl GUIInputs {
    /// The entries that show a configuration.
    pub fn load_values_from_config(config: &ConfigFile) -> (inputs: GUIInputs)
        ensures
            inputs@.source_folder == config@.source.folder,
            inputs@.source_pattern == config@.source.pattern,
            inputs@.source_keep_original == config@.source.keep_old,
            inputs@.output_folder == config@.output.folder,
            pattern_text(config@.output.pattern) == Ok::<
                Seq<char>,
                crate::template::PatternError,
            >(inputs@.output_pattern),
            inputs@.output_use_utc == config@.output.utc_time,
    {
        GUIInputs {
            source_folder: config.source().folder().clone(),
            source_pattern: config.source().pattern().clone(),
            source_keep_original: config.source().keep_old(),
            output_folder: config.output().folder().clone(),
            output_pattern: config.output().pattern_as_string(),
            output_use_utc: config.output().utc_time(),
        }
    }

    /// The configuration that the entries make, or the message that tells
    /// which pattern is refused.
    pub fn create_config(&self) -> (made: Result<ConfigFile, Message>)
        ensures
            inputs_result(made) == config_of_inputs(self@),
    {
        let source = match Source::new(
            self.source_folder.clone(),
            self.source_pattern.clone(),
            self.source_keep_original,
        ) {
            Ok(source) => source,
            Err(_) => {
                return Err(Message::InvalidSourcePatternText);
            },
        };
        let pattern = match parse_pattern(self.output_pattern.as_str()) {
            Some(pattern) => pattern,
            None => {
                return Err(Message::InvalidOutputPatternText);
            },
        };
        proof {
            read_templates_have_text(crate::calendar::strftime_items(self.output_pattern@));
        }
        match Output::new(self.output_folder.clone(), pattern, self.output_use_utc, false) {
            Ok(output) => Ok(ConfigFile::new(source, output)),
            Err(_) => Err(Message::InvalidOutputPatternText),
        }
    }
}

} // verus!

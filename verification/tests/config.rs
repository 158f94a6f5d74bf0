use vrc_log_renamer::config::{ConfigError, Folders, Output, Source};
use vrc_log_renamer::document::{is_shallow, Setting, SettingValue, MAX_LEVELS};
use vrc_log_renamer::field::{FieldKind, Pad};
use vrc_log_renamer::parse::parse_pattern;
use vrc_log_renamer::settings::{read_config, save_config, settings_of, ConfigFile};
use vrc_log_renamer::template::{PatternError, TemplateItem};

const SOURCE_PATTERN: &str =
    r"^output_log_(?:\d{4}-\d{2}-\d{2}_)?\d{2}-\d{2}-\d{2}(?P<in_sec_num>\d+)?\.txt$";
const OUTPUT_PATTERN: &str = "output_log_%0Y-%0m-%0d_%0H-%0M-%0S{regex:in_sec_num}.txt";

fn folders() -> Folders {
    Folders { source: "C:\\VRChat".to_string(), output: "C:\\VRChat\\logs".to_string() }
}

#[test]
fn a_missing_document_gives_the_defaults() {
    let config = read_config(None, folders()).unwrap();
    assert_eq!(config.source().folder(), "C:\\VRChat");
    assert_eq!(config.source().pattern(), SOURCE_PATTERN);
    assert!(config.source().keep_old());
    assert_eq!(config.output().folder(), "C:\\VRChat\\logs");
    assert_eq!(config.output().pattern_as_string(), OUTPUT_PATTERN);
    assert_eq!(
        config.output().pattern(),
        &parse_pattern("output_log_%Y-%m-%d_%H-%M-%S{regex:in_sec_num}.txt").unwrap()
    );
    assert!(!config.output().utc_time());
    assert!(!config.output().file_ctime());
}

#[test]
fn an_empty_document_gives_the_defaults() {
    let config = read_config(Some(""), folders()).unwrap();
    assert_eq!(config.source().pattern(), SOURCE_PATTERN);
    assert_eq!(config.output().pattern_as_string(), OUTPUT_PATTERN);
    assert_eq!(settings_of(&config, &folders()), vec![]);
}

#[test]
fn keys_replace_the_defaults_one_by_one() {
    let text = r#"
[source]
folder = "D:\\in"
keep_old = false

[output]
pattern = "%Y_{regex:n}"
file_ctime = true
"#;
    let config = read_config(Some(text), folders()).unwrap();
    assert_eq!(config.source().folder(), "D:\\in");
    assert_eq!(config.source().pattern(), SOURCE_PATTERN);
    assert!(!config.source().keep_old());
    assert_eq!(config.output().folder(), "C:\\VRChat\\logs");
    assert_eq!(config.output().pattern_as_string(), "%0Y_{regex:n}");
    assert!(!config.output().utc_time());
    assert!(config.output().file_ctime());
}

#[test]
fn unknown_keys_and_wrong_types_are_passed_over() {
    let text = r#"
top = 1
[source]
folder = 3
pattern = true
keep_old = "no"
extra = "x"
[output]
folder = ["a"]
utc_time = 1
[other]
folder = "nowhere"
"#;
    let config = read_config(Some(text), folders()).unwrap();
    assert_eq!(config.source().folder(), "C:\\VRChat");
    assert_eq!(config.source().pattern(), SOURCE_PATTERN);
    assert!(config.source().keep_old());
    assert_eq!(config.output().folder(), "C:\\VRChat\\logs");
    assert!(!config.output().utc_time());
}

#[test]
fn a_source_pattern_that_does_not_compile_is_refused() {
    let text = "[source]\npattern = \"(\"\n[output]\npattern = \"%Q\"\n";
    match read_config(Some(text), folders()) {
        Err(ConfigError::InvalidSourcePattern(message)) => assert!(message.contains("unclosed")),
        other => panic!("{:?}", other),
    }
    match Source::new("f".to_string(), "a{2,1}".to_string(), true) {
        Err(ConfigError::InvalidSourcePattern(_)) => {}
        other => panic!("{:?}", other),
    }
}

#[test]
fn an_output_pattern_that_is_no_template_is_refused() {
    let text = "[output]\npattern = \"log_%Q\"\n";
    assert_eq!(
        read_config(Some(text), folders()).err(),
        Some(ConfigError::InvalidOutputPattern("log_%Q".to_string()))
    );
    assert_eq!(
        read_config(Some("[output]\npattern = \"%#z\"\n"), folders()).err(),
        Some(ConfigError::InvalidOutputPattern("%#z".to_string()))
    );
}

#[test]
fn the_default_of_earlier_versions_stands_for_the_default() {
    let text = "[output]\npattern = \"output_log_%0Y-%0m-%0d_%0H-%0M-%0S.txt\"\nutc_time = true\n";
    let config = read_config(Some(text), folders()).unwrap();
    assert_eq!(config.output().pattern_as_string(), OUTPUT_PATTERN);
    assert!(config.output().utc_time());
}

#[test]
fn a_template_with_the_plain_offset_is_read_back() {
    let source = Source::default_in("C:\\VRChat".to_string()).unwrap();
    let pattern = vec![
        TemplateItem::Literal("log".to_string()),
        TemplateItem::CalendarField(FieldKind::TimezoneOffset, Pad::Unpadded),
    ];
    let output = Output::new("C:\\VRChat\\logs".to_string(), pattern, true, false).unwrap();
    let config = ConfigFile::new(source, output);
    let written = save_config(&config, &folders()).unwrap();
    assert_eq!(written, "[output]\npattern = \"log%z\"\nutc_time = true\n");
    let read = read_config(Some(&written), folders()).unwrap();
    assert_eq!(read.output().pattern(), config.output().pattern());
    assert!(read.output().utc_time());
}

#[test]
fn a_document_that_nests_too_deeply_is_refused_unparsed() {
    let deep = format!("a = {}", "[".repeat(100_000));
    assert_eq!(
        read_config(Some(&deep), folders()).err(),
        Some(ConfigError::InvalidDocument("the document nests too deeply".to_string()))
    );
    let dotted = format!("[{}a]\n", "a.".repeat(129));
    assert_eq!(
        read_config(Some(&dotted), folders()).err(),
        Some(ConfigError::InvalidDocument("the document nests too deeply".to_string()))
    );
    assert_eq!(MAX_LEVELS, 128);
    assert!(is_shallow(&"[".repeat(128)));
    assert!(!is_shallow(&"[".repeat(129)));
    assert!(is_shallow(""));
    assert!(is_shallow(&format!("{}{}{}", "[".repeat(40), "{".repeat(40), ".".repeat(48))));
    assert!(!is_shallow(&format!("{}{}{}x", "[".repeat(40), "{".repeat(40), ".".repeat(49))));
}

#[test]
fn a_document_within_the_bound_is_parsed() {
    let nested = format!("a = {}{}\n[source]\nkeep_old = false\n", "[".repeat(100), "]".repeat(100));
    let config = read_config(Some(&nested), folders()).unwrap();
    assert!(!config.source().keep_old());
    let unclosed = format!("a = {}", "[".repeat(128));
    match read_config(Some(&unclosed), folders()) {
        Err(ConfigError::InvalidDocument(message)) => {
            assert_ne!(message, "the document nests too deeply")
        }
        other => panic!("{:?}", other),
    }
}

#[test]
fn text_that_is_no_toml_is_refused() {
    match read_config(Some("[source\nfolder = "), folders()) {
        Err(ConfigError::InvalidDocument(message)) => assert!(!message.is_empty()),
        other => panic!("{:?}", other),
    }
}

#[test]
fn an_output_needs_items_with_a_format_string() {
    assert_eq!(
        Output::new("f".to_string(), vec![TemplateItem::Invalid], false, false).err(),
        Some(ConfigError::IllegalTemplate(PatternError::FormatError))
    );
    assert_eq!(
        Output::new(
            "f".to_string(),
            vec![TemplateItem::CalendarField(FieldKind::TimezoneOffsetZ, Pad::Unpadded)],
            false,
            false
        )
        .err(),
        Some(ConfigError::IllegalTemplate(PatternError::InternalFormat))
    );
    let output = Output::new("f".to_string(), vec![], true, true).unwrap();
    assert_eq!(output.pattern_as_string(), "");
    assert!(output.utc_time() && output.file_ctime());
    assert_eq!(output.folder(), "f");
    assert_eq!(output.into_pattern(), vec![]);
}

#[test]
fn values_at_their_defaults_are_not_written() {
    let config = read_config(None, folders()).unwrap();
    assert_eq!(settings_of(&config, &folders()), vec![]);
    assert_eq!(save_config(&config, &folders()).unwrap(), "");
}

fn text(section: &str, key: &str, value: &str) -> Setting {
    Setting {
        section: section.to_string(),
        key: key.to_string(),
        value: SettingValue::Text(value.to_string()),
    }
}

fn flag(section: &str, key: &str, value: bool) -> Setting {
    Setting { section: section.to_string(), key: key.to_string(), value: SettingValue::Flag(value) }
}

#[test]
fn values_that_differ_are_written() {
    let source = Source::new("in".to_string(), "^a(?P<n>b)?$".to_string(), false).unwrap();
    let output =
        Output::new("out".to_string(), parse_pattern("%Y{regex:n}").unwrap(), true, true).unwrap();
    let config = ConfigFile::new(source, output);
    assert_eq!(
        settings_of(&config, &folders()),
        vec![
            text("source", "folder", "in"),
            text("source", "pattern", "^a(?P<n>b)?$"),
            flag("source", "keep_old", false),
            text("output", "folder", "out"),
            text("output", "pattern", "%0Y{regex:n}"),
            flag("output", "utc_time", true),
            flag("output", "file_ctime", true),
        ]
    );
    let written = save_config(&config, &folders()).unwrap();
    let read = read_config(Some(&written), folders()).unwrap();
    assert_eq!(read.source().folder(), "in");
    assert_eq!(read.source().pattern(), "^a(?P<n>b)?$");
    assert!(!read.source().keep_old());
    assert_eq!(read.output().folder(), "out");
    assert_eq!(read.output().pattern(), config.output().pattern());
    assert!(read.output().utc_time());
    assert!(read.output().file_ctime());
}

#[test]
fn a_single_value_is_written_under_its_section() {
    let source = Source::default_in("C:\\VRChat".to_string()).unwrap();
    let output = Output::default_in("elsewhere".to_string());
    let config = ConfigFile::new(source, output);
    assert_eq!(settings_of(&config, &folders()), vec![text("output", "folder", "elsewhere")]);
    assert_eq!(save_config(&config, &folders()).unwrap(), "[output]\nfolder = \"elsewhere\"\n");
}

use vrc_log_renamer::config::Folders;
use vrc_log_renamer::form::GUIInputs;
use vrc_log_renamer::i18n::Message;
use vrc_log_renamer::pass::rename_main;
use vrc_log_renamer::settings::read_config;
use vrc_log_renamer::text::{chars_of, find_char, same_chars, same_text, string_of};

fn inputs(source_pattern: &str, output_pattern: &str) -> GUIInputs {
    GUIInputs {
        source_folder: "in".to_string(),
        source_pattern: source_pattern.to_string(),
        source_keep_original: false,
        output_folder: "out".to_string(),
        output_pattern: output_pattern.to_string(),
        output_use_utc: true,
    }
}

#[test]
fn the_form_makes_a_configuration() {
    let config = inputs("^a$", "%Y.txt").create_config().unwrap();
    assert_eq!(config.source().folder(), "in");
    assert_eq!(config.source().pattern(), "^a$");
    assert!(!config.source().keep_old());
    assert_eq!(config.output().folder(), "out");
    assert_eq!(config.output().pattern_as_string(), "%0Y.txt");
    assert!(config.output().utc_time());
    assert!(!config.output().file_ctime());
}

#[test]
fn the_form_tells_which_pattern_is_refused() {
    assert_eq!(inputs("(", "%Y").create_config().err(), Some(Message::InvalidSourcePatternText));
    assert_eq!(inputs("a", "%Q").create_config().err(), Some(Message::InvalidOutputPatternText));
    assert_eq!(inputs("(", "%Q").create_config().err(), Some(Message::InvalidSourcePatternText));
}

#[test]
fn the_form_shows_a_configuration() {
    let folders = Folders { source: "s".to_string(), output: "o".to_string() };
    let config = read_config(None, folders).unwrap();
    let shown = GUIInputs::load_values_from_config(&config);
    assert_eq!(shown.source_folder, "s");
    assert_eq!(shown.output_folder, "o");
    assert!(shown.source_keep_original);
    assert!(!shown.output_use_utc);
    assert_eq!(
        shown.output_pattern,
        "output_log_%0Y-%0m-%0d_%0H-%0M-%0S{regex:in_sec_num}.txt"
    );
    let again = shown.create_config().unwrap();
    assert_eq!(again.output().pattern(), config.output().pattern());
    assert_eq!(again.source().pattern(), config.source().pattern());
}

#[test]
fn a_pass_takes_the_files_that_match_in_their_order() {
    let folders = Folders { source: "s".to_string(), output: "o".to_string() };
    let config = read_config(None, folders).unwrap();
    let names: Vec<String> = [
        "output_log_21-00-00.txt",
        "notes.txt",
        "output_log_2022-10-14_20-15-30.txt",
        "output_log_20-15-301.txt",
        "output_log.txt",
    ]
    .iter()
    .map(|name| name.to_string())
    .collect();
    let hits = rename_main(&config, &names);
    let found: Vec<(&str, &str)> = hits
        .iter()
        .map(|hit| (hit.file_name.as_str(), hit.captures[0].value.as_str()))
        .collect();
    assert_eq!(
        found,
        vec![
            ("output_log_21-00-00.txt", ""),
            ("output_log_2022-10-14_20-15-30.txt", ""),
            ("output_log_20-15-301.txt", "1"),
        ]
    );
    assert!(rename_main(&config, &vec![]).is_empty());
}

#[test]
fn text_helpers() {
    assert_eq!(chars_of("aé日"), vec!['a', 'é', '日']);
    assert_eq!(string_of(&vec!['a', 'é', '日']), "aé日");
    assert!(same_text("abc", "abc"));
    assert!(!same_text("abc", "abd"));
    assert!(!same_text("abc", "ab"));
    assert!(same_chars(&vec![], &vec![]));
    let chars = chars_of("a{b}{c");
    assert_eq!(find_char(&chars, 0, '{'), Some(1));
    assert_eq!(find_char(&chars, 2, '{'), Some(4));
    assert_eq!(find_char(&chars, 5, '{'), None);
    assert_eq!(find_char(&chars, 9, '{'), None);
}

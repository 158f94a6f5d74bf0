use vrc_log_renamer::config::Source;
use vrc_log_renamer::matcher::{captures_of, match_file_name, Capture, Group, MatchResult};

fn capture(name: &str, value: &str) -> Capture {
    Capture { name: name.to_string(), value: value.to_string() }
}

#[test]
fn a_group_that_took_part_gives_its_text() {
    let hit = match_file_name(r"^output_log_(?P<in_sec_num>\d+)?\.txt$", "output_log_5.txt");
    assert_eq!(
        hit,
        Some(MatchResult {
            file_name: "output_log_5.txt".to_string(),
            captures: vec![capture("in_sec_num", "5")],
        })
    );
}

#[test]
fn a_group_that_took_no_part_is_empty_not_absent() {
    let hit = match_file_name(r"^output_log_(?P<in_sec_num>\d+)?\.txt$", "output_log_.txt");
    assert_eq!(
        hit,
        Some(MatchResult {
            file_name: "output_log_.txt".to_string(),
            captures: vec![capture("in_sec_num", "")],
        })
    );
    let hit = match_file_name(r"^output_log(?:_(?P<in_sec_num>\d+))?\.txt$", "output_log.txt");
    assert_eq!(hit.unwrap().captures, vec![capture("in_sec_num", "")]);
}

#[test]
fn names_that_do_not_match_are_passed_over() {
    assert_eq!(match_file_name(r"^output_log_(?P<in_sec_num>\d+)?\.txt$", "output_log.txt"), None);
    assert_eq!(match_file_name(r"^a$", "b"), None);
    assert_eq!(match_file_name(r"(", "("), None);
}

#[test]
fn unnamed_groups_give_no_capture() {
    let hit = match_file_name(r"^(\d+)-(?P<b>\w+)-(?P<c>x)?$", "12-ab-").unwrap();
    assert_eq!(hit.captures, vec![capture("b", "ab"), capture("c", "")]);
}

#[test]
fn the_default_pattern_matches_the_names_of_the_logs() {
    let source = Source::default_in("logs".to_string()).unwrap();
    assert!(source.keep_old());
    assert_eq!(source.folder(), "logs");
    let hit = source.matches("output_log_20-15-30.txt").unwrap();
    assert_eq!(hit.captures, vec![capture("in_sec_num", "")]);
    let hit = source.matches("output_log_2022-10-14_20-15-302.txt").unwrap();
    assert_eq!(hit.captures, vec![capture("in_sec_num", "2")]);
    assert!(source.matches("output_log.txt").is_none());
    assert!(source.matches("x_output_log_20-15-30.txt").is_none());
}

#[test]
fn captures_are_the_named_groups() {
    let groups = vec![
        Group { name: None, text: Some("whole".to_string()) },
        Group { name: Some("a".to_string()), text: None },
        Group { name: None, text: None },
        Group { name: Some("b".to_string()), text: Some("B".to_string()) },
    ];
    assert_eq!(captures_of(&groups), vec![capture("a", ""), capture("b", "B")]);
    assert_eq!(captures_of(&vec![]), vec![]);
}

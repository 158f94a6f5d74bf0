use vrc_log_renamer::calendar::CivilDateTime;
use vrc_log_renamer::config::{Folders, Output, Source};
use vrc_log_renamer::matcher::Capture;
use vrc_log_renamer::parse::parse_pattern;
use vrc_log_renamer::relocate::{
    begin, move_file, move_log_file, Action, Event, Failure, IoStage, Outcome, Phase, State, Step,
    CROSSES_DEVICES_OS_CODE,
};
use vrc_log_renamer::render::RenderError;
use vrc_log_renamer::settings::ConfigFile;
use vrc_log_renamer::timestamp::TimestampError;

fn config(keep_old: bool, utc_time: bool, file_ctime: bool) -> ConfigFile {
    let source = Source::new(
        "in".to_string(),
        r"^output_log_(?P<in_sec_num>\d+)?\.txt$".to_string(),
        keep_old,
    )
    .unwrap();
    let pattern = parse_pattern("log_%Y-%m-%d_%H-%M-%S{regex:in_sec_num}.txt").unwrap();
    let output = Output::new("out".to_string(), pattern, utc_time, file_ctime).unwrap();
    ConfigFile::new(source, output)
}

fn captures() -> Vec<Capture> {
    vec![Capture { name: "in_sec_num".to_string(), value: "5".to_string() }]
}

fn drive(config: &ConfigFile, events: &[Event]) -> (Vec<Action>, Step) {
    let mut step = begin();
    let mut actions = vec![step.action];
    for event in events {
        step = move_log_file(config, &captures(), step.state, event);
        actions.push(step.action);
    }
    (actions, step)
}

fn prefix() -> Event {
    Event::Prefix(b"2022.10.14 20:15:30".to_vec())
}

#[test]
fn copies_and_keeps_the_times() {
    let config = config(true, false, false);
    let (actions, last) = drive(
        &config,
        &[Event::Done, prefix(), Event::Done, Event::Exists(false), Event::Done, Event::Done],
    );
    assert_eq!(
        actions,
        vec![
            Action::OpenExclusive,
            Action::ReadPrefix,
            Action::EnsureFolder,
            Action::ProbeDestination,
            Action::Copy,
            Action::PropagateTimes,
            Action::Finish,
        ]
    );
    assert_eq!(last.state.phase, Phase::Finished(Outcome::Copied { times_kept: true }));
    assert_eq!(last.state.name, "log_2022-10-14_20-15-305.txt");
}

#[test]
fn times_that_cannot_be_set_do_not_fail_the_copy() {
    let config = config(true, false, false);
    let (_, last) = drive(
        &config,
        &[
            Event::Done,
            prefix(),
            Event::Done,
            Event::Exists(false),
            Event::Done,
            Event::Failed(Some(5)),
        ],
    );
    assert_eq!(last.action, Action::Finish);
    assert_eq!(last.state.phase, Phase::Finished(Outcome::Copied { times_kept: false }));
}

#[test]
fn moves_by_renaming() {
    let config = config(false, false, false);
    let (actions, last) =
        drive(&config, &[Event::Done, prefix(), Event::Done, Event::Exists(false), Event::Done]);
    assert_eq!(
        actions,
        vec![
            Action::OpenExclusive,
            Action::ReadPrefix,
            Action::EnsureFolder,
            Action::ProbeDestination,
            Action::Rename,
            Action::Finish,
        ]
    );
    assert_eq!(last.state.phase, Phase::Finished(Outcome::Moved));
}

#[test]
fn a_second_pass_does_nothing() {
    for keep_old in [true, false] {
        let config = config(keep_old, false, false);
        let (actions, last) =
            drive(&config, &[Event::Done, prefix(), Event::Done, Event::Exists(true)]);
        assert_eq!(
            actions,
            vec![
                Action::OpenExclusive,
                Action::ReadPrefix,
                Action::EnsureFolder,
                Action::ProbeDestination,
                Action::Finish,
            ]
        );
        assert_eq!(last.state.phase, Phase::Finished(Outcome::AlreadyDone));
        assert_eq!(last.state.name, "log_2022-10-14_20-15-305.txt");
    }
}

#[test]
fn a_move_across_volumes_copies_then_removes() {
    let config = config(false, false, false);
    let (actions, last) = drive(
        &config,
        &[
            Event::Done,
            prefix(),
            Event::Done,
            Event::Exists(false),
            Event::Failed(Some(CROSSES_DEVICES_OS_CODE)),
            Event::Done,
            Event::Done,
        ],
    );
    assert_eq!(
        actions,
        vec![
            Action::OpenExclusive,
            Action::ReadPrefix,
            Action::EnsureFolder,
            Action::ProbeDestination,
            Action::Rename,
            Action::CopyFresh,
            Action::RemoveSource,
            Action::Finish,
        ]
    );
    assert_eq!(last.state.phase, Phase::Finished(Outcome::Moved));
}

#[test]
fn a_failed_fallback_copy_leaves_the_source() {
    let config = config(false, false, false);
    let (actions, last) = drive(
        &config,
        &[
            Event::Done,
            prefix(),
            Event::Done,
            Event::Exists(false),
            Event::Failed(Some(17)),
            Event::Failed(Some(112)),
        ],
    );
    assert!(!actions.contains(&Action::RemoveSource));
    assert_eq!(last.action, Action::Finish);
    assert_eq!(last.state.phase, Phase::Finished(Outcome::Failed(Failure::Io(IoStage::Copy))));
}

#[test]
fn another_rename_failure_is_reported() {
    let config = config(false, false, false);
    for code in [None, Some(5), Some(18)] {
        let (actions, last) = drive(
            &config,
            &[Event::Done, prefix(), Event::Done, Event::Exists(false), Event::Failed(code)],
        );
        assert!(!actions.contains(&Action::CopyFresh));
        assert_eq!(
            last.state.phase,
            Phase::Finished(Outcome::Failed(Failure::Io(IoStage::Rename)))
        );
    }
}

#[test]
fn a_file_held_open_is_skipped() {
    let config = config(true, false, false);
    let (actions, last) = drive(&config, &[Event::Failed(Some(32))]);
    assert_eq!(actions, vec![Action::OpenExclusive, Action::Finish]);
    assert_eq!(last.state.phase, Phase::Finished(Outcome::Skipped));
    let (actions, last) = drive(&config, &[Event::Failed(None), Event::Done, Event::Exists(false)]);
    assert_eq!(actions, vec![Action::OpenExclusive, Action::Finish, Action::Finish, Action::Finish]);
    assert_eq!(last.state.phase, Phase::Finished(Outcome::Skipped));
}

#[test]
fn a_malformed_timestamp_fails_the_file() {
    let config = config(true, false, false);
    let (_, last) = drive(&config, &[Event::Done, Event::Prefix(b"not a timestamp at.".to_vec())]);
    assert_eq!(
        last.state.phase,
        Phase::Finished(Outcome::Failed(Failure::Timestamp(TimestampError::InvalidLog)))
    );
    let (_, last) = drive(&config, &[Event::Done, Event::Prefix(b"short".to_vec())]);
    assert_eq!(
        last.state.phase,
        Phase::Finished(Outcome::Failed(Failure::Timestamp(TimestampError::WrongLength)))
    );
    let (_, last) = drive(&config, &[Event::Done, Event::Failed(None)]);
    assert_eq!(last.state.phase, Phase::Finished(Outcome::Failed(Failure::Io(IoStage::Read))));
}

#[test]
fn the_creation_time_is_used_when_asked_for() {
    let local = CivilDateTime {
        year: 2022,
        month: 10,
        day: 15,
        hour: 5,
        minute: 15,
        second: 30,
        nanosecond: 0,
    };
    let utc = CivilDateTime { day: 14, hour: 20, ..local };
    let config_local = config(true, false, true);
    let (actions, last) = drive(
        &config_local,
        &[Event::Done, Event::CreationTime(local, utc), Event::Done],
    );
    assert_eq!(
        actions,
        vec![
            Action::OpenExclusive,
            Action::ReadCreationTime,
            Action::EnsureFolder,
            Action::ProbeDestination,
        ]
    );
    assert_eq!(last.state.name, "log_2022-10-15_05-15-305.txt");
    let config_utc = config(true, true, true);
    let (_, last) = drive(&config_utc, &[Event::Done, Event::CreationTime(local, utc), Event::Done]);
    assert_eq!(last.state.name, "log_2022-10-14_20-15-305.txt");
    let (_, last) = drive(&config_utc, &[Event::Done, prefix()]);
    assert_eq!(last.state.phase, Phase::Finished(Outcome::Failed(Failure::Unexpected)));
    let (_, last) = drive(&config(true, false, false), &[Event::Done, Event::CreationTime(local, utc)]);
    assert_eq!(last.state.phase, Phase::Finished(Outcome::Failed(Failure::Unexpected)));
}

#[test]
fn a_name_that_cannot_be_rendered_fails_the_file() {
    let source = Source::new("in".to_string(), "x".to_string(), true).unwrap();
    let output =
        Output::new("out".to_string(), parse_pattern("%Z").unwrap(), false, false).unwrap();
    let config = ConfigFile::new(source, output);
    let (actions, last) = drive(&config, &[Event::Done, prefix(), Event::Done]);
    assert_eq!(
        last.state.phase,
        Phase::Finished(Outcome::Failed(Failure::Render(RenderError::Unformattable)))
    );
    assert!(!actions.contains(&Action::ProbeDestination));
}

#[test]
fn failures_of_the_file_system_end_the_file() {
    let config = config(true, false, false);
    let (_, last) = drive(&config, &[Event::Done, prefix(), Event::Failed(None)]);
    assert_eq!(last.state.phase, Phase::Finished(Outcome::Failed(Failure::Io(IoStage::Folder))));
    let (_, last) = drive(&config, &[Event::Done, prefix(), Event::Done, Event::Failed(None)]);
    assert_eq!(last.state.phase, Phase::Finished(Outcome::Failed(Failure::Io(IoStage::Probe))));
    let (_, last) = drive(
        &config,
        &[Event::Done, prefix(), Event::Done, Event::Exists(false), Event::Failed(None)],
    );
    assert_eq!(last.state.phase, Phase::Finished(Outcome::Failed(Failure::Io(IoStage::Copy))));
    let (_, last) = drive(&config, &[Event::Exists(true)]);
    assert_eq!(last.state.phase, Phase::Finished(Outcome::Failed(Failure::Unexpected)));
}

#[test]
fn the_steps_of_a_move() {
    let state = |phase| State { phase, name: "n".to_string() };
    let step = move_file(state(Phase::Removing), &Event::Failed(None));
    assert_eq!(step.state.phase, Phase::Finished(Outcome::Failed(Failure::Io(IoStage::Remove))));
    let step = move_file(state(Phase::Removing), &Event::Done);
    assert_eq!(step.state.phase, Phase::Finished(Outcome::Moved));
    let step = move_file(state(Phase::FallingBack), &Event::Done);
    assert_eq!((step.state.phase, step.action), (Phase::Removing, Action::RemoveSource));
    let step = move_file(state(Phase::Probing), &Event::Done);
    assert_eq!(step.state.phase, Phase::Finished(Outcome::Failed(Failure::Unexpected)));
    assert_eq!(step.state.name, "n");
    assert_eq!(CROSSES_DEVICES_OS_CODE, 17);
    let _ = Folders { source: String::new(), output: String::new() };
}

use rusth::parser::parse;
use rusth::runner::builtin::{
    cd, echo, get_builtin, pwd, Builtin, CD_FAILED, NO_HOME, PWD_FAILED,
};
use rusth::runner::command::{
    Append, Command, Insert, Pipe, RunConfig, RunConfigBuilder, Runnable,
    RunnableCmd, Stdio, PIPE_LEFT_SPAWN, PIPE_LEFT_WAIT, PIPE_RIGHT_SPAWN, PIPE_RIGHT_WAIT,
    PIPE_WRITE, REDIRECT_OPEN, REDIRECT_SPAWN, REDIRECT_WAIT, REDIRECT_WRITE, REFUSED,
};
use rusth::runner::executable::{
    launch_failure_message, program_name, run_process, spawn_process, LAUNCH_FAILED, WAIT_FAILED,
};
use rusth::runner::step::{Action, Event, Stage, Turn};
use rusth::runner::{exit_notice, run, run_command};
use rusth::util::text::{joined, same_text};

fn command(args: &[&str]) -> Command {
    Command::new(args.iter().map(|a| a.to_string()).collect())
}

fn strings(args: &[&str]) -> Vec<String> {
    args.iter().map(|a| a.to_string()).collect()
}

fn failed(text: &str) -> Event {
    Event::Failed(text.to_string())
}

fn spawn(program: &str, args: &[&str], config: RunConfig) -> Action {
    Action::Spawn { program: program.to_string(), args: strings(args), config }
}

fn capture() -> RunConfig {
    RunConfig { input: None, output: Some(Stdio::Piped) }
}

fn feed() -> RunConfig {
    RunConfig { input: Some(Stdio::Piped), output: None }
}

fn inherit() -> RunConfig {
    RunConfig { input: None, output: None }
}

/// Runs `runnable` from the start with the given answers and returns every
/// diagnostic and request, in order.
fn play(runnable: &Runnable, conf: RunConfig, answers: Vec<Event>) -> (Vec<String>, Vec<Action>) {
    let mut diagnostics = Vec::new();
    let mut actions = Vec::new();
    let mut stage = Stage::Start;
    let mut events = vec![Event::Done];
    events.extend(answers);
    for event in events {
        let turn = runnable.run(conf, stage, event);
        if let Some(text) = turn.diagnostic {
            diagnostics.push(text);
        }
        let over = matches!(turn.action, Action::Finish(_));
        actions.push(turn.action);
        stage = turn.stage;
        if over {
            assert_eq!(stage, Stage::Finished);
            break;
        }
    }
    (diagnostics, actions)
}

fn none() -> Vec<String> {
    Vec::new()
}

#[test]
fn echo_writes_its_arguments_and_a_newline() {
    let line = parse("echo hello world").unwrap();
    let (diagnostics, actions) = play(&line, inherit(), vec![Event::Done]);
    assert_eq!(diagnostics, none());
    assert_eq!(actions, vec![Action::Print("hello world\n".to_string()), Action::Finish(Some(0))]);
}

#[test]
fn echo_without_arguments_writes_a_newline() {
    let turn = echo(&command(&["echo"]), Stage::Start, Event::Done);
    assert_eq!(turn, Turn::proceed(Stage::Printing, Action::Print("\n".to_string())));
    let turn = echo(&command(&["echo", "one"]), Stage::Start, Event::Done);
    assert_eq!(turn.action, Action::Print("one\n".to_string()));
    let turn = echo(&command(&["echo", "a b", "", "c"]), Stage::Start, Event::Done);
    assert_eq!(turn.action, Action::Print("a b  c\n".to_string()));
}

#[test]
fn echo_ends_with_status_zero_whatever_came_of_the_writing() {
    assert_eq!(echo(&command(&["echo"]), Stage::Printing, failed("x")), Turn::finish(Some(0)));
    assert_eq!(echo(&command(&["echo"]), Stage::Waiting, Event::Done), Turn::finish(None));
}

#[test]
fn builtins_are_found_by_name() {
    assert_eq!(get_builtin("echo"), Some(Builtin::Echo));
    assert_eq!(get_builtin("cd"), Some(Builtin::Cd));
    assert_eq!(get_builtin("pwd"), Some(Builtin::Pwd));
    assert_eq!(get_builtin("ls"), None);
    assert_eq!(get_builtin(""), None);
    assert_eq!(get_builtin("Echo"), None);
    assert_eq!(get_builtin("echo "), None);
}

#[test]
fn text_helpers() {
    assert!(same_text("ab", "ab"));
    assert!(!same_text("ab", "abc"));
    assert!(!same_text("ab", "aB"));
    assert_eq!(joined("ab", "cd"), "abcd");
    assert_eq!(joined("", ""), "");
}

#[test]
fn command_accessors() {
    let cmd = command(&["ls", "-l"]);
    assert!(!cmd.empty());
    assert_eq!(cmd.command(), "ls");
    assert!(!cmd.is_builtin());
    assert!(command(&["cd", "x"]).is_builtin());
    assert!(command(&["pwd"]).is_builtin());
    assert!(command(&["echo"]).is_builtin());
    assert!(command(&[]).empty());
    assert!(!command(&[]).is_builtin());
    assert_eq!(program_name(&cmd), "ls");
    assert_eq!(program_name(&command(&[])), "");
}

#[test]
fn constructors_keep_their_parts() {
    let pipe = Pipe::new(command(&["a"]), command(&["b"]));
    assert_eq!(pipe.from, command(&["a"]));
    assert_eq!(pipe.to, command(&["b"]));
    let insert = Insert::new(command(&["a"]), "f".to_string());
    assert_eq!(insert.cmd, command(&["a"]));
    assert_eq!(insert.file_name, "f");
    assert_ne!(format!("{:?}", insert), format!("{:?}", Append::new(command(&["a"]), "f".to_string())));
}

#[test]
fn run_config_builder_sets_each_stream() {
    assert_eq!(RunConfig::default(), inherit());
    assert_eq!(RunConfig::build().build(), inherit());
    assert_eq!(RunConfigBuilder::new().build(), inherit());
    assert_eq!(RunConfig::build().output(Stdio::Piped).build(), capture());
    assert_eq!(RunConfig::build().input(Stdio::Piped).build(), feed());
    assert_eq!(
        RunConfig::build().input(Stdio::Null).output(Stdio::Inherit).build(),
        RunConfig { input: Some(Stdio::Null), output: Some(Stdio::Inherit) }
    );
}

#[test]
fn empty_command_succeeds_without_a_request() {
    let line = parse("").unwrap();
    let (diagnostics, actions) = play(&line, inherit(), vec![]);
    assert_eq!(diagnostics, none());
    assert_eq!(actions, vec![Action::Finish(Some(0))]);
}

#[test]
fn from_marker_does_nothing() {
    let (diagnostics, actions) = play(&Runnable::From, inherit(), vec![]);
    assert_eq!(diagnostics, none());
    assert_eq!(actions, vec![Action::Finish(None)]);
}

#[test]
fn cd_changes_to_its_argument() {
    let line = parse("cd /tmp extra").unwrap();
    let (diagnostics, actions) = play(&line, inherit(), vec![Event::Done]);
    assert_eq!(diagnostics, none());
    assert_eq!(actions, vec![Action::ChangeDir("/tmp".to_string()), Action::Finish(Some(0))]);
}

#[test]
fn cd_to_a_missing_directory_fails_and_asks_for_no_change() {
    let line = parse("cd /no/such/dir").unwrap();
    let (diagnostics, actions) = play(&line, inherit(), vec![failed("No such file or directory")]);
    assert_eq!(diagnostics, vec!["Cannot change directory: No such file or directory".to_string()]);
    assert_eq!(
        actions,
        vec![Action::ChangeDir("/no/such/dir".to_string()), Action::Finish(Some(2))]
    );
    assert_eq!(CD_FAILED, 2);
    assert_ne!(CD_FAILED, 0);
}

#[test]
fn pwd_after_a_failed_cd_reports_the_directory_it_is_given() {
    let cd_line = parse("cd /no/such/dir").unwrap();
    let (_, actions) = play(&cd_line, inherit(), vec![failed("missing")]);
    assert_eq!(actions.len(), 2);
    let pwd_line = parse("pwd").unwrap();
    let (_, actions) = play(&pwd_line, inherit(), vec![Event::Text("/prior".to_string()), Event::Done]);
    assert_eq!(actions[1], Action::Print("/prior\n".to_string()));
}

#[test]
fn cd_without_argument_goes_home() {
    let line = parse("cd").unwrap();
    let (diagnostics, actions) =
        play(&line, inherit(), vec![Event::Text("/home/u".to_string()), Event::Done]);
    assert_eq!(diagnostics, none());
    assert_eq!(
        actions,
        vec![Action::QueryHome, Action::ChangeDir("/home/u".to_string()), Action::Finish(Some(0))]
    );
}

#[test]
fn cd_puts_the_home_directory_in_place_of_the_tilde() {
    let line = parse("cd ~/src").unwrap();
    let (_, actions) = play(&line, inherit(), vec![Event::Text("/home/u".to_string()), failed("gone")]);
    assert_eq!(
        actions,
        vec![
            Action::QueryHome,
            Action::ChangeDir("/home/u/src".to_string()),
            Action::Finish(Some(CD_FAILED))
        ]
    );
}

#[test]
fn cd_without_a_home_directory_fails() {
    let line = parse("cd ~").unwrap();
    let (diagnostics, actions) = play(&line, inherit(), vec![failed("")]);
    assert_eq!(diagnostics, vec!["Cannot get home directory!".to_string()]);
    assert_eq!(actions, vec![Action::QueryHome, Action::Finish(Some(5))]);
    assert_eq!(NO_HOME, 5);
}

#[test]
fn cd_with_an_empty_argument_asks_for_that() {
    let turn = cd(&command(&["cd", ""]), Stage::Start, Event::Done);
    assert_eq!(turn, Turn::proceed(Stage::DirChange, Action::ChangeDir(String::new())));
    assert_eq!(cd(&command(&["cd"]), Stage::Writing, Event::Done), Turn::finish(None));
}

#[test]
fn pwd_writes_the_working_directory() {
    let line = parse("pwd").unwrap();
    let (diagnostics, actions) =
        play(&line, inherit(), vec![Event::Text("/work".to_string()), Event::Done]);
    assert_eq!(diagnostics, none());
    assert_eq!(
        actions,
        vec![Action::QueryDir, Action::Print("/work\n".to_string()), Action::Finish(Some(0))]
    );
}

#[test]
fn pwd_twice_writes_the_same_for_the_same_directory() {
    let line = parse("pwd").unwrap();
    let answers = vec![Event::Text("/work".to_string()), Event::Done];
    let first = play(&line, inherit(), answers.clone());
    let second = play(&line, inherit(), answers);
    assert_eq!(first, second);
}

#[test]
fn pwd_fails_where_the_directory_is_not_to_be_had() {
    let turn = pwd(&command(&["pwd"]), Stage::DirQuery, failed("denied"));
    assert_eq!(
        turn,
        Turn::fail("Cannot obtain active directory: denied".to_string(), Some(1))
    );
    assert_eq!(PWD_FAILED, 1);
    assert_eq!(pwd(&command(&["pwd"]), Stage::Feeding, Event::Done), Turn::finish(None));
}

#[test]
fn builtin_call_goes_to_the_builtin() {
    let cmd = command(&["x", "y"]);
    assert_eq!(
        Builtin::Echo.call(&cmd, Stage::Start, Event::Done).action,
        Action::Print("y\n".to_string())
    );
    assert_eq!(
        Builtin::Cd.call(&cmd, Stage::Start, Event::Done).action,
        Action::ChangeDir("y".to_string())
    );
    assert_eq!(Builtin::Pwd.call(&cmd, Stage::Start, Event::Done).action, Action::QueryDir);
}

#[test]
fn other_commands_run_as_a_process() {
    let line = parse("ls -l /tmp").unwrap();
    let (diagnostics, actions) = play(&line, capture(), vec![Event::Done, Event::Exited(Some(3))]);
    assert_eq!(diagnostics, none());
    assert_eq!(
        actions,
        vec![spawn("ls", &["-l", "/tmp"], capture()), Action::Wait, Action::Finish(Some(3))]
    );
}

#[test]
fn process_killed_by_a_signal_has_no_status() {
    let line = parse("sleep 100").unwrap();
    let (_, actions) = play(&line, inherit(), vec![Event::Done, Event::Exited(None)]);
    assert_eq!(actions[2], Action::Finish(None));
}

#[test]
fn process_that_cannot_start_ends_with_the_launch_status() {
    let line = parse("nosuch arg").unwrap();
    let (diagnostics, actions) = play(&line, inherit(), vec![failed("not found")]);
    assert_eq!(diagnostics, vec!["nosuch failed to start: not found".to_string()]);
    assert_eq!(actions, vec![spawn("nosuch", &["arg"], inherit()), Action::Finish(Some(-1))]);
    assert_eq!(LAUNCH_FAILED, -1);
}

#[test]
fn process_that_cannot_be_waited_for_ends_with_the_wait_status() {
    let cmd = command(&["ls"]);
    let turn = run_process(&cmd, inherit(), Stage::Waiting, failed("interrupted"));
    assert_eq!(turn, Turn::fail("Cannot wait for ls: interrupted".to_string(), Some(-2)));
    assert_eq!(WAIT_FAILED, -2);
    assert_eq!(run_process(&cmd, inherit(), Stage::Opening(vec![1]), Event::Done), Turn::finish(None));
    assert_eq!(launch_failure_message(&cmd, Event::Done), "ls failed to start: ");
}

#[test]
fn spawn_request_splits_name_and_arguments() {
    assert_eq!(spawn_process(&command(&["a", "b", "c"]), feed()), spawn("a", &["b", "c"], feed()));
    assert_eq!(spawn_process(&command(&["a"]), inherit()), spawn("a", &[], inherit()));
    assert_eq!(spawn_process(&command(&[]), inherit()), spawn("", &[], inherit()));
}

#[test]
fn pipe_hands_the_left_output_to_the_right_process() {
    let line = parse("ls -l | wc -l").unwrap();
    let bytes = vec![104u8, 105, 10, 0, 255];
    let (diagnostics, actions) = play(
        &line,
        capture(),
        vec![
            Event::Done,
            Event::Output(bytes.clone()),
            Event::Done,
            Event::Done,
            Event::Exited(Some(7)),
        ],
    );
    assert_eq!(diagnostics, none());
    assert_eq!(
        actions,
        vec![
            spawn("ls", &["-l"], capture()),
            Action::Collect,
            spawn("wc", &["-l"], feed()),
            Action::Feed(bytes),
            Action::Wait,
            Action::Finish(Some(7)),
        ]
    );
}

#[test]
fn pipe_without_left_side_runs_the_right_side_alone() {
    let line = parse("| wc -l").unwrap();
    let (diagnostics, actions) = play(&line, capture(), vec![Event::Done, Event::Exited(Some(0))]);
    assert_eq!(diagnostics, vec!["No command before pipe, ignoring it!".to_string()]);
    assert_eq!(
        actions,
        vec![spawn("wc", &["-l"], inherit()), Action::Wait, Action::Finish(Some(0))]
    );
    let alone = parse("wc -l").unwrap();
    let (_, alone_actions) = play(&alone, inherit(), vec![Event::Done, Event::Exited(Some(0))]);
    assert_eq!(actions, alone_actions);
}

#[test]
fn pipe_without_left_side_runs_a_builtin_on_the_right() {
    let line = parse("| echo hi").unwrap();
    let (diagnostics, actions) = play(&line, inherit(), vec![Event::Done]);
    assert_eq!(diagnostics, vec!["No command before pipe, ignoring it!".to_string()]);
    assert_eq!(actions, vec![Action::Print("hi\n".to_string()), Action::Finish(Some(0))]);
    let (diagnostics, actions) = play(&parse("|").unwrap(), inherit(), vec![]);
    assert_eq!(diagnostics.len(), 1);
    assert_eq!(actions, vec![Action::Finish(Some(0))]);
}

#[test]
fn pipe_with_a_builtin_is_refused() {
    for line in ["echo a | wc", "ls | cd", "pwd | echo"] {
        let (diagnostics, actions) = play(&parse(line).unwrap(), inherit(), vec![]);
        assert_eq!(diagnostics, vec!["Builtin redirection not supported for now!".to_string()]);
        assert_eq!(actions, vec![Action::Finish(Some(12))]);
    }
    assert_eq!(REFUSED, 12);
}

#[test]
fn pipe_failures_have_a_status_each() {
    let line = parse("a | b").unwrap();
    let out = Event::Output(vec![1, 2]);
    let (d, a) = play(&line, inherit(), vec![failed("e1")]);
    assert_eq!(d, vec!["a failed to start: e1".to_string()]);
    assert_eq!(a.last(), Some(&Action::Finish(Some(10))));
    let (d, a) = play(&line, inherit(), vec![Event::Done, failed("e2")]);
    assert_eq!(d, vec!["Error occured in first program: e2".to_string()]);
    assert_eq!(a.last(), Some(&Action::Finish(Some(12))));
    let (d, a) = play(&line, inherit(), vec![Event::Done, out.clone(), failed("e3")]);
    assert_eq!(d, vec!["b failed to start: e3".to_string()]);
    assert_eq!(a.last(), Some(&Action::Finish(Some(11))));
    let (d, a) = play(&line, inherit(), vec![Event::Done, out.clone(), Event::Done, failed("e4")]);
    assert_eq!(d, vec!["Error occured: e4".to_string()]);
    assert_eq!(a.last(), Some(&Action::Finish(Some(13))));
    let (d, a) = play(
        &line,
        inherit(),
        vec![Event::Done, out, Event::Done, Event::Done, failed("e5")],
    );
    assert_eq!(d, vec!["Error occured: e5".to_string()]);
    assert_eq!(a.last(), Some(&Action::Finish(Some(14))));
    assert_eq!(
        [PIPE_LEFT_SPAWN, PIPE_LEFT_WAIT, PIPE_RIGHT_SPAWN, PIPE_WRITE, PIPE_RIGHT_WAIT],
        [10, 12, 11, 13, 14]
    );
}

#[test]
fn pipe_without_right_side_fails_as_its_start_does() {
    let line = parse("ls |").unwrap();
    let (diagnostics, actions) = play(&line, inherit(), vec![Event::Done, Event::Output(vec![])]);
    assert_eq!(diagnostics, vec!["No command after pipe!".to_string()]);
    assert_eq!(
        actions,
        vec![spawn("ls", &[], capture()), Action::Collect, Action::Finish(Some(11))]
    );
}

#[test]
fn insert_writes_the_output_over_the_file() {
    let line = parse("ls -a > out.txt").unwrap();
    let bytes = vec![1u8, 2, 3];
    let (diagnostics, actions) = play(
        &line,
        inherit(),
        vec![Event::Done, Event::Output(bytes.clone()), Event::Done, Event::Done],
    );
    assert_eq!(diagnostics, none());
    assert_eq!(
        actions,
        vec![
            spawn("ls", &["-a"], capture()),
            Action::Collect,
            Action::Open { path: "out.txt".to_string(), append: false },
            Action::Write(bytes),
            Action::Finish(Some(0)),
        ]
    );
}

#[test]
fn append_adds_the_output_to_the_file() {
    let line = parse("ls >> out.txt").unwrap();
    let (_, actions) = play(&line, inherit(), vec![Event::Done, Event::Output(vec![9])]);
    assert_eq!(actions[2], Action::Open { path: "out.txt".to_string(), append: true });
}

#[test]
fn redirect_without_command_has_no_status() {
    let (diagnostics, actions) = play(&parse("> f").unwrap(), inherit(), vec![]);
    assert_eq!(diagnostics, vec!["No command before pipe, ignoring it!".to_string()]);
    assert_eq!(actions, vec![Action::Finish(None)]);
}

#[test]
fn redirect_of_a_builtin_is_refused() {
    for line in ["echo a > f", "pwd >> f"] {
        let (diagnostics, actions) = play(&parse(line).unwrap(), inherit(), vec![]);
        assert_eq!(diagnostics, vec!["Builtin redirection not supported for now!".to_string()]);
        assert_eq!(actions, vec![Action::Finish(Some(12))]);
    }
}

#[test]
fn redirect_failures_have_a_status_each() {
    let line = parse("a > f").unwrap();
    let out = Event::Output(vec![1, 2]);
    let (d, a) = play(&line, inherit(), vec![failed("e1")]);
    assert_eq!(d, vec!["a failed to start: e1".to_string()]);
    assert_eq!(a.last(), Some(&Action::Finish(Some(10))));
    let (d, a) = play(&line, inherit(), vec![Event::Done, failed("e2")]);
    assert_eq!(d, vec!["Error occured in command program: e2".to_string()]);
    assert_eq!(a.last(), Some(&Action::Finish(Some(12))));
    let (d, a) = play(&line, inherit(), vec![Event::Done, out.clone(), failed("e3")]);
    assert_eq!(d, vec!["Cannot create/open the file: e3".to_string()]);
    assert_eq!(a.last(), Some(&Action::Finish(Some(13))));
    let (d, a) = play(&line, inherit(), vec![Event::Done, out, Event::Done, failed("e4")]);
    assert_eq!(d, vec!["Cannot write the text: e4".to_string()]);
    assert_eq!(a.last(), Some(&Action::Finish(Some(14))));
    assert_eq!([REDIRECT_SPAWN, REDIRECT_WAIT, REDIRECT_OPEN, REDIRECT_WRITE], [10, 12, 13, 14]);
}

#[test]
fn unexpected_answer_counts_as_a_failure_without_text() {
    let line = parse("a | b").unwrap();
    let (d, a) = play(&line, inherit(), vec![Event::Exited(Some(0))]);
    assert_eq!(d, vec!["a failed to start: ".to_string()]);
    assert_eq!(a.last(), Some(&Action::Finish(Some(10))));
    assert_eq!(Event::Text("t".to_string()).failure(), "");
    assert_eq!(failed("t").failure(), "t");
}

#[test]
fn finished_run_stays_finished() {
    let line = parse("a | b").unwrap();
    assert_eq!(line.run(inherit(), Stage::Finished, Event::Done), Turn::finish(None));
    assert_eq!(Turn::finish(Some(1)).stage, Stage::Finished);
}

#[test]
fn lines_are_run_with_both_streams_inherited() {
    let line = parse("ls").unwrap();
    let turn = run_command(&line, Stage::Start, Event::Done);
    assert_eq!(turn, Turn::proceed(Stage::Spawning, spawn("ls", &[], inherit())));
    let turn = run(strings(&["ls", "x"]), Stage::Start, Event::Done);
    assert_eq!(turn, Turn::proceed(Stage::Spawning, spawn("ls", &["x"], inherit())));
    let turn = run(strings(&["echo", "x"]), Stage::Start, Event::Done);
    assert_eq!(turn.action, Action::Print("x\n".to_string()));
}

#[test]
fn exit_notice_names_the_code() {
    assert_eq!(exit_notice(Some(0)), ("Exited with: 0".to_string(), false));
    assert_eq!(exit_notice(Some(-2)), ("Exited with: -2".to_string(), false));
    assert_eq!(
        exit_notice(None),
        ("Returned without error code, probably killed by a signal".to_string(), true)
    );
}

#[test]
fn each_form_runs_by_itself() {
    let cmd = command(&["ls"]);
    assert_eq!(cmd.run(capture(), Stage::Start, Event::Done).action, spawn("ls", &[], capture()));
    let pipe = Pipe::new(command(&["a"]), command(&["b"]));
    assert_eq!(pipe.run(inherit(), Stage::Start, Event::Done).action, spawn("a", &[], capture()));
    let insert = Insert::new(command(&["a"]), "f".to_string());
    assert_eq!(
        insert.run(inherit(), Stage::SourceWaiting, Event::Output(vec![])).action,
        Action::Open { path: "f".to_string(), append: false }
    );
    let append = Append::new(command(&["a"]), "f".to_string());
    assert_eq!(
        append.run(inherit(), Stage::SourceWaiting, Event::Output(vec![])).action,
        Action::Open { path: "f".to_string(), append: true }
    );
}

#[test]
fn a_run_is_over_within_six_requests() {
    for line in ["a | b", "a > f", "a >> f", "ls", "cd", "cd x", "pwd", "echo", "", "<", "| a"] {
        let runnable = parse(line).unwrap();
        let answers = vec![
            Event::Done,
            Event::Output(vec![]),
            Event::Done,
            Event::Done,
            Event::Exited(Some(0)),
            Event::Done,
            Event::Done,
        ];
        let (_, actions) = play(&runnable, inherit(), answers);
        assert!(actions.len() <= 6);
        assert!(matches!(actions.last(), Some(Action::Finish(_))));
        let spawns = actions.iter().filter(|a| matches!(a, Action::Spawn { .. })).count();
        assert!(spawns <= 2);
    }
}

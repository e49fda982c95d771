//! The runnable forms of a line and the configuration they are run with.

use vstd::prelude::*;
use vstd::string::StringExecFns;
use crate::runner::builtin::{builtin_named, builtin_turn, get_builtin};
use crate::util::text::joined;
use crate::runner::executable::{
    launch_failure, launch_failure_message, process_turn, run_process, spawn_action,
    spawn_process,
};
use crate::runner::step::{
    fail, failure_text, finish, proceed, Action, ActionView, Event, EventView, Stage, StageView,
    Turn, TurnView,
};

verus! {

/// The status of a pipe or a redirection that has a builtin in it.
pub const REFUSED: i32 = 12;

/// The status of a pipe whose left process could not be started.
pub const PIPE_LEFT_SPAWN: i32 = 10;

/// The status of a pipe whose left process could not be waited for.
pub const PIPE_LEFT_WAIT: i32 = 12;

/// The status of a pipe whose right process could not be started.
pub const PIPE_RIGHT_SPAWN: i32 = 11;

/// The status of a pipe whose right process could not be written to.
pub const PIPE_WRITE: i32 = 13;

/// The status of a pipe whose right process could not be waited for.
pub const PIPE_RIGHT_WAIT: i32 = 14;

/// The status of a redirection whose process could not be started.
pub const REDIRECT_SPAWN: i32 = 10;

/// The status of a redirection whose process could not be waited for.
pub const REDIRECT_WAIT: i32 = 12;

/// The status of a redirection whose file could not be opened.
pub const REDIRECT_OPEN: i32 = 13;

/// The status of a redirection whose file could not be written.
pub const REDIRECT_WRITE: i32 = 14;

/// The texts of a sequence of strings.
pub open spec fn texts(v: Seq<String>) -> Seq<Seq<char>> {
    Seq::new(v.len(), |i: int| v[i]@)
}

/// What a child process gets for one of its standard streams.
#[derive(Debug, Clone, Copy, PartialEq, Eq, Structural)]
pub enum Stdio {
    /// A pipe whose other end the shell holds.
    Piped,
    /// The shell's own stream.
    Inherit,
    /// Nothing: reads end at once, writes are dropped.
    Null,
}

/// How the two streams of a process that face the shell are set up. `None`
/// leaves a stream as the launcher has it by default, which is to inherit it.
#[derive(Debug, Clone, Copy, PartialEq, Eq, Structural)]
pub struct RunConfig {
    pub input: Option<Stdio>,
    pub output: Option<Stdio>,
}

impl RunConfig {
    /// Starts a configuration that leaves both streams as they are.
    pub fn build() -> (builder: RunConfigBuilder)
        ensures
            builder.conf == (RunConfig { input: None, output: None }),
    {
        RunConfigBuilder::new()
    }
}

impl Default for RunConfig {
    fn default() -> (conf: RunConfig)
        ensures
            conf == (RunConfig { input: None, output: None }),
    {
        RunConfig { input: None, output: None }
    }
}

/// Builds a [`RunConfig`] stream by stream.
#[derive(Debug, Clone, Copy, PartialEq, Eq, Structural)]
pub struct RunConfigBuilder {
    pub conf: RunConfig,
}

impl RunConfigBuilder {
    pub fn new() -> (builder: RunConfigBuilder)
        ensures
            builder.conf == (RunConfig { input: None, output: None }),
    {
        RunConfigBuilder { conf: RunConfig { input: None, output: None } }
    }

    /// Sets what the process reads from.
    pub fn input(self, input: Stdio) -> (builder: RunConfigBuilder)
        ensures
            builder.conf == (RunConfig { input: Some(input), output: self.conf.output }),
    {
        RunConfigBuilder { conf: RunConfig { input: Some(input), output: self.conf.output } }
    }

    /// Sets what the process writes to.
    pub fn output(self, output: Stdio) -> (builder: RunConfigBuilder)
        ensures
            builder.conf == (RunConfig { input: self.conf.input, output: Some(output) }),
    {
        RunConfigBuilder { conf: RunConfig { input: self.conf.input, output: Some(output) } }
    }

    pub fn build(self) -> (conf: RunConfig)
        ensures
            conf == self.conf,
    {
        self.conf
    }
}

/// A command: the name of a program or builtin, then its arguments. With no
/// element at all it is the empty command, which does nothing.
#[derive(Debug, Clone, PartialEq, Eq)]
pub struct Command {
    pub args: Vec<String>,
}

impl View for Command {
    type V = Seq<Seq<char>>;

    open spec fn view(&self) -> Seq<Seq<char>> {
        texts(self.args@)
    }
}

impl Command {
    pub fn new(args: Vec<String>) -> (cmd: Command)
        ensures
            cmd.args == args,
    {
        Command { args }
    }

    /// Whether the command has no element.
    pub fn empty(&self) -> (b: bool)
        ensures
            b == (self@.len() == 0),
    {
        self.args.len() == 0
    }

    /// The name of the program or builtin.
    pub fn command(&self) -> (name: &str)
        requires
            self@.len() > 0,
        ensures
            name@ == self@[0],
    {
        self.args[0].as_str()
    }

    /// Whether the command is one that the shell carries out itself. The
    /// empty command is none.
    pub fn is_builtin(&self) -> (b: bool)
        ensures
            b == names_builtin(self@),
    {
        if self.empty() {
            false
        } else {
            get_builtin(self.command()).is_some()
        }
    }
}

/// Two commands, the output of the first being the input of the second.
#[derive(Debug, Clone, PartialEq, Eq)]
pub struct Pipe {
    pub from: Command,
    pub to: Command,
}

impl Pipe {
    pub fn new(from: Command, to: Command) -> (pipe: Pipe)
        ensures
            pipe.from == from,
            pipe.to == to,
    {
        Pipe { from, to }
    }
}

/// A redirection as a mathematical value: the command, the file its output
/// goes to, and whether the output is added to what the file holds.
pub struct RedirectView {
    pub cmd: Seq<Seq<char>>,
    pub target: Seq<char>,
    pub append: bool,
}

/// A command whose output replaces what a file holds.
#[derive(Debug, Clone, PartialEq, Eq)]
pub struct Insert {
    pub cmd: Command,
    pub file_name: String,
    append: bool,
}

impl View for Insert {
    type V = RedirectView;

    closed spec fn view(&self) -> RedirectView {
        RedirectView { cmd: self.cmd@, target: self.file_name@, append: self.append }
    }
}

impl Insert {
    pub fn new(cmd: Command, file_name: String) -> (insert: Insert)
        ensures
            insert@ == (RedirectView { cmd: cmd@, target: file_name@, append: false }),
    {
        Insert { cmd, file_name, append: false }
    }
}

/// A command whose output is added to the end of a file.
#[derive(Debug, Clone, PartialEq, Eq)]
pub struct Append {
    insert: Insert,
}

impl View for Append {
    type V = RedirectView;

    closed spec fn view(&self) -> RedirectView {
        RedirectView { cmd: self.insert.cmd@, target: self.insert.file_name@, append: true }
    }
}

impl Append {
    pub fn new(cmd: Command, file_name: String) -> (append: Append)
        ensures
            append@ == (RedirectView { cmd: cmd@, target: file_name@, append: true }),
    {
        Append { insert: Insert { cmd, file_name, append: true } }
    }
}

/// What a line parses to.
#[derive(Debug, Clone, PartialEq, Eq)]
pub enum Runnable {
    Cmd(Command),
    Pipe(Pipe),
    Insert(Insert),
    /// The marker for input from a file: accepted, and without effect.
    From,
    Append(Append),
}

/// A runnable as a mathematical value.
pub enum RunnableView {
    Cmd(Seq<Seq<char>>),
    Pipe { from: Seq<Seq<char>>, to: Seq<Seq<char>> },
    Redirect(RedirectView),
    From,
}

impl View for Runnable {
    type V = RunnableView;

    open spec fn view(&self) -> RunnableView {
        match *self {
            Runnable::Cmd(c) => RunnableView::Cmd(c@),
            Runnable::Pipe(p) => RunnableView::Pipe { from: p.from@, to: p.to@ },
            Runnable::Insert(i) => RunnableView::Redirect(i@),
            Runnable::From => RunnableView::From,
            Runnable::Append(a) => RunnableView::Redirect(a@),
        }
    }
}

/// Both streams left as they are.
pub open spec fn inherit_both() -> RunConfig {
    RunConfig { input: None, output: None }
}

/// The output captured, the input left as it is.
pub open spec fn capture_output() -> RunConfig {
    RunConfig { input: None, output: Some(Stdio::Piped) }
}

/// The input fed through a pipe, the output left as it is.
pub open spec fn feed_input() -> RunConfig {
    RunConfig { input: Some(Stdio::Piped), output: None }
}

/// Whether the command's name is that of a builtin.
pub open spec fn names_builtin(args: Seq<Seq<char>>) -> bool {
    args.len() > 0 && builtin_named(args[0]) is Some
}

/// The turns of a plain command. The empty command ends at once with status
/// 0 and asks for nothing. A builtin is carried out by the shell; anything
/// else is run as a process with the given configuration.
pub open spec fn command_turn(
    args: Seq<Seq<char>>,
    conf: RunConfig,
    stage: StageView,
    event: EventView,
) -> TurnView {
    if args.len() == 0 {
        finish(Some(0i32))
    } else {
        match builtin_named(args[0]) {
            Some(builtin) => builtin_turn(builtin, args, stage, event),
            None => process_turn(args, conf, stage, event),
        }
    }
}

/// The turns of a pipe.
///
/// With no command before the marker the pipe is the right command alone,
/// run with both streams inherited, after a diagnostic at its start. With a
/// builtin on either side it is refused. Else the left process is started
/// with its output captured and waited for; then the right process is
/// started with its input fed through a pipe, is given all that the left one
/// wrote, and is waited for; its exit code is the status. Each of the five
/// requests has a status of its own for its failure. A right side without a
/// command cannot be started, which counts as the failure of that start. At
/// a stage that a pipe never reaches the run ends with no status.
pub open spec fn pipe_turn(
    from: Seq<Seq<char>>,
    to: Seq<Seq<char>>,
    stage: StageView,
    event: EventView,
) -> TurnView {
    if from.len() == 0 {
        let turn = command_turn(to, inherit_both(), stage, event);
        if stage is Start {
            TurnView {
                stage: turn.stage,
                diagnostic: Some("No command before pipe, ignoring it!"@),
                action: turn.action,
            }
        } else {
            turn
        }
    } else {
        match stage {
            StageView::Start => if names_builtin(from) || names_builtin(to) {
                fail("Builtin redirection not supported for now!"@, Some(REFUSED))
            } else {
                proceed(StageView::LeftSpawning, spawn_action(from, capture_output()))
            },
            StageView::LeftSpawning => match event {
                EventView::Done => proceed(StageView::LeftWaiting, ActionView::Collect),
                _ => fail(launch_failure(from, event), Some(PIPE_LEFT_SPAWN)),
            },
            StageView::LeftWaiting => match event {
                EventView::Output(bytes) => if to.len() == 0 {
                    fail("No command after pipe!"@, Some(PIPE_RIGHT_SPAWN))
                } else {
                    proceed(StageView::RightSpawning(bytes), spawn_action(to, feed_input()))
                },
                _ => fail(
                    "Error occured in first program: "@ + failure_text(event),
                    Some(PIPE_LEFT_WAIT),
                ),
            },
            StageView::RightSpawning(bytes) => match event {
                EventView::Done => proceed(StageView::Feeding, ActionView::Feed(bytes)),
                _ => fail(launch_failure(to, event), Some(PIPE_RIGHT_SPAWN)),
            },
            StageView::Feeding => match event {
                EventView::Done => proceed(StageView::RightWaiting, ActionView::Wait),
                _ => fail("Error occured: "@ + failure_text(event), Some(PIPE_WRITE)),
            },
            StageView::RightWaiting => match event {
                EventView::Exited(code) => finish(code),
                _ => fail("Error occured: "@ + failure_text(event), Some(PIPE_RIGHT_WAIT)),
            },
            _ => finish(None),
        }
    }
}

/// The turns of a redirection.
///
/// Without a command it ends with no status, after a diagnostic; with a
/// builtin it is refused. Else the process is started with its output
/// captured and waited for; then the file is opened, created if missing,
/// emptied unless the output is to be appended; then all the output is
/// written to it. Status 0 where all of that worked, and a status of its own
/// for the failure of each request. At a stage that a redirection never
/// reaches the run ends with no status.
pub open spec fn redirect_turn(redirect: RedirectView, stage: StageView, event: EventView)
    -> TurnView {
    match stage {
        StageView::Start => if redirect.cmd.len() == 0 {
            fail("No command before pipe, ignoring it!"@, None)
        } else if names_builtin(redirect.cmd) {
            fail("Builtin redirection not supported for now!"@, Some(REFUSED))
        } else {
            proceed(StageView::SourceSpawning, spawn_action(redirect.cmd, capture_output()))
        },
        StageView::SourceSpawning => match event {
            EventView::Done => proceed(StageView::SourceWaiting, ActionView::Collect),
            _ => fail(launch_failure(redirect.cmd, event), Some(REDIRECT_SPAWN)),
        },
        StageView::SourceWaiting => match event {
            EventView::Output(bytes) => proceed(
                StageView::Opening(bytes),
                ActionView::Open { path: redirect.target, append: redirect.append },
            ),
            _ => fail(
                "Error occured in command program: "@ + failure_text(event),
                Some(REDIRECT_WAIT),
            ),
        },
        StageView::Opening(bytes) => match event {
            EventView::Done => proceed(StageView::Writing, ActionView::Write(bytes)),
            _ => fail("Cannot create/open the file: "@ + failure_text(event), Some(REDIRECT_OPEN)),
        },
        StageView::Writing => match event {
            EventView::Done => finish(Some(0i32)),
            _ => fail("Cannot write the text: "@ + failure_text(event), Some(REDIRECT_WRITE)),
        },
        _ => finish(None),
    }
}

/// The turns of a runnable. The from marker ends at once, with no status and
/// no request.
pub open spec fn runnable_turn(
    runnable: RunnableView,
    conf: RunConfig,
    stage: StageView,
    event: EventView,
) -> TurnView {
    match runnable {
        RunnableView::Cmd(args) => command_turn(args, conf, stage, event),
        RunnableView::Pipe { from, to } => pipe_turn(from, to, stage, event),
        RunnableView::Redirect(redirect) => redirect_turn(redirect, stage, event),
        RunnableView::From => finish(None),
    }
}

/// What can be run, one turn at a time. A run begins at `Stage::Start` with
/// `Event::Done`; each turn names the stage and the event to come back with.
pub trait RunnableCmd {
    /// The turn that follows `event` at `stage`.
    spec fn turn(&self, conf: RunConfig, stage: StageView, event: EventView) -> TurnView;

    fn run(&self, conf: RunConfig, stage: Stage, event: Event) -> (turn: Turn)
        ensures
            turn@ == self.turn(conf, stage@, event@),
    ;
}

impl RunnableCmd for Command {
    open spec fn turn(&self, conf: RunConfig, stage: StageView, event: EventView) -> TurnView {
        command_turn(self@, conf, stage, event)
    }

    fn run(&self, conf: RunConfig, stage: Stage, event: Event) -> (turn: Turn) {
        if self.empty() {
            return Turn::finish(Some(0));
        }
        match get_builtin(self.command()) {
            Some(builtin) => builtin.call(self, stage, event),
            None => run_process(self, conf, stage, event),
        }
    }
}

/// The turn that fails with `prefix` and the system's error after it.
fn fail_with(prefix: &str, event: Event, status: i32) -> (turn: Turn)
    ensures
        turn@ == fail(prefix@ + failure_text(event@), Some(status)),
{
    let error = event.failure();
    Turn::fail(joined(prefix, error.as_str()), Some(status))
}

impl RunnableCmd for Pipe {
    open spec fn turn(&self, conf: RunConfig, stage: StageView, event: EventView) -> TurnView {
        pipe_turn(self.from@, self.to@, stage, event)
    }

    fn run(&self, _conf: RunConfig, stage: Stage, event: Event) -> (turn: Turn) {
        if self.from.empty() {
            let starts = matches!(stage, Stage::Start);
            let turn = self.to.run(RunConfig::default(), stage, event);
            if starts {
                return Turn {
                    stage: turn.stage,
                    diagnostic: Some(String::from_str("No command before pipe, ignoring it!")),
                    action: turn.action,
                };
            }
            return turn;
        }
        match stage {
            Stage::Start => {
                if self.from.is_builtin() || self.to.is_builtin() {
                    Turn::fail(
                        String::from_str("Builtin redirection not supported for now!"),
                        Some(REFUSED),
                    )
                } else {
                    let to_conf = RunConfig::build().output(Stdio::Piped).build();
                    Turn::proceed(Stage::LeftSpawning, spawn_process(&self.from, to_conf))
                }
            },
            Stage::LeftSpawning => match event {
                Event::Done => Turn::proceed(Stage::LeftWaiting, Action::Collect),
                other => Turn::fail(
                    launch_failure_message(&self.from, other),
                    Some(PIPE_LEFT_SPAWN),
                ),
            },
            Stage::LeftWaiting => match event {
                Event::Output(bytes) => {
                    if self.to.empty() {
                        Turn::fail(
                            String::from_str("No command after pipe!"),
                            Some(PIPE_RIGHT_SPAWN),
                        )
                    } else {
                        let to_conf = RunConfig::build().input(Stdio::Piped).build();
                        Turn::proceed(Stage::RightSpawning(bytes), spawn_process(&self.to, to_conf))
                    }
                },
                other => fail_with("Error occured in first program: ", other, PIPE_LEFT_WAIT),
            },
            Stage::RightSpawning(bytes) => match event {
                Event::Done => Turn::proceed(Stage::Feeding, Action::Feed(bytes)),
                other => Turn::fail(
                    launch_failure_message(&self.to, other),
                    Some(PIPE_RIGHT_SPAWN),
                ),
            },
            Stage::Feeding => match event {
                Event::Done => Turn::proceed(Stage::RightWaiting, Action::Wait),
                other => fail_with("Error occured: ", other, PIPE_WRITE),
            },
            Stage::RightWaiting => match event {
                Event::Exited(code) => Turn::finish(code),
                other => fail_with("Error occured: ", other, PIPE_RIGHT_WAIT),
            },
            _ => Turn::finish(None),
        }
    }
}

/// One turn of a redirection of `cmd` to the file `target`.
fn run_redirect(cmd: &Command, target: &String, append: bool, stage: Stage, event: Event) -> (turn:
    Turn)
    ensures
        turn@ == redirect_turn(
            RedirectView { cmd: cmd@, target: target@, append },
            stage@,
            event@,
        ),
{
    match stage {
        Stage::Start => {
            if cmd.empty() {
                Turn::fail(String::from_str("No command before pipe, ignoring it!"), None)
            } else if cmd.is_builtin() {
                Turn::fail(
                    String::from_str("Builtin redirection not supported for now!"),
                    Some(REFUSED),
                )
            } else {
                let cmd_conf = RunConfig::build().output(Stdio::Piped).build();
                Turn::proceed(Stage::SourceSpawning, spawn_process(cmd, cmd_conf))
            }
        },
        Stage::SourceSpawning => match event {
            Event::Done => Turn::proceed(Stage::SourceWaiting, Action::Collect),
            other => Turn::fail(launch_failure_message(cmd, other), Some(REDIRECT_SPAWN)),
        },
        Stage::SourceWaiting => match event {
            Event::Output(bytes) => Turn::proceed(
                Stage::Opening(bytes),
                Action::Open { path: target.clone(), append },
            ),
            other => fail_with("Error occured in command program: ", other, REDIRECT_WAIT),
        },
        Stage::Opening(bytes) => match event {
            Event::Done => Turn::proceed(Stage::Writing, Action::Write(bytes)),
            other => fail_with("Cannot create/open the file: ", other, REDIRECT_OPEN),
        },
        Stage::Writing => match event {
            Event::Done => Turn::finish(Some(0)),
            other => fail_with("Cannot write the text: ", other, REDIRECT_WRITE),
        },
        _ => Turn::finish(None),
    }
}

impl RunnableCmd for Insert {
    open spec fn turn(&self, conf: RunConfig, stage: StageView, event: EventView) -> TurnView {
        redirect_turn(self@, stage, event)
    }

    fn run(&self, _conf: RunConfig, stage: Stage, event: Event) -> (turn: Turn) {
        run_redirect(&self.cmd, &self.file_name, self.append, stage, event)
    }
}

impl RunnableCmd for Append {
    open spec fn turn(&self, conf: RunConfig, stage: StageView, event: EventView) -> TurnView {
        redirect_turn(self@, stage, event)
    }

    fn run(&self, _conf: RunConfig, stage: Stage, event: Event) -> (turn: Turn) {
        run_redirect(&self.insert.cmd, &self.insert.file_name, true, stage, event)
    }
}

impl RunnableCmd for Runnable {
    open spec fn turn(&self, conf: RunConfig, stage: StageView, event: EventView) -> TurnView {
        runnable_turn(self@, conf, stage, event)
    }

    fn run(&self, conf: RunConfig, stage: Stage, event: Event) -> (turn: Turn) {
        match self {
            Runnable::Cmd(cmd) => cmd.run(conf, stage, event),
            Runnable::Pipe(p) => p.run(conf, stage, event),
            Runnable::Insert(i) => i.run(conf, stage, event),
            Runnable::From => Turn::finish(None),
            Runnable::Append(a) => a.run(conf, stage, event),
        }
    }
}

} // verus!

//! The process launcher: how a command becomes a process, and how what came
//! of the process becomes an exit status.

use vstd::prelude::*;
use vstd::string::StringExecFns;
use crate::util::text::joined;
use crate::runner::command::{texts, Command, RunConfig};
use crate::runner::step::{
    fail, failure_text, finish, proceed, Action, ActionView, Event, EventView, Stage, StageView,
    Turn, TurnView,
};

verus! {

/// The status of a process that could not be started.
pub const LAUNCH_FAILED: i32 = -1;

/// The status of a process that could not be waited for.
pub const WAIT_FAILED: i32 = -2;

/// The name of the command: its first element, or nothing where it is empty.
pub open spec fn name_of(args: Seq<Seq<char>>) -> Seq<char> {
    if args.len() > 0 {
        args[0]
    } else {
        Seq::empty()
    }
}

/// The arguments of the command: what follows its name.
pub open spec fn arguments_of(args: Seq<Seq<char>>) -> Seq<Seq<char>> {
    if args.len() > 0 {
        args.subrange(1, args.len() as int)
    } else {
        Seq::empty()
    }
}

/// The request that starts the command as a process: its name is the program,
/// the rest its arguments, and the streams are set up as `conf` says.
pub open spec fn spawn_action(args: Seq<Seq<char>>, conf: RunConfig) -> ActionView {
    ActionView::Spawn { program: name_of(args), args: arguments_of(args), config: conf }
}

/// The diagnostic for a process that could not be started.
pub open spec fn launch_failure(args: Seq<Seq<char>>, event: EventView) -> Seq<char> {
    name_of(args) + " failed to start: "@ + failure_text(event)
}

/// The turns of a lone process: start it, once; wait for it; end with its exit
/// code. A start that fails ends the run with [`LAUNCH_FAILED`], a wait that
/// fails with [`WAIT_FAILED`], each after a diagnostic. At a stage that a lone
/// process never reaches the run ends with no status.
pub open spec fn process_turn(
    args: Seq<Seq<char>>,
    conf: RunConfig,
    stage: StageView,
    event: EventView,
) -> TurnView {
    match stage {
        StageView::Start => proceed(StageView::Spawning, spawn_action(args, conf)),
        StageView::Spawning => match event {
            EventView::Done => proceed(StageView::Waiting, ActionView::Wait),
            _ => fail(launch_failure(args, event), Some(LAUNCH_FAILED)),
        },
        StageView::Waiting => match event {
            EventView::Exited(code) => finish(code),
            _ => fail(
                "Cannot wait for "@ + name_of(args) + ": "@ + failure_text(event),
                Some(WAIT_FAILED),
            ),
        },
        _ => finish(None),
    }
}

/// The name of the command, or the empty text where it has none.
pub fn program_name(cmd: &Command) -> (name: &str)
    ensures
        name@ == name_of(cmd@),
{
    if cmd.args.len() > 0 {
        cmd.args[0].as_str()
    } else {
        proof {
            reveal_strlit("");
            assert(""@ =~= Seq::<char>::empty());
        }
        ""
    }
}

/// The request that starts `cmd` as a process.
pub fn spawn_process(cmd: &Command, run_config: RunConfig) -> (action: Action)
    ensures
        action@ == spawn_action(cmd@, run_config),
{
    let mut args: Vec<String> = Vec::new();
    let mut i: usize = 1;
    while i < cmd.args.len()
        invariant
            1 <= i,
            i <= cmd.args.len() || cmd.args.len() == 0,
            cmd.args.len() > 0 ==> args@.len() == i - 1,
            cmd.args.len() == 0 ==> args@.len() == 0,
            forall|k: int| 0 <= k < args@.len() ==> #[trigger] args@[k]@ == cmd.args@[k + 1]@,
        decreases cmd.args.len() - i,
    {
        args.push(cmd.args[i].clone());
        i += 1;
    }
    assert(texts(args@) =~= arguments_of(cmd@));
    Action::Spawn { program: String::from_str(program_name(cmd)), args, config: run_config }
}

/// The diagnostic for a process that could not be started.
pub fn launch_failure_message(cmd: &Command, event: Event) -> (text: String)
    ensures
        text@ == launch_failure(cmd@, event@),
{
    let error = event.failure();
    let mut text = joined(program_name(cmd), " failed to start: ");
    text.append(error.as_str());
    text
}

/// One turn of running `cmd` as a process of its own.
pub fn run_process(cmd: &Command, run_config: RunConfig, stage: Stage, event: Event) -> (turn:
    Turn)
    ensures
        turn@ == process_turn(cmd@, run_config, stage@, event@),
{
    match stage {
        Stage::Start => Turn::proceed(Stage::Spawning, spawn_process(cmd, run_config)),
        Stage::Spawning => match event {
            Event::Done => Turn::proceed(Stage::Waiting, Action::Wait),
            other => Turn::fail(launch_failure_message(cmd, other), Some(LAUNCH_FAILED)),
        },
        Stage::Waiting => match event {
            Event::Exited(code) => Turn::finish(code),
            other => {
                let error = other.failure();
                let mut text = joined("Cannot wait for ", program_name(cmd));
                text.append(": ");
                text.append(error.as_str());
                Turn::fail(text, Some(WAIT_FAILED))
            },
        },
        _ => Turn::finish(None),
    }
}

} // verus!

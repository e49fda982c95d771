//! Running a parsed line: the commands, the builtins and the process launcher.
//!
//! Nothing here touches the operating system. A run goes turn by turn: the
//! runner names the next request to the system, the caller carries it out and
//! brings back what came of it, until the runner names the exit status.

pub mod builtin;
pub mod command;
pub mod executable;
pub mod step;
pub mod windows;

use vstd::prelude::*;
use vstd::string::StringExecFns;
use crate::runner::builtin::{builtin_named, Builtin};
use crate::runner::command::{
    capture_output, command_turn, feed_input, inherit_both, names_builtin, pipe_turn,
    redirect_turn, runnable_turn, texts, Command, RedirectView, RunConfig, Runnable, RunnableCmd,
    RunnableView, REFUSED,
};
use crate::runner::executable::spawn_action;
use crate::runner::step::{ActionView, Event, EventView, Stage, StageView, Turn, TurnView};
use crate::util::decimal::{decimal_text, push_decimal};

verus! {

/// One turn of a runnable that is run with both streams inherited, as a line
/// typed at the prompt is.
pub fn run_command(c: &Runnable, stage: Stage, event: Event) -> (turn: Turn)
    ensures
        turn@ == runnable_turn(c@, inherit_both(), stage@, event@),
{
    c.run(RunConfig::default(), stage, event)
}

/// One turn of the plain command that `args` make up, run with both streams
/// inherited.
pub fn run(args: Vec<String>, stage: Stage, event: Event) -> (turn: Turn)
    ensures
        turn@ == command_turn(texts(args@), inherit_both(), stage@, event@),
{
    let command = Command::new(args);
    command.run(RunConfig::default(), stage, event)
}

/// What is said of a run that has ended.
pub open spec fn exit_text(status: Option<i32>) -> Seq<char> {
    match status {
        Some(code) => "Exited with: "@ + decimal_text(code as int),
        None => "Returned without error code, probably killed by a signal"@,
    }
}

/// The notice for a run that has ended with `status`. The second part says
/// whether it belongs on standard error: it does where there is no exit code.
pub fn exit_notice(status: Option<i32>) -> (notice: (String, bool))
    ensures
        notice.0@ == exit_text(status),
        notice.1 == (status is None),
{
    match status {
        Some(code) => {
            let mut text = String::from_str("Exited with: ");
            push_decimal(&mut text, code);
            (text, false)
        },
        None => (
            String::from_str("Returned without error code, probably killed by a signal"),
            true,
        ),
    }
}

/// The requests of a run that is at `stage` and gets `events` for answers, the
/// first of them now: one request for each event, up to the one that ends the
/// run.
pub open spec fn requests(
    runnable: RunnableView,
    conf: RunConfig,
    stage: StageView,
    events: Seq<EventView>,
) -> Seq<ActionView>
    decreases events.len(),
{
    if events.len() == 0 {
        Seq::empty()
    } else {
        let turn = runnable_turn(runnable, conf, stage, events[0]);
        if turn.action is Finish {
            seq![turn.action]
        } else {
            seq![turn.action] + requests(runnable, conf, turn.stage, events.drop_first())
        }
    }
}

/// How many of the requests start a process.
pub open spec fn spawn_count(actions: Seq<ActionView>) -> nat
    decreases actions.len(),
{
    if actions.len() == 0 {
        0
    } else {
        spawn_count(actions.drop_first()) + if actions[0] is Spawn {
            1nat
        } else {
            0nat
        }
    }
}

/// How many processes a run at `stage` may still start: one for each command
/// of the runnable at the start; one inside a pipe until its right process
/// has been asked for; none after that.
pub open spec fn spawn_budget(runnable: RunnableView, stage: StageView) -> nat {
    match stage {
        StageView::Start => match runnable {
            RunnableView::Cmd(_) => 1,
            RunnableView::Pipe { from, to } => 2,
            RunnableView::Redirect(_) => 1,
            RunnableView::From => 0,
        },
        StageView::LeftSpawning | StageView::LeftWaiting => 1,
        _ => 0,
    }
}

/// A turn never asks for more processes than the budget of its stage holds,
/// and leaves as much less in the budget as it asks for.
pub proof fn lemma_turn_keeps_spawn_budget(
    runnable: RunnableView,
    conf: RunConfig,
    stage: StageView,
    event: EventView,
)
    ensures
        ({
            let turn = runnable_turn(runnable, conf, stage, event);
            spawn_budget(runnable, turn.stage) + (if turn.action is Spawn {
                1nat
            } else {
                0nat
            }) <= spawn_budget(runnable, stage)
        }),
{
}

/// Whatever the operating system answers, a run starts each of its commands
/// as a process at most once: a plain command and a redirection start at most
/// one process, a pipe at most two, and nothing is ever started again.
pub proof fn lemma_spawns_at_most_once(
    runnable: RunnableView,
    conf: RunConfig,
    stage: StageView,
    events: Seq<EventView>,
)
    ensures
        spawn_count(requests(runnable, conf, stage, events)) <= spawn_budget(runnable, stage),
    decreases events.len(),
{
    if events.len() > 0 {
        let turn = runnable_turn(runnable, conf, stage, events[0]);
        lemma_turn_keeps_spawn_budget(runnable, conf, stage, events[0]);
        let all = requests(runnable, conf, stage, events);
        if turn.action is Finish {
            assert(all.drop_first() =~= Seq::<ActionView>::empty());
            assert(spawn_count(all.drop_first()) == 0);
        } else {
            let rest = requests(runnable, conf, turn.stage, events.drop_first());
            lemma_spawns_at_most_once(runnable, conf, turn.stage, events.drop_first());
            assert(all.drop_first() =~= rest);
        }
    }
}

/// A pipe with no command before the marker is its right command alone, run
/// with both streams inherited whatever configuration the pipe is run with:
/// turn for turn the same, but for the diagnostic at the start.
pub proof fn lemma_pipe_without_left(
    to: Seq<Seq<char>>,
    conf: RunConfig,
    stage: StageView,
    event: EventView,
)
    ensures
        ({
            let pipe = runnable_turn(
                RunnableView::Pipe { from: Seq::empty(), to },
                conf,
                stage,
                event,
            );
            let alone = runnable_turn(RunnableView::Cmd(to), inherit_both(), stage, event);
            &&& pipe.stage == alone.stage
            &&& pipe.action == alone.action
            &&& stage is Start ==> pipe.diagnostic is Some
            &&& !(stage is Start) ==> pipe.diagnostic == alone.diagnostic
        }),
{
}

/// The requests of a pipe between two commands that are no builtins, where
/// every request succeeds: the left process is started with its output
/// captured and waited for; the right process is started with its input fed
/// through a pipe and is given exactly the bytes that the left one wrote; the
/// status of the pipe is the exit code of the right process.
pub proof fn lemma_pipe_hands_output_over(
    from: Seq<Seq<char>>,
    to: Seq<Seq<char>>,
    conf: RunConfig,
    bytes: Seq<u8>,
    code: Option<i32>,
)
    requires
        from.len() > 0,
        to.len() > 0,
        !names_builtin(from),
        !names_builtin(to),
    ensures
        requests(
            RunnableView::Pipe { from, to },
            conf,
            StageView::Start,
            seq![
                EventView::Done,
                EventView::Done,
                EventView::Output(bytes),
                EventView::Done,
                EventView::Done,
                EventView::Exited(code),
            ],
        ) == seq![
            spawn_action(from, capture_output()),
            ActionView::Collect,
            spawn_action(to, feed_input()),
            ActionView::Feed(bytes),
            ActionView::Wait,
            ActionView::Finish(code),
        ],
{
    let pipe = RunnableView::Pipe { from, to };
    let e0 = seq![
        EventView::Done,
        EventView::Done,
        EventView::Output(bytes),
        EventView::Done,
        EventView::Done,
        EventView::Exited(code),
    ];
    let e1 = e0.drop_first();
    let e2 = e1.drop_first();
    let e3 = e2.drop_first();
    let e4 = e3.drop_first();
    let e5 = e4.drop_first();
    let r5 = requests(pipe, conf, StageView::RightWaiting, e5);
    assert(r5 =~= seq![ActionView::Finish(code)]);
    let r4 = requests(pipe, conf, StageView::Feeding, e4);
    assert(r4 =~= seq![ActionView::Wait, ActionView::Finish(code)]);
    let r3 = requests(pipe, conf, StageView::RightSpawning(bytes), e3);
    assert(r3 =~= seq![ActionView::Feed(bytes), ActionView::Wait, ActionView::Finish(code)]);
    let r2 = requests(pipe, conf, StageView::LeftWaiting, e2);
    assert(r2 =~= seq![spawn_action(to, feed_input())] + r3);
    let r1 = requests(pipe, conf, StageView::LeftSpawning, e1);
    assert(r1 =~= seq![ActionView::Collect] + r2);
    let r0 = requests(pipe, conf, StageView::Start, e0);
    assert(r0 =~= seq![spawn_action(from, capture_output())] + r1);
}

/// The stages of a pipe at which a request is outstanding.
pub open spec fn pipe_waits(stage: StageView) -> bool {
    stage is LeftSpawning || stage is LeftWaiting || stage is RightSpawning || stage is Feeding
        || stage is RightWaiting
}

/// The place of a stage among the stages of a run.
pub open spec fn stage_rank(stage: StageView) -> int {
    match stage {
        StageView::Start => 0,
        StageView::HomeQuery => 1,
        StageView::DirChange => 2,
        StageView::DirQuery => 3,
        StageView::Printing => 4,
        StageView::Spawning => 5,
        StageView::Waiting => 6,
        StageView::LeftSpawning => 7,
        StageView::LeftWaiting => 8,
        StageView::RightSpawning(_) => 9,
        StageView::Feeding => 10,
        StageView::RightWaiting => 11,
        StageView::SourceSpawning => 12,
        StageView::SourceWaiting => 13,
        StageView::Opening(_) => 14,
        StageView::Writing => 15,
        StageView::Finished => 16,
    }
}

/// Whether the turn ends the run after a diagnostic.
pub open spec fn fails(turn: TurnView) -> bool {
    turn.diagnostic is Some && turn.action is Finish
}

/// The failures of the five requests of a pipe end it with five different
/// statuses, none of them 0: the status tells which request failed.
pub proof fn lemma_pipe_failures_differ(
    from: Seq<Seq<char>>,
    to: Seq<Seq<char>>,
    stage1: StageView,
    event1: EventView,
    stage2: StageView,
    event2: EventView,
)
    requires
        from.len() > 0,
        to.len() > 0,
        pipe_waits(stage1),
        pipe_waits(stage2),
        stage_rank(stage1) != stage_rank(stage2),
        fails(pipe_turn(from, to, stage1, event1)),
        fails(pipe_turn(from, to, stage2, event2)),
    ensures
        pipe_turn(from, to, stage1, event1).action != pipe_turn(from, to, stage2, event2).action,
        pipe_turn(from, to, stage1, event1).action != ActionView::Finish(Some(0i32)),
        pipe_turn(from, to, stage1, event1).action != ActionView::Finish(None),
{
}

/// The stages of a redirection at which a request is outstanding.
pub open spec fn redirect_waits(stage: StageView) -> bool {
    stage is SourceSpawning || stage is SourceWaiting || stage is Opening || stage is Writing
}

/// The failures of the requests of a redirection end it with different
/// statuses, none of them 0.
pub proof fn lemma_redirect_failures_differ(
    redirect: RedirectView,
    stage1: StageView,
    event1: EventView,
    stage2: StageView,
    event2: EventView,
)
    requires
        redirect_waits(stage1),
        redirect_waits(stage2),
        stage_rank(stage1) != stage_rank(stage2),
        fails(redirect_turn(redirect, stage1, event1)),
        fails(redirect_turn(redirect, stage2, event2)),
    ensures
        redirect_turn(redirect, stage1, event1).action != redirect_turn(
            redirect,
            stage2,
            event2,
        ).action,
        redirect_turn(redirect, stage1, event1).action != ActionView::Finish(Some(0i32)),
        redirect_turn(redirect, stage1, event1).action != ActionView::Finish(None),
{
}

/// How many requests a run at `stage` is from its end, at most.
pub open spec fn steps_left(stage: StageView) -> nat {
    match stage {
        StageView::Start => 6,
        StageView::LeftSpawning => 5,
        StageView::LeftWaiting => 4,
        StageView::RightSpawning(_) => 3,
        StageView::Feeding => 2,
        StageView::SourceSpawning => 4,
        StageView::SourceWaiting => 3,
        StageView::Opening(_) => 2,
        StageView::HomeQuery => 2,
        StageView::DirQuery => 2,
        StageView::Spawning => 2,
        _ => 1,
    }
}

/// Every turn either ends the run or brings it nearer to its end.
pub proof fn lemma_turn_makes_progress(
    runnable: RunnableView,
    conf: RunConfig,
    stage: StageView,
    event: EventView,
)
    ensures
        ({
            let turn = runnable_turn(runnable, conf, stage, event);
            turn.action is Finish || steps_left(turn.stage) < steps_left(stage)
        }),
{
}

/// Whatever the operating system answers, a run is over after six requests
/// at most, the last of them naming the exit status: no run waits for ever
/// on the runner's account, and none asks for anything once it is over.
pub proof fn lemma_run_ends(
    runnable: RunnableView,
    conf: RunConfig,
    stage: StageView,
    events: Seq<EventView>,
)
    requires
        events.len() >= steps_left(stage),
    ensures
        0 < requests(runnable, conf, stage, events).len() <= steps_left(stage),
        requests(runnable, conf, stage, events).last() is Finish,
        forall|k: int|
            0 <= k < requests(runnable, conf, stage, events).len() - 1 ==> !(#[trigger] requests(
                runnable,
                conf,
                stage,
                events,
            )[k] is Finish),
    decreases events.len(),
{
    let turn = runnable_turn(runnable, conf, stage, events[0]);
    lemma_turn_makes_progress(runnable, conf, stage, events[0]);
    if !(turn.action is Finish) {
        lemma_run_ends(runnable, conf, turn.stage, events.drop_first());
        let rest = requests(runnable, conf, turn.stage, events.drop_first());
        let all = requests(runnable, conf, stage, events);
        assert(all == seq![turn.action] + rest);
        assert(all.last() == rest.last());
        assert forall|k: int| 0 <= k < all.len() - 1 implies !(#[trigger] all[k] is Finish) by {
            if k > 0 {
                assert(all[k] == rest[k - 1]);
            }
        }
    }
}

/// The empty command succeeds without asking anything of the operating
/// system.
pub proof fn lemma_empty_command_asks_nothing(conf: RunConfig, events: Seq<EventView>)
    requires
        events.len() > 0,
    ensures
        requests(RunnableView::Cmd(Seq::empty()), conf, StageView::Start, events) == seq![
            ActionView::Finish(Some(0i32)),
        ],
{
}

/// The from marker has no effect and no status.
pub proof fn lemma_from_is_inert(conf: RunConfig, events: Seq<EventView>)
    requires
        events.len() > 0,
    ensures
        requests(RunnableView::From, conf, StageView::Start, events) == seq![
            ActionView::Finish(None),
        ],
{
}

/// Whether the runnable would have the output of a builtin captured, or its
/// input fed.
pub open spec fn redirects_builtin(runnable: RunnableView) -> bool {
    match runnable {
        RunnableView::Pipe { from, to } => from.len() > 0 && (names_builtin(from) || names_builtin(
            to,
        )),
        RunnableView::Redirect(r) => names_builtin(r.cmd),
        _ => false,
    }
}

/// A pipe or a redirection with a builtin in it is refused before anything
/// is asked of the operating system: no process is started and no file is
/// opened for a part of it.
pub proof fn lemma_builtin_redirection_fails_fast(
    runnable: RunnableView,
    conf: RunConfig,
    events: Seq<EventView>,
)
    requires
        redirects_builtin(runnable),
        events.len() > 0,
    ensures
        requests(runnable, conf, StageView::Start, events) == seq![
            ActionView::Finish(Some(REFUSED)),
        ],
        runnable_turn(runnable, conf, StageView::Start, events[0]).diagnostic is Some,
{
}

/// What `pwd` asks for and writes depends on nothing but the answers it gets:
/// not on its arguments, not on the configuration, not on what was run
/// before. Two runs that are told the same working directory write the same.
pub proof fn lemma_pwd_depends_on_answers_only(
    args1: Seq<Seq<char>>,
    conf1: RunConfig,
    args2: Seq<Seq<char>>,
    conf2: RunConfig,
    events: Seq<EventView>,
)
    requires
        args1.len() > 0 && args1[0] == "pwd"@,
        args2.len() > 0 && args2[0] == "pwd"@,
    ensures
        requests(RunnableView::Cmd(args1), conf1, StageView::Start, events) == requests(
            RunnableView::Cmd(args2),
            conf2,
            StageView::Start,
            events,
        ),
{
    lemma_pwd_requests(args1, conf1, args2, conf2, StageView::Start, events);
}

/// The same, from any stage.
proof fn lemma_pwd_requests(
    args1: Seq<Seq<char>>,
    conf1: RunConfig,
    args2: Seq<Seq<char>>,
    conf2: RunConfig,
    stage: StageView,
    events: Seq<EventView>,
)
    requires
        args1.len() > 0 && args1[0] == "pwd"@,
        args2.len() > 0 && args2[0] == "pwd"@,
    ensures
        requests(RunnableView::Cmd(args1), conf1, stage, events) == requests(
            RunnableView::Cmd(args2),
            conf2,
            stage,
            events,
        ),
    decreases events.len(),
{
    reveal_strlit("pwd");
    reveal_strlit("echo");
    reveal_strlit("cd");
    assert(builtin_named("pwd"@) == Some(Builtin::Pwd));
    if events.len() > 0 {
        let turn = runnable_turn(RunnableView::Cmd(args1), conf1, stage, events[0]);
        lemma_pwd_requests(args1, conf1, args2, conf2, turn.stage, events.drop_first());
    }
}

} // verus!

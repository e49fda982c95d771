//! The builtins: commands that the shell carries out itself.
//!
//! A builtin decides what is written and which directory is asked for or
//! changed to; the writing and the change themselves are requests to the
//! caller, as everything that touches the operating system is.

use vstd::prelude::*;
use vstd::string::{StrSliceExecFns, StringExecFns};
use crate::runner::command::Command;
use crate::util::text::{joined, same_text};
use crate::runner::step::{
    fail, failure_text, finish, proceed, Action, ActionView, Event, EventView, Stage, StageView,
    Turn, TurnView,
};

verus! {

/// The status of `cd` where the directory could not be changed.
pub const CD_FAILED: i32 = 2;

/// The status of `cd` where the home directory is not known.
pub const NO_HOME: i32 = 5;

/// The status of `pwd` where the working directory could not be asked for.
pub const PWD_FAILED: i32 = 1;

/// The builtins.
#[derive(Debug, Clone, Copy, PartialEq, Eq, Structural)]
pub enum Builtin {
    Echo,
    Cd,
    Pwd,
}

/// The builtin that a name stands for.
pub open spec fn builtin_named(name: Seq<char>) -> Option<Builtin> {
    if name == "echo"@ {
        Some(Builtin::Echo)
    } else if name == "cd"@ {
        Some(Builtin::Cd)
    } else if name == "pwd"@ {
        Some(Builtin::Pwd)
    } else {
        None
    }
}

/// The builtins that a platform adds to the portable ones, or puts in their
/// place, and that are run turn by turn as the portable ones are. They are
/// looked up first. No platform has one yet: the listing that Windows adds
/// (see `runner::windows`) is done at once.
fn get_builtin_os(_cmd_name: &str) -> (builtin: Option<Builtin>)
    ensures
        builtin is None,
{
    None
}

/// Looks a name up among the builtins.
pub fn get_builtin(cmd_name: &str) -> (builtin: Option<Builtin>)
    ensures
        builtin == builtin_named(cmd_name@),
{
    if let Some(builtin) = get_builtin_os(cmd_name) {
        return Some(builtin);
    }
    if same_text(cmd_name, "echo") {
        Some(Builtin::Echo)
    } else if same_text(cmd_name, "cd") {
        Some(Builtin::Cd)
    } else if same_text(cmd_name, "pwd") {
        Some(Builtin::Pwd)
    } else {
        None
    }
}

/// The words with one space between each two.
pub open spec fn join_words(words: Seq<Seq<char>>) -> Seq<char>
    decreases words.len(),
{
    if words.len() == 0 {
        Seq::empty()
    } else if words.len() == 1 {
        words[0]
    } else {
        join_words(words.drop_last()) + seq![' '] + words.last()
    }
}

/// What `echo` writes: its arguments after the name, with one space between
/// each two, and a newline.
pub open spec fn echo_text(args: Seq<Seq<char>>) -> Seq<char> {
    if args.len() <= 1 {
        seq!['\n']
    } else {
        join_words(args.subrange(1, args.len() as int)) + seq!['\n']
    }
}

/// The turns of `echo`: write the text, then end with status 0, whatever came
/// of the writing. At a stage that `echo` never reaches it ends with no status.
pub open spec fn echo_turn(args: Seq<Seq<char>>, stage: StageView, event: EventView) -> TurnView {
    match stage {
        StageView::Start => proceed(StageView::Printing, ActionView::Print(echo_text(args))),
        StageView::Printing => finish(Some(0i32)),
        _ => finish(None),
    }
}

/// The directory that `cd` is asked for: its first argument, or `~` where it
/// has none.
pub open spec fn cd_request(args: Seq<Seq<char>>) -> Seq<char> {
    if args.len() < 2 {
        seq!['~']
    } else {
        args[1]
    }
}

/// Whether the directory begins with `~`, which stands for the home directory.
pub open spec fn below_home(dir: Seq<char>) -> bool {
    dir.len() > 0 && dir[0] == '~'
}

/// What follows the first character of the directory.
pub open spec fn after_tilde(dir: Seq<char>) -> Seq<char> {
    if dir.len() >= 1 {
        dir.subrange(1, dir.len() as int)
    } else {
        Seq::empty()
    }
}

/// The turns of a change to the directory `dir`. A directory that begins with
/// `~` has the home directory put in place of the `~`; where the home
/// directory is not known, the change ends with [`NO_HOME`]. Where the change
/// fails it ends with [`CD_FAILED`], after a diagnostic that holds the system's
/// error, and nothing more is asked for. At a stage that it never reaches it
/// ends with no status.
pub open spec fn cd_to(dir: Seq<char>, stage: StageView, event: EventView) -> TurnView {
    match stage {
        StageView::Start => if below_home(dir) {
            proceed(StageView::HomeQuery, ActionView::QueryHome)
        } else {
            proceed(StageView::DirChange, ActionView::ChangeDir(dir))
        },
        StageView::HomeQuery => match event {
            EventView::Text(home) => proceed(
                StageView::DirChange,
                ActionView::ChangeDir(home + after_tilde(dir)),
            ),
            _ => fail("Cannot get home directory!"@, Some(NO_HOME)),
        },
        StageView::DirChange => match event {
            EventView::Done => finish(Some(0i32)),
            _ => fail("Cannot change directory: "@ + failure_text(event), Some(CD_FAILED)),
        },
        _ => finish(None),
    }
}

/// The turns of `cd`: a change to its first argument, or to the home directory
/// where it has none.
pub open spec fn cd_turn(args: Seq<Seq<char>>, stage: StageView, event: EventView) -> TurnView {
    cd_to(cd_request(args), stage, event)
}

/// The turns of `pwd`: ask for the working directory, write it with a
/// newline, and end with status 0; or end with [`PWD_FAILED`] where it is not
/// to be had. At a stage that `pwd` never reaches it ends with no status.
pub open spec fn pwd_turn(stage: StageView, event: EventView) -> TurnView {
    match stage {
        StageView::Start => proceed(StageView::DirQuery, ActionView::QueryDir),
        StageView::DirQuery => match event {
            EventView::Text(dir) => proceed(StageView::Printing, ActionView::Print(dir.push('\n'))),
            _ => fail("Cannot obtain active directory: "@ + failure_text(event), Some(PWD_FAILED)),
        },
        StageView::Printing => finish(Some(0i32)),
        _ => finish(None),
    }
}

/// The turns of a builtin.
pub open spec fn builtin_turn(
    builtin: Builtin,
    args: Seq<Seq<char>>,
    stage: StageView,
    event: EventView,
) -> TurnView {
    match builtin {
        Builtin::Echo => echo_turn(args, stage, event),
        Builtin::Cd => cd_turn(args, stage, event),
        Builtin::Pwd => pwd_turn(stage, event),
    }
}

/// The text that `echo` writes.
fn echo_line(cmd: &Command) -> (text: String)
    ensures
        text@ == echo_text(cmd@),
{
    let mut text = String::new();
    if cmd.args.len() > 1 {
        let mut i: usize = 1;
        let ghost args = cmd@;
        assert(args.subrange(1, 1) =~= Seq::<Seq<char>>::empty());
        while i < cmd.args.len()
            invariant
                1 <= i <= cmd.args.len(),
                args == cmd@,
                text@ == join_words(args.subrange(1, i as int)),
            decreases cmd.args.len() - i,
        {
            let ghost before = text@;
            if i > 1 {
                text.push(' ');
            }
            text.append(cmd.args[i].as_str());
            i += 1;
            proof {
                let now = args.subrange(1, i as int);
                assert(now.drop_last() =~= args.subrange(1, i - 1));
                assert(now.last() == args[i - 1]);
                if i == 2 {
                    assert(text@ =~= now[0]);
                } else {
                    assert(text@ =~= before + seq![' '] + now.last());
                }
            }
        }
    }
    text.push('\n');
    text
}

/// `echo`: writes its arguments, separated by spaces, and a newline, and
/// always ends with status 0.
pub fn echo(cmd: &Command, stage: Stage, event: Event) -> (turn: Turn)
    ensures
        turn@ == echo_turn(cmd@, stage@, event@),
{
    match stage {
        Stage::Start => Turn::proceed(Stage::Printing, Action::Print(echo_line(cmd))),
        Stage::Printing => Turn::finish(Some(0)),
        _ => Turn::finish(None),
    }
}

/// The directory that `cd` is asked for.
fn cd_directory(cmd: &Command) -> (dir: &str)
    ensures
        dir@ == cd_request(cmd@),
{
    if cmd.args.len() < 2 {
        proof {
            reveal_strlit("~");
            assert("~"@ =~= seq!['~']);
        }
        "~"
    } else {
        cmd.args[1].as_str()
    }
}

/// `cd`: changes the working directory to its first argument, or to the home
/// directory where it has none.
pub fn cd(cmd: &Command, stage: Stage, event: Event) -> (turn: Turn)
    ensures
        turn@ == cd_turn(cmd@, stage@, event@),
{
    cd_impl(cd_directory(cmd), stage, event)
}

/// One turn of a change to the directory `dir`.
fn cd_impl(dir: &str, stage: Stage, event: Event) -> (turn: Turn)
    ensures
        turn@ == cd_to(dir@, stage@, event@),
{
    match stage {
        Stage::Start => {
            let len = dir.unicode_len();
            if len > 0 && dir.get_char(0) == '~' {
                Turn::proceed(Stage::HomeQuery, Action::QueryHome)
            } else {
                Turn::proceed(Stage::DirChange, Action::ChangeDir(String::from_str(dir)))
            }
        },
        Stage::HomeQuery => match event {
            Event::Text(home) => {
                let len = dir.unicode_len();
                let mut path = home;
                if len >= 1 {
                    path.append(dir.substring_char(1, len));
                } else {
                    assert(path@ + after_tilde(dir@) =~= path@);
                }
                Turn::proceed(Stage::DirChange, Action::ChangeDir(path))
            },
            _ => Turn::fail(String::from_str("Cannot get home directory!"), Some(NO_HOME)),
        },
        Stage::DirChange => match event {
            Event::Done => Turn::finish(Some(0)),
            other => {
                let error = other.failure();
                Turn::fail(joined("Cannot change directory: ", error.as_str()), Some(CD_FAILED))
            },
        },
        _ => Turn::finish(None),
    }
}

/// `pwd`: writes the working directory.
pub fn pwd(_cmd: &Command, stage: Stage, event: Event) -> (turn: Turn)
    ensures
        turn@ == pwd_turn(stage@, event@),
{
    match stage {
        Stage::Start => Turn::proceed(Stage::DirQuery, Action::QueryDir),
        Stage::DirQuery => match event {
            Event::Text(dir) => {
                let mut text = dir;
                text.push('\n');
                Turn::proceed(Stage::Printing, Action::Print(text))
            },
            other => {
                let error = other.failure();
                Turn::fail(
                    joined("Cannot obtain active directory: ", error.as_str()),
                    Some(PWD_FAILED),
                )
            },
        },
        Stage::Printing => Turn::finish(Some(0)),
        _ => Turn::finish(None),
    }
}

impl Builtin {
    /// One turn of the builtin on `cmd`.
    pub fn call(self, cmd: &Command, stage: Stage, event: Event) -> (turn: Turn)
        ensures
            turn@ == builtin_turn(self, cmd@, stage@, event@),
    {
        match self {
            Builtin::Echo => echo(cmd, stage, event),
            Builtin::Cd => cd(cmd, stage, event),
            Builtin::Pwd => pwd(cmd, stage, event),
        }
    }
}

} // verus!

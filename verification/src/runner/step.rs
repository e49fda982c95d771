//! The turns of a run: where it stands, what is asked of the operating system
//! next, and what the system answered.

use vstd::prelude::*;
use crate::runner::command::{texts, RunConfig};

verus! {

/// Where a run stands: which request is outstanding.
#[derive(Debug, Clone, PartialEq, Eq)]
pub enum Stage {
    /// Nothing has been asked yet.
    Start,
    /// `cd`: the home directory has been asked for.
    HomeQuery,
    /// `cd`: the change of directory has been asked for.
    DirChange,
    /// `pwd`: the working directory has been asked for.
    DirQuery,
    /// A builtin's text is being written to standard output.
    Printing,
    /// A lone process is being started.
    Spawning,
    /// A lone process is being waited for.
    Waiting,
    /// Pipe: the left process is being started.
    LeftSpawning,
    /// Pipe: the left process is being waited for and its output collected.
    LeftWaiting,
    /// Pipe: the right process is being started; the bytes are the left one's
    /// output.
    RightSpawning(Vec<u8>),
    /// Pipe: the bytes are being written to the right process.
    Feeding,
    /// Pipe: the right process is being waited for.
    RightWaiting,
    /// Redirection: the process is being started.
    SourceSpawning,
    /// Redirection: the process is being waited for and its output collected.
    SourceWaiting,
    /// Redirection: the file is being opened; the bytes are the output.
    Opening(Vec<u8>),
    /// Redirection: the bytes are being written to the file.
    Writing,
    /// The run is over.
    Finished,
}

/// A stage as a mathematical value.
pub enum StageView {
    Start,
    HomeQuery,
    DirChange,
    DirQuery,
    Printing,
    Spawning,
    Waiting,
    LeftSpawning,
    LeftWaiting,
    RightSpawning(Seq<u8>),
    Feeding,
    RightWaiting,
    SourceSpawning,
    SourceWaiting,
    Opening(Seq<u8>),
    Writing,
    Finished,
}

impl View for Stage {
    type V = StageView;

    open spec fn view(&self) -> StageView {
        match *self {
            Stage::Start => StageView::Start,
            Stage::HomeQuery => StageView::HomeQuery,
            Stage::DirChange => StageView::DirChange,
            Stage::DirQuery => StageView::DirQuery,
            Stage::Printing => StageView::Printing,
            Stage::Spawning => StageView::Spawning,
            Stage::Waiting => StageView::Waiting,
            Stage::LeftSpawning => StageView::LeftSpawning,
            Stage::LeftWaiting => StageView::LeftWaiting,
            Stage::RightSpawning(bytes) => StageView::RightSpawning(bytes@),
            Stage::Feeding => StageView::Feeding,
            Stage::RightWaiting => StageView::RightWaiting,
            Stage::SourceSpawning => StageView::SourceSpawning,
            Stage::SourceWaiting => StageView::SourceWaiting,
            Stage::Opening(bytes) => StageView::Opening(bytes@),
            Stage::Writing => StageView::Writing,
            Stage::Finished => StageView::Finished,
        }
    }
}

/// What the operating system answered to a request.
#[derive(Debug, Clone, PartialEq, Eq)]
pub enum Event {
    /// The request was carried out and there is nothing to report. Also the
    /// event that opens a run.
    Done,
    /// The request failed; the text is the system's description of the error.
    Failed(String),
    /// A directory that was asked for.
    Text(String),
    /// The process that was waited for has ended, with this exit code or, if it
    /// was killed by a signal, with none.
    Exited(Option<i32>),
    /// The process that was waited for has ended, and this is all it wrote to
    /// its standard output.
    Output(Vec<u8>),
}

/// An event as a mathematical value.
pub enum EventView {
    Done,
    Failed(Seq<char>),
    Text(Seq<char>),
    Exited(Option<i32>),
    Output(Seq<u8>),
}

impl View for Event {
    type V = EventView;

    open spec fn view(&self) -> EventView {
        match *self {
            Event::Done => EventView::Done,
            Event::Failed(text) => EventView::Failed(text@),
            Event::Text(text) => EventView::Text(text@),
            Event::Exited(code) => EventView::Exited(code),
            Event::Output(bytes) => EventView::Output(bytes@),
        }
    }
}

/// The system's description of the error, where the event is a failure. An
/// event of a kind that the stage does not expect counts as a failure without
/// a description.
pub open spec fn failure_text(event: EventView) -> Seq<char> {
    match event {
        EventView::Failed(text) => text,
        _ => Seq::empty(),
    }
}

/// What the runner asks for next.
#[derive(Debug, Clone, PartialEq, Eq)]
pub enum Action {
    /// Nothing more: the run is over with this exit status.
    Finish(Option<i32>),
    /// Write the text to standard output. Answered by `Done`.
    Print(String),
    /// Name the user's home directory. Answered by `Text`, or by `Failed`
    /// where there is none.
    QueryHome,
    /// Name the working directory. Answered by `Text` or `Failed`.
    QueryDir,
    /// Make the directory the working directory. Answered by `Done` or
    /// `Failed`.
    ChangeDir(String),
    /// Start a process. Answered by `Done` or `Failed`.
    Spawn { program: String, args: Vec<String>, config: RunConfig },
    /// Wait for the process started last. Answered by `Exited` or `Failed`.
    Wait,
    /// Wait for the process started last and collect all of its standard
    /// output. Answered by `Output` or `Failed`.
    Collect,
    /// Write the bytes to the standard input of the process started last, all
    /// of them, and close it. Answered by `Done` or `Failed`.
    Feed(Vec<u8>),
    /// Open the file for writing and create it if it is missing; add to its
    /// end if `append`, else empty it first. Answered by `Done` or `Failed`.
    Open { path: String, append: bool },
    /// Write the bytes to the file opened last. Answered by `Done` or
    /// `Failed`.
    Write(Vec<u8>),
}

/// An action as a mathematical value.
pub enum ActionView {
    Finish(Option<i32>),
    Print(Seq<char>),
    QueryHome,
    QueryDir,
    ChangeDir(Seq<char>),
    Spawn { program: Seq<char>, args: Seq<Seq<char>>, config: RunConfig },
    Wait,
    Collect,
    Feed(Seq<u8>),
    Open { path: Seq<char>, append: bool },
    Write(Seq<u8>),
}

impl View for Action {
    type V = ActionView;

    open spec fn view(&self) -> ActionView {
        match *self {
            Action::Finish(status) => ActionView::Finish(status),
            Action::Print(text) => ActionView::Print(text@),
            Action::QueryHome => ActionView::QueryHome,
            Action::QueryDir => ActionView::QueryDir,
            Action::ChangeDir(path) => ActionView::ChangeDir(path@),
            Action::Spawn { program, args, config } => ActionView::Spawn {
                program: program@,
                args: texts(args@),
                config,
            },
            Action::Wait => ActionView::Wait,
            Action::Collect => ActionView::Collect,
            Action::Feed(bytes) => ActionView::Feed(bytes@),
            Action::Open { path, append } => ActionView::Open { path: path@, append },
            Action::Write(bytes) => ActionView::Write(bytes@),
        }
    }
}

/// One turn of a run: the stage it leads to, the diagnostic to write to
/// standard error first, if any, and the request to carry out then.
#[derive(Debug, Clone, PartialEq, Eq)]
pub struct Turn {
    pub stage: Stage,
    pub diagnostic: Option<String>,
    pub action: Action,
}

/// A turn as a mathematical value.
pub struct TurnView {
    pub stage: StageView,
    pub diagnostic: Option<Seq<char>>,
    pub action: ActionView,
}

impl View for Turn {
    type V = TurnView;

    open spec fn view(&self) -> TurnView {
        TurnView {
            stage: self.stage@,
            diagnostic: match self.diagnostic {
                Some(text) => Some(text@),
                None => None,
            },
            action: self.action@,
        }
    }
}

/// The turn that ends a run with `status` and no diagnostic.
pub open spec fn finish(status: Option<i32>) -> TurnView {
    TurnView { stage: StageView::Finished, diagnostic: None, action: ActionView::Finish(status) }
}

/// The turn that ends a run with `status` after the diagnostic `text`.
pub open spec fn fail(text: Seq<char>, status: Option<i32>) -> TurnView {
    TurnView {
        stage: StageView::Finished,
        diagnostic: Some(text),
        action: ActionView::Finish(status),
    }
}

/// The turn that goes on to `stage` with the request `action`.
pub open spec fn proceed(stage: StageView, action: ActionView) -> TurnView {
    TurnView { stage, diagnostic: None, action }
}

impl Turn {
    /// Ends the run with `status`.
    pub fn finish(status: Option<i32>) -> (turn: Turn)
        ensures
            turn@ == finish(status),
    {
        Turn { stage: Stage::Finished, diagnostic: None, action: Action::Finish(status) }
    }

    /// Ends the run with `status`, after the diagnostic `text`.
    pub fn fail(text: String, status: Option<i32>) -> (turn: Turn)
        ensures
            turn@ == fail(text@, status),
    {
        Turn { stage: Stage::Finished, diagnostic: Some(text), action: Action::Finish(status) }
    }

    /// Goes on to `stage` with the request `action`.
    pub fn proceed(stage: Stage, action: Action) -> (turn: Turn)
        ensures
            turn@ == proceed(stage@, action@),
    {
        Turn { stage, diagnostic: None, action }
    }
}

impl Event {
    /// The system's description of the error, empty where the event is no
    /// failure.
    pub fn failure(self) -> (text: String)
        ensures
            text@ == failure_text(self@),
    {
        match self {
            Event::Failed(text) => text,
            _ => String::new(),
        }
    }
}

} // verus!

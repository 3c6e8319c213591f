//! The decisions of the read-process loop, as a state machine.
//!
//! The caller reads a line, asks its processor whether the line's lowercase
//! first word means "quit" (see [`crate::line::classify_line`]), and hands both to
//! [`Session::step`]. The step says what to do next: prompt again, hand a
//! token list to the command grammar and dispatch it, or stop and save the
//! history.
use vstd::prelude::*;
use crate::history::opt_chars;
use crate::line::{command_tokens, command_words, is_blank, strings_view};

verus! {

/// The prompt shown when none is given.
pub const DEFAULT_PROMPT: &'static str = ">>";

/// The characters of [`DEFAULT_PROMPT`].
pub open spec fn default_prompt() -> Seq<char> {
    seq!['>', '>']
}

/// What a read of one line gave, as a model.
pub enum Input {
    Line(Seq<char>),
    Interrupted,
    Eof,
    Failed,
}

/// What a read of one line gave.
#[derive(Debug)]
pub enum ReadEvent {
    /// A line of input, without its line end.
    Line(String),
    /// The user interrupted the read.
    Interrupted,
    /// The input ended.
    Eof,
    /// The read failed for another reason.
    Failed,
}

impl View for ReadEvent {
    type V = Input;

    open spec fn view(&self) -> Input {
        match self {
            ReadEvent::Line(l) => Input::Line(l@),
            ReadEvent::Interrupted => Input::Interrupted,
            ReadEvent::Eof => Input::Eof,
            ReadEvent::Failed => Input::Failed,
        }
    }
}

/// What the loop does next, as a model.
pub enum Action {
    Prompt,
    Dispatch(Seq<Seq<char>>),
    Stop(Option<Seq<char>>),
}

/// What the loop does next.
#[derive(Debug)]
pub enum Step {
    /// Prompt for the next line.
    Prompt,
    /// Record the line in the line editor's history, hand these tokens to the
    /// command grammar and dispatch the command it gives; then prompt again.
    Dispatch(Vec<String>),
    /// Stop the loop, and save the history to this file if there is one.
    Stop(Option<String>),
}

impl View for Step {
    type V = Action;

    open spec fn view(&self) -> Action {
        match self {
            Step::Prompt => Action::Prompt,
            Step::Dispatch(tokens) => Action::Dispatch(strings_view(tokens@)),
            Step::Stop(path) => Action::Stop(opt_chars(*path)),
        }
    }
}

/// The state of a session, as a model.
pub struct SessionState {
    /// Where the history is saved, if anywhere.
    pub history_path: Option<Seq<char>>,
    /// The prompt shown before each read.
    pub prompt: Seq<char>,
    /// The history: the lines loaded at the start, then each line dispatched.
    pub entries: Seq<Seq<char>>,
    /// Whether the loop has stopped.
    pub stopped: bool,
}

/// A session that has just started, with `loaded` as its earlier history.
pub open spec fn fresh(history_path: Option<Seq<char>>, prompt: Option<Seq<char>>, loaded: Seq<Seq<char>>) -> SessionState {
    SessionState {
        history_path,
        prompt: match prompt {
            Some(p) => p,
            None => default_prompt(),
        },
        entries: loaded,
        stopped: false,
    }
}

/// The state after `input`, where `quit` is the processor's verdict on the
/// lowercase first word of a line.
///
/// A blank line changes nothing. A line whose first word means quit stops the
/// session and is not recorded; any other line is recorded. Interruption, end
/// of input and a failed read stop the session. A stopped session stays as it is.
pub open spec fn next_state(s: SessionState, input: Input, quit: bool) -> SessionState {
    if s.stopped {
        s
    } else {
        match input {
            Input::Line(l) => {
                if is_blank(l) {
                    s
                } else if quit {
                    SessionState { history_path: s.history_path, prompt: s.prompt, entries: s.entries, stopped: true }
                } else {
                    SessionState { history_path: s.history_path, prompt: s.prompt, entries: s.entries.push(l), stopped: false }
                }
            },
            _ => SessionState { history_path: s.history_path, prompt: s.prompt, entries: s.entries, stopped: true },
        }
    }
}

/// What the loop does on `input`, where `quit` is the processor's verdict on
/// the lowercase first word of a line.
pub open spec fn next_action(s: SessionState, input: Input, quit: bool) -> Action {
    if s.stopped {
        Action::Stop(s.history_path)
    } else {
        match input {
            Input::Line(l) => {
                if is_blank(l) {
                    Action::Prompt
                } else if quit {
                    Action::Stop(s.history_path)
                } else {
                    Action::Dispatch(command_words(l))
                }
            },
            _ => Action::Stop(s.history_path),
        }
    }
}

/// The state and history of one read-process loop.
#[derive(Debug)]
pub struct Session {
    history_path: Option<String>,
    prompt: String,
    entries: Vec<String>,
    stopped: bool,
}

impl View for Session {
    type V = SessionState;

    closed spec fn view(&self) -> SessionState {
        SessionState {
            history_path: opt_chars(self.history_path),
            prompt: self.prompt@,
            entries: strings_view(self.entries@),
            stopped: self.stopped,
        }
    }
}

fn clone_path(p: &Option<String>) -> (r: Option<String>)
    ensures
        opt_chars(r) == opt_chars(*p),
{
    match p {
        Some(s) => Some(s.clone()),
        None => None,
    }
}

impl Session {
    /// Starts a session that saves its history to `history_path`, shows
    /// `prompt` (or [`DEFAULT_PROMPT`]), and holds `loaded` as its earlier
    /// history.
    pub fn new(history_path: Option<String>, prompt: Option<String>, loaded: Vec<String>) -> (r: Session)
        ensures
            r@ == fresh(opt_chars(history_path), opt_chars(prompt), strings_view(loaded@)),
    {
        let prompt = match prompt {
            Some(p) => p,
            None => {
                proof {
                    reveal_strlit(">>");
                    assert(DEFAULT_PROMPT@ =~= default_prompt());
                }
                String::from_str(DEFAULT_PROMPT)
            },
        };
        Session { history_path, prompt, entries: loaded, stopped: false }
    }

    /// The prompt shown before each read.
    pub fn prompt(&self) -> (r: &str)
        ensures
            r@ == self@.prompt,
    {
        self.prompt.as_str()
    }

    /// The file the history is saved to, if any.
    pub fn history_path(&self) -> (r: Option<String>)
        ensures
            opt_chars(r) == self@.history_path,
    {
        clone_path(&self.history_path)
    }

    /// The history: the lines loaded at the start, then each line dispatched.
    pub fn entries(&self) -> (r: &Vec<String>)
        ensures
            strings_view(r@) == self@.entries,
    {
        &self.entries
    }

    /// Whether the loop has stopped.
    pub fn is_stopped(&self) -> (r: bool)
        ensures
            r == self@.stopped,
    {
        self.stopped
    }

    /// Takes one read's result; `quit` is the processor's verdict on the
    /// lowercase first word of a line, as [`crate::line::classify_line`] gives it, and is
    /// not looked at otherwise.
    pub fn step(&mut self, event: ReadEvent, quit: bool) -> (r: Step)
        ensures
            final(self)@ == next_state(old(self)@, event@, quit),
            r@ == next_action(old(self)@, event@, quit),
            final(self)@.history_path == old(self)@.history_path,
            old(self)@.entries.is_prefix_of(final(self)@.entries),
    {
        if self.stopped {
            return Step::Stop(clone_path(&self.history_path));
        }
        match event {
            ReadEvent::Line(line) => {
                let tokens = command_tokens(line.as_str());
                proof {
                    assert(strings_view(tokens@).len() == tokens@.len());
                    assert(command_words(line@).len() == 1 + crate::line::words(line@).len());
                }
                if tokens.len() == 1 {
                    Step::Prompt
                } else if quit {
                    self.stopped = true;
                    Step::Stop(clone_path(&self.history_path))
                } else {
                    let ghost before = self.entries@;
                    self.entries.push(line);
                    proof {
                        assert(strings_view(self.entries@) =~= strings_view(before).push(line@));
                    }
                    Step::Dispatch(tokens)
                }
            },
            _ => {
                self.stopped = true;
                Step::Stop(clone_path(&self.history_path))
            },
        }
    }
}

/// How the handling of a dispatched line ended.
#[derive(Clone, Copy, Debug, PartialEq, Eq, Structural)]
pub enum Outcome {
    /// The grammar gave a command and the processor handled it.
    Processed,
    /// The grammar gave a command and the processor failed on it.
    ProcessingFailed,
    /// The grammar answered with help or version text.
    DisplayRequested,
    /// The grammar refused the line.
    ParseFailed,
}

/// Where the caller tells of an outcome.
#[derive(Clone, Copy, Debug, PartialEq, Eq, Structural)]
pub enum Report {
    /// Nothing is to be told.
    Silent,
    /// The grammar's text goes to the user's output, not the log.
    ShowToUser,
    /// A warning goes to the log, with a hint to ask for help.
    LogWarning,
    /// An error goes to the log.
    LogError,
}

/// Where the caller tells of `outcome`. No outcome stops the session: the
/// loop prompts again after each one.
pub open spec fn report_of(outcome: Outcome) -> Report {
    match outcome {
        Outcome::Processed => Report::Silent,
        Outcome::ProcessingFailed => Report::LogError,
        Outcome::DisplayRequested => Report::ShowToUser,
        Outcome::ParseFailed => Report::LogWarning,
    }
}

/// Where the caller tells of `outcome`.
pub fn report_for(outcome: Outcome) -> (r: Report)
    ensures
        r == report_of(outcome),
{
    match outcome {
        Outcome::Processed => Report::Silent,
        Outcome::ProcessingFailed => Report::LogError,
        Outcome::DisplayRequested => Report::ShowToUser,
        Outcome::ParseFailed => Report::LogWarning,
    }
}

} // verus!

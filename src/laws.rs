//! Properties of history resolution and of the loop, proved over the models
//! that the functions' contracts use.
use vstd::prelude::*;
use crate::history::{default_file_name, has_separator, join, resolve, PathKind};
use crate::line::{command_words, is_blank};
use crate::session::{fresh, next_action, next_state, Action, Input, SessionState};

verus! {

/// Resolution depends on the location, on what the filesystem holds there and
/// on the home directory alone: an existing file is used as given, an existing
/// directory gets the default file name, a bare name that names nothing goes
/// under the home directory (or nowhere when there is none), and no location
/// gives no history.
pub proof fn lemma_resolution_cases(location: Seq<char>, home: Option<Seq<char>>)
    ensures
        resolve(Some(location), PathKind::File, home) == Some(location),
        resolve(Some(location), PathKind::Directory, home) == Some(join(location, default_file_name())),
        !has_separator(location) ==> resolve(Some(location), PathKind::Missing, home) == match home {
            Some(h) => Some(join(h, location)),
            None => None,
        },
        forall|kind: PathKind, h: Option<Seq<char>>| #[trigger] resolve(None, kind, h) == None::<Seq<char>>,
{
}

/// A blank line leaves the session as it was and dispatches nothing, whatever
/// the processor would have said of it.
pub proof fn lemma_blank_line_changes_nothing(s: SessionState, line: Seq<char>, quit: bool)
    requires
        is_blank(line),
    ensures
        next_state(s, Input::Line(line), quit) == s,
        next_action(s, Input::Line(line), quit) == next_action(s, Input::Line(line), !quit),
        !(next_action(s, Input::Line(line), quit) is Dispatch),
{
}

/// A line whose first word the processor calls quit stops a running session
/// without dispatching the line or recording it; the history is then saved to
/// the session's history file.
pub proof fn lemma_quit_stops(s: SessionState, line: Seq<char>)
    requires
        !s.stopped,
        !is_blank(line),
    ensures
        next_state(s, Input::Line(line), true).stopped,
        next_state(s, Input::Line(line), true).entries == s.entries,
        next_action(s, Input::Line(line), true) == Action::Stop(s.history_path),
{
}

/// Once stopped, a session stays stopped and dispatches nothing more.
pub proof fn lemma_stopped_stays_stopped(s: SessionState, input: Input, quit: bool)
    requires
        s.stopped,
    ensures
        next_state(s, input, quit) == s,
        next_action(s, input, quit) == Action::Stop(s.history_path),
{
}

/// Interruption, end of input and a failed read stop a running session,
/// which then saves its history to its history file.
pub proof fn lemma_end_of_reading_stops(s: SessionState, input: Input, quit: bool)
    requires
        !(input is Line),
    ensures
        next_state(s, input, quit).stopped,
        next_state(s, input, quit).entries == s.entries,
        next_action(s, input, quit) == Action::Stop(s.history_path),
{
}

/// A command that the grammar refuses or the processor fails on does not end
/// the session: the session has no transition on an outcome, so after a
/// dispatched line it still prompts, and the next line is dispatched and
/// recorded as well.
pub proof fn lemma_failed_command_keeps_session(s: SessionState, bad: Seq<char>, good: Seq<char>)
    requires
        !s.stopped,
        !is_blank(bad),
        !is_blank(good),
    ensures
        next_action(s, Input::Line(bad), false) == Action::Dispatch(command_words(bad)),
        !next_state(s, Input::Line(bad), false).stopped,
        next_action(next_state(s, Input::Line(bad), false), Input::Line(good), false)
            == Action::Dispatch(command_words(good)),
        next_state(next_state(s, Input::Line(bad), false), Input::Line(good), false).entries
            == s.entries.push(bad).push(good),
{
}

/// The session after `lines` were read in turn, none of them a request to quit.
pub open spec fn feed(s: SessionState, lines: Seq<Seq<char>>) -> SessionState
    decreases lines.len(),
{
    if lines.len() == 0 {
        s
    } else {
        feed(next_state(s, Input::Line(lines[0]), false), lines.drop_first())
    }
}

/// Lines that are neither blank nor requests to quit are recorded in order,
/// after the history the session started with.
pub proof fn lemma_feed_records_lines(s: SessionState, lines: Seq<Seq<char>>)
    requires
        !s.stopped,
        forall|i: int| 0 <= i < lines.len() ==> !is_blank(#[trigger] lines[i]),
    ensures
        feed(s, lines).entries == s.entries + lines,
        feed(s, lines).history_path == s.history_path,
        !feed(s, lines).stopped,
    decreases lines.len(),
{
    if lines.len() == 0 {
        assert(s.entries + lines =~= s.entries);
    } else {
        let s1 = next_state(s, Input::Line(lines[0]), false);
        assert(!is_blank(lines[0]));
        let rest = lines.drop_first();
        assert forall|i: int| 0 <= i < rest.len() implies !is_blank(#[trigger] rest[i]) by {
            assert(rest[i] == lines[i + 1]);
        }
        lemma_feed_records_lines(s1, rest);
        assert(s1.entries + rest =~= s.entries + lines);
    }
}

/// A session started with no history that reads lines which are neither blank
/// nor requests to quit, and then ends, saves its history to its history file;
/// a new session that loads that history holds exactly those lines, in order.
pub proof fn lemma_history_round_trip(
    path: Option<Seq<char>>,
    prompt: Option<Seq<char>>,
    lines: Seq<Seq<char>>,
    end: Input,
    next_prompt: Option<Seq<char>>,
)
    requires
        forall|i: int| 0 <= i < lines.len() ==> !is_blank(#[trigger] lines[i]),
        !(end is Line),
    ensures
        next_action(feed(fresh(path, prompt, Seq::empty()), lines), end, false) == Action::Stop(path),
        next_state(feed(fresh(path, prompt, Seq::empty()), lines), end, false).entries == lines,
        fresh(path, next_prompt, feed(fresh(path, prompt, Seq::empty()), lines).entries).entries == lines,
{
    let s0 = fresh(path, prompt, Seq::empty());
    lemma_feed_records_lines(s0, lines);
    assert(s0.entries + lines =~= lines);
}

} // verus!

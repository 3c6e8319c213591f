//! A small command set that shows how the loop is used.
use vstd::prelude::*;

verus! {

/// The commands of the demonstration set.
#[derive(Clone, Copy, Debug, PartialEq, Eq, Structural)]
pub enum Command {
    /// Runs a test command.
    Test,
}

/// The demonstration command line: a single subcommand.
#[derive(Clone, Copy, Debug, PartialEq, Eq, Structural)]
pub struct Cli {
    pub command: Command,
}

/// The processor of the demonstration set.
#[derive(Debug)]
pub struct CliProcessor {}

/// The words that end a demonstration session.
pub open spec fn is_quit_word(w: Seq<char>) -> bool {
    w == seq!['q', 'u', 'i', 't'] || w == seq!['e', 'x', 'i', 't']
}

/// What the demonstration processor answers to `command`.
pub open spec fn response_text(command: Command) -> Seq<char> {
    match command {
        Command::Test => seq![
            'A', ' ', 'w', 'i', 'l', 'd', ' ', 't', 'e', 's', 't', ' ',
            'a', 'p', 'p', 'e', 'a', 'r', 'e', 'd', '!'
        ],
    }
}

/// Whether `a` and `b` hold the same characters.
fn same_text(a: &str, b: &str) -> (r: bool)
    ensures
        r == (a@ == b@),
{
    let n = a.unicode_len();
    if n != b.unicode_len() {
        return false;
    }
    let mut i: usize = 0;
    while i < n
        invariant
            n == a@.len(),
            n == b@.len(),
            i <= n,
            a@.take(i as int) == b@.take(i as int),
        decreases n - i,
    {
        if a.get_char(i) != b.get_char(i) {
            return false;
        }
        proof {
            assert(a@.take(i + 1) =~= a@.take(i as int).push(a@[i as int]));
            assert(b@.take(i + 1) =~= b@.take(i as int).push(b@[i as int]));
        }
        i = i + 1;
    }
    proof {
        assert(a@.take(n as int) =~= a@);
        assert(b@.take(n as int) =~= b@);
    }
    true
}

impl CliProcessor {
    /// Whether `command` ends the session: `quit` and `exit` do.
    pub fn is_quit(&self, command: &str) -> (r: bool)
        ensures
            r == is_quit_word(command@),
    {
        proof {
            reveal_strlit("quit");
            reveal_strlit("exit");
            assert("quit"@ =~= seq!['q', 'u', 'i', 't']);
            assert("exit"@ =~= seq!['e', 'x', 'i', 't']);
        }
        same_text(command, "quit") || same_text(command, "exit")
    }

    /// The text the processor shows for `command`.
    pub fn response(&self, command: Cli) -> (r: String)
        ensures
            r@ == response_text(command.command),
    {
        match command.command {
            Command::Test => {
                proof {
                    reveal_strlit("A wild test appeared!");
                }
                let r = String::from_str("A wild test appeared!");
                assert(r@ =~= response_text(command.command));
                r
            },
        }
    }
}

} // verus!

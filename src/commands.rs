//! The processor a caller supplies to handle parsed commands.
use vstd::prelude::*;

verus! {

/// anyhow::Error, the failure a processor reports; carried through opaque,
/// nothing is read from it.
#[verifier::external_type_specification]
#[verifier::external_body]
pub struct ExAnyhowError(anyhow::Error);

/// A processor of commands that a command grammar parsed from the user's
/// lines.
pub trait ReplCommandProcessor<C>: std::fmt::Debug {
    /// Handles one parsed command.
    fn process_command(&self, command: C) -> Result<(), anyhow::Error>;

    /// Whether `command`, the trimmed lowercase first word of a line, ends
    /// the session (in English, for instance, `quit` or `exit`).
    fn is_quit(&self, command: &str) -> bool;
}

} // verus!

//! What an external command left behind.

use vstd::prelude::*;
use vstd::utf8::{decode_utf8, valid_utf8};

verus! {

/// What `String::from_utf8_lossy` makes of `bytes`.
pub uninterp spec fn lossy_text(bytes: Seq<u8>) -> Seq<char>;

/// `String::from_utf8_lossy`: bytes that are valid UTF-8 are decoded as they stand.
/// In others each invalid sequence is replaced by U+FFFD, so that no bytes at all,
/// and only those, give the empty text. Which invalid sequences share one
/// replacement is left unsaid.
#[verifier::external_body]
fn lossy(bytes: &[u8]) -> (text: String)
    ensures
        text@ == lossy_text(bytes@),
        valid_utf8(bytes@) ==> text@ == decode_utf8(bytes@),
        text@.len() == 0 <==> bytes@.len() == 0,
{
    String::from_utf8_lossy(bytes).into_owned()
}

/// The exit and the output of a command that has run.
#[derive(Debug, Clone)]
pub struct CommandOutput {
    /// Whether the command exited with success.
    pub success: bool,
    /// What it wrote to standard output.
    pub stdout: String,
    /// What it wrote to standard error.
    pub stderr: String,
}

impl CommandOutput {
    /// The output of a command from the bytes that it wrote.
    pub fn from_bytes(success: bool, stdout: &[u8], stderr: &[u8]) -> (output: Self)
        ensures
            output.success == success,
            output.stdout@ == lossy_text(stdout@),
            output.stderr@ == lossy_text(stderr@),
            valid_utf8(stdout@) ==> output.stdout@ == decode_utf8(stdout@),
            valid_utf8(stderr@) ==> output.stderr@ == decode_utf8(stderr@),
            output.stdout@.len() == 0 <==> stdout@.len() == 0,
            output.stderr@.len() == 0 <==> stderr@.len() == 0,
    {
        CommandOutput { success, stdout: lossy(stdout), stderr: lossy(stderr) }
    }
}

/// The outcome of an attempt to run a command: its output, or the text of the error
/// for which it could not be run.
pub type CommandResult = Result<CommandOutput, String>;

}

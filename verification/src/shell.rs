use vstd::prelude::*;

use crate::errors::CoreError;
use crate::outcome::{lossy_text_of, bytes_to_text, ProcessOutcome};
use crate::text::strings_view;

verus! {

/// The host command interpreter through which free-form command lines run.
pub open spec fn interpreter_of() -> Seq<char> {
    "cmd"@
}

/// The interpreter's argument list for one command line: the flag that makes
/// the interpreter exit when the command finishes, then the command itself,
/// passed through verbatim. The command is caller-supplied free text and is
/// deliberately not sanitized: the contract of the shell adapter is a direct
/// pass-through, injection surface included.
pub open spec fn shell_args_of(command: Seq<char>) -> Seq<Seq<char>> {
    seq!["/C"@, command]
}

/// Builds the interpreter invocation (program, arguments) for one
/// caller-supplied command line. Pure; the spawn itself is the caller's.
pub fn shell_invocation(command: &str) -> (r: (String, Vec<String>))
    ensures
        r.0@ == interpreter_of(),
        strings_view(r.1@) == shell_args_of(command@),
{
    let program = String::from_str("cmd");
    let mut args: Vec<String> = Vec::new();
    args.push(String::from_str("/C"));
    args.push(command.to_owned());
    proof {
        assert(strings_view(args@) =~= shell_args_of(command@));
    }
    (program, args)
}

/// Classifies what the interpreter reported: the decoded standard output on
/// exit code zero, else a command-execution error carrying the exact exit
/// code and the decoded standard error.
pub fn shell_result(o: &ProcessOutcome) -> (r: Result<String, CoreError>)
    ensures
        o.exit_code == Some(0i32) ==> (r matches Ok(t) && t@ == lossy_text_of(o.stdout@)),
        o.exit_code != Some(0i32) ==> (r matches Err(e) && (e matches
            CoreError::CommandExecutionError { exit_code, stderr_text } && exit_code == o.exit_code
            && stderr_text@ == lossy_text_of(o.stderr@))),
{
    match o.exit_code {
        Some(code) => {
            if code == 0 {
                Ok(bytes_to_text(&o.stdout))
            } else {
                Err(
                    CoreError::CommandExecutionError {
                        exit_code: Some(code),
                        stderr_text: bytes_to_text(&o.stderr),
                    },
                )
            }
        },
        None => Err(
            CoreError::CommandExecutionError {
                exit_code: None,
                stderr_text: bytes_to_text(&o.stderr),
            },
        ),
    }
}

} // verus!

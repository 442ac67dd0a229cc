use vstd::prelude::*;

use crate::errors::CoreError;

verus! {

/// What one finished child process reported: its exit code (absent when the
/// process ended without one, e.g. killed by a signal) and its two output
/// streams, captured independently as raw bytes.
pub struct ProcessOutcome {
    pub exit_code: Option<i32>,
    pub stdout: Vec<u8>,
    pub stderr: Vec<u8>,
}

/// The outcome of one conversion run: either the combined human-readable
/// output of a successful encoder process, or the exit code and the most
/// informative diagnostic text of a failed one.
pub enum ConversionResult {
    Success { combined_text: String },
    Failure { exit_code: Option<i32>, message: String },
}

/// The text that lossy UTF-8 decoding yields for a byte sequence: a pure
/// function of the bytes alone.
pub uninterp spec fn lossy_text_of(bytes: Seq<u8>) -> Seq<char>;

/// Relies on String::from_utf8_lossy: the decoding depends on the bytes
/// alone, and an empty input decodes to the empty string.
#[verifier::external_body]
pub(crate) fn bytes_to_text(bytes: &Vec<u8>) -> (r: String)
    ensures
        r@ == lossy_text_of(bytes@),
        bytes@.len() == 0 ==> r@.len() == 0,
{
    String::from_utf8_lossy(bytes.as_slice()).into_owned()
}

/// The combined human-readable output of a process: whichever stream is
/// non-empty when the other is empty, or both under labeled sections when
/// both carry text.
pub open spec fn combined_text_of(out: Seq<u8>, err: Seq<u8>) -> Seq<char> {
    if err.len() == 0 {
        lossy_text_of(out)
    } else if out.len() == 0 {
        lossy_text_of(err)
    } else {
        "stdout:\n"@ + lossy_text_of(out) + "\nstderr:\n"@ + lossy_text_of(err)
    }
}

/// The most informative diagnostic text of a failed process: its standard
/// error when non-empty, else its standard output.
pub open spec fn failure_text_of(out: Seq<u8>, err: Seq<u8>) -> Seq<char> {
    if err.len() != 0 {
        lossy_text_of(err)
    } else {
        lossy_text_of(out)
    }
}

/// Concatenates a process's two output streams into one human-readable text,
/// following the combined-output rule.
pub fn combine_output(stdout: &Vec<u8>, stderr: &Vec<u8>) -> (r: String)
    ensures
        r@ == combined_text_of(stdout@, stderr@),
{
    if stderr.len() == 0 {
        bytes_to_text(stdout)
    } else if stdout.len() == 0 {
        bytes_to_text(stderr)
    } else {
        let mut s = String::from_str("stdout:\n");
        let out_text = bytes_to_text(stdout);
        s.append(out_text.as_str());
        s.append("\nstderr:\n");
        let err_text = bytes_to_text(stderr);
        s.append(err_text.as_str());
        s
    }
}

/// Whether a conversion result correctly classifies a process outcome:
/// success exactly on exit code zero, regardless of what the encoder wrote
/// to standard error; failure carries the exact exit code and the most
/// informative diagnostic text.
pub open spec fn classifies(r: ConversionResult, o: ProcessOutcome) -> bool {
    if o.exit_code == Some(0i32) {
        r matches ConversionResult::Success { combined_text } && combined_text@ == combined_text_of(
            o.stdout@,
            o.stderr@,
        )
    } else {
        r matches ConversionResult::Failure { exit_code, message } && exit_code == o.exit_code
            && message@ == failure_text_of(o.stdout@, o.stderr@)
    }
}

/// Classifies what the encoder process reported. Success is determined solely
/// by the exit status: encoders routinely write progress to standard error on
/// success, so its mere presence is not a failure.
pub fn classify_outcome(o: &ProcessOutcome) -> (r: ConversionResult)
    ensures
        classifies(r, *o),
{
    match o.exit_code {
        Some(code) => {
            if code == 0 {
                ConversionResult::Success { combined_text: combine_output(&o.stdout, &o.stderr) }
            } else {
                ConversionResult::Failure {
                    exit_code: Some(code),
                    message: failure_output(&o.stdout, &o.stderr),
                }
            }
        },
        None => ConversionResult::Failure {
            exit_code: None,
            message: failure_output(&o.stdout, &o.stderr),
        },
    }
}

/// Selects the most informative diagnostic text: standard error when it has
/// any bytes, else standard output.
pub fn failure_output(stdout: &Vec<u8>, stderr: &Vec<u8>) -> (r: String)
    ensures
        r@ == failure_text_of(stdout@, stderr@),
{
    if stderr.len() != 0 {
        bytes_to_text(stderr)
    } else {
        bytes_to_text(stdout)
    }
}

/// Turns a conversion result into the single textual result the caller sees:
/// the combined text on success, or a command-execution error carrying the
/// exit code and diagnostic text on failure.
pub fn conversion_result_text(r: ConversionResult) -> (t: Result<String, CoreError>)
    ensures
        r matches ConversionResult::Success { combined_text } ==> (t matches Ok(s) && s
            == combined_text),
        r matches ConversionResult::Failure { exit_code, message } ==> (t matches Err(e) && (e
            matches CoreError::CommandExecutionError { exit_code: c, stderr_text } && c == exit_code
            && stderr_text == message)),
{
    match r {
        ConversionResult::Success { combined_text } => Ok(combined_text),
        ConversionResult::Failure { exit_code, message } => Err(
            CoreError::CommandExecutionError { exit_code, stderr_text: message },
        ),
    }
}

} // verus!

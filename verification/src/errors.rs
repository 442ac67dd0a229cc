use vstd::prelude::*;

verus! {

/// The error taxonomy of the library. Every failure is returned as a value of
/// this type; no operation aborts. Each variant carries the context a caller
/// needs to render the failure: the offending path, the exit code, or the
/// remote status code.
#[derive(Debug)]
pub enum CoreError {
    /// A directory or file could not be accessed.
    IOError { message: String },
    /// The platform trash service refused the request or the path does not exist.
    TrashError { message: String },
    /// A child process could not be located or started.
    ProcessSpawnError { message: String },
    /// A shell command terminated with a non-zero status (or no status at all).
    /// `exit_code` is `None` when the process ended without a code.
    CommandExecutionError { exit_code: Option<i32>, stderr_text: String },
    /// The bundled encoder executable is absent from its expected location.
    EncoderNotFoundError { expected_path: String },
    /// The requested conversion kind is not one of the supported recipes.
    UnsupportedConversionKind { kind: String },
    /// A remote fetch answered with a status outside the 2xx range.
    HttpError { status: u16 },
}

/// The character for one decimal digit value.
pub open spec fn dec_digit_char(d: int) -> char
    recommends
        0 <= d < 10,
{
    if d == 0 {
        '0'
    } else if d == 1 {
        '1'
    } else if d == 2 {
        '2'
    } else if d == 3 {
        '3'
    } else if d == 4 {
        '4'
    } else if d == 5 {
        '5'
    } else if d == 6 {
        '6'
    } else if d == 7 {
        '7'
    } else if d == 8 {
        '8'
    } else {
        '9'
    }
}

/// The decimal rendering of a natural number, most significant digit first,
/// with no leading zeros (except for the number zero itself).
pub open spec fn dec_str_of(n: nat) -> Seq<char>
    decreases n,
{
    if n < 10 {
        seq![dec_digit_char(n as int)]
    } else {
        dec_str_of(n / 10) + seq![dec_digit_char((n % 10) as int)]
    }
}

/// The decimal rendering of an integer: a minus sign before the magnitude
/// when negative.
pub open spec fn int_str_of(i: int) -> Seq<char> {
    if i < 0 {
        seq!['-'] + dec_str_of((-i) as nat)
    } else {
        dec_str_of(i as nat)
    }
}

/// Appends one decimal digit to a string.
fn push_dec_digit(s: &mut String, d: u64)
    requires
        d < 10,
    ensures
        final(s)@ == old(s)@ + seq![dec_digit_char(d as int)],
{
    let lit: &str = if d == 0 {
        "0"
    } else if d == 1 {
        "1"
    } else if d == 2 {
        "2"
    } else if d == 3 {
        "3"
    } else if d == 4 {
        "4"
    } else if d == 5 {
        "5"
    } else if d == 6 {
        "6"
    } else if d == 7 {
        "7"
    } else if d == 8 {
        "8"
    } else {
        "9"
    };
    proof {
        reveal_strlit("0");
        reveal_strlit("1");
        reveal_strlit("2");
        reveal_strlit("3");
        reveal_strlit("4");
        reveal_strlit("5");
        reveal_strlit("6");
        reveal_strlit("7");
        reveal_strlit("8");
        reveal_strlit("9");
    }
    assert(lit@ =~= seq![dec_digit_char(d as int)]);
    s.append(lit);
}

/// Appends the decimal rendering of `n` to a string.
fn push_u64_decimal(s: &mut String, n: u64)
    ensures
        final(s)@ == old(s)@ + dec_str_of(n as nat),
    decreases n,
{
    if n >= 10 {
        push_u64_decimal(s, n / 10);
    }
    push_dec_digit(s, n % 10);
    proof {
        assert(final(s)@ =~= old(s)@ + dec_str_of(n as nat));
    }
}

/// The decimal rendering of an unsigned number as a fresh string.
pub fn u64_to_decimal(n: u64) -> (r: String)
    ensures
        r@ == dec_str_of(n as nat),
{
    let mut s = String::new();
    push_u64_decimal(&mut s, n);
    proof {
        assert(s@ =~= dec_str_of(n as nat));
    }
    s
}

/// The decimal rendering of a signed number as a fresh string.
pub fn i32_to_decimal(n: i32) -> (r: String)
    ensures
        r@ == int_str_of(n as int),
{
    if n < 0 {
        let mut s = String::from_str("-");
        proof {
            reveal_strlit("-");
        }
        let wide: i64 = n as i64;
        let magnitude: u64 = (-wide) as u64;
        push_u64_decimal(&mut s, magnitude);
        proof {
            assert(s@ =~= int_str_of(n as int));
        }
        s
    } else {
        u64_to_decimal(n as u64)
    }
}

/// The exact text that `CoreError::message` renders for each error value.
pub open spec fn message_of(e: CoreError) -> Seq<char> {
    match e {
        CoreError::IOError { message } => "io error: "@ + message@,
        CoreError::TrashError { message } => "trash error: "@ + message@,
        CoreError::ProcessSpawnError { message } => "failed to start process: "@ + message@,
        CoreError::CommandExecutionError { exit_code, stderr_text } => match exit_code {
            Some(code) => "command failed"@ + " with exit code "@ + int_str_of(code as int) + ": "@
                + stderr_text@,
            None => "command failed"@ + " without an exit code"@ + ": "@ + stderr_text@,
        },
        CoreError::EncoderNotFoundError { expected_path } => "encoder not found at: "@
            + expected_path@,
        CoreError::UnsupportedConversionKind { kind } => "unsupported conversion kind: "@ + kind@,
        CoreError::HttpError { status } => "http request failed with status "@ + dec_str_of(
            status as nat,
        ),
    }
}

impl CoreError {
    /// A human-readable rendering of the error; the replacement for an
    /// implementation of a display trait, which verified types cannot carry.
    pub fn message(&self) -> (r: String)
        ensures
            r@ == message_of(*self),
    {
        match self {
            CoreError::IOError { message } => {
                String::from_str("io error: ").concat(message.as_str())
            },
            CoreError::TrashError { message } => {
                String::from_str("trash error: ").concat(message.as_str())
            },
            CoreError::ProcessSpawnError { message } => {
                String::from_str("failed to start process: ").concat(message.as_str())
            },
            CoreError::CommandExecutionError { exit_code, stderr_text } => {
                let mut s = String::from_str("command failed");
                match exit_code {
                    Some(code) => {
                        s.append(" with exit code ");
                        let rendered = i32_to_decimal(*code);
                        s.append(rendered.as_str());
                    },
                    None => {
                        s.append(" without an exit code");
                    },
                }
                s.append(": ");
                s.append(stderr_text.as_str());
                s
            },
            CoreError::EncoderNotFoundError { expected_path } => {
                String::from_str("encoder not found at: ").concat(expected_path.as_str())
            },
            CoreError::UnsupportedConversionKind { kind } => {
                String::from_str("unsupported conversion kind: ").concat(kind.as_str())
            },
            CoreError::HttpError { status } => {
                let mut s = String::from_str("http request failed with status ");
                let rendered = u64_to_decimal(*status as u64);
                s.append(rendered.as_str());
                s
            },
        }
    }
}

} // verus!

use vstd::prelude::*;

use crate::errors::CoreError;

verus! {

/// The platform-specific file name of the bundled encoder executable.
pub open spec fn encoder_file_name_of(windows: bool) -> Seq<char> {
    if windows {
        "ffmpeg.exe"@
    } else {
        "ffmpeg"@
    }
}

/// The expected location of the bundled encoder, relative to the
/// application's resource root.
pub open spec fn encoder_path_of(root: Seq<char>, windows: bool) -> Seq<char> {
    root + "/resources/ffmpeg/"@ + encoder_file_name_of(windows)
}

/// Constructs the expected encoder path under a resource root. The root is
/// an injected configuration value, not ambient state, so a caller can point
/// resolution at any directory.
pub fn encoder_path(root: &str, windows: bool) -> (r: String)
    ensures
        r@ == encoder_path_of(root@, windows),
{
    let name: &str = if windows {
        "ffmpeg.exe"
    } else {
        "ffmpeg"
    };
    root.to_owned().concat("/resources/ffmpeg/").concat(name)
}

/// Resolves the bundled encoder. `present` reports whether a regular file
/// exists at the expected path, as the caller's filesystem check found it.
/// Absence is a terminal, user-actionable error carrying the expected path;
/// there is deliberately no fallback to a system-installed encoder.
pub fn resolve_encoder(root: &str, windows: bool, present: bool) -> (r: Result<String, CoreError>)
    ensures
        present ==> (r matches Ok(p) && p@ == encoder_path_of(root@, windows)),
        !present ==> (r matches Err(e) && (e matches CoreError::EncoderNotFoundError {
            expected_path } && expected_path@ == encoder_path_of(root@, windows))),
{
    let path = encoder_path(root, windows);
    if present {
        Ok(path)
    } else {
        Err(CoreError::EncoderNotFoundError { expected_path: path })
    }
}

} // verus!

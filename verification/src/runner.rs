use vstd::prelude::*;

use crate::errors::CoreError;
use crate::outcome::{classifies, classify_outcome, ConversionResult, ProcessOutcome};
use crate::plan::{kind_of, plan_conversion, plan_of, quality_of, ConversionRequest};
use crate::resolver::{encoder_path_of, resolve_encoder};
use crate::text::strings_view;

verus! {

/// Everything needed to start one encoder process: the resolved executable
/// path and the ordered argument list the planner emitted.
pub struct EncoderInvocation {
    pub program: String,
    pub args: Vec<String>,
}

/// The first half of a conversion run: resolving, then planning. Both
/// failures short-circuit here, before any process could start. `present`
/// reports whether the caller found the encoder at its expected path.
///
/// On success the returned invocation is the only carrier of the program and
/// arguments, so a run that fails here never reaches the process invoker.
pub fn prepare_conversion(root: &str, windows: bool, present: bool, req: &ConversionRequest) -> (r:
    Result<EncoderInvocation, CoreError>)
    ensures
        !present ==> (r matches Err(e) && (e matches CoreError::EncoderNotFoundError {
            expected_path } && expected_path@ == encoder_path_of(root@, windows))),
        present && kind_of(req.kind@) is None ==> (r matches Err(e) && (e matches
            CoreError::UnsupportedConversionKind { kind: rejected } && rejected@ == req.kind@)),
        present ==> (kind_of(req.kind@) matches Some(k) ==> (r matches Ok(inv) && inv.program@
            == encoder_path_of(root@, windows) && strings_view(inv.args@) == plan_of(
            k,
            quality_of(req.quality@),
            req.input_path@,
            req.output_path@,
        ))),
{
    let program = match resolve_encoder(root, windows, present) {
        Ok(p) => p,
        Err(e) => {
            return Err(e);
        },
    };
    match plan_conversion(req) {
        Ok(args) => Ok(EncoderInvocation { program, args }),
        Err(e) => Err(e),
    }
}

/// The second half of a conversion run: normalizing what the process invoker
/// reported. A spawn failure (the executable could not be started) surfaces
/// immediately as a structured error; a process that ran is classified by its
/// exit status alone.
pub fn finish_conversion(spawn: Result<ProcessOutcome, String>) -> (r: Result<
    ConversionResult,
    CoreError,
>)
    ensures
        spawn matches Ok(o) ==> (r matches Ok(res) && classifies(res, o)),
        spawn matches Err(m) ==> (r matches Err(e) && (e matches CoreError::ProcessSpawnError {
            message } && message@ == m@)),
{
    match spawn {
        Ok(o) => Ok(classify_outcome(&o)),
        Err(m) => Err(CoreError::ProcessSpawnError { message: m }),
    }
}

} // verus!

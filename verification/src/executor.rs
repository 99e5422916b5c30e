//! Outcome classification for runs of the external media tool. The
//! process itself is spawned by the embedding layer under a hard wall
//! clock timeout; this module decides, from the observed outcome, whether
//! the run succeeded and which error kind it gets otherwise. A zero exit
//! status is necessary but not sufficient: the declared output file must
//! also exist and be non-empty.
use vstd::prelude::*;

verus! {

/// What one run of the external tool was observed to do.
pub struct ExecutionOutcome {
    pub exit_success: bool,
    pub stdout: Vec<u8>,
    pub stderr: Vec<u8>,
    pub timed_out: bool,
}

/// The error taxonomy of the extraction pipeline.
pub enum ExtractError {
    /// The external tool could not be launched.
    SpawnError(String),
    /// Execution exceeded the hard deadline.
    TimeoutError,
    /// The task running the tool could not be joined.
    JoinError(String),
    /// The tool ran and exited non-zero; carries its standard error.
    ExecutionFailed(Vec<u8>),
    /// The tool reported success but the declared output file is absent.
    OutputMissing,
    /// The output file exists but has zero length.
    OutputEmpty,
    /// A filesystem failure around the produced artifact.
    IoError(String),
}

impl ExtractError {
    /// A short fixed description of the error kind.
    pub fn kind_message(&self) -> (r: &'static str)
        ensures
            self is SpawnError ==> r@ == "failed to launch the media tool"@,
            self is TimeoutError ==> r@ == "media tool timed out"@,
            self is JoinError ==> r@ == "media tool task could not be joined"@,
            self is ExecutionFailed ==> r@ == "media tool exited with an error"@,
            self is OutputMissing ==> r@ == "output file was not created"@,
            self is OutputEmpty ==> r@ == "output file is empty"@,
            self is IoError ==> r@ == "filesystem error around the output"@,
    {
        match self {
            ExtractError::SpawnError(_) => "failed to launch the media tool",
            ExtractError::TimeoutError => "media tool timed out",
            ExtractError::JoinError(_) => "media tool task could not be joined",
            ExtractError::ExecutionFailed(_) => "media tool exited with an error",
            ExtractError::OutputMissing => "output file was not created",
            ExtractError::OutputEmpty => "output file is empty",
            ExtractError::IoError(_) => "filesystem error around the output",
        }
    }
}

/// Copies a byte buffer.
fn copy_bytes(src: &Vec<u8>) -> (r: Vec<u8>)
    ensures
        r@ == src@,
{
    let mut out: Vec<u8> = Vec::new();
    let mut i: usize = 0;
    while i < src.len()
        invariant
            i <= src@.len(),
            out@ == src@.subrange(0, i as int),
        decreases src@.len() - i,
    {
        out.push(src[i]);
        i = i + 1;
        proof {
            assert(out@ =~= src@.subrange(0, i as int));
        }
    }
    proof {
        assert(out@ =~= src@);
    }
    out
}

/// Success of a run: the tool must not have timed out, must have exited
/// zero, and the declared output must exist and be non-empty.
pub open spec fn spec_run_succeeded(
    outcome: ExecutionOutcome,
    output_exists: bool,
    output_len: u64,
) -> bool {
    &&& !outcome.timed_out
    &&& outcome.exit_success
    &&& output_exists
    &&& output_len > 0
}

/// Classifies a run of the external tool, checked in this order: timeout,
/// non-zero exit (carrying the tool's standard error), missing output,
/// empty output.
pub fn evaluate_outcome(outcome: &ExecutionOutcome, output_exists: bool, output_len: u64) -> (r:
    Result<(), ExtractError>)
    ensures
        r is Ok <==> spec_run_succeeded(*outcome, output_exists, output_len),
        outcome.timed_out ==> r == Result::<(), ExtractError>::Err(ExtractError::TimeoutError),
        !outcome.timed_out && !outcome.exit_success ==> (r matches Err(
            ExtractError::ExecutionFailed(e),
        ) && e@ == outcome.stderr@),
        !outcome.timed_out && outcome.exit_success && !output_exists ==> r == Result::<
            (),
            ExtractError,
        >::Err(ExtractError::OutputMissing),
        !outcome.timed_out && outcome.exit_success && output_exists && output_len == 0 ==> r
            == Result::<(), ExtractError>::Err(ExtractError::OutputEmpty),
{
    if outcome.timed_out {
        Err(ExtractError::TimeoutError)
    } else if !outcome.exit_success {
        Err(ExtractError::ExecutionFailed(copy_bytes(&outcome.stderr)))
    } else if !output_exists {
        Err(ExtractError::OutputMissing)
    } else if output_len == 0 {
        Err(ExtractError::OutputEmpty)
    } else {
        Ok(())
    }
}

} // verus!

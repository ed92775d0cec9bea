//! Error taxonomy and the result record of one conversion attempt.

use vstd::prelude::*;

verus! {

/// Everything that can go wrong during one conversion request.
#[derive(Clone, Copy, Debug, PartialEq, Eq, Structural)]
pub enum ConvError {
    /// The input path does not name an existing file.
    InputNotFound,
    /// The requested profile name is not in the table.
    ProfileNotFound,
    /// The external tool exited with a non-zero status.
    EncodingFailed,
    /// The separator's output file was missing or ambiguous.
    OutputNotLocated,
    /// A directory could not be created, read, or a file renamed.
    FilesystemError,
}

/// Mathematical image of a `ConversionOutcome`.
pub struct OutcomeSpec {
    pub success: bool,
    pub output_path: Option<Seq<char>>,
    pub failure: Option<ConvError>,
}

/// What one conversion attempt came to: either the path of the file it
/// produced, or the reason it failed.
#[derive(Debug)]
pub struct ConversionOutcome {
    pub success: bool,
    pub output_path: Option<String>,
    pub failure: Option<ConvError>,
}

impl View for ConversionOutcome {
    type V = OutcomeSpec;

    open spec fn view(&self) -> OutcomeSpec {
        OutcomeSpec {
            success: self.success,
            output_path: match self.output_path {
                Some(ref p) => Some(p@),
                None => None,
            },
            failure: self.failure,
        }
    }
}

impl DeepView for ConversionOutcome {
    type V = OutcomeSpec;

    open spec fn deep_view(&self) -> OutcomeSpec {
        self@
    }
}

/// The successful outcome that produced `output_path`.
pub open spec fn success_spec(output_path: Seq<char>) -> OutcomeSpec {
    OutcomeSpec { success: true, output_path: Some(output_path), failure: None }
}

/// The outcome that failed for reason `e`.
pub open spec fn failure_spec(e: ConvError) -> OutcomeSpec {
    OutcomeSpec { success: false, output_path: None, failure: Some(e) }
}

/// An outcome is well formed when it succeeded with an output path and
/// no failure, or failed with a reason and no output path.
pub open spec fn outcome_wf(o: OutcomeSpec) -> bool {
    if o.success {
        o.output_path is Some && o.failure is None
    } else {
        o.output_path is None && o.failure is Some
    }
}

/// The successful outcome that produced `output_path`.
pub fn success_outcome(output_path: &str) -> (o: ConversionOutcome)
    ensures
        o@ == success_spec(output_path@),
        outcome_wf(o@),
{
    ConversionOutcome { success: true, output_path: Some(output_path.to_owned()), failure: None }
}

/// The outcome that failed for reason `e`.
pub fn failure_outcome(e: ConvError) -> (o: ConversionOutcome)
    ensures
        o@ == failure_spec(e),
        outcome_wf(o@),
{
    ConversionOutcome { success: false, output_path: None, failure: Some(e) }
}

/// Outcome of a plain encoder run: the exit status decides, and a
/// non-zero exit is reported as `EncodingFailed`.
pub fn encoder_outcome(exit_success: bool, output_path: &str) -> (o: ConversionOutcome)
    ensures
        exit_success ==> o@ == success_spec(output_path@),
        !exit_success ==> o@ == failure_spec(ConvError::EncodingFailed),
        outcome_wf(o@),
{
    if exit_success {
        success_outcome(output_path)
    } else {
        failure_outcome(ConvError::EncodingFailed)
    }
}

/// Outcome of the rename that ends an AI-separation run: a failed
/// rename is a `FilesystemError`.
pub fn rename_outcome(rename_ok: bool, output_path: &str) -> (o: ConversionOutcome)
    ensures
        rename_ok ==> o@ == success_spec(output_path@),
        !rename_ok ==> o@ == failure_spec(ConvError::FilesystemError),
        outcome_wf(o@),
{
    if rename_ok {
        success_outcome(output_path)
    } else {
        failure_outcome(ConvError::FilesystemError)
    }
}

} // verus!

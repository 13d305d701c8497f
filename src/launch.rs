//! Starting a build: every check that can refuse a validated profile
//! happens here, before the first stage runs, and in a fixed order.
use vstd::prelude::*;
use crate::pipeline::{build_plan, spec_plan, Stage, StagePlanView};
use crate::profile::{Profile, ValidationError};
use crate::resolver::{Unsupported, Workspace};
use crate::runner::{spec_start, view_wf, Failure, Runner};
use crate::text::views;

verus! {

/// Why a build did not produce an image.
pub enum BuildError {
    /// The profile breaks a rule of the data model.
    Validation(ValidationError),
    /// The profile's attributes have no command.
    Unsupported(Unsupported),
    /// The container runtime is missing.
    EnvironmentUnavailable,
    /// An action of a stage failed.
    StageFailed { stage: Stage, failure: Failure },
}

/// Resolves the whole plan of a build, then checks that the container
/// runtime is there; only then is a runner handed out, positioned at the
/// first action. An unsupported combination is reported before a missing
/// runtime.
pub fn start(p: &Profile, ws: &Workspace, scripts: &Vec<String>, files_present: bool, runtime_available: bool) -> (r: Result<Runner, BuildError>)
    ensures
        match r {
            Ok(runner) => {
                &&& runtime_available
                &&& spec_plan(*p, *ws, views(scripts@), files_present) is Ok
                &&& runner@ == spec_start(spec_plan(*p, *ws, views(scripts@), files_present)->Ok_0)
                &&& runner.wf()
                &&& view_wf(runner@)
            },
            Err(BuildError::Unsupported(e)) => spec_plan(*p, *ws, views(scripts@), files_present) == Err::<Seq<StagePlanView>, Unsupported>(e),
            Err(BuildError::EnvironmentUnavailable) => spec_plan(*p, *ws, views(scripts@), files_present) is Ok && !runtime_available,
            Err(_) => false,
        },
{
    let plan = match build_plan(p, ws, scripts, files_present) {
        Ok(plan) => plan,
        Err(e) => return Err(BuildError::Unsupported(e)),
    };
    if !runtime_available {
        return Err(BuildError::EnvironmentUnavailable);
    }
    Ok(Runner::new(plan))
}

} // verus!

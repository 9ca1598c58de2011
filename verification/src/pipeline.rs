//! The pure head of one processing run: everything decidable before any
//! byte of video is transferred — descriptor construction, loop planning
//! and path choice — is settled here, all-or-nothing, so the transfer and
//! transcode edges only ever act on a fully planned run.

use crate::error::ClipError;
use crate::metadata::{build_descriptor, spec_complete, spec_descriptor, Coub, MetadataParts};
use crate::plan::{plan_loops, spec_divisor, spec_loops, spec_uses_concat, uses_concat, Budget};
use vstd::prelude::*;

verus! {

/// Everything one run needs before its first transfer: the frozen
/// descriptor, and the loop count planned against the caller's budget.
#[derive(Debug)]
pub struct RunPlan {
    pub coub: Coub,
    /// Planned loop count; 0 and 1 select the single-pass path.
    pub loops: u64,
}

impl RunPlan {
    /// Whether this run takes the concatenation path rather than the
    /// single-pass one.
    pub fn uses_concat(&self) -> (r: bool)
        ensures
            r == spec_uses_concat(self.loops),
    {
        uses_concat(self.loops)
    }
}

/// The outcome planning owes for every input: incomplete metadata fails
/// with `ClipError::Fetch` before any loop count is computed, a zero
/// divisor fails with `ClipError::Plan`, and everything else yields the
/// descriptor with its planned count.
pub open spec fn spec_plan_run(id: String, parts: MetadataParts, budget: Budget) -> Result<
    RunPlan,
    ClipError,
> {
    if !spec_complete(parts) {
        Err(ClipError::Fetch)
    } else {
        let c = spec_descriptor(id, parts);
        if spec_divisor(budget, c) == 0 {
            Err(ClipError::Plan)
        } else {
            Ok(RunPlan { coub: c, loops: spec_loops(budget, c) as u64 })
        }
    }
}

/// Plan a whole run from a resolved identifier, the extracted metadata
/// fields and the caller's budget. Nothing downstream — no fetch of the
/// variant URLs, no temporary file — is owed until this returns `Ok`.
pub fn plan_run(id: String, parts: MetadataParts, budget: Budget) -> (r: Result<
    RunPlan,
    ClipError,
>)
    ensures
        r == spec_plan_run(id, parts, budget),
{
    let coub = match build_descriptor(id, parts) {
        Ok(c) => c,
        Err(e) => return Err(e),
    };
    let loops = match plan_loops(budget, &coub) {
        Ok(n) => n,
        Err(e) => return Err(e),
    };
    Ok(RunPlan { coub, loops })
}

/// A metadata response with no video variant at all fails the run with
/// `ClipError::Fetch`: no descriptor is built, no loop count is computed,
/// and the later stages have nothing to act on.
pub proof fn lemma_missing_video_fails(id: String, parts: MetadataParts, budget: Budget)
    requires
        parts.video.high is None,
        parts.video.med is None,
    ensures
        spec_plan_run(id, parts, budget) == Err::<RunPlan, ClipError>(ClipError::Fetch),
{
}

} // verus!

//! A verified core for fetching short looping video clips: identifier
//! resolution, metadata validation and quality selection, in-flight byte
//! patching of the downloaded stream, loop-count planning against a size or
//! duration budget, and construction of the external transcoder invocation.
//!
//! Network transfer and process spawning live outside this crate; every
//! decision and transformation between those edges is verified here.

mod error;
mod metadata;
mod patch;
mod pipeline;
mod plan;
mod resolve;
mod transcode;

pub use error::ClipError;
pub use patch::{
    lemma_patch_append, lemma_patch_from_min, lemma_patched_bytes, patch_chunks, patch_from,
    patch_payload, patched, Patcher,
};
pub use metadata::{
    build_descriptor, lemma_selection_order, select_variant, spec_complete, spec_descriptor,
    spec_select, Coub, MetadataParts, Variant, VariantSet,
};
pub use pipeline::{lemma_missing_video_fails, plan_run, spec_plan_run, RunPlan};
pub use plan::{
    lemma_over_budget_single_pass, lemma_size_loops_capped, loops_for_duration, loops_for_size,
    plan_loops, spec_divisor, spec_duration_loops, spec_loops, spec_size_loops, spec_uses_concat,
    uses_concat, Budget, LOOP_CAP,
};
pub use resolve::{last_nonempty, pick_last_nonempty, resolve_identifier, resolved_id, url_path_segments};
pub use transcode::{
    build_concat_args, build_single_args, interpret_exit, lemma_overwrite_flag, playlist_content,
    playlist_line, repeat_seq, spec_concat_args, spec_single_args,
};

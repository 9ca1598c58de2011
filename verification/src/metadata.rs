//! Clip metadata: quality variants, the fields extracted from a metadata
//! response, and the frozen descriptor that one processing run works from.

use vstd::prelude::*;
use crate::error::ClipError;

verus! {

/// One quality-labelled rendition of audio or video: where to fetch it and
/// how many bytes the source reports for it.
#[derive(Debug)]
pub struct Variant {
    pub url: String,
    pub size: u64,
}

/// The variants offered for one media kind, keyed by the two known quality
/// labels. Consumed by selection and never retained beyond it.
#[derive(Debug)]
pub struct VariantSet {
    pub high: Option<Variant>,
    pub med: Option<Variant>,
}

/// The fields a metadata response may carry, each still optional: extraction
/// into a descriptor is all-or-nothing.
#[derive(Debug)]
pub struct MetadataParts {
    pub title: Option<String>,
    /// Clip length in whole milliseconds.
    pub duration_ms: Option<u64>,
    pub audio: VariantSet,
    pub video: VariantSet,
}

/// A frozen snapshot of what to download for one run: the variant URLs are
/// chosen once, at construction, and never re-selected.
#[derive(Debug)]
pub struct Coub {
    pub id: String,
    pub title: String,
    /// URL of the chosen video variant.
    pub video: String,
    /// URL of the chosen audio variant.
    pub audio: String,
    /// Clip length in whole milliseconds, as the source reported it.
    pub duration_ms: u64,
    /// Bytes of the chosen video variant, as the source reported it.
    pub size: u64,
}

/// The selection rule for one media kind: the "high" entry when present,
/// else the "med" entry, else nothing.
pub open spec fn spec_select(vs: VariantSet) -> Option<Variant> {
    if vs.high is Some {
        vs.high
    } else {
        vs.med
    }
}

/// Pick the best available variant under the fixed preference order: "high"
/// first, "med" as the only fallback; with neither present the selection
/// fails hard, and no URL is synthesized.
pub fn select_variant(vs: VariantSet) -> (r: Result<Variant, ClipError>)
    ensures
        (match r {
            Ok(v) => spec_select(vs) == Some(v),
            Err(e) => spec_select(vs) is None && e == ClipError::Fetch,
        }),
{
    match vs.high {
        Some(v) => Ok(v),
        None => match vs.med {
            Some(v) => Ok(v),
            None => Err(ClipError::Fetch),
        },
    }
}

/// A set with a "high" entry yields that entry regardless of what else is
/// present; one without it yields whatever "med" holds; one with neither
/// admits no selection.
pub proof fn lemma_selection_order(vs: VariantSet)
    ensures
        vs.high is Some ==> spec_select(vs) == vs.high,
        vs.high is None ==> spec_select(vs) == vs.med,
        vs.high is None && vs.med is None ==> spec_select(vs) is None,
{
}

/// Whether a response carries every field a descriptor needs: title,
/// duration, and at least one variant of each media kind.
pub open spec fn spec_complete(parts: MetadataParts) -> bool {
    &&& parts.title is Some
    &&& parts.duration_ms is Some
    &&& spec_select(parts.video) is Some
    &&& spec_select(parts.audio) is Some
}

/// The descriptor that a complete response determines: chosen URLs from the
/// selection rule, the size taken from the chosen video variant.
pub open spec fn spec_descriptor(id: String, parts: MetadataParts) -> Coub
    recommends
        spec_complete(parts),
{
    Coub {
        id: id,
        title: parts.title->Some_0,
        video: spec_select(parts.video)->Some_0.url,
        audio: spec_select(parts.audio)->Some_0.url,
        duration_ms: parts.duration_ms->Some_0,
        size: spec_select(parts.video)->Some_0.size,
    }
}

/// Build the frozen descriptor for one run from a resolved identifier and
/// the extracted metadata fields. Extraction is all-or-nothing: a missing
/// title, duration, or media kind fails with `ClipError::Fetch`, and no
/// partial descriptor is ever returned.
pub fn build_descriptor(id: String, parts: MetadataParts) -> (r: Result<Coub, ClipError>)
    ensures
        (match r {
            Ok(c) => spec_complete(parts) && c == spec_descriptor(id, parts),
            Err(e) => !spec_complete(parts) && e == ClipError::Fetch,
        }),
{
    let title = match parts.title {
        Some(t) => t,
        None => return Err(ClipError::Fetch),
    };
    let duration_ms = match parts.duration_ms {
        Some(d) => d,
        None => return Err(ClipError::Fetch),
    };
    let video = match select_variant(parts.video) {
        Ok(v) => v,
        Err(e) => return Err(e),
    };
    let audio = match select_variant(parts.audio) {
        Ok(v) => v,
        Err(e) => return Err(e),
    };
    Ok(Coub {
        id: id,
        title: title,
        video: video.url,
        audio: audio.url,
        duration_ms: duration_ms,
        size: video.size,
    })
}

} // verus!

//! The pipeline orchestrator: applies the default subject and kind,
//! validates the requested dimensions, rejects unsupported (subject,
//! kind) pairs before anything else runs, selects the source image and
//! builds the source and output paths. The result is a plan that the
//! caller completes by reading the source file, rendering it with the
//! resizer, and writing the output file; this module itself touches no
//! filesystem. Every call is independent: the plan is a pure function of
//! the inputs, which is what makes the cache path reusable. Two
//! concurrent requests with the same inputs may both regenerate the same
//! output path; that race is accepted, since both write identical
//! content.

use vstd::prelude::*;

use crate::catalog::get_image_count;
use crate::catalog::spec_image_count;
use crate::catalog::ImageKind;
use crate::catalog::Subject;
use crate::error::ServeError;
use crate::paths::output_dir;
use crate::paths::output_path;
use crate::paths::source_path;
use crate::paths::spec_output_dir;
use crate::paths::spec_output_path;
use crate::paths::spec_source_path;
use crate::selector::select_index;
use crate::selector::spec_select_index;
use crate::selector::spec_use_fast_filter;
use crate::selector::use_fast_filter;
use crate::selector::MAX_DIMENSION_SUM;

verus! {

/// Everything the caller needs to complete one request: which source
/// image to read, how to resize, and where the output belongs.
#[derive(Debug)]
pub struct ImagePlan {
    /// The subject after the default was applied.
    pub subject: Subject,
    /// The kind after the default was applied.
    pub kind: ImageKind,
    /// The 1-based index of the selected source image.
    pub index: u32,
    /// Whether the fast, lower-quality resampling filter is to be used.
    pub fast_filter: bool,
    /// The path of the selected source image.
    pub source_path: String,
    /// The directory that must exist before the output is written.
    pub output_dir: String,
    /// The path the generated output is written to.
    pub output_path: String,
}

/// The subject a request with none given falls back to.
pub open spec fn spec_effective_subject(subject_opt: Option<Subject>) -> Subject {
    match subject_opt {
        Some(s) => s,
        None => Subject::Cage,
    }
}

/// The kind a request with none given falls back to.
pub open spec fn spec_effective_kind(kind_opt: Option<ImageKind>) -> ImageKind {
    match kind_opt {
        Some(k) => k,
        None => ImageKind::Default,
    }
}

/// A request is admitted exactly when the dimension sum is within the
/// maximum and the catalog supports the (subject, kind) pair.
pub open spec fn spec_request_ok(width: u32, height: u32, subject: Subject, kind: ImageKind) -> bool {
    width + height <= MAX_DIMENSION_SUM && spec_image_count(subject, kind) > 0
}

/// The plan for an admitted request, field by field, as a function of the
/// inputs alone.
pub open spec fn plan_matches(
    plan: ImagePlan,
    base: Seq<char>,
    width: u32,
    height: u32,
    subject: Subject,
    kind: ImageKind,
) -> bool {
    &&& plan.subject == subject
    &&& plan.kind == kind
    &&& plan.index == spec_select_index(width, height, spec_image_count(subject, kind))
    &&& plan.fast_filter == spec_use_fast_filter(width, height)
    &&& plan.source_path@ == spec_source_path(base, subject, kind, plan.index)
    &&& plan.output_dir@ == spec_output_dir(base, subject, kind)
    &&& plan.output_path@ == spec_output_path(base, subject, kind, width, height)
}

/// Validates a request and plans its execution. Missing subject or kind
/// fall back to the defaults; a dimension sum over the maximum or an
/// unsupported (subject, kind) pair is rejected as InvalidInput before
/// any further work; otherwise the selected index and all paths are
/// computed. Pure: no filesystem access, no state across calls.
pub fn plan_request(
    base: &str,
    width: u32,
    height: u32,
    subject_opt: Option<Subject>,
    kind_opt: Option<ImageKind>,
) -> (r: Result<ImagePlan, ServeError>)
    ensures
        r is Ok <==> spec_request_ok(
            width,
            height,
            spec_effective_subject(subject_opt),
            spec_effective_kind(kind_opt),
        ),
        r is Err ==> r.unwrap_err() == ServeError::InvalidInput,
        r is Ok ==> plan_matches(
            r.unwrap(),
            base@,
            width,
            height,
            spec_effective_subject(subject_opt),
            spec_effective_kind(kind_opt),
        ),
{
    let subject = match subject_opt {
        Some(s) => s,
        None => Subject::Cage,
    };
    let kind = match kind_opt {
        Some(k) => k,
        None => ImageKind::Default,
    };
    if (width as u64) + (height as u64) > (MAX_DIMENSION_SUM as u64) {
        return Err(ServeError::InvalidInput);
    }
    let image_count = get_image_count(subject, kind);
    if image_count == 0 {
        return Err(ServeError::InvalidInput);
    }
    let index = select_index(width, height, image_count);
    Ok(
        ImagePlan {
            subject,
            kind,
            index,
            fast_filter: use_fast_filter(width, height),
            source_path: source_path(base, subject, kind, index),
            output_dir: output_dir(base, subject, kind),
            output_path: output_path(base, subject, kind, width, height),
        },
    )
}

/// Law: planning is deterministic. Any two plans that an admitted request
/// with the same base, dimensions, subject and kind gives rise to select
/// the same source image and name the same paths; repeated identical
/// requests therefore regenerate the same output path.
pub proof fn lemma_plan_deterministic(
    plan1: ImagePlan,
    plan2: ImagePlan,
    base: Seq<char>,
    width: u32,
    height: u32,
    subject: Subject,
    kind: ImageKind,
)
    requires
        plan_matches(plan1, base, width, height, subject, kind),
        plan_matches(plan2, base, width, height, subject, kind),
    ensures
        plan1.subject == plan2.subject,
        plan1.kind == plan2.kind,
        plan1.index == plan2.index,
        plan1.fast_filter == plan2.fast_filter,
        plan1.source_path@ == plan2.source_path@,
        plan1.output_dir@ == plan2.output_dir@,
        plan1.output_path@ == plan2.output_path@,
{
}

/// Law: the cache key never collides. Plans of two admitted requests
/// against the same base directory share their output path only when the
/// requests agree on subject, kind, width and height; one cached output
/// can never be overwritten by a request for a different key.
pub proof fn lemma_distinct_keys_distinct_outputs(
    plan1: ImagePlan,
    plan2: ImagePlan,
    base: Seq<char>,
    width1: u32,
    height1: u32,
    subject1: Subject,
    kind1: ImageKind,
    width2: u32,
    height2: u32,
    subject2: Subject,
    kind2: ImageKind,
)
    requires
        plan_matches(plan1, base, width1, height1, subject1, kind1),
        plan_matches(plan2, base, width2, height2, subject2, kind2),
        plan1.output_path@ == plan2.output_path@,
    ensures
        subject1 == subject2,
        kind1 == kind2,
        width1 == width2,
        height1 == height2,
{
    crate::paths::lemma_output_path_collision_free(
        base,
        subject1,
        kind1,
        width1,
        height1,
        subject2,
        kind2,
        width2,
        height2,
    );
}

/// Law: a request that leaves the kind unspecified behaves identically to
/// one that names the default kind explicitly, and likewise for the
/// subject: every clause of plan_request's contract — admission and the
/// whole plan — is the same under either spelling.
pub proof fn lemma_default_fallback(
    plan: ImagePlan,
    base: Seq<char>,
    width: u32,
    height: u32,
    subject: Subject,
    kind: ImageKind,
)
    ensures
        spec_effective_kind(None::<ImageKind>) == spec_effective_kind(Some(ImageKind::Default)),
        spec_effective_subject(None::<Subject>) == spec_effective_subject(Some(Subject::Cage)),
        spec_request_ok(width, height, subject, spec_effective_kind(None::<ImageKind>))
            == spec_request_ok(width, height, subject, spec_effective_kind(Some(ImageKind::Default))),
        plan_matches(plan, base, width, height, subject, spec_effective_kind(None::<ImageKind>))
            == plan_matches(
            plan,
            base,
            width,
            height,
            subject,
            spec_effective_kind(Some(ImageKind::Default)),
        ),
        spec_request_ok(width, height, spec_effective_subject(None::<Subject>), kind)
            == spec_request_ok(width, height, spec_effective_subject(Some(Subject::Cage)), kind),
        plan_matches(plan, base, width, height, spec_effective_subject(None::<Subject>), kind)
            == plan_matches(
            plan,
            base,
            width,
            height,
            spec_effective_subject(Some(Subject::Cage)),
            kind,
        ),
{
}

} // verus!

use placepix::catalog::ImageKind;
use placepix::catalog::Subject;
use placepix::error::ServeError;
use placepix::pipeline::plan_request;

const BASE: &str = "./images";

#[test]
fn end_to_end_plan() {
    let plan = plan_request(BASE, 100, 200, Some(Subject::Cage), Some(ImageKind::Default))
        .expect("supported request within bounds");
    assert_eq!(plan.subject, Subject::Cage);
    assert_eq!(plan.kind, ImageKind::Default);
    // 33 catalog entries; ((100 + 200) mod 33) + 1
    assert_eq!(plan.index, 4);
    assert!(!plan.fast_filter);
    assert_eq!(plan.source_path, "./images/source/cage/default/4.jpg");
    assert_eq!(plan.output_dir, "./images/_gen/cage/default");
    assert_eq!(plan.output_path, "./images/_gen/cage/default/100x200.jpg");
}

#[test]
fn boundary_sum_is_admitted() {
    let plan = plan_request(BASE, 3500, 3500, Some(Subject::Cage), Some(ImageKind::Default))
        .expect("width + height == 7000 is admitted");
    assert!(plan.fast_filter);
    assert_eq!(plan.output_path, "./images/_gen/cage/default/3500x3500.jpg");
}

#[test]
fn over_boundary_sum_is_invalid_input() {
    let err = plan_request(BASE, 3500, 3501, Some(Subject::Cage), Some(ImageKind::Default))
        .unwrap_err();
    assert_eq!(err, ServeError::InvalidInput);
}

#[test]
fn huge_dimensions_are_invalid_input() {
    let err = plan_request(BASE, u32::MAX, u32::MAX, None, None).unwrap_err();
    assert_eq!(err, ServeError::InvalidInput);
}

#[test]
fn unsupported_pair_is_invalid_input() {
    let err = plan_request(BASE, 100, 200, Some(Subject::Murray), Some(ImageKind::Crazy))
        .unwrap_err();
    assert_eq!(err, ServeError::InvalidInput);
    let err = plan_request(BASE, 0, 0, Some(Subject::Segall), Some(ImageKind::Gif)).unwrap_err();
    assert_eq!(err, ServeError::InvalidInput);
}

#[test]
fn missing_kind_falls_back_to_default() {
    let implicit = plan_request(BASE, 640, 480, Some(Subject::Murray), None)
        .expect("murray/default is supported");
    let explicit = plan_request(BASE, 640, 480, Some(Subject::Murray), Some(ImageKind::Default))
        .expect("murray/default is supported");
    assert_eq!(implicit.subject, explicit.subject);
    assert_eq!(implicit.kind, explicit.kind);
    assert_eq!(implicit.index, explicit.index);
    assert_eq!(implicit.fast_filter, explicit.fast_filter);
    assert_eq!(implicit.source_path, explicit.source_path);
    assert_eq!(implicit.output_dir, explicit.output_dir);
    assert_eq!(implicit.output_path, explicit.output_path);
}

#[test]
fn missing_subject_falls_back_to_cage() {
    let plan = plan_request(BASE, 10, 20, None, None).expect("cage/default is supported");
    assert_eq!(plan.subject, Subject::Cage);
    assert_eq!(plan.kind, ImageKind::Default);
    assert_eq!(plan.output_path, "./images/_gen/cage/default/10x20.jpg");
}

#[test]
fn planning_is_deterministic() {
    let first = plan_request(BASE, 123, 456, Some(Subject::Cage), Some(ImageKind::Gif))
        .expect("cage/gif is supported");
    let second = plan_request(BASE, 123, 456, Some(Subject::Cage), Some(ImageKind::Gif))
        .expect("cage/gif is supported");
    assert_eq!(first.index, second.index);
    assert_eq!(first.source_path, second.source_path);
    assert_eq!(first.output_path, second.output_path);
}

#[test]
fn error_descriptions() {
    assert_eq!(ServeError::InvalidInput.describe(), "invalid input");
    assert_eq!(ServeError::DecodeError.describe(), "decode error");
    assert_eq!(ServeError::EncodeError.describe(), "encode error");
    assert_eq!(ServeError::WriteError.describe(), "write error");
    assert_eq!(ServeError::UnsupportedOperation.describe(), "unsupported operation");
}

use placepix::catalog::get_image_count;
use placepix::catalog::ImageKind;
use placepix::catalog::Subject;

#[test]
fn counts_of_supported_pairs() {
    assert_eq!(get_image_count(Subject::Cage, ImageKind::Default), 33);
    assert_eq!(get_image_count(Subject::Cage, ImageKind::Crazy), 23);
    assert_eq!(get_image_count(Subject::Cage, ImageKind::Gif), 43);
    assert_eq!(get_image_count(Subject::Murray, ImageKind::Default), 23);
    assert_eq!(get_image_count(Subject::Segall, ImageKind::Default), 30);
}

#[test]
fn counts_of_unsupported_pairs_are_zero() {
    assert_eq!(get_image_count(Subject::Murray, ImageKind::Crazy), 0);
    assert_eq!(get_image_count(Subject::Murray, ImageKind::Gif), 0);
    assert_eq!(get_image_count(Subject::Segall, ImageKind::Crazy), 0);
    assert_eq!(get_image_count(Subject::Segall, ImageKind::Gif), 0);
}

#[test]
fn subject_tokens() {
    assert_eq!(Subject::Cage.token(), "cage");
    assert_eq!(Subject::Murray.token(), "murray");
    assert_eq!(Subject::Segall.token(), "segall");
}

#[test]
fn kind_tokens() {
    assert_eq!(ImageKind::Default.token(), "default");
    assert_eq!(ImageKind::Crazy.token(), "crazy");
    assert_eq!(ImageKind::Gif.token(), "gif");
}

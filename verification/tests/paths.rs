use placepix::catalog::ImageKind;
use placepix::catalog::Subject;
use placepix::paths::decimal_string;
use placepix::paths::output_dir;
use placepix::paths::output_path;
use placepix::paths::source_path;

#[test]
fn decimal_numerals() {
    assert_eq!(decimal_string(0), "0");
    assert_eq!(decimal_string(7), "7");
    assert_eq!(decimal_string(10), "10");
    assert_eq!(decimal_string(305), "305");
    assert_eq!(decimal_string(7000), "7000");
    assert_eq!(decimal_string(u32::MAX), "4294967295");
}

#[test]
fn source_path_layout() {
    assert_eq!(
        source_path("./images", Subject::Cage, ImageKind::Default, 4),
        "./images/source/cage/default/4.jpg"
    );
    assert_eq!(
        source_path("/srv/img", Subject::Murray, ImageKind::Default, 23),
        "/srv/img/source/murray/default/23.jpg"
    );
    assert_eq!(
        source_path("base", Subject::Segall, ImageKind::Gif, 1),
        "base/source/segall/gif/1.jpg"
    );
}

#[test]
fn output_dir_layout() {
    assert_eq!(
        output_dir("./images", Subject::Cage, ImageKind::Crazy),
        "./images/_gen/cage/crazy"
    );
}

#[test]
fn output_path_layout() {
    assert_eq!(
        output_path("./images", Subject::Cage, ImageKind::Default, 100, 200),
        "./images/_gen/cage/default/100x200.jpg"
    );
    assert_eq!(
        output_path("/srv/img", Subject::Segall, ImageKind::Default, 0, 7000),
        "/srv/img/_gen/segall/default/0x7000.jpg"
    );
}

#[test]
fn distinct_keys_name_distinct_paths() {
    let keys = [
        (Subject::Cage, ImageKind::Default, 100u32, 200u32),
        (Subject::Cage, ImageKind::Default, 200, 100),
        (Subject::Cage, ImageKind::Default, 10, 2),
        (Subject::Cage, ImageKind::Default, 102, 0),
        (Subject::Cage, ImageKind::Crazy, 100, 200),
        (Subject::Cage, ImageKind::Gif, 100, 200),
        (Subject::Murray, ImageKind::Default, 100, 200),
        (Subject::Segall, ImageKind::Default, 100, 200),
    ];
    for (i, a) in keys.iter().enumerate() {
        for (j, b) in keys.iter().enumerate() {
            let pa = output_path("./images", a.0, a.1, a.2, a.3);
            let pb = output_path("./images", b.0, b.1, b.2, b.3);
            assert_eq!(i == j, pa == pb);
        }
    }
}

#[test]
fn distinct_indices_name_distinct_source_paths() {
    let one = source_path("./images", Subject::Cage, ImageKind::Default, 1);
    let eleven = source_path("./images", Subject::Cage, ImageKind::Default, 11);
    let murray = source_path("./images", Subject::Murray, ImageKind::Default, 1);
    assert_ne!(one, eleven);
    assert_ne!(one, murray);
}

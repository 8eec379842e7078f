//! The catalog registry: the closed set of subjects and image kinds, the
//! lowercase token of each, and the fixed count of source images that each
//! (subject, kind) pair offers. A count of zero means the pair is
//! unsupported and must be rejected before any further work.

use vstd::prelude::*;

verus! {

/// A named photo collection.
#[derive(Clone, Copy, Debug, PartialEq, Eq, Structural)]
pub enum Subject {
    Cage,
    Murray,
    Segall,
}

/// A style variant within a subject's collection.
#[derive(Clone, Copy, Debug, PartialEq, Eq, Structural)]
pub enum ImageKind {
    Default,
    Crazy,
    Gif,
}

impl Subject {
    /// The lowercase path token of this subject.
    pub open spec fn spec_token(self) -> Seq<char> {
        match self {
            Subject::Cage => "cage"@,
            Subject::Murray => "murray"@,
            Subject::Segall => "segall"@,
        }
    }

    /// The lowercase path token of this subject.
    pub fn token(self) -> (r: &'static str)
        ensures
            r@ == self.spec_token(),
    {
        match self {
            Subject::Cage => "cage",
            Subject::Murray => "murray",
            Subject::Segall => "segall",
        }
    }
}

impl ImageKind {
    /// The lowercase path token of this kind.
    pub open spec fn spec_token(self) -> Seq<char> {
        match self {
            ImageKind::Default => "default"@,
            ImageKind::Crazy => "crazy"@,
            ImageKind::Gif => "gif"@,
        }
    }

    /// The lowercase path token of this kind.
    pub fn token(self) -> (r: &'static str)
        ensures
            r@ == self.spec_token(),
    {
        match self {
            ImageKind::Default => "default",
            ImageKind::Crazy => "crazy",
            ImageKind::Gif => "gif",
        }
    }
}

/// The number of source images the catalog holds for a (subject, kind)
/// pair. Zero marks an unsupported pair.
pub open spec fn spec_image_count(subject: Subject, kind: ImageKind) -> u32 {
    match (subject, kind) {
        (Subject::Cage, ImageKind::Crazy) => 23,
        (Subject::Cage, ImageKind::Default) => 33,
        (Subject::Cage, ImageKind::Gif) => 43,
        (Subject::Murray, ImageKind::Default) => 23,
        (Subject::Segall, ImageKind::Default) => 30,
        _ => 0,
    }
}

/// Looks up how many source images the catalog holds for a (subject, kind)
/// pair; zero signals an unsupported pair and must be rejected by the
/// caller before the selector runs.
pub fn get_image_count(subject: Subject, kind: ImageKind) -> (r: u32)
    ensures
        r == spec_image_count(subject, kind),
{
    match (subject, kind) {
        (Subject::Cage, ImageKind::Crazy) => 23,
        (Subject::Cage, ImageKind::Default) => 33,
        (Subject::Cage, ImageKind::Gif) => 43,
        (Subject::Murray, ImageKind::Default) => 23,
        (Subject::Segall, ImageKind::Default) => 30,
        _ => 0,
    }
}

} // verus!

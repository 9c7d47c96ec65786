//! What a target's architecture adds to the build of the support library.

use crate::text::{contains, has_substring};
use vstd::prelude::*;

verus! {

/// What an architecture adds to a build.
#[verifier::ext_equal]
pub struct Additions {
    /// Macros to define, each with its optional value.
    pub definitions: Seq<(Seq<char>, Option<Seq<char>>)>,
    /// Directories, named relative to the support library's root, whose
    /// sources are compiled too.
    pub source_dirs: Seq<Seq<char>>,
    /// Flags to pass where the compiler accepts them.
    pub flags: Seq<Seq<char>>,
}

impl Additions {
    /// Nothing is added.
    pub open spec fn none() -> Additions {
        Additions { definitions: Seq::empty(), source_dirs: Seq::empty(), flags: Seq::empty() }
    }

    /// The macro and the directory of the code that uses CPU intrinsics,
    /// with the flags that enable them.
    pub open spec fn intrinsics(flags: Seq<Seq<char>>) -> Additions {
        Additions {
            definitions: seq![("SOUP_USE_INTRIN"@, None::<Seq<char>>)],
            source_dirs: seq!["Intrin"@],
            flags,
        }
    }
}

/// The triple names a CPU for which the support library has code that uses
/// intrinsics.
pub open spec fn has_intrinsics(target: Seq<char>) -> bool {
    has_substring(target, "x86_64"@) || has_substring(target, "aarch64"@)
}

/// The additions for a target triple. A triple that names both
/// architectures counts as x86-64.
pub open spec fn additions_for(target: Seq<char>) -> Additions {
    if has_substring(target, "x86_64"@) {
        Additions::intrinsics(
            seq!["-maes"@, "-mpclmul"@, "-mrdrnd"@, "-mrdseed"@, "-msha"@, "-msse4.1"@],
        )
    } else if has_substring(target, "aarch64"@) {
        Additions::intrinsics(seq!["-march=armv8-a+crypto+crc"@])
    } else {
        Additions::none()
    }
}

/// The dispatch is total and its cases exclude each other: a triple gets
/// the intrinsics macro and the intrinsics directory exactly if it names
/// x86-64 or AArch64, and nothing at all exactly if it names neither.
pub proof fn lemma_dispatch_exclusive(target: Seq<char>)
    ensures
        has_intrinsics(target) <==> additions_for(target).definitions == seq![
            ("SOUP_USE_INTRIN"@, None::<Seq<char>>),
        ] && additions_for(target).source_dirs == seq!["Intrin"@],
        !has_intrinsics(target) <==> additions_for(target) == Additions::none(),
{
    // A list of one macro is not the empty list.
    assert(Additions::none().definitions.len() == 0);
}

/// What an architecture adds to a build, as values.
#[derive(Debug)]
pub struct Augmentation {
    pub definitions: Vec<(String, Option<String>)>,
    pub source_dirs: Vec<String>,
    pub flags: Vec<String>,
}

impl View for Augmentation {
    type V = Additions;

    open spec fn view(&self) -> Additions {
        Additions {
            definitions: self.definitions.deep_view(),
            source_dirs: self.source_dirs.deep_view(),
            flags: self.flags.deep_view(),
        }
    }
}

/// The additions that enable the intrinsics, with the given flags.
fn intrinsics(flags: Vec<String>) -> (aug: Augmentation)
    ensures
        aug@ == Additions::intrinsics(flags.deep_view()),
{
    let mut definitions: Vec<(String, Option<String>)> = Vec::new();
    definitions.push(("SOUP_USE_INTRIN".to_owned(), None));
    let mut source_dirs: Vec<String> = Vec::new();
    source_dirs.push("Intrin".to_owned());
    Augmentation { definitions, source_dirs, flags }
}

/// The additions for `target`: for an x86-64 or AArch64 triple the
/// intrinsics macro, the intrinsics directory and the CPU-feature flags of
/// that architecture; for every other triple nothing.
pub fn dispatch(target: &str) -> (aug: Augmentation)
    ensures
        aug@ == additions_for(target@),
        has_intrinsics(target@) ==> aug@.definitions == seq![
            ("SOUP_USE_INTRIN"@, None::<Seq<char>>),
        ] && aug@.source_dirs == seq!["Intrin"@],
        !has_intrinsics(target@) ==> aug@ == Additions::none(),
{
    let mut flags: Vec<String> = Vec::new();
    if contains(target, "x86_64") {
        flags.push("-maes".to_owned());
        flags.push("-mpclmul".to_owned());
        flags.push("-mrdrnd".to_owned());
        flags.push("-mrdseed".to_owned());
        flags.push("-msha".to_owned());
        flags.push("-msse4.1".to_owned());
        intrinsics(flags)
    } else if contains(target, "aarch64") {
        flags.push("-march=armv8-a+crypto+crc".to_owned());
        intrinsics(flags)
    } else {
        Augmentation { definitions: Vec::new(), source_dirs: Vec::new(), flags }
    }
}

} // verus!

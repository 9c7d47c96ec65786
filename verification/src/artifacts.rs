//! What a build produces, and the link metadata that tells Cargo of it.

use crate::text::{append, lemma_deep_view_push};
use vstd::prelude::*;

verus! {

/// What an `Artifacts` value holds.
#[verifier::ext_equal]
pub struct ArtifactsView {
    /// The directory that holds the libraries.
    pub lib_dir: Seq<char>,
    /// The names of the libraries, in link order.
    pub libs: Seq<Seq<char>>,
    /// The C++ runtime library to link by name, if any.
    pub cpp_stdlib: Option<Seq<char>>,
}

/// The directive that adds `lib_dir` to the search path of native libraries.
pub open spec fn search_directive(lib_dir: Seq<char>) -> Seq<char> {
    "cargo:rustc-link-search=native="@ + lib_dir
}

/// The directive that links the static library `lib`.
pub open spec fn static_directive(lib: Seq<char>) -> Seq<char> {
    "cargo:rustc-link-lib=static="@ + lib
}

/// The directive that links the library `lib`.
pub open spec fn link_directive(lib: Seq<char>) -> Seq<char> {
    "cargo:rustc-link-lib="@ + lib
}

/// The lines of link metadata: the search path, then one line for each
/// library in link order, then one for the C++ runtime library if it is
/// linked by name.
pub open spec fn metadata_lines(artifacts: ArtifactsView) -> Seq<Seq<char>> {
    seq![search_directive(artifacts.lib_dir)] + artifacts.libs.map_values(
        |lib: Seq<char>| static_directive(lib),
    ) + match artifacts.cpp_stdlib {
        Some(name) => seq![link_directive(name)],
        None => Seq::empty(),
    }
}

/// The result of a build: where the libraries are and how to link them.
#[derive(Debug)]
pub struct Artifacts {
    lib_dir: String,
    libs: Vec<String>,
    cpp_stdlib: Option<String>,
}

impl View for Artifacts {
    type V = ArtifactsView;

    closed spec fn view(&self) -> ArtifactsView {
        ArtifactsView {
            lib_dir: self.lib_dir@,
            libs: self.libs.deep_view(),
            cpp_stdlib: self.cpp_stdlib.deep_view(),
        }
    }
}

impl Artifacts {
    /// The artifacts of a build into `lib_dir`.
    pub(crate) fn new(
        lib_dir: String,
        libs: Vec<String>,
        cpp_stdlib: Option<String>,
    ) -> (artifacts: Artifacts)
        ensures
            artifacts@ == (ArtifactsView {
                lib_dir: lib_dir@,
                libs: libs.deep_view(),
                cpp_stdlib: cpp_stdlib.deep_view(),
            }),
    {
        Artifacts { lib_dir, libs, cpp_stdlib }
    }

    /// The directory that holds the libraries.
    pub fn lib_dir(&self) -> (dir: &str)
        ensures
            dir@ == self@.lib_dir,
    {
        self.lib_dir.as_str()
    }

    /// The names of the libraries, in link order.
    pub fn libs(&self) -> (libs: &[String])
        ensures
            libs.deep_view() == self@.libs,
    {
        self.libs.as_slice()
    }

    /// The C++ runtime library to link by name, if any.
    pub fn cpp_stdlib(&self) -> (name: Option<&str>)
        ensures
            name.deep_view() == self@.cpp_stdlib,
    {
        match &self.cpp_stdlib {
            Some(name) => Some(name.as_str()),
            None => None,
        }
    }

    /// The lines that tell Cargo how to link the libraries, one directive to
    /// a line, in the order in which they are to be printed.
    pub fn cargo_metadata(&self) -> (lines: Vec<String>)
        ensures
            lines.deep_view() == metadata_lines(self@),
    {
        let mut lines: Vec<String> = Vec::new();
        lines.push(append("cargo:rustc-link-search=native=", self.lib_dir.as_str()));
        let ghost search = seq![search_directive(self@.lib_dir)];
        let ghost link = |lib: Seq<char>| static_directive(lib);
        let mut i: usize = 0;
        while i < self.libs.len()
            invariant
                i <= self.libs.len(),
                search == seq![search_directive(self@.lib_dir)],
                link == |lib: Seq<char>| static_directive(lib),
                lines.deep_view() == search + self@.libs.take(i as int).map_values(link),
            decreases self.libs.len() - i,
        {
            let ghost before = lines;
            let line = append("cargo:rustc-link-lib=static=", self.libs[i].as_str());
            lines.push(line);
            proof {
                lemma_deep_view_push(before, lines, line);
            }
            i += 1;
        }
        if let Some(name) = &self.cpp_stdlib {
            let ghost before = lines;
            let line = append("cargo:rustc-link-lib=", name.as_str());
            lines.push(line);
            proof {
                lemma_deep_view_push(before, lines, line);
            }
        }
        lines
    }
}

} // verus!

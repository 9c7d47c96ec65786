//! The settings of one compiler run, as plain values.

use crate::arch::{Additions, Augmentation};
use crate::paths::{extension_is, has_extension, join_path, path_join};
use crate::text::{copy_optional, copy_texts, extend_texts, lemma_deep_view_push};
use vstd::prelude::*;

verus! {

/// What a toolchain configuration holds.
#[verifier::ext_equal]
pub struct Settings {
    /// The triple to compile for.
    pub target: Option<Seq<char>>,
    /// The triple of the machine that compiles.
    pub host: Option<Seq<char>>,
    /// The language standard.
    pub std: Option<Seq<char>>,
    /// The optimization level.
    pub opt_level: Option<u32>,
    /// The directory that receives the objects and the library.
    pub out_dir: Option<Seq<char>>,
    /// Whether the sources are C++.
    pub cpp: bool,
    /// Whether the compiler is asked for warnings; `None` leaves its default.
    pub warnings: Option<bool>,
    /// Whether the compiler driver prints link metadata of its own.
    pub cargo_metadata: bool,
    /// The macros to define, each with its optional value, in order.
    pub definitions: Seq<(Seq<char>, Option<Seq<char>>)>,
    /// The flags to pass where the compiler accepts them, in order.
    pub flags: Seq<Seq<char>>,
    /// The source files, in order.
    pub files: Seq<Seq<char>>,
}

impl Settings {
    /// The settings of a configuration that nothing was done to.
    pub open spec fn blank() -> Settings {
        Settings {
            target: None,
            host: None,
            std: None,
            opt_level: None,
            out_dir: None,
            cpp: false,
            warnings: None,
            cargo_metadata: true,
            definitions: Seq::empty(),
            flags: Seq::empty(),
            files: Seq::empty(),
        }
    }

    /// Whether the macro `name` is defined, with or without a value.
    pub open spec fn defines(self, name: Seq<char>) -> bool {
        exists|i: int| 0 <= i < self.definitions.len() && #[trigger] self.definitions[i].0 == name
    }

    /// These settings with one more macro.
    pub open spec fn define(self, name: Seq<char>, value: Option<Seq<char>>) -> Settings {
        Settings { definitions: self.definitions.push((name, value)), ..self }
    }

    /// These settings with one more best-effort flag.
    pub open spec fn flag_if_supported(self, flag: Seq<char>) -> Settings {
        Settings { flags: self.flags.push(flag), ..self }
    }

    /// These settings with what an architecture adds to the macros and to
    /// the flags.
    pub open spec fn augment(self, additions: Additions) -> Settings {
        Settings {
            definitions: self.definitions + additions.definitions,
            flags: self.flags + additions.flags,
            ..self
        }
    }

    /// These settings with more source files.
    pub open spec fn add_files(self, files: Seq<Seq<char>>) -> Settings {
        Settings { files: self.files + files, ..self }
    }
}

/// Of the entries `names` of the directory `dir`, those with the extension
/// `ext`, each as a path below `dir`, in the order of `names`.
pub open spec fn sources_in(dir: Seq<char>, names: Seq<Seq<char>>, ext: Seq<char>) -> Seq<
    Seq<char>,
> {
    names.filter(|name: Seq<char>| extension_is(name, ext)).map_values(
        |name: Seq<char>| path_join(dir, name),
    )
}

/// The settings of one compiler run. A value is built up by its methods, can
/// be copied, and each copy can be extended without touching the other.
#[derive(Debug)]
pub struct ToolchainConfig {
    pub target: Option<String>,
    pub host: Option<String>,
    pub std: Option<String>,
    pub opt_level: Option<u32>,
    pub out_dir: Option<String>,
    pub cpp: bool,
    pub warnings: Option<bool>,
    pub cargo_metadata: bool,
    pub definitions: Vec<(String, Option<String>)>,
    pub flags: Vec<String>,
    pub files: Vec<String>,
}

impl View for ToolchainConfig {
    type V = Settings;

    open spec fn view(&self) -> Settings {
        Settings {
            target: self.target.deep_view(),
            host: self.host.deep_view(),
            std: self.std.deep_view(),
            opt_level: self.opt_level,
            out_dir: self.out_dir.deep_view(),
            cpp: self.cpp,
            warnings: self.warnings,
            cargo_metadata: self.cargo_metadata,
            definitions: self.definitions.deep_view(),
            flags: self.flags.deep_view(),
            files: self.files.deep_view(),
        }
    }
}

impl ToolchainConfig {
    /// A configuration that sets nothing.
    pub fn new() -> (config: ToolchainConfig)
        ensures
            config@ == Settings::blank(),
    {
        ToolchainConfig {
            target: None,
            host: None,
            std: None,
            opt_level: None,
            out_dir: None,
            cpp: false,
            warnings: None,
            cargo_metadata: true,
            definitions: Vec::new(),
            flags: Vec::new(),
            files: Vec::new(),
        }
    }

    /// Defines the macro `name`, with `value` if one is given.
    pub fn define(&mut self, name: &str, value: Option<&str>)
        ensures
            final(self)@ == old(self)@.define(name@, value.deep_view()),
    {
        let held = match value {
            Some(text) => Some(text.to_owned()),
            None => None,
        };
        self.definitions.push((name.to_owned(), held));
    }

    /// Asks for `flag` on the command line if the compiler accepts it. A
    /// compiler that does not know the flag is run without it.
    pub fn flag_if_supported(&mut self, flag: &str)
        ensures
            final(self)@ == old(self)@.flag_if_supported(flag@),
    {
        self.flags.push(flag.to_owned());
    }

    /// Registers as source files those entries of the directory `dir` that
    /// have the extension `ext`. `names` are the names of the entries of
    /// `dir`, as a listing of that one directory gave them.
    pub fn add_files_by_ext(&mut self, dir: &str, names: &Vec<String>, ext: &str)
        ensures
            final(self)@ == old(self)@.add_files(sources_in(dir@, names.deep_view(), ext@)),
    {
        let ghost all = names.deep_view();
        let ghost wanted = |name: Seq<char>| extension_is(name, ext@);
        let ghost placed = |name: Seq<char>| path_join(dir@, name);
        let mut i: usize = 0;
        while i < names.len()
            invariant
                i <= names.len(),
                all == names.deep_view(),
                wanted == |name: Seq<char>| extension_is(name, ext@),
                placed == |name: Seq<char>| path_join(dir@, name),
                self@ == old(self)@.add_files(all.take(i as int).filter(wanted).map_values(placed)),
            decreases names.len() - i,
        {
            let ghost before = all.take(i as int);
            let name = names[i].as_str();
            assert(all.take(i + 1) =~= before.push(name@));
            proof {
                before.lemma_filter_push(name@, wanted);
            }
            if has_extension(name, ext) {
                let ghost held = self.files;
                let path = join_path(dir, name);
                self.files.push(path);
                proof {
                    lemma_deep_view_push(held, self.files, path);
                }
            }
            i += 1;
        }
        assert(all.take(names.len() as int) =~= all);
    }

    /// Adds the macros and the flags of `augmentation`, after those that the
    /// configuration holds.
    pub fn augment(&mut self, augmentation: &Augmentation)
        ensures
            final(self)@ == old(self)@.augment(augmentation@),
    {
        extend_definitions(&mut self.definitions, &augmentation.definitions);
        extend_texts(&mut self.flags, &augmentation.flags);
    }
}

/// Appends copies of `items` to `definitions`.
fn extend_definitions(
    definitions: &mut Vec<(String, Option<String>)>,
    items: &Vec<(String, Option<String>)>,
)
    ensures
        final(definitions).deep_view() == old(definitions).deep_view() + items.deep_view(),
{
    let mut i: usize = 0;
    while i < items.len()
        invariant
            i <= items.len(),
            definitions.deep_view() == old(definitions).deep_view() + items.deep_view().take(
                i as int,
            ),
        decreases items.len() - i,
    {
        let ghost before = *definitions;
        let name = items[i].0.clone();
        let value = copy_optional(&items[i].1);
        definitions.push((name, value));
        proof {
            lemma_deep_view_push(before, *definitions, (name, value));
        }
        i += 1;
    }
}

impl Clone for ToolchainConfig {
    /// An independent copy: what is done to one of the two does not show
    /// in the other.
    fn clone(&self) -> (copy: ToolchainConfig)
        ensures
            copy@ == self@,
    {
        let mut definitions: Vec<(String, Option<String>)> = Vec::new();
        extend_definitions(&mut definitions, &self.definitions);
        ToolchainConfig {
            target: copy_optional(&self.target),
            host: copy_optional(&self.host),
            std: copy_optional(&self.std),
            opt_level: self.opt_level,
            out_dir: copy_optional(&self.out_dir),
            cpp: self.cpp,
            warnings: self.warnings,
            cargo_metadata: self.cargo_metadata,
            definitions,
            flags: copy_texts(&self.flags),
            files: copy_texts(&self.files),
        }
    }
}

} // verus!

//! The plan of a build: what is compiled, from which sources, with which
//! settings and in which order.

use crate::arch::{additions_for, has_intrinsics};
use crate::artifacts::{Artifacts, ArtifactsView};
use crate::builder::{
    base_settings, lemma_macro_names_differ, lemma_profile_exclusive, BuildView, Profile,
};
use crate::paths::path_join;
use crate::stdlib::link_name;
use crate::toolchain::{sources_in, Settings, ToolchainConfig};
use vstd::prelude::*;

verus! {

/// The directory of the main library's sources.
pub open spec fn pluto_dir(source_root: Seq<char>) -> Seq<char> {
    path_join(source_root, "pluto"@)
}

/// The root of the support library.
pub open spec fn soup_dir(source_root: Seq<char>) -> Seq<char> {
    path_join(path_join(pluto_dir(source_root), "vendor"@), "Soup"@)
}

/// What a `CompileUnit` holds.
#[verifier::ext_equal]
pub struct UnitView {
    /// The name of the library.
    pub lib_name: Seq<char>,
    /// The settings to compile with, before any source file is added.
    pub config: Settings,
    /// The directories to list, in order.
    pub source_dirs: Seq<Seq<char>>,
    /// The extension that tells a source file.
    pub extension: Seq<char>,
}

/// One static library to compile: its name, its settings but for the
/// source files, and the directories whose entries with the given extension
/// are its sources. Each directory is listed by itself, not its
/// subdirectories.
#[derive(Debug)]
pub struct CompileUnit {
    pub lib_name: String,
    pub config: ToolchainConfig,
    pub source_dirs: Vec<String>,
    pub extension: String,
}

impl View for CompileUnit {
    type V = UnitView;

    open spec fn view(&self) -> UnitView {
        UnitView {
            lib_name: self.lib_name@,
            config: self.config@,
            source_dirs: self.source_dirs.deep_view(),
            extension: self.extension@,
        }
    }
}

/// The sources of a unit: for each directory in turn, those of its entries
/// that have the extension, as paths below the directory. `listings` holds
/// the entry names of each directory, in the order of `dirs`.
pub open spec fn unit_sources(
    dirs: Seq<Seq<char>>,
    listings: Seq<Seq<Seq<char>>>,
    ext: Seq<char>,
) -> Seq<Seq<char>>
    decreases dirs.len(),
{
    if dirs.len() == 0 || listings.len() == 0 {
        Seq::empty()
    } else {
        unit_sources(dirs.drop_last(), listings.drop_last(), ext) + sources_in(
            dirs.last(),
            listings.last(),
            ext,
        )
    }
}

impl CompileUnit {
    /// The configuration to compile the unit with, once its directories were
    /// listed: the unit's settings with the sources found. `listings` holds
    /// for each source directory, in order, the names of its entries. There
    /// is no configuration where the listings are not one to a directory.
    pub fn with_sources(&self, listings: &Vec<Vec<String>>) -> (config: Option<ToolchainConfig>)
        ensures
            config is Some <==> listings.len() == self.source_dirs.len(),
            config matches Some(found) ==> found@ == self@.config.add_files(
                unit_sources(self@.source_dirs, listings.deep_view(), self@.extension),
            ),
    {
        if listings.len() != self.source_dirs.len() {
            return None;
        }
        let mut found = self.config.clone();
        let ghost dirs = self@.source_dirs;
        let ghost entries = listings.deep_view();
        let mut i: usize = 0;
        while i < self.source_dirs.len()
            invariant
                i <= self.source_dirs.len(),
                listings.len() == self.source_dirs.len(),
                dirs == self@.source_dirs,
                entries == listings.deep_view(),
                found@ == self@.config.add_files(
                    unit_sources(dirs.take(i as int), entries.take(i as int), self@.extension),
                ),
            decreases self.source_dirs.len() - i,
        {
            found.add_files_by_ext(
                self.source_dirs[i].as_str(),
                &listings[i],
                self.extension.as_str(),
            );
            i += 1;
            assert(dirs.take(i as int).drop_last() =~= dirs.take(i - 1));
            assert(entries.take(i as int).drop_last() =~= entries.take(i - 1));
        }
        assert(dirs.take(i as int) =~= dirs);
        assert(entries.take(i as int) =~= entries);
        Some(found)
    }
}

impl DeepView for CompileUnit {
    type V = UnitView;

    open spec fn deep_view(&self) -> UnitView {
        self@
    }
}

/// The support library: the shared settings with what the target's
/// architecture adds, and the sources of its own directory and of the
/// directories that the architecture adds.
pub open spec fn soup_unit(
    build: BuildView,
    profile: Profile,
    source_root: Seq<char>,
) -> UnitView {
    let additions = additions_for(build.target->0);
    UnitView {
        lib_name: "soup"@,
        config: Settings {
            out_dir: build.out_dir,
            ..base_settings(build, profile).augment(additions)
        },
        source_dirs: seq![path_join(soup_dir(source_root), "soup"@)]
            + additions.source_dirs.map_values(
                |dir: Seq<char>| path_join(soup_dir(source_root), dir),
            ),
        extension: "cpp"@,
    }
}

/// The main library: the shared settings as they are, and the sources of
/// its own directory.
pub open spec fn pluto_unit(
    build: BuildView,
    profile: Profile,
    source_root: Seq<char>,
) -> UnitView {
    UnitView {
        lib_name: "pluto"@,
        config: Settings { out_dir: build.out_dir, ..base_settings(build, profile) },
        source_dirs: seq![pluto_dir(source_root)],
        extension: "cpp"@,
    }
}

/// What a `BuildPlan` holds.
#[verifier::ext_equal]
pub struct PlanView {
    /// The directory to empty, and to compile into.
    pub out_dir: Seq<char>,
    /// The libraries to compile, in order.
    pub units: Seq<UnitView>,
    /// What the build hands back.
    pub artifacts: ArtifactsView,
}

/// What a build does, in order: the output directory is removed with all
/// that it holds if it exists, each unit is compiled into it, and the
/// artifacts are what the build then hands back.
#[derive(Debug)]
pub struct BuildPlan {
    pub out_dir: String,
    pub units: Vec<CompileUnit>,
    pub artifacts: Artifacts,
}

impl View for BuildPlan {
    type V = PlanView;

    open spec fn view(&self) -> PlanView {
        PlanView {
            out_dir: self.out_dir@,
            units: self.units.deep_view(),
            artifacts: self.artifacts@,
        }
    }
}

/// The plan of a build whose target, host and output directory are set.
pub open spec fn plan_for(build: BuildView, profile: Profile, source_root: Seq<char>) -> PlanView {
    PlanView {
        out_dir: build.out_dir->0,
        units: seq![
            soup_unit(build, profile, source_root),
            pluto_unit(build, profile, source_root),
        ],
        artifacts: ArtifactsView {
            lib_dir: build.out_dir->0,
            libs: seq!["pluto"@, "soup"@],
            cpp_stdlib: link_name(build.env, build.target->0, build.host->0),
        },
    }
}

/// Whatever the target and the profile: the support library is compiled
/// first and the main library second, the main library is linked first and
/// the support library second, and the libraries are looked for in the
/// output directory.
pub proof fn lemma_link_order(build: BuildView, profile: Profile, source_root: Seq<char>)
    ensures
        ({
            let plan = plan_for(build, profile, source_root);
            &&& plan.units.len() == 2
            &&& plan.units[0].lib_name == "soup"@
            &&& plan.units[1].lib_name == "pluto"@
            &&& plan.artifacts.libs == seq!["pluto"@, "soup"@]
            &&& plan.artifacts.lib_dir == plan.out_dir
        }),
{
}

/// The choice of the profile holds in each library of the plan alike: what
/// the architecture adds to the support library touches neither macro nor
/// the optimization level.
pub proof fn lemma_profile_exclusive_in_plan(
    build: BuildView,
    profile: Profile,
    source_root: Seq<char>,
    unit: int,
)
    requires
        0 <= unit < plan_for(build, profile, source_root).units.len(),
    ensures
        ({
            let config = plan_for(build, profile, source_root).units[unit].config;
            &&& config.defines("LUA_USE_APICHECK"@) <==> profile == Profile::Debug
            &&& config.defines("NDEBUG"@) <==> profile == Profile::Release
            &&& config.opt_level == Some(2u32) <==> profile == Profile::Release
            &&& config.opt_level is None <==> profile == Profile::Debug
        }),
{
    lemma_macro_names_differ();
    lemma_profile_exclusive(build, profile);
    let base = base_settings(build, profile);
    let config = plan_for(build, profile, source_root).units[unit].config;
    if unit == 0 {
        // The support library has the shared macros and, after them, at most
        // the intrinsics macro, whose name is neither of the two.
        assert forall|name: Seq<char>|
            name.len() != 15 implies config.defines(name) == base.defines(name) by {
            if base.defines(name) {
                let i = choose|i: int|
                    0 <= i < base.definitions.len() && #[trigger] base.definitions[i].0 == name;
                assert(config.definitions[i].0 == name);
            }
        }
    } else {
        assert(config.definitions == base.definitions);
    }
}

/// What the architecture adds goes to the support library alone: the
/// support library is compiled with the intrinsics macro exactly if the
/// target has intrinsics, and the main library never is; the main library is
/// compiled with the shared settings as they are.
pub proof fn lemma_intrinsics_in_soup_only(
    build: BuildView,
    profile: Profile,
    source_root: Seq<char>,
)
    ensures
        ({
            let plan = plan_for(build, profile, source_root);
            &&& plan.units[0].config.defines("SOUP_USE_INTRIN"@) <==> has_intrinsics(
                build.target->0,
            )
            &&& !plan.units[1].config.defines("SOUP_USE_INTRIN"@)
            &&& plan.units[1].config.definitions == base_settings(build, profile).definitions
            &&& plan.units[1].config.flags == base_settings(build, profile).flags
        }),
{
    lemma_macro_names_differ();
    let base = base_settings(build, profile);
    let soup = plan_for(build, profile, source_root).units[0].config;
    if has_intrinsics(build.target->0) {
        // The added macro stands right after the shared ones.
        assert(soup.definitions[base.definitions.len() as int].0 == "SOUP_USE_INTRIN"@);
    }
}

} // verus!

//! The configuration of a build, and the plan that it resolves to.

use crate::arch::dispatch;
use crate::artifacts::Artifacts;
use crate::environment::{lookup, Environment};
use crate::paths::{join_each, join_path, path_join};
use crate::plan::{plan_for, pluto_unit, soup_unit, BuildPlan, CompileUnit};
use crate::stdlib::get_cpp_link_stdlib;
use crate::text::{copy_optional, decimal, decimal_digits, extend_texts};
use crate::toolchain::{Settings, ToolchainConfig};
use vstd::prelude::*;

verus! {

/// What a `Build` holds.
#[verifier::ext_equal]
pub struct BuildView {
    /// The directory that receives the objects and the libraries.
    pub out_dir: Option<Seq<char>>,
    /// The triple to compile for.
    pub target: Option<Seq<char>>,
    /// The triple of the machine that compiles.
    pub host: Option<Seq<char>>,
    /// The largest number of slots of the interpreter's stack.
    pub max_stack_size: Option<usize>,
    /// Whether errors travel by `longjmp` and not by C++ exceptions.
    pub use_longjmp: Option<bool>,
    /// The environment as it was when the value was made.
    pub env: Seq<(Seq<char>, Seq<char>)>,
}

/// The configuration of one build. It starts from a snapshot of the
/// environment and is changed by its setters.
#[derive(Debug)]
pub struct Build {
    out_dir: Option<String>,
    target: Option<String>,
    host: Option<String>,
    max_stack_size: Option<usize>,
    use_longjmp: Option<bool>,
    env: Environment,
}

impl View for Build {
    type V = BuildView;

    closed spec fn view(&self) -> BuildView {
        BuildView {
            out_dir: self.out_dir.deep_view(),
            target: self.target.deep_view(),
            host: self.host.deep_view(),
            max_stack_size: self.max_stack_size,
            use_longjmp: self.use_longjmp,
            env: self.env@,
        }
    }
}

/// Whether the libraries are compiled for debugging or for release.
#[derive(Clone, Copy, Debug, PartialEq, Eq, Structural)]
pub enum Profile {
    /// Checks of the API's use are compiled in.
    Debug,
    /// Assertions are compiled out and the code is optimized.
    Release,
}

/// A setting without which nothing can be built.
#[derive(Clone, Copy, Debug, PartialEq, Eq, Structural)]
pub enum MissingSetting {
    /// No target triple.
    Target,
    /// No host triple.
    Host,
    /// No output directory.
    OutDir,
}

impl MissingSetting {
    /// The words that say which setting is missing.
    pub open spec fn text(self) -> Seq<char> {
        match self {
            MissingSetting::Target => "TARGET not set"@,
            MissingSetting::Host => "HOST not set"@,
            MissingSetting::OutDir => "OUT_DIR not set"@,
        }
    }

    /// The words that say which setting is missing.
    pub fn message(&self) -> (message: &'static str)
        ensures
            message@ == self.text(),
    {
        match self {
            MissingSetting::Target => "TARGET not set",
            MissingSetting::Host => "HOST not set",
            MissingSetting::OutDir => "OUT_DIR not set",
        }
    }
}

/// The first setting that a build needs and that `build` lacks.
pub open spec fn first_missing(build: BuildView) -> Option<MissingSetting> {
    if build.target is None {
        Some(MissingSetting::Target)
    } else if build.host is None {
        Some(MissingSetting::Host)
    } else if build.out_dir is None {
        Some(MissingSetting::OutDir)
    } else {
        None
    }
}

/// The settings that are the same in every build but for the triples.
pub open spec fn shared_settings(build: BuildView) -> Settings {
    Settings {
        target: build.target,
        host: build.host,
        warnings: Some(false),
        cargo_metadata: false,
        std: Some("c++17"@),
        cpp: true,
        flags: seq!["-fvisibility=hidden"@, "-fno-rtti"@, "-Wno-multichar"@],
        ..Settings::blank()
    }
}

/// The shared settings with the macros of the options that are set.
pub open spec fn optioned_settings(build: BuildView) -> Settings {
    let shared = shared_settings(build);
    let sized = match build.max_stack_size {
        Some(size) => shared.define("LUAI_MAXSTACK"@, Some(decimal_digits(size as nat))),
        None => shared,
    };
    if build.use_longjmp == Some(true) {
        sized.define("LUA_USE_LONGJMP"@, Some("1"@))
    } else {
        sized
    }
}

/// The settings that both libraries are compiled with.
pub open spec fn base_settings(build: BuildView, profile: Profile) -> Settings {
    let optioned = optioned_settings(build);
    match profile {
        Profile::Debug => optioned.define("LUA_USE_APICHECK"@, None),
        Profile::Release => Settings {
            opt_level: Some(2u32),
            ..optioned.define("NDEBUG"@, None).flag_if_supported("-fno-math-errno"@)
        },
    }
}

/// The output directory that a build takes from the environment: the
/// directory `pluto-build` below the scratch directory `OUT_DIR`.
pub open spec fn default_out_dir(env: Seq<(Seq<char>, Seq<char>)>) -> Option<Seq<char>> {
    match lookup(env, "OUT_DIR"@) {
        Some(scratch) => Some(path_join(scratch, "pluto-build"@)),
        None => None,
    }
}

impl Build {
    /// The configuration that the environment `env` gives: the output
    /// directory below `OUT_DIR`, the target from `TARGET`, the host from
    /// `HOST`, and neither option set. The environment is not read again.
    pub fn new(env: Environment) -> (build: Build)
        ensures
            build@ == (BuildView {
                out_dir: default_out_dir(env@),
                target: lookup(env@, "TARGET"@),
                host: lookup(env@, "HOST"@),
                max_stack_size: None,
                use_longjmp: None,
                env: env@,
            }),
    {
        let out_dir = match env.get("OUT_DIR") {
            Some(scratch) => Some(join_path(scratch.as_str(), "pluto-build")),
            None => None,
        };
        let target = env.get("TARGET");
        let host = env.get("HOST");
        Build { out_dir, target, host, max_stack_size: None, use_longjmp: None, env }
    }

    /// Sets the output directory.
    pub fn out_dir(&mut self, path: &str) -> (build: &mut Build)
        ensures
            build@ == (BuildView { out_dir: Some(path@), ..old(self)@ }),
            *final(self) == *final(build),
    {
        self.out_dir = Some(path.to_owned());
        self
    }

    /// Sets the target triple.
    pub fn target(&mut self, target: &str) -> (build: &mut Build)
        ensures
            build@ == (BuildView { target: Some(target@), ..old(self)@ }),
            *final(self) == *final(build),
    {
        self.target = Some(target.to_owned());
        self
    }

    /// Sets the host triple.
    pub fn host(&mut self, host: &str) -> (build: &mut Build)
        ensures
            build@ == (BuildView { host: Some(host@), ..old(self)@ }),
            *final(self) == *final(build),
    {
        self.host = Some(host.to_owned());
        self
    }

    /// Sets the largest number of slots of the interpreter's stack.
    pub fn set_max_stack_size(&mut self, size: usize) -> (build: &mut Build)
        ensures
            build@ == (BuildView { max_stack_size: Some(size), ..old(self)@ }),
            *final(self) == *final(build),
    {
        self.max_stack_size = Some(size);
        self
    }

    /// Chooses between `longjmp` and C++ exceptions.
    pub fn use_longjmp(&mut self, enabled: bool) -> (build: &mut Build)
        ensures
            build@ == (BuildView { use_longjmp: Some(enabled), ..old(self)@ }),
            *final(self) == *final(build),
    {
        self.use_longjmp = Some(enabled);
        self
    }

    /// The setting that a build needs and that is absent, if there is one:
    /// the target, else the host, else the output directory.
    pub fn missing_setting(&self) -> (missing: Option<MissingSetting>)
        ensures
            missing == first_missing(self@),
    {
        if self.target.is_none() {
            Some(MissingSetting::Target)
        } else if self.host.is_none() {
            Some(MissingSetting::Host)
        } else if self.out_dir.is_none() {
            Some(MissingSetting::OutDir)
        } else {
            None
        }
    }

    /// The configuration that both libraries are compiled with: the triples,
    /// no warnings, no link metadata from the compiler driver, C++17, hidden
    /// symbols and no run-time type information where the compiler can, the
    /// macros of the two options, and what the profile asks for.
    pub fn base_config(&self, profile: Profile) -> (config: ToolchainConfig)
        ensures
            config@ == base_settings(self@, profile),
    {
        let mut config = ToolchainConfig::new();
        config.target = copy_optional(&self.target);
        config.host = copy_optional(&self.host);
        config.warnings = Some(false);
        config.cargo_metadata = false;
        config.std = Some("c++17".to_owned());
        config.flag_if_supported("-fvisibility=hidden");
        config.flag_if_supported("-fno-rtti");
        config.flag_if_supported("-Wno-multichar");
        config.cpp = true;
        if let Some(size) = self.max_stack_size {
            config.define("LUAI_MAXSTACK", Some(decimal(size).as_str()));
        }
        if let Some(true) = self.use_longjmp {
            config.define("LUA_USE_LONGJMP", Some("1"));
        }
        match profile {
            Profile::Debug => {
                config.define("LUA_USE_APICHECK", None);
            },
            Profile::Release => {
                config.define("NDEBUG", None);
                config.opt_level = Some(2);
                config.flag_if_supported("-fno-math-errno");
            },
        }
        config
    }

    /// The plan of the build: the support library `soup` with what the
    /// target's architecture adds, then the main library `pluto` without it,
    /// both from the sources below `source_root`, into the output directory,
    /// which is to be emptied first.
    pub fn build(&self, profile: Profile, source_root: &str) -> (plan: BuildPlan)
        requires
            first_missing(self@) is None,
        ensures
            plan@ == plan_for(self@, profile, source_root@),
            plan@.artifacts.libs == seq!["pluto"@, "soup"@],
            plan@.artifacts.lib_dir == self@.out_dir->0,
            plan@.out_dir == self@.out_dir->0,
    {
        let target = self.target.as_ref().unwrap().as_str();
        let host = self.host.as_ref().unwrap().as_str();
        let out_dir = self.out_dir.as_ref().unwrap().as_str();
        let pluto_source_dir = join_path(source_root, "pluto");
        let soup_source_dir = join_path(
            join_path(pluto_source_dir.as_str(), "vendor").as_str(),
            "Soup",
        );
        let config = self.base_config(profile);

        let mut soup_config = config.clone();
        let augmentation = dispatch(target);
        soup_config.augment(&augmentation);
        soup_config.out_dir = Some(out_dir.to_owned());
        let mut soup_dirs: Vec<String> = Vec::new();
        soup_dirs.push(join_path(soup_source_dir.as_str(), "soup"));
        let added_dirs = join_each(soup_source_dir.as_str(), &augmentation.source_dirs);
        extend_texts(&mut soup_dirs, &added_dirs);
        let soup = CompileUnit {
            lib_name: "soup".to_owned(),
            config: soup_config,
            source_dirs: soup_dirs,
            extension: "cpp".to_owned(),
        };
        assert(soup@ =~= soup_unit(self@, profile, source_root@));

        let mut pluto_config = config;
        pluto_config.out_dir = Some(out_dir.to_owned());
        let mut pluto_dirs: Vec<String> = Vec::new();
        pluto_dirs.push(pluto_source_dir);
        let pluto = CompileUnit {
            lib_name: "pluto".to_owned(),
            config: pluto_config,
            source_dirs: pluto_dirs,
            extension: "cpp".to_owned(),
        };
        assert(pluto@ =~= pluto_unit(self@, profile, source_root@));

        let mut libs: Vec<String> = Vec::new();
        libs.push("pluto".to_owned());
        libs.push("soup".to_owned());
        let artifacts = Artifacts::new(
            out_dir.to_owned(),
            libs,
            get_cpp_link_stdlib(target, host, &self.env),
        );
        let mut units: Vec<CompileUnit> = Vec::new();
        units.push(soup);
        units.push(pluto);
        let plan = BuildPlan { out_dir: out_dir.to_owned(), units, artifacts };
        plan
    }

    /// The plan of the build, or the setting that is missing. No plan, and
    /// so nothing to do to any directory, comes of a configuration that
    /// lacks its target, its host or its output directory.
    pub fn try_build(&self, profile: Profile, source_root: &str) -> (outcome: Result<
        BuildPlan,
        MissingSetting,
    >)
        ensures
            match outcome {
                Ok(plan) => {
                    &&& first_missing(self@) is None
                    &&& plan@ == plan_for(self@, profile, source_root@)
                    &&& plan@.artifacts.libs == seq!["pluto"@, "soup"@]
                },
                Err(missing) => first_missing(self@) == Some(missing),
            },
    {
        match self.missing_setting() {
            Some(missing) => Err(missing),
            None => Ok(self.build(profile, source_root)),
        }
    }
}

/// A build can be planned exactly if its target, its host and its output
/// directory are all set; where one is absent there is no plan to act on.
pub proof fn lemma_missing_iff_absent(build: BuildView)
    ensures
        first_missing(build) is None <==> build.target is Some && build.host is Some
            && build.out_dir is Some,
{
}

/// The macros that a build may define have pairwise different names: they
/// differ in length, or in their first letter.
pub(crate) proof fn lemma_macro_names_differ()
    ensures
        "LUAI_MAXSTACK"@.len() == 13,
        "LUA_USE_LONGJMP"@.len() == 15,
        "LUA_USE_APICHECK"@.len() == 16,
        "NDEBUG"@.len() == 6,
        "SOUP_USE_INTRIN"@.len() == 15,
        "LUA_USE_LONGJMP"@[0] == 'L',
        "SOUP_USE_INTRIN"@[0] == 'S',
{
    reveal_strlit("LUAI_MAXSTACK");
    reveal_strlit("LUA_USE_LONGJMP");
    reveal_strlit("LUA_USE_APICHECK");
    reveal_strlit("NDEBUG");
    reveal_strlit("SOUP_USE_INTRIN");
}

/// The settings of the options define neither of the two macros that the
/// profile chooses between, and leave the optimization level alone.
proof fn lemma_options_leave_profile(build: BuildView)
    ensures
        !optioned_settings(build).defines("LUA_USE_APICHECK"@),
        !optioned_settings(build).defines("NDEBUG"@),
        optioned_settings(build).opt_level is None,
{
    lemma_macro_names_differ();
}

/// A debug build enables the checks of the API's use, a release build
/// disables assertions and raises the optimization level: every build does
/// exactly one of the two, in the settings that both libraries share.
pub proof fn lemma_profile_exclusive(build: BuildView, profile: Profile)
    ensures
        base_settings(build, profile).defines("LUA_USE_APICHECK"@) <==> profile == Profile::Debug,
        base_settings(build, profile).defines("NDEBUG"@) <==> profile == Profile::Release,
        base_settings(build, profile).opt_level == Some(2u32) <==> profile == Profile::Release,
        base_settings(build, profile).opt_level is None <==> profile == Profile::Debug,
        base_settings(build, profile).defines("LUA_USE_APICHECK"@) != base_settings(
            build,
            profile,
        ).defines("NDEBUG"@),
{
    lemma_macro_names_differ();
    lemma_options_leave_profile(build);
    let optioned = optioned_settings(build);
    let base = base_settings(build, profile);
    let last = optioned.definitions.len() as int;
    match profile {
        Profile::Debug => {
            assert(base.definitions[last].0 == "LUA_USE_APICHECK"@);
        },
        Profile::Release => {
            assert(base.definitions[last].0 == "NDEBUG"@);
        },
    }
}

} // verus!

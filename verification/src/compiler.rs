//! Hands a toolchain configuration to the `cc` crate: builds the
//! `cc::Build` that holds the same settings. Compiling with it is the
//! caller's step.

use crate::toolchain::{Settings, ToolchainConfig};
use cc::Build as Compiler;
use vstd::prelude::*;

verus! {

/// `cc::Build`, the builder of the `cc` crate. Nothing of what is inside a
/// value is seen here.
#[verifier::external_type_specification]
#[verifier::external_body]
pub struct ExCompiler(Compiler);

/// What a `cc::Build` holds of the settings that this library makes: the
/// triples, the standard, the optimization level, the output directory, the
/// C++ switch, the warnings switch, the metadata switch, the definitions,
/// the flags that were added with `flag_if_supported`, and the files.
pub uninterp spec fn cc_settings(build: Compiler) -> Settings;

/// `cc::Build::new`: a builder with every list empty, no triple, standard,
/// optimization level or output directory, C++ off, the default for
/// warnings, and link metadata on.
#[verifier::external_body]
fn blank_build() -> (build: Compiler)
    ensures
        cc_settings(build) == Settings::blank(),
{
    Compiler::new()
}

/// `cc::Build::target` stores the target triple and leaves the rest alone.
#[verifier::external_body]
fn set_target(build: &mut Compiler, target: &str)
    ensures
        cc_settings(*final(build)) == (Settings {
            target: Some(target@),
            ..cc_settings(*old(build))
        }),
{
    build.target(target);
}

/// `cc::Build::host` stores the host triple and leaves the rest alone.
#[verifier::external_body]
fn set_host(build: &mut Compiler, host: &str)
    ensures
        cc_settings(*final(build)) == (Settings { host: Some(host@), ..cc_settings(*old(build)) }),
{
    build.host(host);
}

/// `cc::Build::warnings` stores the switch for warnings (and the same value
/// for extra warnings, which the settings do not tell apart).
#[verifier::external_body]
fn set_warnings(build: &mut Compiler, warnings: bool)
    ensures
        cc_settings(*final(build)) == (Settings {
            warnings: Some(warnings),
            ..cc_settings(*old(build))
        }),
{
    build.warnings(warnings);
}

/// `cc::Build::cargo_metadata` stores whether link metadata is printed.
#[verifier::external_body]
fn set_cargo_metadata(build: &mut Compiler, cargo_metadata: bool)
    ensures
        cc_settings(*final(build)) == (Settings { cargo_metadata, ..cc_settings(*old(build)) }),
{
    build.cargo_metadata(cargo_metadata);
}

/// `cc::Build::std` stores the language standard.
#[verifier::external_body]
fn set_std(build: &mut Compiler, std: &str)
    ensures
        cc_settings(*final(build)) == (Settings { std: Some(std@), ..cc_settings(*old(build)) }),
{
    build.std(std);
}

/// `cc::Build::cpp` stores the C++ switch.
#[verifier::external_body]
fn set_cpp(build: &mut Compiler, cpp: bool)
    ensures
        cc_settings(*final(build)) == (Settings { cpp, ..cc_settings(*old(build)) }),
{
    build.cpp(cpp);
}

/// `cc::Build::opt_level` stores the optimization level.
#[verifier::external_body]
fn set_opt_level(build: &mut Compiler, opt_level: u32)
    ensures
        cc_settings(*final(build)) == (Settings {
            opt_level: Some(opt_level),
            ..cc_settings(*old(build))
        }),
{
    build.opt_level(opt_level);
}

/// `cc::Build::out_dir` stores the output directory.
#[verifier::external_body]
fn set_out_dir(build: &mut Compiler, out_dir: &str)
    ensures
        cc_settings(*final(build)) == (Settings {
            out_dir: Some(out_dir@),
            ..cc_settings(*old(build))
        }),
{
    build.out_dir(out_dir);
}

/// `cc::Build::define` appends one definition, with its value if it has one.
#[verifier::external_body]
fn add_definition(build: &mut Compiler, name: &str, value: &Option<String>)
    ensures
        cc_settings(*final(build)) == cc_settings(*old(build)).define(name@, value.deep_view()),
{
    build.define(name, value.as_deref());
}

/// `cc::Build::flag_if_supported` appends one flag to those that are passed
/// where the compiler accepts them. The compiler is not asked here.
#[verifier::external_body]
fn add_flag_if_supported(build: &mut Compiler, flag: &str)
    ensures
        cc_settings(*final(build)) == cc_settings(*old(build)).flag_if_supported(flag@),
{
    build.flag_if_supported(flag);
}

/// `cc::Build::file` appends one source file.
#[verifier::external_body]
fn add_file(build: &mut Compiler, file: &str)
    ensures
        cc_settings(*final(build)) == cc_settings(*old(build)).add_files(seq![file@]),
{
    build.file(file);
}

/// The `cc::Build` that holds the settings of `config`, ready to compile.
pub fn configure(config: &ToolchainConfig) -> (build: Compiler)
    ensures
        cc_settings(build) == config@,
{
    let mut build = blank_build();
    if let Some(target) = &config.target {
        set_target(&mut build, target.as_str());
    }
    if let Some(host) = &config.host {
        set_host(&mut build, host.as_str());
    }
    if let Some(warnings) = config.warnings {
        set_warnings(&mut build, warnings);
    }
    set_cargo_metadata(&mut build, config.cargo_metadata);
    if let Some(std) = &config.std {
        set_std(&mut build, std.as_str());
    }
    set_cpp(&mut build, config.cpp);
    if let Some(opt_level) = config.opt_level {
        set_opt_level(&mut build, opt_level);
    }
    if let Some(out_dir) = &config.out_dir {
        set_out_dir(&mut build, out_dir.as_str());
    }
    let ghost scalars = Settings {
        definitions: Seq::empty(),
        flags: Seq::empty(),
        files: Seq::empty(),
        ..config@
    };

    let mut i: usize = 0;
    while i < config.flags.len()
        invariant
            i <= config.flags.len(),
            cc_settings(build) == (Settings {
                flags: config@.flags.take(i as int),
                ..scalars
            }),
        decreases config.flags.len() - i,
    {
        add_flag_if_supported(&mut build, config.flags[i].as_str());
        i += 1;
    }

    let mut j: usize = 0;
    while j < config.definitions.len()
        invariant
            j <= config.definitions.len(),
            cc_settings(build) == (Settings {
                flags: config@.flags,
                definitions: config@.definitions.take(j as int),
                ..scalars
            }),
        decreases config.definitions.len() - j,
    {
        add_definition(&mut build, config.definitions[j].0.as_str(), &config.definitions[j].1);
        j += 1;
    }

    let mut k: usize = 0;
    while k < config.files.len()
        invariant
            k <= config.files.len(),
            cc_settings(build) == (Settings { files: config@.files.take(k as int), ..config@ }),
        decreases config.files.len() - k,
    {
        add_file(&mut build, config.files[k].as_str());
        k += 1;
    }
    build
}

} // verus!

//! The name of the C++ runtime library to link, resolved from the target, the
//! host and the environment.

use crate::environment::{lookup, Environment};
use crate::text::{append, contains, has_substring, replace_char, replaced, same_text};
use vstd::prelude::*;

verus! {

/// The variable that overrides the library for exactly this target.
pub open spec fn exact_key(target: Seq<char>) -> Seq<char> {
    "CXXSTDLIB_"@ + target
}

/// The same variable for environments whose names cannot hold a hyphen: the
/// target's hyphens are written as underscores.
pub open spec fn normalized_key(target: Seq<char>) -> Seq<char> {
    "CXXSTDLIB_"@ + replaced(target, '-', '_')
}

/// The variable that overrides the library for every host build, or for
/// every cross build.
pub open spec fn kind_key(target: Seq<char>, host: Seq<char>) -> Seq<char> {
    if host == target {
        "HOST"@ + "_CXXSTDLIB"@
    } else {
        "TARGET"@ + "_CXXSTDLIB"@
    }
}

/// The variable that overrides the library for every build.
pub open spec fn generic_key() -> Seq<char> {
    "CXXSTDLIB"@
}

/// The override that the environment holds: the first of the four variables
/// that is set, from the most specific to the most general.
pub open spec fn override_value(
    env: Seq<(Seq<char>, Seq<char>)>,
    target: Seq<char>,
    host: Seq<char>,
) -> Option<Seq<char>> {
    if lookup(env, exact_key(target)) is Some {
        lookup(env, exact_key(target))
    } else if lookup(env, normalized_key(target)) is Some {
        lookup(env, normalized_key(target))
    } else if lookup(env, kind_key(target, host)) is Some {
        lookup(env, kind_key(target, host))
    } else {
        lookup(env, generic_key())
    }
}

/// The library that a target's platform family links when nothing overrides
/// it. `None` means that the compiler links its runtime by itself.
pub open spec fn platform_default(target: Seq<char>) -> Option<Seq<char>> {
    if has_substring(target, "msvc"@) {
        None
    } else if has_substring(target, "apple"@) || has_substring(target, "freebsd"@)
        || has_substring(target, "openbsd"@) {
        Some("c++"@)
    } else if has_substring(target, "android"@) {
        Some("c++_shared"@)
    } else {
        Some("stdc++"@)
    }
}

/// The library to link: the override where one is set, else the platform's
/// default.
pub open spec fn link_name(
    env: Seq<(Seq<char>, Seq<char>)>,
    target: Seq<char>,
    host: Seq<char>,
) -> Option<Seq<char>> {
    match override_value(env, target, host) {
        Some(name) => Some(name),
        None => platform_default(target),
    }
}

/// The override that `env` holds for this target and host, if any.
pub fn stdlib_override(target: &str, host: &str, env: &Environment) -> (name: Option<String>)
    ensures
        name.deep_view() == override_value(env@, target@, host@),
{
    let exact = env.get(append("CXXSTDLIB_", target).as_str());
    if exact.is_some() {
        return exact;
    }
    let underscored = replace_char(target, '-', '_');
    let normalized = env.get(append("CXXSTDLIB_", underscored.as_str()).as_str());
    if normalized.is_some() {
        return normalized;
    }
    let kind = if same_text(host, target) {
        "HOST"
    } else {
        "TARGET"
    };
    let by_kind = env.get(append(kind, "_CXXSTDLIB").as_str());
    if by_kind.is_some() {
        return by_kind;
    }
    env.get("CXXSTDLIB")
}

/// The library that the platform family of `target` links by default.
pub fn default_stdlib(target: &str) -> (name: Option<String>)
    ensures
        name.deep_view() == platform_default(target@),
{
    if contains(target, "msvc") {
        None
    } else if contains(target, "apple") || contains(target, "freebsd") || contains(
        target,
        "openbsd",
    ) {
        Some("c++".to_owned())
    } else if contains(target, "android") {
        Some("c++_shared".to_owned())
    } else {
        Some("stdc++".to_owned())
    }
}

/// The C++ runtime library to link for `target` when building on `host`:
/// an override from `env` if there is one, else `c++` on Apple systems,
/// FreeBSD and OpenBSD, `c++_shared` on Android, nothing for MSVC, and
/// `stdc++` everywhere else.
pub fn get_cpp_link_stdlib(target: &str, host: &str, env: &Environment) -> (name: Option<String>)
    ensures
        name.deep_view() == link_name(env@, target@, host@),
{
    let overridden = stdlib_override(target, host, env);
    if overridden.is_some() {
        return overridden;
    }
    default_stdlib(target)
}

/// An override keyed by the exact target takes precedence over every other
/// override and over every platform default.
pub proof fn lemma_exact_override_wins(
    env: Seq<(Seq<char>, Seq<char>)>,
    target: Seq<char>,
    host: Seq<char>,
    name: Seq<char>,
)
    requires
        lookup(env, exact_key(target)) == Some(name),
    ensures
        link_name(env, target, host) == Some(name),
{
}

/// Any override that is set wins over the platform default, and the more
/// specific override wins over the more general one.
pub proof fn lemma_override_precedence(
    env: Seq<(Seq<char>, Seq<char>)>,
    target: Seq<char>,
    host: Seq<char>,
)
    ensures
        override_value(env, target, host) is Some ==> link_name(env, target, host)
            == override_value(env, target, host),
        lookup(env, exact_key(target)) is None && lookup(env, normalized_key(target)) is Some
            ==> link_name(env, target, host) == lookup(env, normalized_key(target)),
        lookup(env, exact_key(target)) is None && lookup(env, normalized_key(target)) is None
            && lookup(env, kind_key(target, host)) is Some ==> link_name(env, target, host)
            == lookup(env, kind_key(target, host)),
        lookup(env, exact_key(target)) is None && lookup(env, normalized_key(target)) is None
            && lookup(env, kind_key(target, host)) is None && lookup(env, generic_key()) is Some
            ==> link_name(env, target, host) == lookup(env, generic_key()),
{
}

/// Without an override, a target of the MSVC family links no runtime library
/// by name, whatever else the target says.
pub proof fn lemma_msvc_links_nothing(
    env: Seq<(Seq<char>, Seq<char>)>,
    target: Seq<char>,
    host: Seq<char>,
)
    requires
        has_substring(target, "msvc"@),
        override_value(env, target, host) is None,
    ensures
        link_name(env, target, host) is None,
{
}

} // verus!

//! The path operations of the standard library that the supervisor's rules
//! rest on. Paths travel through this crate as strings; what the platform's
//! path rules make of them is not proved here but named, so that contracts
//! can say exactly which path a function compares or builds.
//!
//! Each name stands for what the standard library computes on the platform
//! that the library is built for: a build gives the same answer for the same
//! paths wherever it runs, and nothing more is taken for granted.

use vstd::prelude::*;

verus! {

/// The path that the platform's rules give when `part` is adjoined to
/// `base`.
pub uninterp spec fn joined_path(base: Seq<char>, part: Seq<char>) -> Seq<char>;

/// Whether the platform's rules take `a` and `b` for the same path.
pub uninterp spec fn same_path(a: Seq<char>, b: Seq<char>) -> bool;

/// The final component of `path`, where it has one.
pub uninterp spec fn final_component(path: Seq<char>) -> Option<Seq<char>>;

/// The path that the platform's rules give when the extension of `path` is
/// replaced by `extension`.
pub uninterp spec fn path_with_extension(path: Seq<char>, extension: Seq<char>) -> Seq<char>;

/// The final component of `path` without its extension, where it has a
/// final component.
pub uninterp spec fn final_stem(path: Seq<char>) -> Option<Seq<char>>;

/// Whether, by the platform's rules, the components of `suffix` are the
/// last components of `path`.
pub uninterp spec fn path_ends_with(path: Seq<char>, suffix: Seq<char>) -> bool;

/// Adjoins `part` to `base` with `std::path::Path::join`.
///
/// Trusted: the result is a function of the two paths alone. Nothing else
/// is claimed of it; how the two are adjoined, and that an absolute `part`
/// replaces `base`, is the standard library's business.
#[verifier::external_body]
pub(crate) fn join_path(base: &str, part: &str) -> (joined: String)
    ensures
        joined@ == joined_path(base@, part@),
{
    std::path::Path::new(base).join(part).to_string_lossy().into_owned()
}

/// Compares two paths with the `==` of `std::path::Path`, which compares
/// them component by component.
///
/// Trusted: the answer is a function of the two paths alone.
#[verifier::external_body]
pub(crate) fn is_same_path(a: &str, b: &str) -> (same: bool)
    ensures
        same == same_path(a@, b@),
{
    std::path::Path::new(a) == std::path::Path::new(b)
}

/// The final component of `path`, as `std::path::Path::file_name` gives it:
/// the name of the file or directory that the path ends in, and nothing
/// where it ends in `..` or has no component.
///
/// Trusted: the answer is a function of the path alone.
#[verifier::external_body]
pub(crate) fn file_name(path: &str) -> (name: Option<String>)
    ensures
        name.deep_view() == final_component(path@),
{
    std::path::Path::new(path).file_name().map(|name| name.to_string_lossy().into_owned())
}

/// Whether `extension` can be the extension of a path: it holds no path
/// separator of any platform.
pub open spec fn is_extension(extension: Seq<char>) -> bool {
    !extension.contains('/') && !extension.contains('\\')
}

/// Replaces the extension of `path` with `std::path::Path::with_extension`,
/// which removes the extension where `extension` is empty. The standard
/// library panics on an extension that holds a path separator; such an
/// extension is not taken.
///
/// Trusted: the result is a function of the path and the extension alone.
#[verifier::external_body]
pub(crate) fn with_extension(path: &str, extension: &str) -> (replaced: String)
    requires
        is_extension(extension@),
    ensures
        replaced@ == path_with_extension(path@, extension@),
{
    std::path::Path::new(path).with_extension(extension).to_string_lossy().into_owned()
}

/// The final component of `path` without its extension, as
/// `std::path::Path::file_stem` gives it.
///
/// Trusted: the answer is a function of the path alone.
#[verifier::external_body]
pub(crate) fn file_stem(path: &str) -> (stem: Option<String>)
    ensures
        stem.deep_view() == final_stem(path@),
{
    std::path::Path::new(path).file_stem().map(|stem| stem.to_string_lossy().into_owned())
}

/// Whether `path` ends with `suffix`, as `std::path::Path::ends_with` tells:
/// whole components are compared, and every path ends with the empty one.
///
/// Trusted: the answer is a function of the two paths alone.
#[verifier::external_body]
pub(crate) fn ends_with_path(path: &str, suffix: &str) -> (ends: bool)
    ensures
        ends == path_ends_with(path@, suffix@),
{
    std::path::Path::new(path).ends_with(suffix)
}

} // verus!

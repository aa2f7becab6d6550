//! The decisions taken while the project of a mobile platform is
//! generated from its templates.

use vstd::prelude::*;
use crate::paths::{is_same_path, same_path};
use crate::search::{first_where, lemma_first_where};
use crate::text::{has_text, is_text, occurs_in, replace_text, replaced, Texts};

verus! {

/// What stands for the application's name in the path of a template.
pub open spec fn app_name_placeholder() -> Seq<char> {
    "{{app.name}}"@
}

/// The file that is written anew each time the project is generated.
pub open spec fn build_task_file() -> Seq<char> {
    "BuildTask.kt"@
}

/// Whether a component holds the placeholder.
pub open spec fn has_placeholder() -> spec_fn(Seq<char>) -> bool {
    |component: Seq<char>| occurs_in(component, app_name_placeholder())
}

/// The position of the first component that holds the placeholder, or the
/// length of the list where none does.
pub open spec fn first_placeholder(components: Texts) -> int {
    first_where(components, has_placeholder())
}

/// Where in the project a template goes: the first component of its path
/// that holds the placeholder has the application's name put in; the others
/// stay as they are.
pub open spec fn project_path_of(components: Texts, app_name: Seq<char>) -> Texts {
    let at = first_placeholder(components);
    if at < components.len() {
        components.update(at, replaced(components[at], app_name_placeholder(), app_name))
    } else {
        components
    }
}

/// The components with the one at `at` replaced, where there is one.
pub open spec fn with_component(components: Texts, at: int, named: Seq<char>) -> Texts {
    if 0 <= at < components.len() {
        components.update(at, named)
    } else {
        components
    }
}

/// The position of the first component that holds the placeholder, or the
/// length of the list.
pub fn find_placeholder(components: &Vec<String>) -> (at: usize)
    ensures
        at == first_placeholder(components.deep_view()),
        at <= components.len(),
{
    let mut i: usize = 0;
    while i < components.len()
        invariant
            i <= components.len(),
            forall|j: int|
                0 <= j < i ==> !has_placeholder()(#[trigger] components.deep_view()[j]),
        decreases components.len() - i,
    {
        if has_text(components[i].as_str(), "{{app.name}}") {
            proof {
                lemma_first_where(components.deep_view(), has_placeholder(), i as int);
            }
            return i;
        }
        i += 1;
    }
    proof {
        lemma_first_where(components.deep_view(), has_placeholder(), i as int);
    }
    i
}

/// The components with the one at `at` replaced by `named`; unchanged
/// where `at` is no position of the list.
pub fn rename_component(components: Vec<String>, at: usize, named: String) -> (renamed: Vec<String>)
    ensures
        renamed.deep_view() == with_component(components.deep_view(), at as int, named@),
{
    let mut renamed = components;
    if at < renamed.len() {
        let ghost before = renamed.deep_view();
        renamed.set(at, named);
        assert(renamed.deep_view() =~= before.update(at as int, named@));
    }
    renamed
}

/// Where in the project a template goes, by the components of its path.
pub fn project_path(components: Vec<String>, app_name: &str) -> (path: Vec<String>)
    ensures
        path.deep_view() == project_path_of(components.deep_view(), app_name@),
{
    let at = find_placeholder(&components);
    if at < components.len() {
        let named = replace_text(components[at].as_str(), "{{app.name}}", app_name);
        rename_component(components, at, named)
    } else {
        components
    }
}

/// Whether a template is written: one that the project lacks, and the
/// build task in any case.
pub fn writes_template(file_name: &String, exists: bool) -> (writes: bool)
    ensures
        writes == (file_name@ == build_task_file() || !exists),
{
    is_text(file_name, "BuildTask.kt") || !exists
}

/// Whether `dir` is, by the platform's rules, one of `dirs`.
pub open spec fn is_among(dirs: Texts, dir: Seq<char>) -> bool {
    exists|i: int| 0 <= i < dirs.len() && same_path(#[trigger] dirs[i], dir)
}

/// Takes note of the directory that a template goes to, and tells whether
/// it has to be created: it has, unless it was noted before.
pub fn note_directory(created: &mut Vec<String>, dir: String) -> (create: bool)
    ensures
        create == !is_among(old(created).deep_view(), dir@),
        final(created).deep_view() == if create {
            old(created).deep_view().push(dir@)
        } else {
            old(created).deep_view()
        },
{
    let mut i: usize = 0;
    while i < created.len()
        invariant
            i <= created.len(),
            *created == *old(created),
            forall|j: int| 0 <= j < i ==> !same_path(#[trigger] created.deep_view()[j], dir@),
        decreases created.len() - i,
    {
        if is_same_path(created[i].as_str(), dir.as_str()) {
            assert(same_path(old(created).deep_view()[i as int], dir@));
            return false;
        }
        i += 1;
    }
    let ghost before = created.deep_view();
    created.push(dir);
    assert(created.deep_view() =~= before.push(dir@));
    true
}

/// Whether the pods have to be installed: where a platform has any.
pub fn installs_pods(ios_pods: usize, macos_pods: usize) -> (installs: bool)
    ensures
        installs == (ios_pods > 0 || macos_pods > 0),
{
    ios_pods > 0 || macos_pods > 0
}

/// The architectures that a project is valid for.
pub open spec fn valid_archs_of(aarch64: bool) -> Texts {
    if aarch64 {
        seq!["arm64"@, "arm64-sim"@]
    } else {
        seq!["arm64"@, "x86_64"@]
    }
}

/// The architectures that a project is valid for, by whether it is
/// generated on a 64-bit ARM machine.
pub fn valid_archs(aarch64: bool) -> (archs: Vec<String>)
    ensures
        archs.deep_view() == valid_archs_of(aarch64),
{
    let mut archs: Vec<String> = Vec::new();
    archs.push("arm64".to_owned());
    if aarch64 {
        archs.push("arm64-sim".to_owned());
    } else {
        archs.push("x86_64".to_owned());
    }
    assert(archs.deep_view() =~= valid_archs_of(aarch64));
    archs
}

} // verus!

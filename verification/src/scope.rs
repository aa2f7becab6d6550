//! The watch scope: the root directories that a session watches.
//!
//! A project that is its own workspace root is watched alone. A project
//! inside a larger workspace is watched through the workspace's declared
//! members, each resolved against the workspace root; a workspace that
//! declares no member list is watched through the project's own directory.

use vstd::prelude::*;
use crate::cargo_settings::{CargoSettings, CargoSettingsView};
use crate::paths::{is_same_path, join_path, joined_path, same_path};
use crate::text::{copy_texts, Texts};

verus! {

/// The member list that a workspace manifest declares, if it declares one.
pub open spec fn declared_members(settings: CargoSettingsView) -> Option<Texts> {
    match settings.workspace {
        Some(workspace) => workspace.members,
        None => None,
    }
}

/// The directory of `member`, resolved against the workspace root.
pub open spec fn member_dir(workspace_root: Seq<char>, member: Seq<char>) -> Seq<char> {
    joined_path(workspace_root, member)
}

/// The directories of `members`, each resolved against the workspace root,
/// in the order of the list.
pub open spec fn member_dirs(workspace_root: Seq<char>, members: Texts) -> Texts {
    Seq::new(members.len(), |i: int| member_dir(workspace_root, members[i]))
}

/// The roots to watch for a project directory, a workspace root and the
/// workspace's declared member list.
pub open spec fn watch_roots(
    project_dir: Seq<char>,
    workspace_root: Seq<char>,
    members: Option<Texts>,
) -> Texts {
    if same_path(project_dir, workspace_root) {
        seq![project_dir]
    } else {
        match members {
            Some(list) => member_dirs(workspace_root, list),
            None => seq![project_dir],
        }
    }
}

/// The roots to watch where it is known whether the project is its own
/// workspace root, and which directories the declared members have.
pub open spec fn selected_roots(
    is_workspace_root: bool,
    project_dir: Seq<char>,
    member_dirs: Option<Texts>,
) -> Texts {
    if is_workspace_root {
        seq![project_dir]
    } else {
        match member_dirs {
            Some(dirs) => dirs,
            None => seq![project_dir],
        }
    }
}

/// The root directories that a session watches, in order. It is resolved
/// once, when the session starts, and not changed afterwards.
#[derive(Debug, Clone, PartialEq, Eq)]
pub struct WatchScope {
    roots: Vec<String>,
}

impl View for WatchScope {
    type V = Texts;

    closed spec fn view(&self) -> Texts {
        self.roots.deep_view()
    }
}

impl WatchScope {
    /// Whether the project is its own workspace root, so that the scope is
    /// the project directory whatever the workspace manifest says.
    pub fn is_single_crate(project_dir: &str, workspace_root: &str) -> (single: bool)
        ensures
            single == same_path(project_dir@, workspace_root@),
    {
        is_same_path(project_dir, workspace_root)
    }

    /// The member list that a workspace manifest declares, if it declares
    /// one.
    pub fn members_of(settings: &CargoSettings) -> (members: Option<Vec<String>>)
        ensures
            members.deep_view() == declared_members(settings@),
    {
        match &settings.workspace {
            Some(workspace) => match &workspace.members {
                Some(list) => Some(copy_texts(list)),
                None => None,
            },
            None => None,
        }
    }

    /// The scope for a project of which it is known whether it is its own
    /// workspace root, and which directories the workspace's declared members
    /// have.
    pub fn select(is_workspace_root: bool, project_dir: String, member_dirs: Option<Vec<String>>) -> (scope:
        WatchScope)
        ensures
            scope@ == selected_roots(is_workspace_root, project_dir@, member_dirs.deep_view()),
    {
        if is_workspace_root {
            WatchScope::single(project_dir)
        } else {
            match member_dirs {
                Some(roots) => WatchScope { roots },
                None => WatchScope::single(project_dir),
            }
        }
    }

    /// The scope of one root.
    fn single(root: String) -> (scope: WatchScope)
        ensures
            scope@ == seq![root@],
    {
        let mut roots: Vec<String> = Vec::new();
        roots.push(root);
        assert(roots.deep_view() =~= seq![root@]);
        WatchScope { roots }
    }

    /// Resolves the scope. `members` is the member list of the workspace
    /// manifest; it is looked at only where the project is not its own
    /// workspace root.
    pub fn resolve(project_dir: &str, workspace_root: &str, members: Option<Vec<String>>) -> (scope:
        WatchScope)
        ensures
            scope@ == watch_roots(project_dir@, workspace_root@, members.deep_view()),
    {
        let is_workspace_root = is_same_path(project_dir, workspace_root);
        let member_dirs = match members {
            Some(list) => {
                let mut dirs: Vec<String> = Vec::new();
                let mut i: usize = 0;
                while i < list.len()
                    invariant
                        i <= list.len(),
                        dirs.len() == i,
                        forall|j: int|
                            0 <= j < i ==> dirs.deep_view()[j] == member_dir(
                                workspace_root@,
                                #[trigger] list.deep_view()[j],
                            ),
                    decreases list.len() - i,
                {
                    dirs.push(join_path(workspace_root, list[i].as_str()));
                    i += 1;
                }
                assert(dirs.deep_view() =~= member_dirs(workspace_root@, list.deep_view()));
                Some(dirs)
            },
            None => None,
        };
        WatchScope::select(is_workspace_root, project_dir.to_owned(), member_dirs)
    }

    /// The number of roots.
    pub fn len(&self) -> (len: usize)
        ensures
            len == self@.len(),
    {
        self.roots.len()
    }

    /// The root at `index`.
    pub fn root(&self, index: usize) -> (root: &String)
        requires
            index < self@.len(),
        ensures
            root@ == self@[index as int],
    {
        &self.roots[index]
    }

    /// The roots, in order.
    pub fn roots(&self) -> (roots: Vec<String>)
        ensures
            roots.deep_view() == self@,
    {
        copy_texts(&self.roots)
    }
}

/// A project that is its own workspace root is watched alone, whatever
/// members its manifest declares.
pub proof fn lemma_single_crate_scope(
    project_dir: Seq<char>,
    workspace_root: Seq<char>,
    members: Option<Texts>,
)
    requires
        same_path(project_dir, workspace_root),
    ensures
        watch_roots(project_dir, workspace_root, members) == seq![project_dir],
{
}

/// A project inside a larger workspace is watched through the declared
/// members: one root for each, in order, each the member's directory under
/// the workspace root.
pub proof fn lemma_workspace_scope(
    project_dir: Seq<char>,
    workspace_root: Seq<char>,
    members: Texts,
)
    requires
        !same_path(project_dir, workspace_root),
    ensures
        watch_roots(project_dir, workspace_root, Some(members)).len() == members.len(),
        forall|i: int|
            0 <= i < members.len() ==> #[trigger] watch_roots(
                project_dir,
                workspace_root,
                Some(members),
            )[i] == joined_path(workspace_root, members[i]),
{
}

/// With two declared members the scope is their two directories.
pub proof fn lemma_two_member_scope(
    project_dir: Seq<char>,
    workspace_root: Seq<char>,
    first: Seq<char>,
    second: Seq<char>,
)
    requires
        !same_path(project_dir, workspace_root),
    ensures
        watch_roots(project_dir, workspace_root, Some(seq![first, second])) == seq![
            joined_path(workspace_root, first),
            joined_path(workspace_root, second),
        ],
{
    assert(watch_roots(project_dir, workspace_root, Some(seq![first, second])) =~= seq![
        joined_path(workspace_root, first),
        joined_path(workspace_root, second),
    ]);
}

/// A project inside a workspace that declares no member list is watched
/// through its own directory.
pub proof fn lemma_scope_without_members(project_dir: Seq<char>, workspace_root: Seq<char>)
    ensures
        watch_roots(project_dir, workspace_root, None) == seq![project_dir],
{
}

} // verus!

//! What gets registered with the watcher backend.
//!
//! Each root of the scope is listed one level deep, with the ignore rules
//! applied. Every entry that survives is registered on its own: a directory
//! recursively, a file by itself. The root is never registered as its own
//! child. What is not registered is not watched, so that a change to it
//! never becomes a change event.

use vstd::prelude::*;
use crate::paths::{is_same_path, join_path, joined_path, same_path};

verus! {

/// The debounce window, in seconds: raw notifications for a path that
/// arrive within it are delivered as one change event.
pub const DEBOUNCE_WINDOW_SECS: u64 = 1;

/// How a path is watched.
#[derive(Clone, Copy, Debug, PartialEq, Eq, Structural)]
pub enum RecursiveMode {
    /// The path and everything below it.
    Recursive,
    /// The path alone.
    NonRecursive,
}

/// An entry of a root's listing that survived the ignore rules.
#[derive(Debug, Clone, PartialEq, Eq)]
pub struct Entry {
    /// The entry's path, as the listing gave it.
    pub path: String,
    pub is_dir: bool,
}

/// The model of an `Entry`.
pub struct EntryView {
    pub path: Seq<char>,
    pub is_dir: bool,
}

impl View for Entry {
    type V = EntryView;

    open spec fn view(&self) -> EntryView {
        EntryView { path: self.path@, is_dir: self.is_dir }
    }
}

impl DeepView for Entry {
    type V = EntryView;

    open spec fn deep_view(&self) -> EntryView {
        self@
    }
}

/// A registration with the watcher backend.
#[derive(Debug, Clone, PartialEq, Eq)]
pub struct Registration {
    pub path: String,
    pub mode: RecursiveMode,
}

/// The model of a `Registration`.
pub struct RegistrationView {
    pub path: Seq<char>,
    pub mode: RecursiveMode,
}

impl View for Registration {
    type V = RegistrationView;

    open spec fn view(&self) -> RegistrationView {
        RegistrationView { path: self.path@, mode: self.mode }
    }
}

impl DeepView for Registration {
    type V = RegistrationView;

    open spec fn deep_view(&self) -> RegistrationView {
        self@
    }
}

/// How an entry is watched: a directory recursively, a file by itself.
pub open spec fn mode_of(is_dir: bool) -> RecursiveMode {
    if is_dir {
        RecursiveMode::Recursive
    } else {
        RecursiveMode::NonRecursive
    }
}

/// The path under which an entry of `root`'s listing is watched.
pub open spec fn watched_path(root: Seq<char>, entry: EntryView) -> Seq<char> {
    joined_path(root, entry.path)
}

/// Whether an entry of `root`'s listing is registered: every entry but the
/// root itself.
pub open spec fn is_registered(root: Seq<char>, entry: EntryView) -> bool {
    !same_path(watched_path(root, entry), root)
}

/// `is_registered` as a predicate on entries.
pub open spec fn registered_under(root: Seq<char>) -> spec_fn(EntryView) -> bool {
    |entry: EntryView| is_registered(root, entry)
}

/// The registration of an entry of `root`'s listing.
pub open spec fn registration_of(root: Seq<char>, entry: EntryView) -> RegistrationView {
    RegistrationView { path: watched_path(root, entry), mode: mode_of(entry.is_dir) }
}

/// `registration_of` as a function on entries.
pub open spec fn registering_under(root: Seq<char>) -> spec_fn(EntryView) -> RegistrationView {
    |entry: EntryView| registration_of(root, entry)
}

/// The registrations for `root`'s listing, in the order of the listing.
pub open spec fn registrations_of(root: Seq<char>, entries: Seq<EntryView>) -> Seq<
    RegistrationView,
> {
    entries.filter(registered_under(root)).map_values(registering_under(root))
}

/// The registration of one entry, where it is known under which path it is
/// watched and whether that path is the root itself.
pub open spec fn planned(path: Seq<char>, is_root: bool, is_dir: bool) -> Option<
    RegistrationView,
> {
    if is_root {
        None
    } else {
        Some(RegistrationView { path, mode: mode_of(is_dir) })
    }
}

/// The registration of one entry, where it is known under which path it is
/// watched and whether that path is the root itself: none for the root, a
/// recursive one for a directory, a non-recursive one for a file.
pub fn plan_entry(path: String, is_root: bool, is_dir: bool) -> (registration: Option<Registration>)
    ensures
        registration.deep_view() == planned(path@, is_root, is_dir),
{
    if is_root {
        None
    } else {
        Some(
            Registration {
                path,
                mode: if is_dir {
                    RecursiveMode::Recursive
                } else {
                    RecursiveMode::NonRecursive
                },
            },
        )
    }
}

/// The registrations for the listing of `root`. `entries` holds what the
/// listing gave, one level deep, after the ignore rules were applied.
pub fn registrations(root: &str, entries: &Vec<Entry>) -> (plan: Vec<Registration>)
    ensures
        plan.deep_view() == registrations_of(root@, entries.deep_view()),
{
    let ghost all = entries.deep_view();
    let mut plan: Vec<Registration> = Vec::new();
    let mut i: usize = 0;
    assert(all.take(0) =~= Seq::empty());
    assert(plan.deep_view() =~= registrations_of(root@, all.take(0)));
    while i < entries.len()
        invariant
            i <= entries.len(),
            all == entries.deep_view(),
            plan.deep_view() == registrations_of(root@, all.take(i as int)),
        decreases entries.len() - i,
    {
        let entry = &entries[i];
        let path = join_path(root, entry.path.as_str());
        let is_root = is_same_path(path.as_str(), root);
        let ghost before = plan.deep_view();
        proof {
            assert(all.take(i + 1) =~= all.take(i as int).push(all[i as int]));
            all.take(i as int).lemma_filter_push(all[i as int], registered_under(root@));
        }
        match plan_entry(path, is_root, entry.is_dir) {
            Some(registration) => {
                plan.push(registration);
                assert(plan.deep_view() =~= before.push(registration_of(root@, all[i as int])));
                assert(plan.deep_view() =~= registrations_of(root@, all.take(i + 1)));
            },
            None => {},
        }
        i += 1;
    }
    assert(all.take(i as int) =~= all);
    plan
}

/// Only what the listing gave is registered: every registration is that of
/// a listed entry, and none is the root itself.
pub proof fn lemma_registered_was_listed(root: Seq<char>, entries: Seq<EntryView>, index: int)
    requires
        0 <= index < registrations_of(root, entries).len(),
    ensures
        exists|j: int|
            0 <= j < entries.len() && registrations_of(root, entries)[index] == registration_of(
                root,
                #[trigger] entries[j],
            ),
        !same_path(registrations_of(root, entries)[index].path, root),
{
    let kept = entries.filter(registered_under(root));
    entries.lemma_filter_pred(registered_under(root), index);
    assert(kept.contains(kept[index]));
    entries.lemma_filter_contains_rev(registered_under(root), kept[index]);
    let j = choose|j: int| 0 <= j < entries.len() && entries[j] == kept[index];
    assert(registrations_of(root, entries)[index] == registration_of(root, entries[j]));
}

/// An entry that the ignore rules removed from the listing is not
/// registered: a path that no listed entry is watched under has no
/// registration.
pub proof fn lemma_unlisted_is_not_registered(
    root: Seq<char>,
    entries: Seq<EntryView>,
    path: Seq<char>,
)
    requires
        forall|j: int| 0 <= j < entries.len() ==> watched_path(root, #[trigger] entries[j]) != path,
    ensures
        forall|i: int|
            0 <= i < registrations_of(root, entries).len() ==> (#[trigger] registrations_of(
                root,
                entries,
            )[i]).path != path,
{
    assert forall|i: int| 0 <= i < registrations_of(root, entries).len() implies (
    #[trigger] registrations_of(root, entries)[i]).path != path by {
        lemma_registered_was_listed(root, entries, i);
    }
}

} // verus!

//! Change events: what the watcher backend reports, and what of it the
//! supervisor reacts to.

use vstd::prelude::*;
use crate::paths::{file_name, final_component};
use crate::text::is_text;

verus! {

/// The name of the configuration file. A change to a file of this name,
/// wherever in the watched scope it lies, reloads the configuration.
pub open spec fn config_file_name() -> Seq<char> {
    "tauri.conf.json"@
}

/// A debounced notification as the watcher backend delivers it.
#[derive(Debug, Clone, PartialEq, Eq)]
pub enum Notification {
    /// A write was noticed; the settled event follows.
    NoticeWrite(String),
    /// A removal was noticed; the settled event follows.
    NoticeRemove(String),
    /// The path was created.
    Create(String),
    /// The path was written to.
    Write(String),
    /// The path's attributes changed.
    Chmod(String),
    /// The path was removed.
    Remove(String),
    /// The first path was renamed to the second.
    Rename(String, String),
    /// The backend lost track and scans its watches anew.
    Rescan,
    /// The backend reported an error, for the path if it names one.
    Error(Option<String>),
}

/// The model of a `Notification`.
pub enum NotificationView {
    NoticeWrite(Seq<char>),
    NoticeRemove(Seq<char>),
    Create(Seq<char>),
    Write(Seq<char>),
    Chmod(Seq<char>),
    Remove(Seq<char>),
    Rename(Seq<char>, Seq<char>),
    Rescan,
    Error(Option<Seq<char>>),
}

impl View for Notification {
    type V = NotificationView;

    open spec fn view(&self) -> NotificationView {
        match self {
            Notification::NoticeWrite(p) => NotificationView::NoticeWrite(p@),
            Notification::NoticeRemove(p) => NotificationView::NoticeRemove(p@),
            Notification::Create(p) => NotificationView::Create(p@),
            Notification::Write(p) => NotificationView::Write(p@),
            Notification::Chmod(p) => NotificationView::Chmod(p@),
            Notification::Remove(p) => NotificationView::Remove(p@),
            Notification::Rename(from, to) => NotificationView::Rename(from@, to@),
            Notification::Rescan => NotificationView::Rescan,
            Notification::Error(p) => NotificationView::Error(p.deep_view()),
        }
    }
}

/// What happened to a path.
#[derive(Debug, Clone, PartialEq, Eq)]
pub enum ChangeKind {
    Created,
    Modified,
    Removed,
    /// The path is the new name of what was at `from`.
    Renamed { from: String },
}

/// The model of a `ChangeKind`.
pub enum ChangeKindView {
    Created,
    Modified,
    Removed,
    Renamed { from: Seq<char> },
}

impl View for ChangeKind {
    type V = ChangeKindView;

    open spec fn view(&self) -> ChangeKindView {
        match self {
            ChangeKind::Created => ChangeKindView::Created,
            ChangeKind::Modified => ChangeKindView::Modified,
            ChangeKind::Removed => ChangeKindView::Removed,
            ChangeKind::Renamed { from } => ChangeKindView::Renamed { from: from@ },
        }
    }
}

/// A change that the supervisor reacts to.
#[derive(Debug, Clone, PartialEq, Eq)]
pub struct ChangeEvent {
    /// The path that changed; for a rename, the new name.
    pub path: String,
    pub kind: ChangeKind,
}

/// The model of a `ChangeEvent`.
pub struct ChangeEventView {
    pub path: Seq<char>,
    pub kind: ChangeKindView,
}

impl View for ChangeEvent {
    type V = ChangeEventView;

    open spec fn view(&self) -> ChangeEventView {
        ChangeEventView { path: self.path@, kind: self.kind@ }
    }
}

impl DeepView for ChangeEvent {
    type V = ChangeEventView;

    open spec fn deep_view(&self) -> ChangeEventView {
        self@
    }
}

/// The change that a notification stands for: creations, writes, removals
/// and renames count, a rename under its new name; notices, attribute
/// changes, rescans and errors do not.
pub open spec fn change_of(notification: NotificationView) -> Option<ChangeEventView> {
    match notification {
        NotificationView::Create(path) => Some(
            ChangeEventView { path, kind: ChangeKindView::Created },
        ),
        NotificationView::Write(path) => Some(
            ChangeEventView { path, kind: ChangeKindView::Modified },
        ),
        NotificationView::Remove(path) => Some(
            ChangeEventView { path, kind: ChangeKindView::Removed },
        ),
        NotificationView::Rename(from, to) => Some(
            ChangeEventView { path: to, kind: ChangeKindView::Renamed { from } },
        ),
        _ => None,
    }
}

/// Turns a notification into the change it stands for, if any.
pub fn change_event(notification: Notification) -> (event: Option<ChangeEvent>)
    ensures
        event.deep_view() == change_of(notification@),
{
    match notification {
        Notification::Create(path) => Some(ChangeEvent { path, kind: ChangeKind::Created }),
        Notification::Write(path) => Some(ChangeEvent { path, kind: ChangeKind::Modified }),
        Notification::Remove(path) => Some(ChangeEvent { path, kind: ChangeKind::Removed }),
        Notification::Rename(from, to) => Some(
            ChangeEvent { path: to, kind: ChangeKind::Renamed { from } },
        ),
        _ => None,
    }
}

/// Whether a final path component names the configuration file.
pub open spec fn names_config_file(name: Option<Seq<char>>) -> bool {
    name == Some(config_file_name())
}

/// Whether `name`, the final component of a changed path, names the
/// configuration file.
pub fn is_config_file_name(name: &Option<String>) -> (is_config: bool)
    ensures
        is_config == names_config_file(name.deep_view()),
{
    match name {
        Some(n) => is_text(n, "tauri.conf.json"),
        None => false,
    }
}

/// Whether the change is one to the configuration file: whether the final
/// component of its path is the configuration file's name.
pub fn is_config_change(event: &ChangeEvent) -> (is_config: bool)
    ensures
        is_config == names_config_file(final_component(event.path@)),
{
    let name = file_name(event.path.as_str());
    is_config_file_name(&name)
}

} // verus!

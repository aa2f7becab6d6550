//! What a session takes from the environment.
//!
//! The environment is read once, where a session begins, into an
//! `Environment`. Nothing in this crate reads it: every function that goes
//! by it takes the value.

use vstd::prelude::*;

verus! {

/// What a session takes from the environment.
#[derive(Debug, Clone, PartialEq, Eq)]
pub struct Environment {
    /// The tray library to depend on, from `TAURI_TRAY`.
    pub tray: Option<String>,
    /// The signing identity, from `APPLE_SIGNING_IDENTITY`.
    pub apple_signing_identity: Option<String>,
    /// The provider's short name, from `APPLE_PROVIDER_SHORT_NAME`.
    pub apple_provider_short_name: Option<String>,
    /// One more ignore file for the watcher, from
    /// `TAURI_DEV_WATCHER_IGNORE_FILE`.
    pub watcher_ignore_file: Option<String>,
}

/// The model of an `Environment`.
pub struct EnvironmentView {
    pub tray: Option<Seq<char>>,
    pub apple_signing_identity: Option<Seq<char>>,
    pub apple_provider_short_name: Option<Seq<char>>,
    pub watcher_ignore_file: Option<Seq<char>>,
}

impl View for Environment {
    type V = EnvironmentView;

    open spec fn view(&self) -> EnvironmentView {
        EnvironmentView {
            tray: self.tray.deep_view(),
            apple_signing_identity: self.apple_signing_identity.deep_view(),
            apple_provider_short_name: self.apple_provider_short_name.deep_view(),
            watcher_ignore_file: self.watcher_ignore_file.deep_view(),
        }
    }
}

} // verus!

//! The application as the command line drives it: built, or run in
//! development under a supervisor.

use vstd::prelude::*;
use crate::dev_args::{app_args, build_args, dev_options, with_defaults_enabled, with_defaults_off};
use crate::events::{Notification, NotificationView};
use crate::manifest::FeatureMap;
use crate::options::{MobileOptions, MobileOptionsView, Options, OptionsView, Target, TargetView};
use crate::settings::{RustAppSettings, RustAppSettingsView};
use crate::supervisor::{DevSupervisor, Mode, SupervisorState};
use crate::text::Texts;

verus! {

/// How long, in milliseconds, a regenerated manifest is given to settle on
/// disk before the settings are read from it.
pub const MANIFEST_SETTLE_MILLIS: u64 = 2000;

/// The environment variable that carries the deployment target to the
/// build.
pub open spec fn deployment_target_variable() -> Seq<char> {
    "MACOSX_DEPLOYMENT_TARGET"@
}

/// What every spawn of a desktop session uses: the options, and the
/// application's own arguments.
#[derive(Debug, Clone, PartialEq, Eq)]
pub struct RunStrategy {
    pub options: Options,
    pub run_args: Vec<String>,
}

/// The model of a `RunStrategy`.
pub struct RunStrategyView {
    pub options: OptionsView,
    pub run_args: Texts,
}

impl View for RunStrategy {
    type V = RunStrategyView;

    open spec fn view(&self) -> RunStrategyView {
        RunStrategyView { options: self.options@, run_args: self.run_args.deep_view() }
    }
}

/// The application.
pub struct Rust {
    app_settings: RustAppSettings,
    config_features: Vec<String>,
    product_name: Option<String>,
    available_targets: Option<Vec<Target>>,
}

/// The model of a `Rust`.
pub struct RustView {
    pub app_settings: RustAppSettingsView,
    /// The features that the configuration enables.
    pub config_features: Texts,
    pub product_name: Option<Seq<char>>,
    /// The targets that the toolchain knows, once they were asked for.
    pub available_targets: Option<Seq<TargetView>>,
}

impl View for Rust {
    type V = RustView;

    closed spec fn view(&self) -> RustView {
        RustView {
            app_settings: self.app_settings@,
            config_features: self.config_features.deep_view(),
            product_name: self.product_name.deep_view(),
            available_targets: self.available_targets.deep_view(),
        }
    }
}

/// Whether the wait for a regenerated manifest is over: once a write to it
/// was noticed, or the time given to it has passed.
pub open spec fn settled(elapsed_millis: u64, notification: Option<NotificationView>) -> bool {
    elapsed_millis >= MANIFEST_SETTLE_MILLIS || (notification matches Some(
        NotificationView::NoticeWrite(_),
    ))
}

/// Whether the wait for a regenerated manifest is over. `notification` is
/// what the watcher on the manifest delivered since the last look, if
/// anything.
pub fn manifest_settled(elapsed_millis: u64, notification: Option<Notification>) -> (over: bool)
    ensures
        over == settled(
            elapsed_millis,
            match notification {
                Some(n) => Some(n@),
                None => None,
            },
        ),
{
    if elapsed_millis >= MANIFEST_SETTLE_MILLIS {
        true
    } else {
        match notification {
            Some(Notification::NoticeWrite(_)) => true,
            _ => false,
        }
    }
}

/// The assignment that carries the deployment target to the build: none
/// where the configuration sets no minimum system version.
pub fn deployment_target(minimum_system_version: Option<String>) -> (assignment: Option<
    (String, String),
>)
    ensures
        match (assignment, minimum_system_version) {
            (Some((variable, value)), Some(version)) => variable@ == deployment_target_variable()
                && value@ == version@,
            (None, None) => true,
            _ => false,
        },
{
    match minimum_system_version {
        Some(version) => Some(("MACOSX_DEPLOYMENT_TARGET".to_owned(), version)),
        None => None,
    }
}

/// The mode of a session.
pub open spec fn mode_of(no_watch: bool) -> Mode {
    if no_watch {
        Mode::NoWatch
    } else {
        Mode::Watch
    }
}

impl Rust {
    /// The application with its settings, the features that the
    /// configuration enables and the product's name. The toolchain's
    /// targets are not known yet.
    pub fn new(
        app_settings: RustAppSettings,
        config_features: Option<Vec<String>>,
        product_name: Option<String>,
    ) -> (rust: Rust)
        ensures
            rust@ == (RustView {
                app_settings: app_settings@,
                config_features: match config_features {
                    Some(features) => features.deep_view(),
                    None => Seq::empty(),
                },
                product_name: product_name.deep_view(),
                available_targets: None,
            }),
    {
        let config_features = match config_features {
            Some(features) => features,
            None => {
                let features: Vec<String> = Vec::new();
                assert(features.deep_view() =~= Seq::empty());
                features
            },
        };
        Rust { app_settings, config_features, product_name, available_targets: None }
    }

    /// The application's settings.
    pub fn app_settings(&self) -> (settings: &RustAppSettings)
        ensures
            settings@ == self@.app_settings,
    {
        &self.app_settings
    }

    /// The features that the configuration enables.
    pub fn config_features(&self) -> (features: &Vec<String>)
        ensures
            features.deep_view() == self@.config_features,
    {
        &self.config_features
    }

    /// The product's name, where the configuration gives one.
    pub fn product_name(&self) -> (name: &Option<String>)
        ensures
            name.deep_view() == self@.product_name,
    {
        &self.product_name
    }

    /// The targets that the toolchain knows, once they were asked for.
    pub fn available_targets(&self) -> (targets: &Option<Vec<Target>>)
        ensures
            targets.deep_view() == self@.available_targets,
    {
        &self.available_targets
    }

    /// Keeps the targets that the toolchain was found to know.
    pub fn set_available_targets(&mut self, targets: Vec<Target>)
        ensures
            final(self)@ == (RustView {
                available_targets: Some(targets.deep_view()),
                ..old(self)@
            }),
    {
        self.available_targets = Some(targets);
    }

    /// Takes the feature table of the manifest as it was regenerated.
    pub fn set_manifest(&mut self, manifest: FeatureMap)
        ensures
            final(self)@ == (RustView {
                app_settings: RustAppSettingsView {
                    features: manifest@,
                    ..old(self)@.app_settings
                },
                ..old(self)@
            }),
    {
        self.app_settings.set_features(manifest);
    }

    /// The options with which the application is built for release: those
    /// given, with the custom protocol among the features.
    pub fn build(&self, options: Options) -> (build: Options)
        ensures
            build@ == (OptionsView {
                features: Some(crate::options::build_features(options@.features)),
                ..options@
            }),
    {
        options.for_build()
    }

    /// The supervisor of a desktop development session. The arguments are
    /// prepared once; every spawn of the session uses them as they then
    /// are.
    pub fn dev(&self, options: Options) -> (supervisor: DevSupervisor<RunStrategy>)
        ensures
            supervisor@ == SupervisorState::initial(mode_of(options.no_watch)),
            supervisor.config_path() == options@.config,
            supervisor.run_strategy()@ == (RunStrategyView {
                options: OptionsView {
                    args: build_args(with_defaults_off(options@.args)),
                    features: with_defaults_enabled(
                        options@.args,
                        options@.features,
                        self@.app_settings.features,
                    ),
                    ..options@
                },
                run_args: app_args(with_defaults_off(options@.args)),
            }),
    {
        let mut args = options.args;
        let mut features = options.features;
        let run_args = dev_options(&mut args, &mut features, self.app_settings.features());
        let config = crate::text::copy_optional_text(&options.config);
        let no_watch = options.no_watch;
        let prepared = Options {
            runner: options.runner,
            debug: options.debug,
            target: options.target,
            features,
            args,
            config: options.config,
            no_watch,
        };
        DevSupervisor::new(RunStrategy { options: prepared, run_args }, config, no_watch)
    }

    /// The supervisor of a mobile development session. The application's
    /// own arguments are not passed on.
    pub fn mobile_dev(&self, options: MobileOptions) -> (supervisor: DevSupervisor<MobileOptions>)
        ensures
            supervisor@ == SupervisorState::initial(mode_of(options.no_watch)),
            supervisor.config_path() == options@.config,
            supervisor.run_strategy()@ == (MobileOptionsView {
                args: build_args(with_defaults_off(options@.args)),
                features: with_defaults_enabled(
                    options@.args,
                    options@.features,
                    self@.app_settings.features,
                ),
                ..options@
            }),
    {
        let mut args = options.args;
        let mut features = options.features;
        dev_options(&mut args, &mut features, self.app_settings.features());
        let config = crate::text::copy_optional_text(&options.config);
        let no_watch = options.no_watch;
        let prepared = MobileOptions {
            debug: options.debug,
            features,
            args,
            config: options.config,
            no_watch,
        };
        DevSupervisor::new(prepared, config, no_watch)
    }
}

} // verus!

//! The options of a run: what the command line asked for, in the form in
//! which the build tool and the supervisor take it.

use vstd::prelude::*;
use vstd::std_specs::convert::FromSpecImpl;
use crate::text::Texts;

verus! {

/// The options of a desktop run or build.
#[derive(Debug, Clone, PartialEq, Eq)]
pub struct Options {
    /// The program that runs the build tool's commands, where the default
    /// is not used.
    pub runner: Option<String>,
    /// Whether the build is a debug build.
    pub debug: bool,
    /// The target triple, where the build is not for the host.
    pub target: Option<String>,
    /// The features to enable.
    pub features: Option<Vec<String>>,
    /// The arguments for the build tool.
    pub args: Vec<String>,
    /// The explicit configuration, where one was given.
    pub config: Option<String>,
    /// Whether the project is left unwatched.
    pub no_watch: bool,
}

/// The model of an `Options`.
pub struct OptionsView {
    pub runner: Option<Seq<char>>,
    pub debug: bool,
    pub target: Option<Seq<char>>,
    pub features: Option<Texts>,
    pub args: Texts,
    pub config: Option<Seq<char>>,
    pub no_watch: bool,
}

impl View for Options {
    type V = OptionsView;

    open spec fn view(&self) -> OptionsView {
        OptionsView {
            runner: self.runner.deep_view(),
            debug: self.debug,
            target: self.target.deep_view(),
            features: self.features.deep_view(),
            args: self.args.deep_view(),
            config: self.config.deep_view(),
            no_watch: self.no_watch,
        }
    }
}

impl Default for Options {
    /// Nothing chosen: a release build of the host target, watched.
    fn default() -> (options: Options)
        ensures
            options@ == (OptionsView {
                runner: None,
                debug: false,
                target: None,
                features: None,
                args: Seq::empty(),
                config: None,
                no_watch: false,
            }),
    {
        let options = Options {
            runner: None,
            debug: false,
            target: None,
            features: None,
            args: Vec::new(),
            config: None,
            no_watch: false,
        };
        assert(options.args.deep_view() =~= Seq::empty());
        options
    }
}

/// What a build command asks for.
#[derive(Debug, Clone, PartialEq, Eq)]
pub struct BuildOptions {
    pub runner: Option<String>,
    pub debug: bool,
    pub target: Option<String>,
    pub features: Option<Vec<String>>,
    pub args: Vec<String>,
    pub config: Option<String>,
}

/// What a development command asks for.
#[derive(Debug, Clone, PartialEq, Eq)]
pub struct DevOptions {
    pub runner: Option<String>,
    pub target: Option<String>,
    pub features: Option<Vec<String>>,
    /// Whether the application is built in release mode.
    pub release_mode: bool,
    pub args: Vec<String>,
    pub config: Option<String>,
    pub no_watch: bool,
}

impl From<BuildOptions> for Options {
    /// A build is never watched.
    fn from(options: BuildOptions) -> (converted: Options) {
        Options {
            runner: options.runner,
            debug: options.debug,
            target: options.target,
            features: options.features,
            args: options.args,
            config: options.config,
            no_watch: true,
        }
    }
}

impl FromSpecImpl<BuildOptions> for Options {
    open spec fn obeys_from_spec() -> bool {
        true
    }

    open spec fn from_spec(options: BuildOptions) -> Options {
        Options {
            runner: options.runner,
            debug: options.debug,
            target: options.target,
            features: options.features,
            args: options.args,
            config: options.config,
            no_watch: true,
        }
    }
}

impl From<DevOptions> for Options {
    /// A development run is a debug build unless release mode is asked for.
    fn from(options: DevOptions) -> (converted: Options) {
        Options {
            runner: options.runner,
            debug: !options.release_mode,
            target: options.target,
            features: options.features,
            args: options.args,
            config: options.config,
            no_watch: options.no_watch,
        }
    }
}

impl FromSpecImpl<DevOptions> for Options {
    open spec fn obeys_from_spec() -> bool {
        true
    }

    open spec fn from_spec(options: DevOptions) -> Options {
        Options {
            runner: options.runner,
            debug: !options.release_mode,
            target: options.target,
            features: options.features,
            args: options.args,
            config: options.config,
            no_watch: options.no_watch,
        }
    }
}

/// The feature that a release build of the application is made with.
pub open spec fn custom_protocol() -> Seq<char> {
    "custom-protocol"@
}

/// The feature selection of a build: what was chosen, and the custom
/// protocol.
pub open spec fn build_features(chosen: Option<Texts>) -> Texts {
    match chosen {
        Some(features) => features.push(custom_protocol()),
        None => seq![custom_protocol()],
    }
}

impl Options {
    /// The options of a build: the same, with the custom protocol added to
    /// the features.
    pub fn for_build(self) -> (options: Options)
        ensures
            options@ == (OptionsView { features: Some(build_features(self@.features)), ..self@ }),
    {
        let mut options = self;
        let mut features = match options.features.take() {
            Some(chosen) => chosen,
            None => Vec::new(),
        };
        let ghost chosen = features.deep_view();
        features.push("custom-protocol".to_owned());
        assert(features.deep_view() =~= chosen.push(custom_protocol()));
        assert(self@.features is None ==> chosen.push(custom_protocol()) =~= seq![custom_protocol()]);
        options.features = Some(features);
        options
    }
}

/// The options of a mobile run.
#[derive(Debug, Clone, PartialEq, Eq)]
pub struct MobileOptions {
    /// Whether the build is a debug build.
    pub debug: bool,
    /// The features to enable.
    pub features: Option<Vec<String>>,
    /// The arguments for the build tool.
    pub args: Vec<String>,
    /// The explicit configuration, where one was given.
    pub config: Option<String>,
    /// Whether the project is left unwatched.
    pub no_watch: bool,
}

/// The model of a `MobileOptions`.
pub struct MobileOptionsView {
    pub debug: bool,
    pub features: Option<Texts>,
    pub args: Texts,
    pub config: Option<Seq<char>>,
    pub no_watch: bool,
}

impl View for MobileOptions {
    type V = MobileOptionsView;

    open spec fn view(&self) -> MobileOptionsView {
        MobileOptionsView {
            debug: self.debug,
            features: self.features.deep_view(),
            args: self.args.deep_view(),
            config: self.config.deep_view(),
            no_watch: self.no_watch,
        }
    }
}

/// A compilation target that the toolchain knows.
#[derive(Debug, Clone, PartialEq, Eq)]
pub struct Target {
    name: String,
    installed: bool,
}

/// The model of a `Target`.
pub struct TargetView {
    /// The target's triple.
    pub name: Seq<char>,
    pub installed: bool,
}

impl View for Target {
    type V = TargetView;

    closed spec fn view(&self) -> TargetView {
        TargetView { name: self.name@, installed: self.installed }
    }
}

impl DeepView for Target {
    type V = TargetView;

    open spec fn deep_view(&self) -> TargetView {
        self@
    }
}

impl Target {
    /// The target `name`, installed or not.
    pub fn new(name: String, installed: bool) -> (target: Target)
        ensures
            target@ == (TargetView { name: name@, installed }),
    {
        Target { name, installed }
    }

    /// The target's triple.
    pub fn name(&self) -> (name: &String)
        ensures
            name@ == self@.name,
    {
        &self.name
    }

    /// Whether the target is installed.
    pub fn installed(&self) -> (installed: bool)
        ensures
            installed == self@.installed,
    {
        self.installed
    }
}

} // verus!

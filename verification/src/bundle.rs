//! What the bundle's settings take from the configuration, from the
//! environment and from the platform.

use std::str::FromStr;
use vstd::prelude::*;
use crate::environment::{Environment, EnvironmentView};
use crate::search::{first_where, lemma_first_where};
use crate::text::{copy_texts, ends_in, has_ending, is_text, Texts};

verus! {

/// The category of an application, as the bundler knows it.
#[verifier::external_type_specification]
#[verifier::external_body]
pub struct ExAppCategory(tauri_bundler::AppCategory);

/// What the bundler says to a name that is no category: the category that
/// the name resembles, where it resembles one. Nothing where the name is
/// that of a category.
pub uninterp spec fn category_suggestion(name: Seq<char>) -> Option<Option<Seq<char>>>;

/// The category that the bundler takes a name for, where it accepts the
/// name.
pub uninterp spec fn accepted_category(name: Seq<char>) -> tauri_bundler::AppCategory;

/// Reads the name of a category with the `from_str` of
/// `tauri_bundler::AppCategory`. A name that is no category is refused, with
/// the category that it resembles where it resembles one.
///
/// Trusted: whether a name is accepted, as which category, and with which
/// suggestion it is refused, is a function of the name alone.
#[verifier::external_body]
pub(crate) fn parse_category(name: &str) -> (category: Result<
    tauri_bundler::AppCategory,
    Option<String>,
>)
    ensures
        match category {
            Ok(accepted) => category_suggestion(name@) is None && accepted == accepted_category(
                name@,
            ),
            Err(nearest) => category_suggestion(name@) == Some(nearest.deep_view()),
        },
{
    tauri_bundler::AppCategory::from_str(name).map_err(|nearest| nearest.map(|name| name.to_owned()))
}

/// The platform that the bundle is made on.
#[derive(Clone, Copy, Debug, PartialEq, Eq, Structural)]
pub enum Platform {
    Linux,
    Windows,
    Other,
}

/// What the bundle's settings take from the configuration.
#[derive(Debug, Clone, PartialEq, Eq)]
pub struct BundleConfig {
    /// The icons of the application.
    pub icons: Vec<String>,
    /// The resources to bundle.
    pub resources: Option<Vec<String>>,
    /// The packages that the Debian package depends on.
    pub depends: Option<Vec<String>>,
    /// Whether the application has a system tray.
    pub system_tray: bool,
    /// The signing identity.
    pub signing_identity: Option<String>,
    /// The provider's short name.
    pub provider_short_name: Option<String>,
    /// The directory of a fixed web view runtime.
    pub fixed_runtime_path: Option<String>,
    /// The name of the application's category.
    pub category: Option<String>,
}

/// The model of a `BundleConfig`.
pub struct BundleConfigView {
    pub icons: Texts,
    pub resources: Option<Texts>,
    pub depends: Option<Texts>,
    pub system_tray: bool,
    pub signing_identity: Option<Seq<char>>,
    pub provider_short_name: Option<Seq<char>>,
    pub fixed_runtime_path: Option<Seq<char>>,
    pub category: Option<Seq<char>>,
}

impl View for BundleConfig {
    type V = BundleConfigView;

    open spec fn view(&self) -> BundleConfigView {
        BundleConfigView {
            icons: self.icons.deep_view(),
            resources: self.resources.deep_view(),
            depends: self.depends.deep_view(),
            system_tray: self.system_tray,
            signing_identity: self.signing_identity.deep_view(),
            provider_short_name: self.provider_short_name.deep_view(),
            fixed_runtime_path: self.fixed_runtime_path.deep_view(),
            category: self.category.deep_view(),
        }
    }
}

/// What the bundle's settings are given.
#[derive(Debug, Clone, PartialEq, Eq)]
pub struct BundleSettings {
    /// The resources to bundle, where there are any.
    pub resources: Option<Vec<String>>,
    /// The packages that the Debian package depends on, where there are
    /// any.
    pub depends: Option<Vec<String>>,
    pub signing_identity: Option<String>,
    pub provider_short_name: Option<String>,
    /// The icon of the Windows installer; empty on other platforms.
    pub windows_icon_path: String,
    /// The application's category.
    pub category: Option<tauri_bundler::AppCategory>,
}

/// The model of a `BundleSettings`.
pub struct BundleSettingsView {
    pub resources: Option<Texts>,
    pub depends: Option<Texts>,
    pub signing_identity: Option<Seq<char>>,
    pub provider_short_name: Option<Seq<char>>,
    pub windows_icon_path: Seq<char>,
    pub category: Option<tauri_bundler::AppCategory>,
}

impl View for BundleSettings {
    type V = BundleSettingsView;

    open spec fn view(&self) -> BundleSettingsView {
        BundleSettingsView {
            resources: self.resources.deep_view(),
            depends: self.depends.deep_view(),
            signing_identity: self.signing_identity.deep_view(),
            provider_short_name: self.provider_short_name.deep_view(),
            windows_icon_path: self.windows_icon_path@,
            category: self.category,
        }
    }
}

/// The list, where it holds anything.
pub open spec fn unless_empty(list: Texts) -> Option<Texts> {
    if list.len() == 0 {
        None
    } else {
        Some(list)
    }
}

/// The list, or the empty list where there is none.
pub open spec fn or_empty(list: Option<Texts>) -> Texts {
    match list {
        Some(items) => items,
        None => Seq::empty(),
    }
}

/// The package that provides the system tray: the Ayatana indicator unless
/// the environment asks for another tray.
pub open spec fn tray_package(tray: Option<Seq<char>>) -> Seq<char> {
    if tray is None || tray == Some("ayatana"@) {
        "libayatana-appindicator3-1"@
    } else {
        "libappindicator3-1"@
    }
}

/// The packages that every application depends on, on Linux.
pub open spec fn runtime_packages() -> Texts {
    seq!["libwebkit2gtk-4.0-37"@, "libgtk-3-0"@]
}

/// The packages that the Debian package depends on: those configured and,
/// on Linux, the tray's package where the application has a tray, and the
/// runtime's packages.
pub open spec fn depends_of(
    configured: Option<Texts>,
    system_tray: bool,
    tray: Option<Seq<char>>,
    platform: Platform,
) -> Texts {
    if platform == Platform::Linux {
        let with_tray = if system_tray {
            or_empty(configured).push(tray_package(tray))
        } else {
            or_empty(configured)
        };
        with_tray + runtime_packages()
    } else {
        or_empty(configured)
    }
}

/// The resources to bundle: those configured and, on Windows, the fixed
/// web view runtime where there is one.
pub open spec fn resources_of(
    configured: Option<Texts>,
    fixed_runtime_path: Option<Seq<char>>,
    platform: Platform,
) -> Texts {
    match fixed_runtime_path {
        Some(path) if platform == Platform::Windows => or_empty(configured).push(path),
        _ => or_empty(configured),
    }
}

/// Whether an icon is a Windows icon.
pub open spec fn is_windows_icon() -> spec_fn(Seq<char>) -> bool {
    |icon: Seq<char>| ends_in(icon, ".ico"@)
}

/// The position of the first Windows icon, or the length of the list where
/// there is none.
pub open spec fn first_windows_icon(icons: Texts) -> int {
    first_where(icons, is_windows_icon())
}

/// The icon of the Windows installer: on Windows the first Windows icon,
/// elsewhere none.
pub open spec fn windows_icon_of(icons: Texts, platform: Platform) -> Seq<char> {
    if platform == Platform::Windows {
        icons[first_windows_icon(icons)]
    } else {
        Seq::empty()
    }
}

/// What the environment sets, else what the configuration does.
pub open spec fn overridden(from_environment: Option<Seq<char>>, configured: Option<Seq<char>>) -> Option<
    Seq<char>,
> {
    match from_environment {
        Some(value) => Some(value),
        None => configured,
    }
}

/// The settings for a configuration, an environment, a platform and the
/// application's category.
pub open spec fn bundle_settings_of(
    config: BundleConfigView,
    environment: EnvironmentView,
    platform: Platform,
    category: Option<tauri_bundler::AppCategory>,
) -> BundleSettingsView {
    BundleSettingsView {
        resources: unless_empty(
            resources_of(config.resources, config.fixed_runtime_path, platform),
        ),
        depends: unless_empty(
            depends_of(config.depends, config.system_tray, environment.tray, platform),
        ),
        signing_identity: overridden(environment.apple_signing_identity, config.signing_identity),
        provider_short_name: overridden(
            environment.apple_provider_short_name,
            config.provider_short_name,
        ),
        windows_icon_path: windows_icon_of(config.icons, platform),
        category,
    }
}

/// The category of the application: the one that the bundler takes the
/// configured name for; none where none is configured.
pub open spec fn category_of(category: Option<Seq<char>>) -> Option<tauri_bundler::AppCategory> {
    match category {
        Some(name) => Some(accepted_category(name)),
        None => None,
    }
}

/// The settings, or the words in which the configured category is refused.
pub open spec fn bundle_settings_result(
    config: BundleConfigView,
    environment: EnvironmentView,
    platform: Platform,
) -> Result<BundleSettingsView, Seq<char>> {
    match refusal_of(config.category) {
        Some(nearest) => Err(category_refusal(nearest)),
        None => Ok(bundle_settings_of(config, environment, platform, category_of(config.category))),
    }
}

/// What the bundler says to the configured category, where it refuses it.
pub open spec fn refusal_of(category: Option<Seq<char>>) -> Option<Option<Seq<char>>> {
    match category {
        Some(name) => category_suggestion(name),
        None => None,
    }
}

/// The category that the settings are given, or the words in which the
/// configured one is refused.
pub open spec fn checked(
    parsed: Option<Result<tauri_bundler::AppCategory, Option<Seq<char>>>>,
) -> Result<Option<tauri_bundler::AppCategory>, Seq<char>> {
    match parsed {
        Some(Ok(category)) => Ok(Some(category)),
        Some(Err(nearest)) => Err(category_refusal(nearest)),
        None => Ok(None),
    }
}

/// The model of what reading a category gave.
pub open spec fn reading(
    parsed: Option<Result<tauri_bundler::AppCategory, Option<String>>>,
) -> Option<Result<tauri_bundler::AppCategory, Option<Seq<char>>>> {
    match parsed {
        Some(Ok(category)) => Some(Ok(category)),
        Some(Err(nearest)) => Some(Err(nearest.deep_view())),
        None => None,
    }
}

/// Why a category is refused, in words.
pub open spec fn category_refusal(suggestion: Option<Seq<char>>) -> Seq<char> {
    match suggestion {
        Some(category) => "invalid category, did you mean `"@ + category + "`?"@,
        None => "invalid category"@,
    }
}

/// Why a category is refused, in words. `suggestion` is the category that
/// the refused one resembles, if it resembles one.
pub fn category_error(suggestion: Option<String>) -> (message: String)
    ensures
        message@ == category_refusal(suggestion.deep_view()),
{
    match suggestion {
        Some(category) => {
            let head = "invalid category, did you mean `".to_owned();
            head.concat(category.as_str()).concat("`?")
        },
        None => "invalid category".to_owned(),
    }
}

/// What the environment sets, else what the configuration does.
pub fn override_with(from_environment: &Option<String>, configured: &Option<String>) -> (value:
    Option<String>)
    ensures
        value.deep_view() == overridden(from_environment.deep_view(), configured.deep_view()),
{
    match from_environment {
        Some(value) => Some(value.clone()),
        None => match configured {
            Some(value) => Some(value.clone()),
            None => None,
        },
    }
}

/// The position of the first Windows icon, or the length of the list.
pub fn find_windows_icon(icons: &Vec<String>) -> (at: usize)
    ensures
        at == first_windows_icon(icons.deep_view()),
        at <= icons.len(),
{
    let mut i: usize = 0;
    while i < icons.len()
        invariant
            i <= icons.len(),
            forall|j: int| 0 <= j < i ==> !is_windows_icon()(#[trigger] icons.deep_view()[j]),
        decreases icons.len() - i,
    {
        if has_ending(icons[i].as_str(), ".ico") {
            proof {
                lemma_first_where(icons.deep_view(), is_windows_icon(), i as int);
            }
            return i;
        }
        i += 1;
    }
    proof {
        lemma_first_where(icons.deep_view(), is_windows_icon(), i as int);
    }
    i
}

/// The list, where it holds anything.
fn keep_unless_empty(list: Vec<String>) -> (kept: Option<Vec<String>>)
    ensures
        kept.deep_view() == unless_empty(list.deep_view()),
{
    if list.len() == 0 {
        None
    } else {
        Some(list)
    }
}

/// A copy of the list, or an empty list where there is none.
fn copy_or_empty(list: &Option<Vec<String>>) -> (copy: Vec<String>)
    ensures
        copy.deep_view() == or_empty(list.deep_view()),
{
    match list {
        Some(items) => copy_texts(items),
        None => {
            let copy: Vec<String> = Vec::new();
            assert(copy.deep_view() =~= Seq::empty());
            copy
        },
    }
}

/// The category that the settings are given, or the words in which the
/// configured one is refused. `parsed` is what reading the configured
/// category gave; nothing where none is configured.
pub fn check_category(parsed: Option<Result<tauri_bundler::AppCategory, Option<String>>>) -> (category:
    Result<Option<tauri_bundler::AppCategory>, String>)
    ensures
        match category {
            Ok(accepted) => checked(reading(parsed)) == Ok::<
                Option<tauri_bundler::AppCategory>,
                Seq<char>,
            >(accepted),
            Err(message) => checked(reading(parsed)) == Err::<
                Option<tauri_bundler::AppCategory>,
                Seq<char>,
            >(message@),
        },
{
    match parsed {
        Some(Ok(category)) => Ok(Some(category)),
        Some(Err(nearest)) => Err(category_error(nearest)),
        None => Ok(None),
    }
}

/// What the bundle's settings take from the configuration, the environment
/// and the platform, for an application of the category `category`.
///
/// On Windows the configuration must name a Windows icon.
pub fn bundle_settings_for(
    config: &BundleConfig,
    environment: &Environment,
    platform: Platform,
    category: Option<tauri_bundler::AppCategory>,
) -> (settings: BundleSettings)
    requires
        platform == Platform::Windows ==> first_windows_icon(config@.icons) < config@.icons.len(),
    ensures
        settings@ == bundle_settings_of(config@, environment@, platform, category),
{
    let windows_icon_path = if platform == Platform::Windows {
        let at = find_windows_icon(&config.icons);
        config.icons[at].clone()
    } else {
        String::new()
    };
    let mut resources = copy_or_empty(&config.resources);
    let mut depends = copy_or_empty(&config.depends);
    if platform == Platform::Linux {
        if config.system_tray {
            let ayatana = match &environment.tray {
                Some(tray) => is_text(tray, "ayatana"),
                None => true,
            };
            let ghost before = depends.deep_view();
            if ayatana {
                depends.push("libayatana-appindicator3-1".to_owned());
            } else {
                depends.push("libappindicator3-1".to_owned());
            }
            assert(depends.deep_view() =~= before.push(tray_package(environment@.tray)));
        }
        let ghost before = depends.deep_view();
        depends.push("libwebkit2gtk-4.0-37".to_owned());
        depends.push("libgtk-3-0".to_owned());
        assert(depends.deep_view() =~= before + runtime_packages());
    }
    if platform == Platform::Windows {
        match &config.fixed_runtime_path {
            Some(path) => {
                let ghost before = resources.deep_view();
                resources.push(path.clone());
                assert(resources.deep_view() =~= before.push(path@));
            },
            None => {},
        }
    }
    BundleSettings {
        resources: keep_unless_empty(resources),
        depends: keep_unless_empty(depends),
        signing_identity: override_with(
            &environment.apple_signing_identity,
            &config.signing_identity,
        ),
        provider_short_name: override_with(
            &environment.apple_provider_short_name,
            &config.provider_short_name,
        ),
        windows_icon_path,
        category,
    }
}

/// What the bundle's settings take from the configuration, the environment
/// and the platform. A configured category that the bundler does not know
/// is refused, in words that name the category it resembles.
///
/// On Windows the configuration must name a Windows icon.
pub fn bundle_settings(config: &BundleConfig, environment: &Environment, platform: Platform) -> (settings:
    Result<BundleSettings, String>)
    requires
        platform == Platform::Windows ==> first_windows_icon(config@.icons) < config@.icons.len(),
    ensures
        match settings {
            Ok(given) => bundle_settings_result(config@, environment@, platform) == Ok::<
                BundleSettingsView,
                Seq<char>,
            >(given@),
            Err(message) => bundle_settings_result(config@, environment@, platform) == Err::<
                BundleSettingsView,
                Seq<char>,
            >(message@),
        },
{
    let parsed = match &config.category {
        Some(name) => Some(parse_category(name.as_str())),
        None => None,
    };
    match check_category(parsed) {
        Ok(category) => Ok(bundle_settings_for(config, environment, platform, category)),
        Err(message) => Err(message),
    }
}

} // verus!

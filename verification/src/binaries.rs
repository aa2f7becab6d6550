//! The binaries of the application's bundle.
//!
//! The list is made in four steps: the manifest's binary targets; the
//! source files of the project's binary directory that no target accounts
//! for; the binary that runs by default; and, where the list is still empty
//! or has one entry only, the main binary.

use vstd::prelude::*;
use crate::cargo_settings::{BinarySettings, BinarySettingsView};
use crate::paths::{ends_with_path, file_stem, final_stem, path_ends_with};
use crate::search::{first_where, lemma_first_where};
use crate::settings::{PackageConfig, RustAppSettings};
use crate::text::{copy_optional_text, has_text, is_text, occurs_in};

verus! {

/// The name that a product has as a binary on Linux: its name in
/// kebab-case.
pub uninterp spec fn kebab_case(name: Seq<char>) -> Seq<char>;

/// Turns a name into kebab-case with `heck::ToKebabCase::to_kebab_case`:
/// the words of the name in lower case, joined by hyphens.
///
/// Trusted: the result is a function of the name alone. Where the words of
/// a name begin and end is the business of that crate.
#[verifier::external_body]
pub(crate) fn to_kebab_case(name: &str) -> (kebab: String)
    ensures
        kebab@ == kebab_case(name@),
{
    heck::ToKebabCase::to_kebab_case(name)
}

/// The name that the configuration gives the main binary of a product.
pub uninterp spec fn configured_binary_name(product_name: Option<Seq<char>>) -> Option<Seq<char>>;

/// The name that the configuration gives the main binary, from
/// `tauri_utils::config::PackageConfig::binary_name`: the product's name,
/// which that crate turns into kebab-case where it is built for Linux.
///
/// Trusted: the result is a function of the product's name alone, and there
/// is a name exactly where the product has one.
#[verifier::external_body]
pub(crate) fn binary_name_of(product_name: &Option<String>) -> (name: Option<String>)
    ensures
        name.deep_view() == configured_binary_name(product_name.deep_view()),
        name is Some == product_name is Some,
{
    tauri_utils::config::PackageConfig { product_name: product_name.clone(), version: None }
        .binary_name()
}

/// A binary of the bundle.
#[derive(Debug, Clone, PartialEq, Eq)]
pub struct BundleBinary {
    /// The file name of the binary.
    pub name: String,
    /// The path of its source file, where the manifest gives one.
    pub src_path: Option<String>,
    /// Whether it is the bundle's main binary.
    pub main: bool,
}

/// The model of a `BundleBinary`.
pub struct BundleBinaryView {
    pub name: Seq<char>,
    pub src_path: Option<Seq<char>>,
    pub main: bool,
}

impl View for BundleBinary {
    type V = BundleBinaryView;

    open spec fn view(&self) -> BundleBinaryView {
        BundleBinaryView {
            name: self.name@,
            src_path: self.src_path.deep_view(),
            main: self.main,
        }
    }
}

impl DeepView for BundleBinary {
    type V = BundleBinaryView;

    open spec fn deep_view(&self) -> BundleBinaryView {
        self@
    }
}

/// What the list of binaries is made from.
#[derive(Debug, Clone, PartialEq, Eq)]
pub struct BinarySources {
    /// The manifest's binary targets.
    pub targets: Option<Vec<BinarySettings>>,
    /// The name of the manifest's package.
    pub package_name: Option<String>,
    /// The binary that runs by default.
    pub default_run: Option<String>,
    /// The product's name.
    pub product_name: String,
    /// The name that the configuration gives the main binary.
    pub binary_name: Option<String>,
    /// The paths in the project's binary directory, each as the listing gave
    /// it or with the cause for which it could not be read; nothing where
    /// the directory could not be listed.
    pub source_files: Option<Vec<Result<String, String>>>,
    /// The target triple that the bundle is for.
    pub target: String,
    /// Whether the bundle is made on Linux.
    pub linux: bool,
}

/// The model of a `BinarySources`.
pub struct BinarySourcesView {
    pub targets: Option<Seq<BinarySettingsView>>,
    pub package_name: Option<Seq<char>>,
    pub default_run: Option<Seq<char>>,
    pub product_name: Seq<char>,
    pub binary_name: Option<Seq<char>>,
    pub source_files: Option<Seq<Result<Seq<char>, Seq<char>>>>,
    pub target: Seq<char>,
    pub linux: bool,
}

/// The model of a listed path.
pub open spec fn listed(file: Result<String, String>) -> Result<Seq<char>, Seq<char>> {
    match file {
        Ok(path) => Ok(path@),
        Err(cause) => Err(cause@),
    }
}

/// The model of a listing.
pub open spec fn listing(files: Option<Vec<Result<String, String>>>) -> Option<
    Seq<Result<Seq<char>, Seq<char>>>,
> {
    match files {
        Some(list) => Some(Seq::new(list@.len(), |i: int| listed(list@[i]))),
        None => None,
    }
}

impl View for BinarySources {
    type V = BinarySourcesView;

    open spec fn view(&self) -> BinarySourcesView {
        BinarySourcesView {
            targets: self.targets.deep_view(),
            package_name: self.package_name.deep_view(),
            default_run: self.default_run.deep_view(),
            product_name: self.product_name@,
            binary_name: self.binary_name.deep_view(),
            source_files: listing(self.source_files),
            target: self.target@,
            linux: self.linux,
        }
    }
}

/// What is added to the name of a binary built for `target`.
pub open spec fn binary_suffix(target: Seq<char>) -> Seq<char> {
    if occurs_in(target, "windows"@) {
        ".exe"@
    } else {
        Seq::empty()
    }
}

/// `chosen` where there is one, else `fallback`.
pub open spec fn or_else(chosen: Option<Seq<char>>, fallback: Seq<char>) -> Seq<char> {
    match chosen {
        Some(text) => text,
        None => fallback,
    }
}

/// Whether a binary target is the application itself: the one named like
/// the package, or the one that runs by default.
pub open spec fn is_main_target(sources: BinarySourcesView, target: BinarySettingsView) -> bool {
    Some(target.name) == sources.package_name || target.name == or_else(
        sources.default_run,
        Seq::empty(),
    )
}

/// The binary of a manifest target. The application itself goes by the
/// name that the configuration gives it.
pub open spec fn target_binary(sources: BinarySourcesView, target: BinarySettingsView) -> BundleBinaryView {
    if is_main_target(sources, target) {
        BundleBinaryView {
            name: or_else(sources.binary_name, target.name) + binary_suffix(sources.target),
            src_path: target.path,
            main: true,
        }
    } else {
        BundleBinaryView {
            name: target.name + binary_suffix(sources.target),
            src_path: target.path,
            main: false,
        }
    }
}

/// The binaries of the manifest's targets, in their order.
pub open spec fn target_binaries(sources: BinarySourcesView) -> Seq<BundleBinaryView> {
    match sources.targets {
        Some(targets) => Seq::new(targets.len(), |i: int| target_binary(sources, targets[i])),
        None => Seq::empty(),
    }
}

/// Whether `binary` accounts for the source file `path` with the stem
/// `stem`: it has the stem as its name, or the path ends with its source
/// path. A binary without a source path accounts for every file.
pub open spec fn accounts_for(binary: BundleBinaryView, path: Seq<char>, stem: Seq<char>) -> bool {
    binary.name == stem || path_ends_with(path, or_else(binary.src_path, Seq::empty()))
}

/// Whether one of `binaries` accounts for the source file.
pub open spec fn is_accounted_for(binaries: Seq<BundleBinaryView>, path: Seq<char>, stem: Seq<char>) -> bool {
    exists|i: int| 0 <= i < binaries.len() && accounts_for(#[trigger] binaries[i], path, stem)
}

/// The list after one source file: a file with a stem that no binary
/// accounts for adds a binary of its own.
pub open spec fn with_source_file(
    binaries: Seq<BundleBinaryView>,
    path: Seq<char>,
    suffix: Seq<char>,
) -> Seq<BundleBinaryView> {
    match final_stem(path) {
        Some(stem) => if is_accounted_for(binaries, path, stem) {
            binaries
        } else {
            binaries.push(BundleBinaryView { name: stem + suffix, src_path: None, main: false })
        },
        None => binaries,
    }
}

/// The list after the source files, or the cause of the first that could
/// not be read.
pub open spec fn with_source_files(
    binaries: Seq<BundleBinaryView>,
    files: Seq<Result<Seq<char>, Seq<char>>>,
    suffix: Seq<char>,
) -> Result<Seq<BundleBinaryView>, Seq<char>>
    decreases files.len(),
{
    if files.len() == 0 {
        Ok(binaries)
    } else {
        match with_source_files(binaries, files.drop_last(), suffix) {
            Ok(list) => match files.last() {
                Ok(path) => Ok(with_source_file(list, path, suffix)),
                Err(cause) => Err(cause),
            },
            Err(cause) => Err(cause),
        }
    }
}

/// Whether a binary is named `name`.
pub open spec fn is_named(name: Seq<char>) -> spec_fn(BundleBinaryView) -> bool {
    |binary: BundleBinaryView| binary.name == name
}

/// The list after the binary that runs by default is seen to: where a
/// binary has its name, that binary takes the name that the configuration
/// gives; where none has, it is added as the main binary.
pub open spec fn with_default_run(sources: BinarySourcesView, binaries: Seq<BundleBinaryView>) -> Seq<
    BundleBinaryView,
> {
    match sources.default_run {
        None => binaries,
        Some(default_run) => {
            let at = first_where(binaries, is_named(default_run));
            if at < binaries.len() {
                match sources.binary_name {
                    Some(name) => binaries.update(at, BundleBinaryView { name, ..binaries[at] }),
                    None => binaries,
                }
            } else {
                binaries.push(
                    BundleBinaryView {
                        name: or_else(sources.binary_name, default_run) + binary_suffix(
                            sources.target,
                        ),
                        src_path: None,
                        main: true,
                    },
                )
            }
        },
    }
}

/// The binary of a product that has no other.
pub open spec fn product_binary(sources: BinarySourcesView) -> BundleBinaryView {
    BundleBinaryView {
        name: if sources.linux {
            kebab_case(sources.product_name)
        } else {
            sources.product_name + binary_suffix(sources.target)
        },
        src_path: None,
        main: true,
    }
}

/// The list with its main binary: an empty list gets the product's binary,
/// the only binary of a list is its main one.
pub open spec fn with_main(sources: BinarySourcesView, binaries: Seq<BundleBinaryView>) -> Seq<
    BundleBinaryView,
> {
    if binaries.len() == 0 {
        seq![product_binary(sources)]
    } else if binaries.len() == 1 {
        seq![BundleBinaryView { main: true, ..binaries[0] }]
    } else {
        binaries
    }
}

/// The binaries of the bundle, or the cause for which a source file could
/// not be read.
pub open spec fn binaries_of(sources: BinarySourcesView) -> Result<Seq<BundleBinaryView>, Seq<char>> {
    let listed = match sources.source_files {
        Some(files) => with_source_files(
            target_binaries(sources),
            files,
            binary_suffix(sources.target),
        ),
        None => Ok(target_binaries(sources)),
    };
    match listed {
        Ok(binaries) => Ok(with_main(sources, with_default_run(sources, binaries))),
        Err(cause) => Err(cause),
    }
}

/// Whether `result` is `expected`, the binaries taken by their model.
pub open spec fn is_binaries_result(
    result: Result<Vec<BundleBinary>, String>,
    expected: Result<Seq<BundleBinaryView>, Seq<char>>,
) -> bool {
    match result {
        Ok(list) => expected == Ok::<Seq<BundleBinaryView>, Seq<char>>(list.deep_view()),
        Err(cause) => expected == Err::<Seq<BundleBinaryView>, Seq<char>>(cause@),
    }
}

/// What is added to the name of a binary built for `target`: `.exe` where
/// the target's triple names Windows, nothing elsewhere.
pub fn suffix_for(target: &str) -> (suffix: String)
    ensures
        suffix@ == binary_suffix(target@),
{
    if has_text(target, "windows") {
        ".exe".to_owned()
    } else {
        String::new()
    }
}

/// The binary of one manifest target.
fn binary_of_target(sources: &BinarySources, target: &BinarySettings, suffix: &str) -> (binary:
    BundleBinary)
    requires
        suffix@ == binary_suffix(sources@.target),
    ensures
        binary@ == target_binary(sources@, target@),
{
    let named_like_package = match &sources.package_name {
        Some(name) => *name == target.name,
        None => false,
    };
    let runs_by_default = match &sources.default_run {
        Some(name) => *name == target.name,
        None => is_text(&target.name, ""),
    };
    proof {
        reveal_strlit("");
        assert(""@ =~= Seq::<char>::empty());
    }
    if named_like_package || runs_by_default {
        let name = match &sources.binary_name {
            Some(name) => name.clone(),
            None => target.name.clone(),
        };
        BundleBinary {
            name: name.concat(suffix),
            src_path: copy_optional_text(&target.path),
            main: true,
        }
    } else {
        BundleBinary {
            name: target.name.clone().concat(suffix),
            src_path: copy_optional_text(&target.path),
            main: false,
        }
    }
}

/// Whether one of `binaries` accounts for the source file `path` with the
/// stem `stem`.
fn accounted_for(binaries: &Vec<BundleBinary>, path: &str, stem: &String) -> (found: bool)
    ensures
        found == is_accounted_for(binaries.deep_view(), path@, stem@),
{
    let mut i: usize = 0;
    while i < binaries.len()
        invariant
            i <= binaries.len(),
            forall|j: int| 0 <= j < i ==> !accounts_for(#[trigger] binaries.deep_view()[j], path@, stem@),
        decreases binaries.len() - i,
    {
        let binary = &binaries[i];
        let ends = match &binary.src_path {
            Some(source) => ends_with_path(path, source.as_str()),
            None => {
                proof {
                    reveal_strlit("");
                    assert(""@ =~= Seq::<char>::empty());
                }
                ends_with_path(path, "")
            },
        };
        if binary.name == *stem || ends {
            assert(accounts_for(binaries.deep_view()[i as int], path@, stem@));
            return true;
        }
        i += 1;
    }
    false
}

/// The position of the first binary named `name`, or the length of the
/// list.
fn find_named(binaries: &Vec<BundleBinary>, name: &String) -> (at: usize)
    ensures
        at == first_where(binaries.deep_view(), is_named(name@)),
        at <= binaries.len(),
{
    let mut i: usize = 0;
    while i < binaries.len()
        invariant
            i <= binaries.len(),
            forall|j: int| 0 <= j < i ==> !is_named(name@)(#[trigger] binaries.deep_view()[j]),
        decreases binaries.len() - i,
    {
        if binaries[i].name == *name {
            proof {
                lemma_first_where(binaries.deep_view(), is_named(name@), i as int);
            }
            return i;
        }
        i += 1;
    }
    proof {
        lemma_first_where(binaries.deep_view(), is_named(name@), i as int);
    }
    i
}

/// The binaries of the bundle.
///
/// A source file that could not be read ends the work with its cause.
pub fn bundle_binaries(sources: &BinarySources) -> (binaries: Result<Vec<BundleBinary>, String>)
    ensures
        is_binaries_result(binaries, binaries_of(sources@)),
{
    let suffix = suffix_for(sources.target.as_str());
    let mut binaries: Vec<BundleBinary> = Vec::new();
    match &sources.targets {
        Some(targets) => {
            let mut i: usize = 0;
            while i < targets.len()
                invariant
                    i <= targets.len(),
                    sources.targets == Some(*targets),
                    suffix@ == binary_suffix(sources@.target),
                    binaries.len() == i,
                    forall|j: int|
                        0 <= j < i ==> binaries.deep_view()[j] == target_binary(
                            sources@,
                            #[trigger] targets.deep_view()[j],
                        ),
                decreases targets.len() - i,
            {
                binaries.push(binary_of_target(sources, &targets[i], suffix.as_str()));
                i += 1;
            }
            assert(binaries.deep_view() =~= target_binaries(sources@));
        },
        None => {
            assert(binaries.deep_view() =~= target_binaries(sources@));
        },
    }
    match &sources.source_files {
        Some(files) => {
            let ghost all = listing(sources.source_files)->Some_0;
            let mut i: usize = 0;
            assert(all.take(0) =~= Seq::empty());
            while i < files.len()
                invariant
                    i <= files.len(),
                    sources.source_files == Some(*files),
                    all == listing(sources.source_files)->Some_0,
                    all.len() == files.len(),
                    suffix@ == binary_suffix(sources@.target),
                    with_source_files(target_binaries(sources@), all.take(i as int), suffix@) == Ok::<
                        Seq<BundleBinaryView>,
                        Seq<char>,
                    >(binaries.deep_view()),
                decreases files.len() - i,
            {
                proof {
                    assert(all.take(i + 1).drop_last() =~= all.take(i as int));
                    assert(all.take(i + 1).last() == listed(files@[i as int]));
                    assert(all.take(files.len() as int) =~= all);
                }
                match &files[i] {
                    Err(cause) => {
                        proof {
                            lemma_failure_stays(
                                target_binaries(sources@),
                                all,
                                suffix@,
                                i + 1,
                            );
                        }
                        return Err(cause.clone());
                    },
                    Ok(path) => {
                        match file_stem(path.as_str()) {
                            Some(stem) => {
                                if !accounted_for(&binaries, path.as_str(), &stem) {
                                    let ghost before = binaries.deep_view();
                                    binaries.push(
                                        BundleBinary {
                                            name: stem.concat(suffix.as_str()),
                                            src_path: None,
                                            main: false,
                                        },
                                    );
                                    assert(binaries.deep_view() =~= with_source_file(
                                        before,
                                        path@,
                                        suffix@,
                                    ));
                                }
                            },
                            None => {},
                        }
                    },
                }
                i += 1;
            }
            assert(all.take(i as int) =~= all);
        },
        None => {},
    }
    match &sources.default_run {
        Some(default_run) => {
            let at = find_named(&binaries, default_run);
            let ghost before = binaries.deep_view();
            if at < binaries.len() {
                match &sources.binary_name {
                    Some(name) => {
                        let renamed = BundleBinary {
                            name: name.clone(),
                            src_path: copy_optional_text(&binaries[at].src_path),
                            main: binaries[at].main,
                        };
                        binaries.set(at, renamed);
                        assert(binaries.deep_view() =~= with_default_run(sources@, before));
                    },
                    None => {},
                }
            } else {
                let name = match &sources.binary_name {
                    Some(name) => name.clone(),
                    None => default_run.clone(),
                };
                binaries.push(
                    BundleBinary { name: name.concat(suffix.as_str()), src_path: None, main: true },
                );
                assert(binaries.deep_view() =~= with_default_run(sources@, before));
            }
        },
        None => {},
    }
    let ghost before = binaries.deep_view();
    if binaries.len() == 0 {
        let name = if sources.linux {
            to_kebab_case(sources.product_name.as_str())
        } else {
            sources.product_name.clone().concat(suffix.as_str())
        };
        binaries.push(BundleBinary { name, src_path: None, main: true });
        assert(binaries.deep_view() =~= with_main(sources@, before));
    } else if binaries.len() == 1 {
        let only = BundleBinary {
            name: binaries[0].name.clone(),
            src_path: copy_optional_text(&binaries[0].src_path),
            main: true,
        };
        binaries.set(0, only);
        assert(binaries.deep_view() =~= with_main(sources@, before));
    }
    Ok(binaries)
}

/// A bundle is never without a binary, and the only binary of a bundle is
/// its main binary.
pub proof fn lemma_bundle_has_a_main_binary(sources: BinarySourcesView)
    ensures
        binaries_of(sources) matches Ok(binaries) ==> {
            &&& binaries.len() >= 1
            &&& binaries.len() == 1 ==> binaries[0].main
        },
{
}

/// A source file that could not be read ends the work, whatever follows it.
proof fn lemma_failure_stays(
    binaries: Seq<BundleBinaryView>,
    files: Seq<Result<Seq<char>, Seq<char>>>,
    suffix: Seq<char>,
    upto: int,
)
    requires
        0 < upto <= files.len(),
        with_source_files(binaries, files.take(upto), suffix) is Err,
    ensures
        with_source_files(binaries, files, suffix) == with_source_files(
            binaries,
            files.take(upto),
            suffix,
        ),
    decreases files.len() - upto,
{
    if upto == files.len() {
        assert(files.take(upto) =~= files);
    } else {
        assert(files.take(upto + 1).drop_last() =~= files.take(upto));
        lemma_failure_stays(binaries, files, suffix, upto + 1);
    }
}

impl RustAppSettings {
    /// What the list of binaries is made from, as far as the settings hold
    /// it. `binary_name` is the name that the configuration gives the main
    /// binary, `source_files` the listing of the project's binary directory.
    pub fn binary_sources(
        &self,
        binary_name: Option<String>,
        source_files: Option<Vec<Result<String, String>>>,
        target: String,
        linux: bool,
    ) -> (sources: BinarySources)
        ensures
            sources@ == (BinarySourcesView {
                targets: self@.cargo_settings.bin,
                package_name: self@.cargo_package_settings.name,
                default_run: self@.package_settings.default_run,
                product_name: self@.package_settings.product_name,
                binary_name: binary_name.deep_view(),
                source_files: listing(source_files),
                target: target@,
                linux,
            }),
    {
        let package = self.get_package_settings();
        BinarySources {
            targets: copy_targets(&self.cargo_settings().bin),
            package_name: copy_optional_text(&self.cargo_package_settings().name),
            default_run: package.default_run,
            product_name: package.product_name,
            binary_name,
            source_files,
            target,
            linux,
        }
    }

    /// The binaries of the application's bundle. `config` is what the
    /// configuration says of the package, `source_files` the listing of the
    /// project's binary directory.
    pub fn get_binaries(
        &self,
        config: &PackageConfig,
        source_files: Option<Vec<Result<String, String>>>,
        target: &str,
        linux: bool,
    ) -> (binaries: Result<Vec<BundleBinary>, String>)
        ensures
            is_binaries_result(
                binaries,
                binaries_of(
                    BinarySourcesView {
                        targets: self@.cargo_settings.bin,
                        package_name: self@.cargo_package_settings.name,
                        default_run: self@.package_settings.default_run,
                        product_name: self@.package_settings.product_name,
                        binary_name: configured_binary_name(config@.product_name),
                        source_files: listing(source_files),
                        target: target@,
                        linux,
                    },
                ),
            ),
    {
        let binary_name = binary_name_of(&config.product_name);
        let sources = self.binary_sources(binary_name, source_files, target.to_owned(), linux);
        bundle_binaries(&sources)
    }
}

/// A copy of a list of binary targets.
fn copy_targets(targets: &Option<Vec<BinarySettings>>) -> (copy: Option<Vec<BinarySettings>>)
    ensures
        copy.deep_view() == targets.deep_view(),
{
    match targets {
        None => None,
        Some(list) => {
            let mut copy: Vec<BinarySettings> = Vec::new();
            let mut i: usize = 0;
            while i < list.len()
                invariant
                    i <= list.len(),
                    copy.len() == i,
                    forall|j: int| 0 <= j < i ==> copy.deep_view()[j] == list.deep_view()[j],
                decreases list.len() - i,
            {
                copy.push(
                    BinarySettings {
                        name: list[i].name.clone(),
                        path: copy_optional_text(&list[i].path),
                    },
                );
                i += 1;
            }
            assert(copy.deep_view() =~= list.deep_view());
            Some(copy)
        },
    }
}

} // verus!

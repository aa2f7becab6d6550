//! Preparation of the build tool's arguments for a development run.
//!
//! A development build never uses the manifest's default feature set as it
//! stands: the defaults that would switch the application to its bundled
//! assets are left out, the others are enabled by name. The arguments that
//! follow the first `--` belong to the application, not to the build tool.

use vstd::prelude::*;
use crate::manifest::{FeatureMap, FeatureTable};
use crate::search::{first_where, lemma_first_where, lemma_first_where_found};
use crate::text::{contains_text, is_text, Texts};

verus! {

/// The build tool's flag that switches the default feature set off.
pub open spec fn no_default_features_flag() -> Seq<char> {
    "--no-default-features"@
}

/// The dependency feature that makes the application serve bundled assets.
pub open spec fn custom_protocol_feature() -> Seq<char> {
    "tauri/custom-protocol"@
}

/// The name of the manifest's default feature set.
pub open spec fn default_feature_set() -> Seq<char> {
    "default"@
}

/// The argument that separates the build tool's arguments from the
/// application's.
pub open spec fn run_args_separator() -> Seq<char> {
    "--"@
}

/// Whether a default feature stays enabled in development: a declared
/// feature stays unless it enables the custom protocol, an undeclared name
/// stays unless it is the custom protocol itself.
pub open spec fn keeps_default_feature(table: FeatureTable, feature: Seq<char>) -> bool {
    if table.contains_key(feature) {
        !table[feature].contains(custom_protocol_feature())
    } else {
        feature != custom_protocol_feature()
    }
}

/// `keeps_default_feature` as a predicate on feature names.
pub open spec fn kept_in(table: FeatureTable) -> spec_fn(Seq<char>) -> bool {
    |feature: Seq<char>| keeps_default_feature(table, feature)
}

/// What the default feature set names; nothing where the table has none.
pub open spec fn declared_defaults(table: FeatureTable) -> Texts {
    if table.contains_key(default_feature_set()) {
        table[default_feature_set()]
    } else {
        Seq::empty()
    }
}

/// The default features that a development build enables by name, in the
/// order in which the default set lists them.
pub open spec fn enabled_defaults(table: FeatureTable) -> Texts {
    declared_defaults(table).filter(kept_in(table))
}

/// The argument list once the default feature set is switched off: the
/// flag is added at the end unless the list holds it already.
pub open spec fn with_defaults_off(args: Texts) -> Texts {
    if args.contains(no_default_features_flag()) {
        args
    } else {
        args.push(no_default_features_flag())
    }
}

/// The feature selection once the kept defaults are enabled by name. It is
/// untouched where the arguments already switch the defaults off, and where
/// no default is kept.
pub open spec fn with_defaults_enabled(
    args: Texts,
    features: Option<Texts>,
    table: FeatureTable,
) -> Option<Texts> {
    if args.contains(no_default_features_flag()) || enabled_defaults(table).len() == 0 {
        features
    } else {
        Some(
            match features {
                Some(chosen) => chosen + enabled_defaults(table),
                None => enabled_defaults(table),
            },
        )
    }
}

/// Whether an argument is the separator.
pub open spec fn is_separator() -> spec_fn(Seq<char>) -> bool {
    |arg: Seq<char>| arg == run_args_separator()
}

/// The arguments for the build tool: what stands before the first
/// separator, or everything where there is none.
pub open spec fn build_args(all: Texts) -> Texts {
    all.take(first_where(all, is_separator()))
}

/// The arguments for the application: what follows the first separator.
pub open spec fn app_args(all: Texts) -> Texts {
    if first_where(all, is_separator()) < all.len() {
        all.skip(first_where(all, is_separator()) + 1)
    } else {
        Seq::empty()
    }
}

/// The kept default features of `table`.
fn kept_defaults(table: &FeatureMap) -> (kept: Vec<String>)
    ensures
        kept.deep_view() == enabled_defaults(table@),
{
    let mut kept: Vec<String> = Vec::new();
    match table.get("default") {
        None => {
            assert(declared_defaults(table@) =~= Seq::empty());
            assert(kept.deep_view() =~= enabled_defaults(table@));
        },
        Some(defaults) => {
            let ghost all = defaults.deep_view();
            let mut i: usize = 0;
            assert(all.take(0) =~= Seq::empty());
            assert(kept.deep_view() =~= Seq::<Seq<char>>::empty());
            while i < defaults.len()
                invariant
                    i <= defaults.len(),
                    all == defaults.deep_view(),
                    kept.deep_view() == all.take(i as int).filter(kept_in(table@)),
                decreases defaults.len() - i,
            {
                let feature = &defaults[i];
                let keep = match table.get(feature.as_str()) {
                    Some(enables) => !contains_text(enables, "tauri/custom-protocol"),
                    None => !is_text(feature, "tauri/custom-protocol"),
                };
                proof {
                    assert(keep == kept_in(table@)(all[i as int]));
                    assert(all.take(i + 1) =~= all.take(i as int).push(all[i as int]));
                    all.take(i as int).lemma_filter_push(all[i as int], kept_in(table@));
                }
                if keep {
                    let ghost before = kept.deep_view();
                    kept.push(feature.clone());
                    assert(kept.deep_view() =~= before.push(all[i as int]));
                }
                i += 1;
            }
            assert(all.take(i as int) =~= all);
        },
    }
    kept
}

/// Prepares the arguments of a development run.
///
/// Unless `args` already switches the default feature set off, the flag that
/// does so is added and the defaults that `manifest_features` keeps are
/// added to `features`. Then `args` is cut at its first `--`: what stands
/// before it stays in `args`, what follows it is returned as the
/// application's own arguments.
pub fn dev_options(
    args: &mut Vec<String>,
    features: &mut Option<Vec<String>>,
    manifest_features: &FeatureMap,
) -> (run_args: Vec<String>)
    ensures
        final(args).deep_view() == build_args(with_defaults_off(old(args).deep_view())),
        run_args.deep_view() == app_args(with_defaults_off(old(args).deep_view())),
        final(features).deep_view() == with_defaults_enabled(
            old(args).deep_view(),
            old(features).deep_view(),
            manifest_features@,
        ),
{
    if !contains_text(args, "--no-default-features") {
        let mut enable = kept_defaults(manifest_features);
        let ghost before = args.deep_view();
        args.push("--no-default-features".to_owned());
        assert(args.deep_view() =~= before.push(no_default_features_flag()));
        if enable.len() > 0 {
            let ghost extra = enable.deep_view();
            let mut chosen: Vec<String> = match features.take() {
                Some(list) => list,
                None => Vec::new(),
            };
            let ghost had = chosen.deep_view();
            chosen.append(&mut enable);
            assert(chosen.deep_view() =~= had + extra);
            *features = Some(chosen);
            assert(old(features).deep_view() is None ==> had + extra =~= extra);
        }
    }
    let ghost all = args.deep_view();
    let mut before: Vec<String> = Vec::new();
    let mut after: Vec<String> = Vec::new();
    let mut reached_run_args = false;
    let mut i: usize = 0;
    while i < args.len()
        invariant
            i <= args.len(),
            all == args.deep_view(),
            !reached_run_args ==> {
                &&& forall|j: int| 0 <= j < i ==> !is_separator()(#[trigger] all[j])
                &&& before.deep_view() == all.take(i as int)
                &&& after.len() == 0
            },
            reached_run_args ==> {
                &&& 0 <= first_where(all, is_separator()) < i
                &&& before.deep_view() == build_args(all)
                &&& after.deep_view() == all.subrange(
                    first_where(all, is_separator()) + 1,
                    i as int,
                )
            },
        decreases args.len() - i,
    {
        let arg = args[i].clone();
        let ghost kept_before = before.deep_view();
        let ghost kept_after = after.deep_view();
        if reached_run_args {
            after.push(arg);
            assert(after.deep_view() =~= kept_after.push(all[i as int]));
            assert(after.deep_view() =~= all.subrange(
                first_where(all, is_separator()) + 1,
                i + 1,
            ));
        } else if is_text(&arg, "--") {
            reached_run_args = true;
            proof {
                lemma_first_where(all, is_separator(), i as int);
            }
            assert(after.deep_view() =~= all.subrange(i + 1, i + 1));
        } else {
            before.push(arg);
            assert(before.deep_view() =~= kept_before.push(all[i as int]));
            assert(before.deep_view() =~= all.take(i + 1));
        }
        i += 1;
    }
    proof {
        if reached_run_args {
            assert(after.deep_view() =~= app_args(all));
        } else {
            lemma_first_where(all, is_separator(), all.len() as int);
            assert(after.deep_view() =~= app_args(all));
        }
    }
    *args = before;
    after
}

/// No default is enabled that would switch the application to its bundled
/// assets: every enabled default is one that the manifest lists and that
/// stays in development.
pub proof fn lemma_enabled_defaults_are_kept(table: FeatureTable, index: int)
    requires
        0 <= index < enabled_defaults(table).len(),
    ensures
        keeps_default_feature(table, enabled_defaults(table)[index]),
        declared_defaults(table).contains(enabled_defaults(table)[index]),
{
    let enabled = enabled_defaults(table);
    declared_defaults(table).lemma_filter_pred(kept_in(table), index);
    assert(enabled.contains(enabled[index]));
    declared_defaults(table).lemma_filter_contains_rev(kept_in(table), enabled[index]);
}

/// The arguments fall into those for the build tool, the first separator,
/// and those for the application. The build tool's hold no separator;
/// without a separator, all are the build tool's.
pub proof fn lemma_args_split(all: Texts)
    ensures
        !build_args(all).contains(run_args_separator()),
        all.contains(run_args_separator()) ==> all == build_args(all).push(run_args_separator())
            + app_args(all),
        !all.contains(run_args_separator()) ==> build_args(all) == all && app_args(all).len() == 0,
{
    lemma_first_where_found(all, is_separator());
    let cut = first_where(all, is_separator());
    assert forall|j: int| 0 <= j < build_args(all).len() implies build_args(all)[j]
        != run_args_separator() by {
        assert(build_args(all)[j] == all[j]);
        assert(!is_separator()(all[j]));
    }
    if all.contains(run_args_separator()) {
        let at = choose|at: int| 0 <= at < all.len() && all[at] == run_args_separator();
        assert(is_separator()(all[at]));
        assert(cut < all.len());
        assert(all =~= build_args(all).push(run_args_separator()) + app_args(all));
    } else {
        if cut < all.len() {
            assert(is_separator()(all[cut]));
            assert(all.contains(all[cut]));
        }
        assert(build_args(all) =~= all);
    }
}

} // verus!

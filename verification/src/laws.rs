//! Laws of the builder, proved once for every configuration tree.

use vstd::prelude::*;
use crate::builder::{build_plan, build_plan_entries, build_plan_seq, entry_plan, scalar_action};
use crate::config::{ConfigNode, MapKey};
use crate::plan::ActionV;

verus! {

/// How many directory-creation actions a plan holds.
pub open spec fn dir_count(p: Seq<ActionV>) -> nat
    decreases p.len(),
{
    if p.len() == 0 {
        0
    } else {
        (if p[0] is MkDir {
            1nat
        } else {
            0nat
        }) + dir_count(p.drop_first())
    }
}

/// How many file-creation actions a plan holds.
pub open spec fn file_count(p: Seq<ActionV>) -> nat
    decreases p.len(),
{
    if p.len() == 0 {
        0
    } else {
        (if p[0] is WriteFile {
            1nat
        } else {
            0nat
        }) + file_count(p.drop_first())
    }
}

/// A plain tree: every mapping key is a string, no key is a reserved
/// crate-skeleton key, and every `files` key carries a sequence.
pub open spec fn plain_tree(n: ConfigNode) -> bool
    decreases n, 0int,
{
    match n {
        ConfigNode::Scalar(_) => true,
        ConfigNode::Sequence(items) => plain_seq(items@),
        ConfigNode::Mapping(entries) => plain_entries(entries@),
        ConfigNode::Empty => true,
    }
}

/// Every item of the sequence is a plain tree.
pub open spec fn plain_seq(items: Seq<ConfigNode>) -> bool
    decreases items, 0int,
{
    items.len() == 0 || (plain_tree(items[0]) && plain_seq(items.drop_first()))
}

/// Every entry of the mapping is a plain entry.
pub open spec fn plain_entries(entries: Seq<(MapKey, ConfigNode)>) -> bool
    decreases entries, 0int,
{
    entries.len() == 0 || (plain_entry(entries[0].0, entries[0].1) && plain_entries(
        entries.drop_first(),
    ))
}

/// A plain mapping entry: a string key that is not `crates`/`modules`,
/// whose value is a sequence if the key is `files`, and is a plain tree.
pub open spec fn plain_entry(key: MapKey, value: ConfigNode) -> bool
    decreases value, 1int,
{
    match key {
        MapKey::Other => false,
        MapKey::Str(k) => {
            &&& k@ != "crates"@
            &&& k@ != "modules"@
            &&& (k@ == "files"@ ==> value is Sequence)
            &&& plain_tree(value)
        },
    }
}

/// How many scalar leaves the tree holds.
pub open spec fn scalar_count(n: ConfigNode) -> nat
    decreases n, 0int,
{
    match n {
        ConfigNode::Scalar(_) => 1,
        ConfigNode::Sequence(items) => scalar_count_seq(items@),
        ConfigNode::Mapping(entries) => scalar_count_entries(entries@),
        ConfigNode::Empty => 0,
    }
}

/// Scalar leaves of the items of a sequence.
pub open spec fn scalar_count_seq(items: Seq<ConfigNode>) -> nat
    decreases items, 0int,
{
    if items.len() == 0 {
        0
    } else {
        scalar_count(items[0]) + scalar_count_seq(items.drop_first())
    }
}

/// Scalar leaves of the entries of a mapping, under the builder's
/// dispatch: a non-string key contributes none.
pub open spec fn scalar_count_entries(entries: Seq<(MapKey, ConfigNode)>) -> nat
    decreases entries, 0int,
{
    if entries.len() == 0 {
        0
    } else {
        scalar_count_entry(entries[0].0, entries[0].1) + scalar_count_entries(
            entries.drop_first(),
        )
    }
}

/// Scalar leaves below one mapping entry.
pub open spec fn scalar_count_entry(key: MapKey, value: ConfigNode) -> nat
    decreases value, 1int,
{
    match key {
        MapKey::Other => 0,
        MapKey::Str(k) => {
            if (k@ == "crates"@ || k@ == "modules"@) && value is Mapping {
                0
            } else {
                scalar_count(value)
            }
        },
    }
}

/// How many mapping keys become directories: every string key except a
/// `files` key with its sequence and the reserved crate-skeleton keys.
pub open spec fn dir_key_count(n: ConfigNode) -> nat
    decreases n, 0int,
{
    match n {
        ConfigNode::Scalar(_) => 0,
        ConfigNode::Sequence(items) => dir_key_count_seq(items@),
        ConfigNode::Mapping(entries) => dir_key_count_entries(entries@),
        ConfigNode::Empty => 0,
    }
}

/// Directory keys of the items of a sequence.
pub open spec fn dir_key_count_seq(items: Seq<ConfigNode>) -> nat
    decreases items, 0int,
{
    if items.len() == 0 {
        0
    } else {
        dir_key_count(items[0]) + dir_key_count_seq(items.drop_first())
    }
}

/// Directory keys of the entries of a mapping.
pub open spec fn dir_key_count_entries(entries: Seq<(MapKey, ConfigNode)>) -> nat
    decreases entries, 0int,
{
    if entries.len() == 0 {
        0
    } else {
        dir_key_count_entry(entries[0].0, entries[0].1) + dir_key_count_entries(
            entries.drop_first(),
        )
    }
}

/// Directory keys below one mapping entry.
pub open spec fn dir_key_count_entry(key: MapKey, value: ConfigNode) -> nat
    decreases value, 1int,
{
    match key {
        MapKey::Other => 0,
        MapKey::Str(k) => {
            if k@ == "files"@ && value is Sequence {
                dir_key_count(value)
            } else if (k@ == "crates"@ || k@ == "modules"@) && value is Mapping {
                0
            } else {
                1 + dir_key_count(value)
            }
        },
    }
}

/// Both counts distribute over concatenation of plans.
proof fn lemma_counts_add(a: Seq<ActionV>, b: Seq<ActionV>)
    ensures
        dir_count(a + b) == dir_count(a) + dir_count(b),
        file_count(a + b) == file_count(a) + file_count(b),
    decreases a.len(),
{
    if a.len() == 0 {
        assert(a + b =~= b);
    } else {
        assert((a + b).drop_first() =~= a.drop_first() + b);
        assert((a + b)[0] == a[0]);
        lemma_counts_add(a.drop_first(), b);
    }
}

/// A plan of directory actions alone.
pub open spec fn all_dirs(p: Seq<ActionV>) -> bool {
    forall|j: int| 0 <= j < p.len() ==> p[j] is MkDir
}

/// Concatenation preserves a plan's being directory actions alone.
proof fn lemma_all_dirs_add(a: Seq<ActionV>, b: Seq<ActionV>)
    requires
        all_dirs(a),
        all_dirs(b),
    ensures
        all_dirs(a + b),
{
    assert forall|j: int| 0 <= j < (a + b).len() implies (a + b)[j] is MkDir by {
        if j < a.len() {
            assert((a + b)[j] == a[j]);
        } else {
            assert((a + b)[j] == b[j - a.len()]);
        }
    }
}

/// A tree without scalar leaves and without crate-skeleton entries: the
/// only sources of file actions are absent. Mapping keys may be of any
/// kind; a `files` key may carry any value.
pub open spec fn scalar_free(n: ConfigNode) -> bool
    decreases n, 0int,
{
    match n {
        ConfigNode::Scalar(_) => false,
        ConfigNode::Sequence(items) => scalar_free_seq(items@),
        ConfigNode::Mapping(entries) => scalar_free_entries(entries@),
        ConfigNode::Empty => true,
    }
}

/// Every item of the sequence is free of scalars and skeletons.
pub open spec fn scalar_free_seq(items: Seq<ConfigNode>) -> bool
    decreases items, 0int,
{
    items.len() == 0 || (scalar_free(items[0]) && scalar_free_seq(items.drop_first()))
}

/// Every entry of the mapping is free of scalars and skeletons.
pub open spec fn scalar_free_entries(entries: Seq<(MapKey, ConfigNode)>) -> bool
    decreases entries, 0int,
{
    entries.len() == 0 || (scalar_free_entry(entries[0].0, entries[0].1) && scalar_free_entries(
        entries.drop_first(),
    ))
}

/// One mapping entry free of scalars and skeletons: not a reserved
/// crate-skeleton entry, and its value free of scalars in turn.
pub open spec fn scalar_free_entry(key: MapKey, value: ConfigNode) -> bool
    decreases value, 1int,
{
    match key {
        MapKey::Other => true,
        MapKey::Str(k) => {
            if (k@ == "crates"@ || k@ == "modules"@) && value is Mapping {
                false
            } else {
                scalar_free(value)
            }
        },
    }
}

/// Law: against a plain tree, the builder's plan holds exactly one
/// file-creation action per scalar leaf and exactly one directory-creation
/// action per directory key — no extra and no missing entries.
pub proof fn lemma_one_action_per_leaf_and_key(base: Seq<Seq<char>>, n: ConfigNode)
    requires
        plain_tree(n),
    ensures
        file_count(build_plan(base, n)) == scalar_count(n),
        dir_count(build_plan(base, n)) == dir_key_count(n),
    decreases n, 0int,
{
    match n {
        ConfigNode::Scalar(name) => {
            let p = build_plan(base, n);
            assert(p =~= seq![scalar_action(base, name@)]);
            assert(p[0] is WriteFile);
            assert(p.drop_first() =~= Seq::<ActionV>::empty());
            assert(file_count(Seq::<ActionV>::empty()) == 0);
            assert(dir_count(Seq::<ActionV>::empty()) == 0);
        },
        ConfigNode::Sequence(items) => {
            lemma_counts_seq(base, items@);
        },
        ConfigNode::Mapping(entries) => {
            lemma_counts_entries(base, entries@);
        },
        ConfigNode::Empty => {},
    }
}

/// The counting law for the items of a sequence node.
proof fn lemma_counts_seq(base: Seq<Seq<char>>, items: Seq<ConfigNode>)
    requires
        plain_seq(items),
    ensures
        file_count(build_plan_seq(base, items)) == scalar_count_seq(items),
        dir_count(build_plan_seq(base, items)) == dir_key_count_seq(items),
    decreases items, 0int,
{
    if items.len() > 0 {
        lemma_one_action_per_leaf_and_key(base, items[0]);
        lemma_counts_seq(base, items.drop_first());
        lemma_counts_add(build_plan(base, items[0]), build_plan_seq(base, items.drop_first()));
    }
}

/// The counting law for the entries of a mapping node.
proof fn lemma_counts_entries(base: Seq<Seq<char>>, entries: Seq<(MapKey, ConfigNode)>)
    requires
        plain_entries(entries),
    ensures
        file_count(build_plan_entries(base, entries)) == scalar_count_entries(entries),
        dir_count(build_plan_entries(base, entries)) == dir_key_count_entries(entries),
    decreases entries, 0int,
{
    if entries.len() > 0 {
        lemma_counts_entry(base, entries[0].0, entries[0].1);
        lemma_counts_entries(base, entries.drop_first());
        lemma_counts_add(
            entry_plan(base, entries[0].0, entries[0].1),
            build_plan_entries(base, entries.drop_first()),
        );
    }
}

/// The counting law for one plain mapping entry.
proof fn lemma_counts_entry(base: Seq<Seq<char>>, key: MapKey, value: ConfigNode)
    requires
        plain_entry(key, value),
    ensures
        file_count(entry_plan(base, key, value)) == scalar_count_entry(key, value),
        dir_count(entry_plan(base, key, value)) == dir_key_count_entry(key, value),
    decreases value, 1int,
{
    match key {
        MapKey::Other => {
            assert(entry_plan(base, key, value) == Seq::<ActionV>::empty());
            assert(file_count(Seq::<ActionV>::empty()) == 0);
            assert(dir_count(Seq::<ActionV>::empty()) == 0);
        },
        MapKey::Str(k) => {
            if k@ == "files"@ && value is Sequence {
                lemma_one_action_per_leaf_and_key(base, value);
            } else {
                let child = base.push(k@);
                lemma_one_action_per_leaf_and_key(child, value);
                let head = seq![ActionV::MkDir(child)];
                lemma_counts_add(head, build_plan(child, value));
                assert(head.drop_first() =~= Seq::<ActionV>::empty());
                assert(file_count(Seq::<ActionV>::empty()) == 0);
                assert(dir_count(Seq::<ActionV>::empty()) == 0);
                assert(head[0] is MkDir);
            }
        },
    }
}

/// Law: a tree with no scalar leaves and no crate-skeleton entries yields
/// a plan of directory actions alone. The plan is a function of the base
/// path and the tree, so a second run executes the identical actions, and
/// directory creation accepts a directory that already exists: re-running
/// cannot truncate a file or change the resulting directory set.
pub proof fn lemma_rerun_without_scalars_is_harmless(base: Seq<Seq<char>>, n: ConfigNode)
    requires
        scalar_free(n),
    ensures
        all_dirs(build_plan(base, n)),
    decreases n, 0int,
{
    match n {
        ConfigNode::Scalar(_) => {},
        ConfigNode::Sequence(items) => {
            lemma_rerun_seq(base, items@);
        },
        ConfigNode::Mapping(entries) => {
            lemma_rerun_entries(base, entries@);
        },
        ConfigNode::Empty => {},
    }
}

/// The rerun law for the items of a sequence node.
proof fn lemma_rerun_seq(base: Seq<Seq<char>>, items: Seq<ConfigNode>)
    requires
        scalar_free_seq(items),
    ensures
        all_dirs(build_plan_seq(base, items)),
    decreases items, 0int,
{
    if items.len() > 0 {
        lemma_rerun_without_scalars_is_harmless(base, items[0]);
        lemma_rerun_seq(base, items.drop_first());
        lemma_all_dirs_add(build_plan(base, items[0]), build_plan_seq(base, items.drop_first()));
    }
}

/// The rerun law for the entries of a mapping node.
proof fn lemma_rerun_entries(base: Seq<Seq<char>>, entries: Seq<(MapKey, ConfigNode)>)
    requires
        scalar_free_entries(entries),
    ensures
        all_dirs(build_plan_entries(base, entries)),
    decreases entries, 0int,
{
    if entries.len() > 0 {
        lemma_rerun_entry(base, entries[0].0, entries[0].1);
        lemma_rerun_entries(base, entries.drop_first());
        lemma_all_dirs_add(
            entry_plan(base, entries[0].0, entries[0].1),
            build_plan_entries(base, entries.drop_first()),
        );
    }
}

/// The rerun law for one mapping entry.
proof fn lemma_rerun_entry(base: Seq<Seq<char>>, key: MapKey, value: ConfigNode)
    requires
        scalar_free_entry(key, value),
    ensures
        all_dirs(entry_plan(base, key, value)),
    decreases value, 1int,
{
    match key {
        MapKey::Other => {
            assert(entry_plan(base, key, value) == Seq::<ActionV>::empty());
        },
        MapKey::Str(k) => {
            if k@ == "files"@ && value is Sequence {
                lemma_rerun_without_scalars_is_harmless(base, value);
            } else {
                let child = base.push(k@);
                lemma_rerun_without_scalars_is_harmless(child, value);
                let head = seq![ActionV::MkDir(child)];
                assert(all_dirs(head));
                lemma_all_dirs_add(head, build_plan(child, value));
            }
        },
    }
}

/// Law: a mapping entry whose key is not a string contributes nothing:
/// the plan of the mapping equals the plan of the mapping with that entry
/// removed, with no error and no filesystem entry for the key.
pub proof fn lemma_non_string_key_skipped(
    base: Seq<Seq<char>>,
    entries: Seq<(MapKey, ConfigNode)>,
    i: int,
)
    requires
        0 <= i < entries.len(),
        entries[i].0 is Other,
    ensures
        build_plan_entries(base, entries) == build_plan_entries(base, entries.remove(i)),
    decreases i,
{
    if i == 0 {
        assert(entries.remove(0) =~= entries.drop_first());
        assert(entry_plan(base, entries[0].0, entries[0].1) =~= Seq::<ActionV>::empty());
        assert(Seq::<ActionV>::empty() + build_plan_entries(base, entries.drop_first())
            =~= build_plan_entries(base, entries.drop_first()));
    } else {
        lemma_non_string_key_skipped(base, entries.drop_first(), i - 1);
        assert(entries.remove(i)[0] == entries[0]);
        assert(entries.remove(i).drop_first() =~= entries.drop_first().remove(i - 1));
        assert(entries.remove(i).len() > 0);
    }
}

} // verus!

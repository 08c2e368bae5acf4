//! The recursive structure builder.
//!
//! [`build_plan`] is the specification: it maps a base path and a
//! configuration tree to the exact ordered sequence of filesystem actions
//! that materializing the tree performs. [`process_yaml_structure`] is the
//! executable walker, proved to return precisely that sequence. The walk is
//! depth-first and pre-order: a mapping key becomes a directory before its
//! subtree is entered, except for the reserved keys:
//!
//! * `"files"` with a sequence value: the value's entries are interpreted
//!   against the current base path, with no new subdirectory;
//! * `"crates"` or `"modules"` with a mapping value: each string sub-key
//!   names a skeleton sub-crate generated directly under the current base
//!   path, and the sub-key's own value is ignored.
//!
//! Non-string keys are skipped: no action and no error. A scalar directly
//! under the project root takes its content from the boilerplate table;
//! deeper scalars become empty files.

use vstd::prelude::*;
use crate::config::{ConfigNode, MapKey};
use crate::content::{
    create_initial_content, crate_lib_content, crate_lib_text, crate_manifest_content,
    crate_manifest_text, initial_content, str_eq, INTEGRATION_TEST_TEMPLATE, WORKSPACE_MANIFEST,
};
use crate::plan::{clone_path, push_segment, Action, ActionV};

verus! {

/// The action a scalar produces: one file under the base path, with
/// boilerplate content when it stands directly under the project root and
/// its name is in the content table, and no content otherwise.
pub open spec fn scalar_action(base: Seq<Seq<char>>, name: Seq<char>) -> ActionV {
    ActionV::WriteFile(
        base.push(name),
        if base.len() == 0 {
            initial_content(name)
        } else {
            None
        },
    )
}

/// The actions that generate one skeleton sub-crate `name` under `base`:
/// its directory, the four standard subdirectories, and the three
/// boilerplate files, in generation order.
pub open spec fn skeleton_plan(base: Seq<Seq<char>>, name: Seq<char>) -> Seq<ActionV> {
    let root = base.push(name);
    seq![
        ActionV::MkDir(root),
        ActionV::MkDir(root.push("src"@)),
        ActionV::MkDir(root.push("tests"@)),
        ActionV::MkDir(root.push("benches"@)),
        ActionV::MkDir(root.push("examples"@)),
        ActionV::WriteFile(root.push("src"@).push("lib.rs"@), Some(crate_lib_text(name))),
        ActionV::WriteFile(root.push("Cargo.toml"@), Some(crate_manifest_text(name))),
        ActionV::WriteFile(
            root.push("tests"@).push("integration_test.rs"@),
            Some(INTEGRATION_TEST_TEMPLATE@),
        ),
    ]
}

/// The ordered actions that materialize `node` under `base`.
pub open spec fn build_plan(base: Seq<Seq<char>>, node: ConfigNode) -> Seq<ActionV>
    decreases node, 0int,
{
    match node {
        ConfigNode::Scalar(name) => seq![scalar_action(base, name@)],
        ConfigNode::Sequence(items) => build_plan_seq(base, items@),
        ConfigNode::Mapping(entries) => build_plan_entries(base, entries@),
        ConfigNode::Empty => Seq::empty(),
    }
}

/// The actions of a sequence node: each item in order, against the same
/// base path.
pub open spec fn build_plan_seq(base: Seq<Seq<char>>, items: Seq<ConfigNode>) -> Seq<ActionV>
    decreases items, 0int,
{
    if items.len() == 0 {
        Seq::empty()
    } else {
        build_plan(base, items[0]) + build_plan_seq(base, items.drop_first())
    }
}

/// The actions of a mapping node: each entry in order.
pub open spec fn build_plan_entries(
    base: Seq<Seq<char>>,
    entries: Seq<(MapKey, ConfigNode)>,
) -> Seq<ActionV>
    decreases entries, 0int,
{
    if entries.len() == 0 {
        Seq::empty()
    } else {
        entry_plan(base, entries[0].0, entries[0].1) + build_plan_entries(
            base,
            entries.drop_first(),
        )
    }
}

/// The actions of one mapping entry: the reserved-key dispatch.
pub open spec fn entry_plan(base: Seq<Seq<char>>, key: MapKey, value: ConfigNode) -> Seq<ActionV>
    decreases value, 1int,
{
    match key {
        MapKey::Other => Seq::empty(),
        MapKey::Str(k) => {
            if k@ == "files"@ && value is Sequence {
                build_plan(base, value)
            } else if (k@ == "crates"@ || k@ == "modules"@) && value is Mapping {
                crates_plan(base, value->Mapping_0@)
            } else {
                seq![ActionV::MkDir(base.push(k@))] + build_plan(base.push(k@), value)
            }
        },
    }
}

/// The actions of a `crates`/`modules` mapping: one skeleton per string
/// sub-key, in order; non-string sub-keys are skipped.
pub open spec fn crates_plan(
    base: Seq<Seq<char>>,
    entries: Seq<(MapKey, ConfigNode)>,
) -> Seq<ActionV>
    decreases entries,
{
    if entries.len() == 0 {
        Seq::empty()
    } else {
        (match entries[0].0 {
            MapKey::Str(name) => skeleton_plan(base, name@),
            MapKey::Other => Seq::empty(),
        }) + crates_plan(base, entries.drop_first())
    }
}

/// One step of [`build_plan_seq`], phrased over a suffix of the items.
proof fn lemma_plan_seq_step(base: Seq<Seq<char>>, items: Seq<ConfigNode>, i: int)
    requires
        0 <= i < items.len(),
    ensures
        build_plan_seq(base, items.skip(i)) == build_plan(base, items[i]) + build_plan_seq(
            base,
            items.skip(i + 1),
        ),
{
    assert(items.skip(i)[0] == items[i]);
    assert(items.skip(i).drop_first() =~= items.skip(i + 1));
}

/// One step of [`build_plan_entries`], phrased over a suffix of the entries.
proof fn lemma_plan_entries_step(
    base: Seq<Seq<char>>,
    entries: Seq<(MapKey, ConfigNode)>,
    i: int,
)
    requires
        0 <= i < entries.len(),
    ensures
        build_plan_entries(base, entries.skip(i)) == entry_plan(
            base,
            entries[i].0,
            entries[i].1,
        ) + build_plan_entries(base, entries.skip(i + 1)),
{
    assert(entries.skip(i)[0] == entries[i]);
    assert(entries.skip(i).drop_first() =~= entries.skip(i + 1));
}

/// One step of [`crates_plan`], phrased over a suffix of the entries.
proof fn lemma_crates_plan_step(base: Seq<Seq<char>>, entries: Seq<(MapKey, ConfigNode)>, i: int)
    requires
        0 <= i < entries.len(),
    ensures
        crates_plan(base, entries.skip(i)) == (match entries[i].0 {
            MapKey::Str(name) => skeleton_plan(base, name@),
            MapKey::Other => Seq::empty(),
        }) + crates_plan(base, entries.skip(i + 1)),
{
    assert(entries.skip(i)[0] == entries[i]);
    assert(entries.skip(i).drop_first() =~= entries.skip(i + 1));
}

/// Generates the skeleton of one sub-crate `crate_name` under `base`: the
/// crate directory, `src`, `tests`, `benches` and `examples` below it, an
/// entry file and a manifest interpolating the crate's name, and an
/// integration-test stub.
pub fn create_crate_structure(base: &Vec<String>, crate_name: &str) -> (r: Vec<Action>)
    ensures
        r.deep_view() == skeleton_plan(base.deep_view(), crate_name@),
{
    let root = push_segment(base, crate_name);
    let src_dir = push_segment(&root, "src");
    let tests_dir = push_segment(&root, "tests");
    let mut r: Vec<Action> = Vec::new();
    r.push(Action::MkDir(clone_path(&root)));
    r.push(Action::MkDir(clone_path(&src_dir)));
    r.push(Action::MkDir(clone_path(&tests_dir)));
    r.push(Action::MkDir(push_segment(&root, "benches")));
    r.push(Action::MkDir(push_segment(&root, "examples")));
    r.push(Action::WriteFile(
        push_segment(&src_dir, "lib.rs"),
        Some(crate_lib_content(crate_name)),
    ));
    r.push(Action::WriteFile(
        push_segment(&root, "Cargo.toml"),
        Some(crate_manifest_content(crate_name)),
    ));
    r.push(Action::WriteFile(
        push_segment(&tests_dir, "integration_test.rs"),
        Some(INTEGRATION_TEST_TEMPLATE.to_owned()),
    ));
    proof {
        assert(r.deep_view() =~= skeleton_plan(base.deep_view(), crate_name@));
    }
    r
}

/// Walks the configuration tree and returns, in execution order, every
/// filesystem action that materializes it under `base`.
#[verifier::loop_isolation(false)]
pub fn process_yaml_structure(base: &Vec<String>, node: &ConfigNode) -> (r: Vec<Action>)
    ensures
        r.deep_view() == build_plan(base.deep_view(), *node),
    decreases *node, 0int,
{
    match node {
        ConfigNode::Scalar(name) => {
            let content: Option<String> = if base.len() == 0 {
                create_initial_content(name.as_str())
            } else {
                None
            };
            let path = push_segment(base, name.as_str());
            let mut r: Vec<Action> = Vec::new();
            r.push(Action::WriteFile(path, content));
            proof {
                assert(r.deep_view() =~= build_plan(base.deep_view(), *node));
            }
            r
        },
        ConfigNode::Sequence(items) => {
            let ghost bv = base.deep_view();
            let mut r: Vec<Action> = Vec::new();
            let mut i: usize = 0;
            proof {
                assert(items@.skip(0) =~= items@);
                assert(r.deep_view() =~= Seq::<ActionV>::empty());
                assert(Seq::<ActionV>::empty() + build_plan_seq(bv, items@) =~= build_plan_seq(
                    bv,
                    items@,
                ));
            }
            while i < items.len()
                invariant
                    i <= items.len(),
                    r.deep_view() + build_plan_seq(bv, items@.skip(i as int)) == build_plan_seq(
                        bv,
                        items@,
                    ),
                    bv == base.deep_view(),
                decreases items.len() - i,
            {
                proof {
                    assert(*node == ConfigNode::Sequence(*items));
                    assert(decreases_to!(*node => *items));
                    assert(decreases_to!(*items => items@));
                    assert(decreases_to!(items@ => items@[i as int]));
                    assert(decreases_to!(*node => items@[i as int]));
                }
                let mut sub = process_yaml_structure(base, &items[i]);
                proof {
                    lemma_plan_seq_step(bv, items@, i as int);
                }
                let ghost r_old = r.deep_view();
                r.append(&mut sub);
                proof {
                    assert(r.deep_view() =~= r_old + build_plan(bv, items@[i as int]));
                    assert((r_old + build_plan(bv, items@[i as int])) + build_plan_seq(
                        bv,
                        items@.skip(i + 1),
                    ) =~= r_old + (build_plan(bv, items@[i as int]) + build_plan_seq(
                        bv,
                        items@.skip(i + 1),
                    )));
                }
                i = i + 1;
            }
            proof {
                assert(items@.skip(items@.len() as int) =~= Seq::<ConfigNode>::empty());
                assert(r.deep_view() + Seq::<ActionV>::empty() =~= r.deep_view());
            }
            r
        },
        ConfigNode::Mapping(entries) => {
            let ghost bv = base.deep_view();
            let mut r: Vec<Action> = Vec::new();
            let mut i: usize = 0;
            proof {
                assert(entries@.skip(0) =~= entries@);
                assert(r.deep_view() =~= Seq::<ActionV>::empty());
                assert(Seq::<ActionV>::empty() + build_plan_entries(bv, entries@)
                    =~= build_plan_entries(bv, entries@));
            }
            while i < entries.len()
                invariant
                    i <= entries.len(),
                    r.deep_view() + build_plan_entries(bv, entries@.skip(i as int))
                        == build_plan_entries(bv, entries@),
                    bv == base.deep_view(),
                decreases entries.len() - i,
            {
                let pair = &entries[i];
                proof {
                    assert(*node == ConfigNode::Mapping(*entries));
                    assert(decreases_to!(*node => *entries));
                    assert(decreases_to!(*entries => entries@));
                    assert(decreases_to!(entries@ => entries@[i as int]));
                    assert(decreases_to!(entries@[i as int] => entries@[i as int].1));
                    assert(decreases_to!(*node => entries@[i as int].1));
                }
                let mut sub = entry_actions(base, &pair.0, &pair.1);
                proof {
                    lemma_plan_entries_step(bv, entries@, i as int);
                }
                let ghost r_old = r.deep_view();
                r.append(&mut sub);
                proof {
                    assert(r.deep_view() =~= r_old + entry_plan(
                        bv,
                        entries@[i as int].0,
                        entries@[i as int].1,
                    ));
                    assert((r_old + entry_plan(bv, entries@[i as int].0, entries@[i as int].1))
                        + build_plan_entries(bv, entries@.skip(i + 1)) =~= r_old + (entry_plan(
                        bv,
                        entries@[i as int].0,
                        entries@[i as int].1,
                    ) + build_plan_entries(bv, entries@.skip(i + 1))));
                }
                i = i + 1;
            }
            proof {
                assert(entries@.skip(entries@.len() as int) =~= Seq::<(
                    MapKey,
                    ConfigNode,
                )>::empty());
                assert(r.deep_view() + Seq::<ActionV>::empty() =~= r.deep_view());
            }
            r
        },
        ConfigNode::Empty => {
            let r: Vec<Action> = Vec::new();
            proof {
                assert(r.deep_view() =~= Seq::<ActionV>::empty());
            }
            r
        },
    }
}

/// The actions of one mapping entry, dispatching on the reserved keys.
fn entry_actions(base: &Vec<String>, key: &MapKey, value: &ConfigNode) -> (r: Vec<Action>)
    ensures
        r.deep_view() == entry_plan(base.deep_view(), *key, *value),
    decreases *value, 1int,
{
    match key {
        MapKey::Other => {
            let r: Vec<Action> = Vec::new();
            proof {
                assert(r.deep_view() =~= Seq::<ActionV>::empty());
            }
            r
        },
        MapKey::Str(k) => {
            if str_eq(k.as_str(), "files") && matches!(value, ConfigNode::Sequence(_)) {
                process_yaml_structure(base, value)
            } else if (str_eq(k.as_str(), "crates") || str_eq(k.as_str(), "modules"))
                && matches!(value, ConfigNode::Mapping(_)) {
                match value {
                    ConfigNode::Mapping(sub) => crates_actions(base, sub),
                    _ => {
                        proof {
                            assert(false);
                        }
                        Vec::new()
                    },
                }
            } else {
                let child = push_segment(base, k.as_str());
                let mut r: Vec<Action> = Vec::new();
                r.push(Action::MkDir(clone_path(&child)));
                let mut sub = process_yaml_structure(&child, value);
                let ghost r_old = r.deep_view();
                r.append(&mut sub);
                proof {
                    assert(r.deep_view() =~= r_old + build_plan(
                        base.deep_view().push(k@),
                        *value,
                    ));
                    assert(r_old =~= seq![ActionV::MkDir(base.deep_view().push(k@))]);
                }
                r
            }
        },
    }
}

/// The actions of a `crates`/`modules` mapping value: one skeleton per
/// string sub-key, in order.
fn crates_actions(base: &Vec<String>, entries: &Vec<(MapKey, ConfigNode)>) -> (r: Vec<Action>)
    ensures
        r.deep_view() == crates_plan(base.deep_view(), entries@),
{
    let ghost bv = base.deep_view();
    let mut r: Vec<Action> = Vec::new();
    let mut i: usize = 0;
    proof {
        assert(entries@.skip(0) =~= entries@);
        assert(r.deep_view() =~= Seq::<ActionV>::empty());
        assert(Seq::<ActionV>::empty() + crates_plan(bv, entries@) =~= crates_plan(bv, entries@));
    }
    while i < entries.len()
        invariant
            i <= entries.len(),
            r.deep_view() + crates_plan(bv, entries@.skip(i as int)) == crates_plan(bv, entries@),
            bv == base.deep_view(),
        decreases entries.len() - i,
    {
        let pair = &entries[i];
        proof {
            lemma_crates_plan_step(bv, entries@, i as int);
        }
        let ghost r_old = r.deep_view();
        let ghost step = (match entries@[i as int].0 {
            MapKey::Str(name) => skeleton_plan(bv, name@),
            MapKey::Other => Seq::<ActionV>::empty(),
        });
        match &pair.0 {
            MapKey::Str(name) => {
                let mut sub = create_crate_structure(base, name.as_str());
                r.append(&mut sub);
            },
            MapKey::Other => {},
        }
        proof {
            assert(r.deep_view() =~= r_old + step);
            assert((r_old + step) + crates_plan(bv, entries@.skip(i + 1)) =~= r_old + (step
                + crates_plan(bv, entries@.skip(i + 1))));
        }
        i = i + 1;
    }
    proof {
        assert(entries@.skip(entries@.len() as int) =~= Seq::<(MapKey, ConfigNode)>::empty());
        assert(r.deep_view() + Seq::<ActionV>::empty() =~= r.deep_view());
    }
    r
}

/// The fixed workspace manifest written at the project root.
pub open spec fn workspace_manifest_action() -> ActionV {
    ActionV::WriteFile(seq!["Cargo.toml"@], Some(WORKSPACE_MANIFEST@))
}

/// Returns the action that writes the workspace manifest at the project
/// root.
pub fn create_workspace_cargo_toml() -> (a: Action)
    ensures
        a.deep_view() == workspace_manifest_action(),
{
    let mut path: Vec<String> = Vec::new();
    path.push("Cargo.toml".to_owned());
    let a = Action::WriteFile(path, Some(WORKSPACE_MANIFEST.to_owned()));
    proof {
        assert(path.deep_view() =~= seq!["Cargo.toml"@]);
    }
    a
}

} // verus!

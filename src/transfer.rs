use vstd::prelude::*;
use crate::fileops::{FileOp, FsState, OpSpec, apply_op, ops_view, run_ops};
use crate::paths::{file_name, file_name_of, join, join_of};

verus! {

/// Where a file at `source` lands inside `dest_dir`: under its own file name.
pub open spec fn placed_path_of(source: Seq<char>, dest_dir: Seq<char>) -> Option<Seq<char>> {
    match file_name_of(source) {
        Some(name) => Some(join_of(dest_dir, name)),
        None => None,
    }
}

/// Staging copies `source` into `dest_dir` and leaves it in place.
pub open spec fn stage_plan_of(source: Seq<char>, staged: Seq<char>) -> Seq<OpSpec> {
    seq![OpSpec::Copy { from: source, to: staged }]
}

/// Relocation makes sure `dest_dir` exists, copies `source` there, and only
/// then deletes `source`.
pub open spec fn relocate_plan_of(source: Seq<char>, dest_dir: Seq<char>, dest: Seq<char>) -> Seq<OpSpec> {
    seq![
        OpSpec::CreateDirAll(dest_dir),
        OpSpec::Copy { from: source, to: dest },
        OpSpec::Remove(source),
    ]
}

/// The path that a file at `source` gets inside `dest_dir`, or `None` when
/// `source` has no file name.
pub fn placed_path(source: &str, dest_dir: &str) -> (r: Option<String>)
    ensures
        match r {
            Some(p) => placed_path_of(source@, dest_dir@) == Some(p@),
            None => placed_path_of(source@, dest_dir@) is None,
        },
{
    match file_name(source) {
        Some(name) => Some(join(dest_dir, name.as_str())),
        None => None,
    }
}

/// The operations that stage `source` into `dest_dir`, with the staged path;
/// `None` when `source` has no file name.
pub fn stage_ops(source: &str, dest_dir: &str) -> (r: Option<(String, Vec<FileOp>)>)
    ensures
        match r {
            Some((staged, ops)) => placed_path_of(source@, dest_dir@) == Some(staged@)
                && ops_view(ops@) == stage_plan_of(source@, staged@),
            None => placed_path_of(source@, dest_dir@) is None,
        },
{
    match placed_path(source, dest_dir) {
        Some(staged) => {
            let ops = vec![FileOp::Copy { from: String::from_str(source), to: staged.clone() }];
            assert(ops_view(ops@) =~= stage_plan_of(source@, staged@));
            Some((staged, ops))
        },
        None => None,
    }
}

/// The operations that move `source` into `dest_dir`, with the final path;
/// `None` when `source` has no file name.
pub fn relocate_ops(source: &str, dest_dir: &str) -> (r: Option<(String, Vec<FileOp>)>)
    ensures
        match r {
            Some((dest, ops)) => placed_path_of(source@, dest_dir@) == Some(dest@)
                && ops_view(ops@) == relocate_plan_of(source@, dest_dir@, dest@),
            None => placed_path_of(source@, dest_dir@) is None,
        },
{
    match placed_path(source, dest_dir) {
        Some(dest) => {
            let ops = vec![
                FileOp::CreateDirAll(String::from_str(dest_dir)),
                FileOp::Copy { from: String::from_str(source), to: dest.clone() },
                FileOp::Remove(String::from_str(source)),
            ];
            assert(ops_view(ops@) =~= relocate_plan_of(source@, dest_dir@, dest@));
            Some((dest, ops))
        },
        None => None,
    }
}

/// Staging is a copy: afterwards the staged file holds the bytes of `source`,
/// and `source` is still there.
pub proof fn lemma_stage_copies(fs: FsState, source: Seq<char>, dest_dir: Seq<char>)
    requires
        fs.files.contains_key(source),
        placed_path_of(source, dest_dir) is Some,
    ensures
        ({
            let staged = placed_path_of(source, dest_dir)->Some_0;
            let (after, ok) = run_ops(fs, stage_plan_of(source, staged));
            ok && after.files.contains_key(staged) && after.files[staged] == fs.files[source]
                && after.files.contains_key(source)
        }),
{
    let staged = placed_path_of(source, dest_dir)->Some_0;
    let plan = stage_plan_of(source, staged);
    let f1 = apply_op(fs, plan[0])->Some_0;
    assert(plan.drop_first() =~= Seq::<OpSpec>::empty());
    assert(run_ops(fs, plan) == run_ops(f1, plan.drop_first()));
}

/// Relocation is a move: when `source` exists and its place in `dest_dir` is
/// another path, afterwards `source` is gone and the relocated file holds what
/// `source` held.
pub proof fn lemma_relocate_moves(fs: FsState, source: Seq<char>, dest_dir: Seq<char>)
    requires
        fs.files.contains_key(source),
        placed_path_of(source, dest_dir) is Some,
        placed_path_of(source, dest_dir)->Some_0 != source,
    ensures
        ({
            let dest = placed_path_of(source, dest_dir)->Some_0;
            let (after, ok) = run_ops(fs, relocate_plan_of(source, dest_dir, dest));
            ok && !after.files.contains_key(source) && after.files.contains_key(dest)
                && after.files[dest] == fs.files[source]
        }),
{
    let dest = placed_path_of(source, dest_dir)->Some_0;
    let plan = relocate_plan_of(source, dest_dir, dest);
    let f1 = apply_op(fs, plan[0])->Some_0;
    let f2 = apply_op(f1, plan[1])->Some_0;
    let f3 = apply_op(f2, plan[2])->Some_0;
    assert(plan.drop_first() =~= seq![plan[1], plan[2]]);
    assert(plan.drop_first().drop_first() =~= seq![plan[2]]);
    assert(plan.drop_first().drop_first().drop_first() =~= Seq::<OpSpec>::empty());
    assert(run_ops(f2, plan.drop_first().drop_first()) == run_ops(f3, plan.drop_first().drop_first().drop_first()));
    assert(run_ops(f1, plan.drop_first()) == run_ops(f2, plan.drop_first().drop_first()));
    assert(run_ops(fs, plan) == (f3, true));
}

/// Relocating a file that does not exist fails and leaves every file as it was.
pub proof fn lemma_relocate_missing_source(fs: FsState, source: Seq<char>, dest_dir: Seq<char>, dest: Seq<char>)
    requires
        !fs.files.contains_key(source),
    ensures
        !run_ops(fs, relocate_plan_of(source, dest_dir, dest)).1,
        run_ops(fs, relocate_plan_of(source, dest_dir, dest)).0.files == fs.files,
{
    let plan = relocate_plan_of(source, dest_dir, dest);
    let f1 = apply_op(fs, plan[0])->Some_0;
    assert(plan.drop_first() =~= seq![plan[1], plan[2]]);
    assert(apply_op(f1, plan.drop_first()[0]) is None);
    assert(run_ops(f1, plan.drop_first()) == (f1, false));
}

} // verus!

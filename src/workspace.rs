use vstd::prelude::*;
use crate::fileops::{FileOp, FsState, OpSpec, ops_view, run_ops};
use crate::paths::{join, join_of};

verus! {

/// Name of the directory that holds staged inputs.
pub const INPUT_DIR_NAME: &'static str = "input_text";

/// Name of the directory into which the engine writes its results.
pub const OUTPUT_DIR_NAME: &'static str = "output_text";

/// The staging directory under `base`.
pub open spec fn input_dir_of(base: Seq<char>) -> Seq<char> {
    join_of(base, INPUT_DIR_NAME@)
}

/// The engine's output directory under `base`.
pub open spec fn output_dir_of(base: Seq<char>) -> Seq<char> {
    join_of(base, OUTPUT_DIR_NAME@)
}

/// The operations that make sure both working directories under `base` exist.
pub open spec fn workspace_plan_of(base: Seq<char>) -> Seq<OpSpec> {
    seq![OpSpec::CreateDirAll(input_dir_of(base)), OpSpec::CreateDirAll(output_dir_of(base))]
}

/// The two working directories under `base`: `base/input_text` and `base/output_text`.
pub fn working_dirs(base: &str) -> (r: (String, String))
    ensures
        r.0@ == input_dir_of(base@),
        r.1@ == output_dir_of(base@),
{
    (join(base, INPUT_DIR_NAME), join(base, OUTPUT_DIR_NAME))
}

/// The two working directories under `base`, with the operations that create
/// them (and any missing ancestor) where they are missing. Whoever performs the
/// operations treats a failure as fatal to the job.
pub fn get_working_dirs_from_base(base: &str) -> (r: (String, String, Vec<FileOp>))
    ensures
        r.0@ == input_dir_of(base@),
        r.1@ == output_dir_of(base@),
        ops_view(r.2@) == workspace_plan_of(base@),
{
    let (input_dir, output_dir) = working_dirs(base);
    let ops = vec![FileOp::CreateDirAll(input_dir.clone()), FileOp::CreateDirAll(output_dir.clone())];
    assert(ops_view(ops@) =~= workspace_plan_of(base@));
    (input_dir, output_dir, ops)
}

/// Once the workspace plan has been carried out, both working directories exist.
pub proof fn lemma_working_dirs_created(fs: FsState, base: Seq<char>)
    ensures
        run_ops(fs, workspace_plan_of(base)).1,
        run_ops(fs, workspace_plan_of(base)).0.dirs.contains(input_dir_of(base)),
        run_ops(fs, workspace_plan_of(base)).0.dirs.contains(output_dir_of(base)),
        run_ops(fs, workspace_plan_of(base)).0.files == fs.files,
{
    lemma_working_dirs_idempotent(fs, base);
    let plan = workspace_plan_of(base);
    let f1 = FsState { files: fs.files, dirs: fs.dirs.insert(input_dir_of(base)).insert(output_dir_of(base)) };
    assert(plan.drop_first() =~= seq![OpSpec::CreateDirAll(output_dir_of(base))]);
    assert(plan.drop_first().drop_first() =~= Seq::<OpSpec>::empty());
    let f0 = FsState { files: fs.files, dirs: fs.dirs.insert(input_dir_of(base)) };
    assert(run_ops(f1, plan.drop_first().drop_first()) == (f1, true));
    assert(run_ops(f0, plan.drop_first()) == run_ops(f1, plan.drop_first().drop_first()));
    assert(run_ops(fs, plan) == (f1, true));
}

/// Making the workspace is idempotent: once the working directories have been
/// made, making them again with the same base succeeds and changes nothing.
pub proof fn lemma_working_dirs_idempotent(fs: FsState, base: Seq<char>)
    ensures
        run_ops(fs, workspace_plan_of(base)).1,
        run_ops(run_ops(fs, workspace_plan_of(base)).0, workspace_plan_of(base))
            == (run_ops(fs, workspace_plan_of(base)).0, true),
{
    let plan = workspace_plan_of(base);
    let i = input_dir_of(base);
    let o = output_dir_of(base);
    assert(plan.drop_first() =~= seq![OpSpec::CreateDirAll(o)]);
    assert(plan.drop_first().drop_first() =~= Seq::<OpSpec>::empty());
    let f0 = FsState { files: fs.files, dirs: fs.dirs.insert(i) };
    let f1 = FsState { files: fs.files, dirs: fs.dirs.insert(i).insert(o) };
    assert(run_ops(f1, plan.drop_first().drop_first()) == (f1, true));
    assert(run_ops(f0, plan.drop_first()) == run_ops(f1, plan.drop_first().drop_first()));
    assert(run_ops(fs, plan) == (f1, true));
    assert(f1.dirs.insert(i) =~= f1.dirs);
    assert(f1.dirs.insert(o) =~= f1.dirs);
    let g0 = FsState { files: f1.files, dirs: f1.dirs.insert(i) };
    assert(g0 == f1);
    assert(run_ops(g0, plan.drop_first()) == run_ops(f1, plan.drop_first().drop_first()));
    assert(run_ops(f1, plan) == (f1, true));
}

} // verus!

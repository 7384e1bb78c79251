use vstd::prelude::*;
use crate::engine::{EngineCommand, EngineSetup, engine_command, engine_setup, is_engine_command, engine_dir_of, config_path_of, exe_name_of};
use crate::fileops::{FileOp, FsState, OpSpec, apply_op, run_ops};
use crate::paths::{file_name, file_name_of, join, join_of, lemma_file_name_of_join};
use crate::transfer::placed_path_of;
use crate::progress::{DOWNLOAD_ID, Notification, STEP_MILLIS, TOTAL_MILLIS, percent_of, progress_percent};
use crate::workspace::{input_dir_of, output_dir_of, working_dirs};

verus! {

/// Where a job stands. Each phase names the action that has been handed out
/// and whose outcome the job waits for.
#[derive(PartialEq, Eq, Structural, Clone, Copy, Debug)]
pub enum Phase {
    Idle,
    Announcing,
    MakingInputDir,
    MakingOutputDir,
    Staging,
    Running,
    ClearingInput,
    /// A progress report for `counted` milliseconds of the window is out.
    Progressing(u64),
    MakingDestDir,
    Copying,
    RemovingOutput,
    Completing,
    Done,
    Failed,
}

/// The step of a job at which it failed.
#[derive(PartialEq, Eq, Structural, Clone, Copy, Debug)]
pub enum Step {
    Announce,
    Workspace,
    Stage,
    /// The engine could not be started at all.
    Engine,
    Cleanup,
    Progress,
    Relocate,
    Complete,
}

/// Why a job failed: the step, and what its caller reported.
#[derive(Debug)]
pub struct JobError {
    pub step: Step,
    pub detail: String,
}

/// The outcome of the last action, handed back by whoever performed it.
#[derive(Debug)]
pub enum Event {
    /// The action was carried out. For a run of the engine this holds whatever
    /// its exit status: a run that left no output is found out at relocation.
    Done,
    /// The action could not be carried out.
    Failed(String),
}

/// What the job asks its caller to do next.
#[derive(Debug)]
pub enum Action {
    Notify(Notification),
    /// Send the notification, then wait the given number of milliseconds.
    NotifyThenPause(Notification, u64),
    File(FileOp),
    RunEngine(EngineCommand),
    /// The job is over, with the final path of its result or the reason it failed.
    Finish(Result<String, JobError>),
    /// The job is over already: nothing is left to do.
    Nothing,
}

/// One document's way through the pipeline.
#[derive(Debug)]
pub struct Job {
    pub phase: Phase,
    pub input_path: String,
    pub dest_dir: String,
    pub input_dir: String,
    pub output_dir: String,
    /// The staged copy of the input.
    pub staged: String,
    /// Where the engine writes its result for the input.
    pub generated: String,
    /// Where the result ends up.
    pub final_path: String,
    /// Whether the input path has a file name; without one the job fails at staging.
    pub named: bool,
    pub engine: EngineSetup,
}

/// The phases that a job can be in: a progress count is a multiple of the step
/// within the window.
pub open spec fn phase_wf(p: Phase) -> bool {
    match p {
        Phase::Progressing(c) => c <= TOTAL_MILLIS && c % STEP_MILLIS == 0,
        _ => true,
    }
}

/// The step that fails when the action handed out in phase `p` fails.
pub open spec fn step_of(p: Phase) -> Step {
    match p {
        Phase::Announcing => Step::Announce,
        Phase::MakingInputDir | Phase::MakingOutputDir => Step::Workspace,
        Phase::Staging => Step::Stage,
        Phase::Running => Step::Engine,
        Phase::ClearingInput => Step::Cleanup,
        Phase::Progressing(_) => Step::Progress,
        Phase::Completing => Step::Complete,
        _ => Step::Relocate,
    }
}

/// Message of the failure of a job whose input path has no file name.
pub const NO_FILE_NAME: &'static str = "the input path has no file name";

/// Whether the input already is its staged copy: it then is neither copied
/// onto itself nor removed after the engine's run.
pub open spec fn stages_in_place(job: Job) -> bool {
    job.staged@ == job.input_path@
}

/// The phase after that of `job` once `e` has come.
pub open spec fn next_phase(job: Job, e: Event) -> Phase {
    let p = job.phase;
    match p {
        Phase::Idle => Phase::Announcing,
        Phase::Done => Phase::Done,
        Phase::Failed => Phase::Failed,
        _ => if e is Failed {
            Phase::Failed
        } else {
            match p {
                Phase::Announcing => Phase::MakingInputDir,
                Phase::MakingInputDir => Phase::MakingOutputDir,
                Phase::MakingOutputDir => if !job.named {
                    Phase::Failed
                } else if stages_in_place(job) {
                    Phase::Running
                } else {
                    Phase::Staging
                },
                Phase::Staging => Phase::Running,
                Phase::Running => if stages_in_place(job) {
                    Phase::Progressing(0)
                } else {
                    Phase::ClearingInput
                },
                Phase::ClearingInput => Phase::Progressing(0),
                Phase::Progressing(c) => if c + STEP_MILLIS <= TOTAL_MILLIS {
                    Phase::Progressing((c + STEP_MILLIS) as u64)
                } else {
                    Phase::MakingDestDir
                },
                Phase::MakingDestDir => Phase::Copying,
                Phase::Copying => Phase::RemovingOutput,
                Phase::RemovingOutput => Phase::Completing,
                _ => Phase::Done,
            }
        },
    }
}

/// Whether `a` is the file operation `op`.
pub open spec fn is_file_op(a: Action, op: OpSpec) -> bool {
    a matches Action::File(f) && f@ == op
}

/// The action handed out on entering phase `n` without a failure.
pub open spec fn entry_action(job: Job, n: Phase, a: Action) -> bool {
    match n {
        Phase::Announcing => a matches Action::Notify(Notification::Started { file_path, download_id })
            && file_path@ == job.input_path@ && download_id == DOWNLOAD_ID,
        Phase::MakingInputDir => is_file_op(a, OpSpec::CreateDirAll(job.input_dir@)),
        Phase::MakingOutputDir => is_file_op(a, OpSpec::CreateDirAll(job.output_dir@)),
        Phase::Staging => is_file_op(a, OpSpec::Copy { from: job.input_path@, to: job.staged@ }),
        Phase::Running => a matches Action::RunEngine(c)
            && is_engine_command(c, job.engine, job.input_dir@, job.output_dir@),
        Phase::ClearingInput => is_file_op(a, OpSpec::Remove(job.staged@)),
        Phase::Progressing(c) => a matches Action::NotifyThenPause(Notification::Progress { download_id, progress }, pause)
            && download_id == DOWNLOAD_ID && progress == percent_of(c as int, TOTAL_MILLIS as int)
            && pause == STEP_MILLIS,
        Phase::MakingDestDir => is_file_op(a, OpSpec::CreateDirAll(job.dest_dir@)),
        Phase::Copying => is_file_op(a, OpSpec::Copy { from: job.generated@, to: job.final_path@ }),
        Phase::RemovingOutput => is_file_op(a, OpSpec::Remove(job.generated@)),
        Phase::Completing => a matches Action::Notify(Notification::Completed { download_id, file_path })
            && download_id == DOWNLOAD_ID && file_path@ == job.final_path@,
        Phase::Done => a matches Action::Finish(Ok(p)) && p@ == job.final_path@,
        _ => false,
    }
}

/// The action that a job in `job.phase` hands out once `e` has come.
pub open spec fn expected_action(job: Job, e: Event, a: Action) -> bool {
    match job.phase {
        Phase::Done | Phase::Failed => a is Nothing,
        Phase::Idle => entry_action(job, Phase::Announcing, a),
        _ => match e {
            Event::Failed(d) => a matches Action::Finish(Err(err))
                && err.step == step_of(job.phase) && err.detail@ == d@,
            _ => if job.phase == Phase::MakingOutputDir && !job.named {
                a matches Action::Finish(Err(err)) && err.step == Step::Stage && err.detail@ == NO_FILE_NAME@
            } else {
                entry_action(job, next_phase(job, e), a)
            },
        },
    }
}

/// Whether two jobs are the same but for their phase.
pub open spec fn same_job(a: Job, b: Job) -> bool {
    &&& a.input_path == b.input_path
    &&& a.dest_dir == b.dest_dir
    &&& a.input_dir == b.input_dir
    &&& a.output_dir == b.output_dir
    &&& a.staged == b.staged
    &&& a.generated == b.generated
    &&& a.final_path == b.final_path
    &&& a.named == b.named
    &&& a.engine == b.engine
}

impl Job {
    /// A job that takes `input_path` through the engine installed under
    /// `resource_dir`, with its workspace under `data_dir`, and leaves the
    /// result in `dest_dir` under the input's file name. When `input_path` has
    /// no file name the job still announces itself and then fails at staging.
    pub fn new(input_path: &str, resource_dir: &str, data_dir: &str, dest_dir: &str, windows: bool) -> (job: Job)
        ensures
            job.phase == Phase::Idle,
            job.input_path@ == input_path@,
            job.dest_dir@ == dest_dir@,
            job.input_dir@ == input_dir_of(data_dir@),
            job.output_dir@ == output_dir_of(data_dir@),
            job.engine.dir@ == engine_dir_of(resource_dir@),
            job.engine.exe@ == join_of(engine_dir_of(resource_dir@), exe_name_of(windows)),
            job.engine.config@ == config_path_of(resource_dir@),
            job.named <==> file_name_of(input_path@) is Some,
            job.named ==> {
                let name = file_name_of(input_path@)->Some_0;
                &&& job.staged@ == join_of(input_dir_of(data_dir@), name)
                &&& job.generated@ == join_of(output_dir_of(data_dir@), name)
                &&& job.final_path@ == join_of(dest_dir@, name)
                &&& placed_path_of(job.input_path@, job.input_dir@) == Some(job.staged@)
                &&& placed_path_of(job.generated@, job.dest_dir@) == Some(job.final_path@)
            },
    {
        let (input_dir, output_dir) = working_dirs(data_dir);
        let name = match file_name(input_path) {
            Some(n) => n,
            None => {
                return Job {
                    phase: Phase::Idle,
                    input_path: String::from_str(input_path),
                    dest_dir: String::from_str(dest_dir),
                    input_dir,
                    output_dir,
                    staged: String::new(),
                    generated: String::new(),
                    final_path: String::new(),
                    named: false,
                    engine: engine_setup(resource_dir, windows),
                };
            },
        };
        let staged = join(input_dir.as_str(), name.as_str());
        let generated = join(output_dir.as_str(), name.as_str());
        let final_path = join(dest_dir, name.as_str());
        proof {
            lemma_file_name_of_join(output_dir@, input_path@);
        }
        Job {
            phase: Phase::Idle,
            input_path: String::from_str(input_path),
            dest_dir: String::from_str(dest_dir),
            input_dir,
            output_dir,
            staged,
            generated,
            final_path,
            named: true,
            engine: engine_setup(resource_dir, windows),
        }
    }

    fn file_action(op: FileOp) -> (a: Action)
        ensures
            is_file_op(a, op@),
    {
        Action::File(op)
    }

    /// The action handed out on entering `n` without a failure.
    fn enter(&self, n: Phase) -> (a: Action)
        requires
            phase_wf(n),
            n != Phase::Idle && n != Phase::Failed,
        ensures
            entry_action(*self, n, a),
    {
        match n {
            Phase::Announcing => Action::Notify(Notification::Started {
                file_path: self.input_path.clone(),
                download_id: DOWNLOAD_ID,
            }),
            Phase::MakingInputDir => Self::file_action(FileOp::CreateDirAll(self.input_dir.clone())),
            Phase::MakingOutputDir => Self::file_action(FileOp::CreateDirAll(self.output_dir.clone())),
            Phase::Staging => Self::file_action(FileOp::Copy { from: self.input_path.clone(), to: self.staged.clone() }),
            Phase::Running => Action::RunEngine(engine_command(&self.engine, self.input_dir.as_str(), self.output_dir.as_str())),
            Phase::ClearingInput => Self::file_action(FileOp::Remove(self.staged.clone())),
            Phase::Progressing(c) => Action::NotifyThenPause(
                Notification::Progress { download_id: DOWNLOAD_ID, progress: progress_percent(c, TOTAL_MILLIS) },
                STEP_MILLIS,
            ),
            Phase::MakingDestDir => Self::file_action(FileOp::CreateDirAll(self.dest_dir.clone())),
            Phase::Copying => Self::file_action(FileOp::Copy { from: self.generated.clone(), to: self.final_path.clone() }),
            Phase::RemovingOutput => Self::file_action(FileOp::Remove(self.generated.clone())),
            Phase::Completing => Action::Notify(Notification::Completed {
                download_id: DOWNLOAD_ID,
                file_path: self.final_path.clone(),
            }),
            _ => Action::Finish(Ok(self.final_path.clone())),
        }
    }

    /// Takes the outcome `e` of the last action and returns the next one. The
    /// first call, on an idle job, announces it whatever `e` is. A failure ends
    /// the job with the step at which it came; a finished job does nothing more.
    pub fn step(&mut self, e: Event) -> (a: Action)
        requires
            phase_wf(old(self).phase),
        ensures
            final(self).phase == next_phase(*old(self), e),
            phase_wf(final(self).phase),
            same_job(*final(self), *old(self)),
            expected_action(*old(self), e, a),
    {
        let p = self.phase;
        let a = match p {
            Phase::Done | Phase::Failed => Action::Nothing,
            Phase::Idle => {
                self.phase = Phase::Announcing;
                self.enter(Phase::Announcing)
            },
            _ => match e {
                Event::Failed(d) => {
                    let step = match p {
                        Phase::Announcing => Step::Announce,
                        Phase::MakingInputDir | Phase::MakingOutputDir => Step::Workspace,
                        Phase::Staging => Step::Stage,
                        Phase::Running => Step::Engine,
                        Phase::ClearingInput => Step::Cleanup,
                        Phase::Progressing(_) => Step::Progress,
                        Phase::Completing => Step::Complete,
                        _ => Step::Relocate,
                    };
                    self.phase = Phase::Failed;
                    Action::Finish(Err(JobError { step, detail: d }))
                },
                Event::Done => {
                    if p == Phase::MakingOutputDir && !self.named {
                        self.phase = Phase::Failed;
                        return Action::Finish(Err(JobError { step: Step::Stage, detail: String::from_str(NO_FILE_NAME) }));
                    }
                    let in_place = self.staged == self.input_path;
                    let n = match p {
                        Phase::Announcing => Phase::MakingInputDir,
                        Phase::MakingInputDir => Phase::MakingOutputDir,
                        Phase::MakingOutputDir => if in_place {
                            Phase::Running
                        } else {
                            Phase::Staging
                        },
                        Phase::Staging => Phase::Running,
                        Phase::Running => if in_place {
                            Phase::Progressing(0)
                        } else {
                            Phase::ClearingInput
                        },
                        Phase::ClearingInput => Phase::Progressing(0),
                        Phase::Progressing(c) => if c <= TOTAL_MILLIS - STEP_MILLIS {
                            Phase::Progressing(c + STEP_MILLIS)
                        } else {
                            Phase::MakingDestDir
                        },
                        Phase::MakingDestDir => Phase::Copying,
                        Phase::Copying => Phase::RemovingOutput,
                        Phase::RemovingOutput => Phase::Completing,
                        _ => Phase::Done,
                    };
                    self.phase = n;
                    self.enter(n)
                },
            },
        };
        a
    }

    /// Whether the job is over, with success or failure.
    pub fn is_finished(&self) -> (r: bool)
        ensures
            r == (self.phase == Phase::Done || self.phase == Phase::Failed),
    {
        self.phase == Phase::Done || self.phase == Phase::Failed
    }
}

/// The Started notification is only ever the first action of a job.
pub proof fn lemma_started_only_first(job: Job, e: Event, a: Action)
    requires
        expected_action(job, e, a),
        a matches Action::Notify(n) && n is Started,
    ensures
        job.phase == Phase::Idle,
{
}

/// The simulated progress runs its whole window: the job leaves it only after
/// reporting the full window, that is 100 percent.
pub proof fn lemma_progress_ends_full(job: Job, e: Event)
    requires
        phase_wf(job.phase),
        job.phase is Progressing,
        next_phase(job, e) == Phase::MakingDestDir,
    ensures
        job.phase == Phase::Progressing(TOTAL_MILLIS),
        percent_of(TOTAL_MILLIS as int, TOTAL_MILLIS as int) == 100,
{
}

/// The Completed notification goes out only once the relocated result is in
/// place: the staged output, removed after the copy, was removed.
pub proof fn lemma_completed_only_after_relocation(job: Job, e: Event, a: Action)
    requires
        expected_action(job, e, a),
        a matches Action::Notify(n) && n is Completed,
    ensures
        job.phase == Phase::RemovingOutput,
        e is Done,
{
}

/// The file operations of a successful job before the engine runs: make the
/// workspace, then stage the input.
pub open spec fn ops_before_engine(job: Job) -> Seq<OpSpec> {
    seq![
        OpSpec::CreateDirAll(job.input_dir@),
        OpSpec::CreateDirAll(job.output_dir@),
        OpSpec::Copy { from: job.input_path@, to: job.staged@ },
    ]
}

/// The file operations of a successful job after the engine has run: clear the
/// staged input, then move the result into the destination directory.
pub open spec fn ops_after_engine(job: Job) -> Seq<OpSpec> {
    seq![
        OpSpec::Remove(job.staged@),
        OpSpec::CreateDirAll(job.dest_dir@),
        OpSpec::Copy { from: job.generated@, to: job.final_path@ },
        OpSpec::Remove(job.generated@),
    ]
}

/// On the way to success a job hands out, in this order: Started, the
/// operations before the engine, the engine's run, the operations after it
/// (with the progress reports between the first and the second), Completed
/// with the final path, and its end with that path.
pub proof fn lemma_success_path_actions(job: Job, a: Action)
    requires
        job.named,
        !stages_in_place(job),
        expected_action(job, Event::Done, a),
    ensures
        job.phase == Phase::Idle ==> (a matches Action::Notify(n) && n is Started),
        job.phase == Phase::Announcing ==> is_file_op(a, ops_before_engine(job)[0]),
        job.phase == Phase::MakingInputDir ==> is_file_op(a, ops_before_engine(job)[1]),
        job.phase == Phase::MakingOutputDir ==> is_file_op(a, ops_before_engine(job)[2]),
        job.phase == Phase::Staging ==> a is RunEngine,
        job.phase == Phase::Running ==> is_file_op(a, ops_after_engine(job)[0]),
        job.phase == Phase::Progressing(TOTAL_MILLIS) ==> is_file_op(a, ops_after_engine(job)[1]),
        job.phase == Phase::MakingDestDir ==> is_file_op(a, ops_after_engine(job)[2]),
        job.phase == Phase::Copying ==> is_file_op(a, ops_after_engine(job)[3]),
        job.phase == Phase::RemovingOutput ==> (a matches Action::Notify(Notification::Completed { file_path, .. })
            && file_path@ == job.final_path@),
        job.phase == Phase::Completing ==> (a matches Action::Finish(Ok(p)) && p@ == job.final_path@),
{
}

/// A successful run of a job, on the filesystem model, with an engine that
/// writes `out` as its result: the staged copy and the engine's output are gone
/// afterwards, the result holds `out`, and the input is untouched. The job is
/// laid out as `Job::new` lays it out under the data directory `base`; the
/// destination is neither the engine's output directory nor the staging
/// directory, and holds no file at the input's own path.
pub proof fn lemma_successful_run(job: Job, base: Seq<char>, fs: FsState, out: Seq<u8>)
    requires
        job.named,
        file_name_of(job.input_path@) is Some,
        job.input_dir@ == input_dir_of(base),
        job.output_dir@ == output_dir_of(base),
        job.staged@ == join_of(job.input_dir@, file_name_of(job.input_path@)->Some_0),
        job.generated@ == join_of(job.output_dir@, file_name_of(job.input_path@)->Some_0),
        !stages_in_place(job),
        job.input_path@ != job.generated@,
        job.final_path@ != job.generated@,
        job.final_path@ != job.staged@,
        job.final_path@ != job.input_path@,
        fs.files.contains_key(job.input_path@),
    ensures
        ({
            let (staged_fs, ok1) = run_ops(fs, ops_before_engine(job));
            let ran = FsState { files: staged_fs.files.insert(job.generated@, out), dirs: staged_fs.dirs };
            let (end, ok2) = run_ops(ran, ops_after_engine(job));
            &&& ok1 && ok2
            &&& staged_fs.files[job.staged@] == fs.files[job.input_path@]
            &&& end.files.contains_key(job.final_path@) && end.files[job.final_path@] == out
            &&& !end.files.contains_key(job.staged@)
            &&& !end.files.contains_key(job.generated@)
            &&& end.files.contains_key(job.input_path@)
            &&& end.files[job.input_path@] == fs.files[job.input_path@]
        }),
{
    let name = file_name_of(job.input_path@)->Some_0;
    lemma_staged_differs_from_generated(base, name);
    let input = job.input_path@;
    let staged = job.staged@;
    let generated = job.generated@;
    let fin = job.final_path@;
    let before = ops_before_engine(job);
    let b1 = FsState { files: fs.files, dirs: fs.dirs.insert(job.input_dir@) };
    let b2 = FsState { files: fs.files, dirs: b1.dirs.insert(job.output_dir@) };
    let b3 = FsState { files: fs.files.insert(staged, fs.files[input]), dirs: b2.dirs };
    assert(before.drop_first() =~= seq![before[1], before[2]]);
    assert(before.drop_first().drop_first() =~= seq![before[2]]);
    assert(before.drop_first().drop_first().drop_first() =~= Seq::<OpSpec>::empty());
    assert(run_ops(b2, before.drop_first().drop_first()) == run_ops(b3, before.drop_first().drop_first().drop_first()));
    assert(run_ops(b1, before.drop_first()) == run_ops(b2, before.drop_first().drop_first()));
    assert(run_ops(fs, before) == (b3, true));
    let ran = FsState { files: b3.files.insert(generated, out), dirs: b3.dirs };
    let after = ops_after_engine(job);
    let a1 = FsState { files: ran.files.remove(staged), dirs: ran.dirs };
    let a2 = FsState { files: a1.files, dirs: a1.dirs.insert(job.dest_dir@) };
    let a3 = FsState { files: a2.files.insert(fin, out), dirs: a2.dirs };
    let a4 = FsState { files: a3.files.remove(generated), dirs: a3.dirs };
    assert(ran.files.contains_key(staged));
    assert(a2.files.contains_key(generated) && a2.files[generated] == out);
    assert(a3.files.contains_key(generated));
    assert(after.drop_first() =~= seq![after[1], after[2], after[3]]);
    assert(after.drop_first().drop_first() =~= seq![after[2], after[3]]);
    assert(after.drop_first().drop_first().drop_first() =~= seq![after[3]]);
    assert(after.drop_first().drop_first().drop_first().drop_first() =~= Seq::<OpSpec>::empty());
    let last = after.drop_first().drop_first().drop_first();
    assert(apply_op(a3, last[0]) == Some(a4));
    assert(run_ops(a4, last.drop_first()) == (a4, true));
    assert(run_ops(a3, last) == (a4, true));
    assert(run_ops(a2, after.drop_first().drop_first()) == (a4, true));
    assert(run_ops(a1, after.drop_first()) == (a4, true));
    assert(run_ops(ran, after) == (a4, true));
}

/// The staged copy and the engine's output never share a path: the staging
/// directory's name is one character shorter than the output directory's.
proof fn lemma_staged_differs_from_generated(base: Seq<char>, name: Seq<char>)
    ensures
        join_of(input_dir_of(base), name) != join_of(output_dir_of(base), name),
{
    reveal_strlit("input_text");
    reveal_strlit("output_text");
    let i = input_dir_of(base);
    let o = output_dir_of(base);
    assert(i.len() > 0 && i.last() == 't');
    assert(o.len() > 0 && o.last() == 't');
    assert(o.len() == i.len() + 1);
    assert(join_of(i, name).len() != join_of(o, name).len());
}

} // verus!

use doc_anonymisation::fileops::FileOp;
use doc_anonymisation::pipeline::{Action, Event, Job, JobError, Phase, Step};
use doc_anonymisation::policy::{validate, Verdict};
use doc_anonymisation::progress::Notification;
use std::collections::{HashMap, HashSet};

/// A filesystem held in memory, on which the operations of the library are performed.
#[derive(Default, Debug, Clone, PartialEq)]
struct MemFs {
    files: HashMap<String, Vec<u8>>,
    dirs: HashSet<String>,
}

fn parent(p: &str) -> &str {
    match p.rfind('/') {
        Some(i) => &p[..i],
        None => "",
    }
}

impl MemFs {
    fn dir_exists(&self, d: &str) -> bool {
        d.is_empty() || self.dirs.contains(d)
    }

    fn apply(&mut self, op: &FileOp) -> Result<(), String> {
        match op {
            FileOp::CreateDirAll(d) => {
                let mut cur = String::new();
                for (i, part) in d.split('/').enumerate() {
                    if i > 0 {
                        cur.push('/');
                    }
                    cur.push_str(part);
                    if !part.is_empty() {
                        self.dirs.insert(cur.clone());
                    }
                }
                Ok(())
            }
            FileOp::Copy { from, to } => {
                let bytes = self.files.get(from).cloned().ok_or(format!("{from}: no such file"))?;
                if !self.dir_exists(parent(to)) {
                    return Err(format!("{to}: no such directory"));
                }
                self.files.insert(to.clone(), bytes);
                Ok(())
            }
            FileOp::Remove(p) => self.files.remove(p).map(|_| ()).ok_or(format!("{p}: no such file")),
        }
    }

    fn apply_all(&mut self, ops: &[FileOp]) -> Result<(), String> {
        for op in ops {
            self.apply(op)?;
        }
        Ok(())
    }
}


/// What the stand-in engine does when it is run.
#[derive(Clone, Copy, PartialEq)]
enum EngineStub {
    /// Writes a marked copy of every input into the output directory.
    Writes,
    /// Runs and writes nothing.
    WritesNothing,
    /// Cannot be started.
    Missing,
}

/// Runs a job to its end against `fs`; returns its result, the notifications
/// sent, the commands run and the pauses taken.
fn run(job: &mut Job, fs: &mut MemFs, engine: EngineStub) -> (Result<String, JobError>, Vec<Notification>, Vec<Vec<String>>, u64) {
    let mut notes = Vec::new();
    let mut commands = Vec::new();
    let mut paused = 0u64;
    let mut event = Event::Done;
    for _ in 0..100 {
        match job.step(event) {
            Action::Notify(n) => {
                notes.push(n);
                event = Event::Done;
            }
            Action::NotifyThenPause(n, ms) => {
                notes.push(n);
                paused += ms;
                event = Event::Done;
            }
            Action::File(op) => {
                event = match fs.apply(&op) {
                    Ok(()) => Event::Done,
                    Err(e) => Event::Failed(e),
                };
            }
            Action::RunEngine(c) => {
                commands.push(c.args.clone());
                event = match engine {
                    EngineStub::Missing => Event::Failed(format!("{}: not found", c.program)),
                    EngineStub::WritesNothing => Event::Done,
                    EngineStub::Writes => {
                        let input_dir = format!("{}/", c.args[1]);
                        let inputs: Vec<(String, Vec<u8>)> = fs
                            .files
                            .iter()
                            .filter(|(p, _)| p.starts_with(&input_dir))
                            .map(|(p, b)| (p.clone(), b.clone()))
                            .collect();
                        for (p, mut b) in inputs {
                            let name = &p[input_dir.len()..];
                            b.extend_from_slice(b" [deidentified]");
                            fs.files.insert(format!("{}/{}", c.args[3], name), b);
                        }
                        Event::Done
                    }
                };
            }
            Action::Finish(r) => {
                assert!(job.is_finished());
                assert!(matches!(job.step(Event::Done), Action::Nothing));
                return (r, notes, commands, paused);
            }
            Action::Nothing => panic!("a running job asked for nothing"),
        }
    }
    panic!("the job did not finish");
}

fn setup() -> (Job, MemFs) {
    let mut fs = MemFs::default();
    fs.apply(&FileOp::CreateDirAll("/home/user".to_string())).unwrap();
    fs.files.insert("/home/user/report.txt".to_string(), vec![b'x'; 5 * 1024]);
    let job = Job::new("/home/user/report.txt", "/opt/app/res", "/data/app", "/home/user/Downloads", false);
    (job, fs)
}

#[test]
fn valid_text_file_goes_through_the_pipeline() {
    let (mut job, mut fs) = setup();
    assert_eq!(validate("/home/user/report.txt", Some(5 * 1024)), Ok(Verdict::Valid));

    let (result, notes, commands, paused) = run(&mut job, &mut fs, EngineStub::Writes);

    assert_eq!(result.unwrap(), "/home/user/Downloads/report.txt");
    assert_eq!(
        commands,
        vec![vec![
            "-i".to_string(),
            "/data/app/input_text".to_string(),
            "-o".to_string(),
            "/data/app/output_text".to_string(),
            "-f".to_string(),
            "/opt/app/res/philter/configs/philter_one2024.json".to_string(),
        ]]
    );
    let mut expected = vec![b'x'; 5 * 1024];
    expected.extend_from_slice(b" [deidentified]");
    assert_eq!(fs.files["/home/user/Downloads/report.txt"], expected);
    assert!(fs.files.contains_key("/home/user/report.txt"));
    assert!(!fs.files.contains_key("/data/app/input_text/report.txt"));
    assert!(!fs.files.contains_key("/data/app/output_text/report.txt"));
    assert!(fs.dir_exists("/data/app/input_text"));
    assert!(fs.dir_exists("/data/app/output_text"));

    assert!(matches!(&notes[0], Notification::Started { file_path, download_id: 0 } if file_path == "/home/user/report.txt"));
    let progress: Vec<u64> = notes[1..notes.len() - 1]
        .iter()
        .map(|n| match n {
            Notification::Progress { download_id: 0, progress } => *progress,
            _ => panic!("expected a progress notification"),
        })
        .collect();
    assert_eq!(progress, vec![0, 10, 20, 30, 40, 50, 60, 70, 80, 90, 100]);
    assert!(matches!(notes.last().unwrap(), Notification::Completed { download_id: 0, file_path } if file_path == "/home/user/Downloads/report.txt"));
    assert_eq!(paused, 110);
    assert_eq!(job.phase, Phase::Done);
}

#[test]
fn invalid_extension_never_starts_a_job() {
    let mut notes: Vec<Notification> = Vec::new();
    let mut fs = MemFs::default();
    fs.files.insert("/home/user/malware.exe".to_string(), vec![0; 10]);
    match validate("/home/user/malware.exe", Some(10)) {
        Ok(Verdict::Valid) => {
            let mut job = Job::new("/home/user/malware.exe", "/res", "/data", "/dl", false);
            notes = run(&mut job, &mut fs, EngineStub::Writes).1;
        }
        other => assert_eq!(other, Ok(Verdict::Invalid)),
    }
    assert!(notes.is_empty());
    assert_eq!(fs.files.len(), 1);
}

#[test]
fn missing_engine_output_fails_at_relocation() {
    let (mut job, mut fs) = setup();
    let (result, notes, _, _) = run(&mut job, &mut fs, EngineStub::WritesNothing);
    let err = result.unwrap_err();
    assert_eq!(err.step, Step::Relocate);
    assert!(err.detail.contains("/data/app/output_text/report.txt"));
    assert!(notes.iter().all(|n| !matches!(n, Notification::Completed { .. })));
    assert!(matches!(notes.last().unwrap(), Notification::Progress { progress: 100, .. }));
    assert!(!fs.files.contains_key("/home/user/Downloads/report.txt"));
    assert_eq!(job.phase, Phase::Failed);
}

#[test]
fn engine_that_cannot_start_is_reported_as_such() {
    let (mut job, mut fs) = setup();
    let (result, notes, commands, paused) = run(&mut job, &mut fs, EngineStub::Missing);
    let err = result.unwrap_err();
    assert_eq!(err.step, Step::Engine);
    assert_eq!(err.detail, "/opt/app/res/philter/deidpipe: not found");
    assert_eq!(commands.len(), 1);
    assert_eq!(notes.len(), 1);
    assert_eq!(paused, 0);
}

#[test]
fn missing_input_fails_at_staging() {
    let mut fs = MemFs::default();
    let mut job = Job::new("/home/user/gone.txt", "/res", "/data", "/dl", true);
    let (result, notes, commands, _) = run(&mut job, &mut fs, EngineStub::Writes);
    assert_eq!(result.unwrap_err().step, Step::Stage);
    assert_eq!(notes.len(), 1);
    assert!(commands.is_empty());
}

#[test]
fn input_without_a_file_name_fails_at_staging_after_started() {
    for input in ["/", "", "dir/.."] {
        let mut fs = MemFs::default();
        let mut job = Job::new(input, "/res", "/data", "/dl", false);
        assert!(!job.named);
        let (result, notes, commands, _) = run(&mut job, &mut fs, EngineStub::Writes);
        let err = result.unwrap_err();
        assert_eq!(err.step, Step::Stage);
        assert_eq!(err.detail, "the input path has no file name");
        assert_eq!(notes.len(), 1);
        assert!(matches!(&notes[0], Notification::Started { file_path, download_id: 0 } if file_path == input));
        assert!(commands.is_empty());
        assert!(fs.files.is_empty());
    }
}

#[test]
fn input_already_in_the_staging_directory_survives() {
    let mut fs = MemFs::default();
    fs.apply(&FileOp::CreateDirAll("/data/input_text".to_string())).unwrap();
    fs.files.insert("/data/input_text/own.txt".to_string(), b"mine".to_vec());
    let mut job = Job::new("/data/input_text/own.txt", "/res", "/data", "/dl", false);
    assert_eq!(job.staged, job.input_path);
    let (result, _, commands, _) = run(&mut job, &mut fs, EngineStub::Writes);
    assert_eq!(result.unwrap(), "/dl/own.txt");
    assert_eq!(commands.len(), 1);
    assert_eq!(fs.files["/data/input_text/own.txt"], b"mine".to_vec());
    assert_eq!(fs.files["/dl/own.txt"], b"mine [deidentified]".to_vec());
}

#[test]
fn new_job_lays_out_its_paths() {
    let job = Job::new("/in/a.pdf", "/res", "/data", "/dl", true);
    assert_eq!(job.phase, Phase::Idle);
    assert_eq!(job.staged, "/data/input_text/a.pdf");
    assert_eq!(job.generated, "/data/output_text/a.pdf");
    assert_eq!(job.final_path, "/dl/a.pdf");
    assert_eq!(job.engine.exe, "/res/philter/deidpipe.exe");
}

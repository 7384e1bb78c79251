use vstd::prelude::*;

verus! {

/// The pause between two progress reports, in milliseconds.
pub const STEP_MILLIS: u64 = 10;

/// The length of the simulated processing window, in milliseconds.
pub const TOTAL_MILLIS: u64 = 100;

/// The identifier under which the single job is reported.
pub const DOWNLOAD_ID: usize = 0;

/// The percentage reported once `counted` of `total` milliseconds have passed.
pub open spec fn percent_of(counted: int, total: int) -> int {
    100 * counted / total
}

/// The percentage reported once `counted` of `total` milliseconds have passed.
pub fn progress_percent(counted: u64, total: u64) -> (r: u64)
    requires
        0 < total,
        counted <= total,
        total <= u64::MAX / 100,
    ensures
        r == percent_of(counted as int, total as int),
        r <= 100,
        counted == total ==> r == 100,
{
    assert(100 * counted <= 100 * total) by (nonlinear_arith)
        requires counted <= total;
    assert(100 * (counted as int) / (total as int) <= 100) by (nonlinear_arith)
        requires counted <= total, 0 < total;
    assert(counted == total ==> 100 * (counted as int) / (total as int) == 100) by (nonlinear_arith)
        requires 0 < total;
    100 * counted / total
}

/// A notification sent to whoever follows the job.
#[derive(Debug)]
pub enum Notification {
    /// The job has begun on `file_path`.
    Started { file_path: String, download_id: usize },
    /// The job is `progress` percent through its processing window.
    Progress { download_id: usize, progress: u64 },
    /// The job has finished and its result is at `file_path`.
    Completed { download_id: usize, file_path: String },
}

/// The name of the event under which `n` is sent.
pub open spec fn event_name_of(n: Notification) -> Seq<char> {
    match n {
        Notification::Started { .. } => "file-processing-started"@,
        Notification::Progress { .. } => "file-processing-progress"@,
        Notification::Completed { .. } => "file-processing-completed"@,
    }
}

impl Notification {
    /// The name of the event under which this notification is sent.
    pub fn event_name(&self) -> (r: &'static str)
        ensures
            r@ == event_name_of(*self),
    {
        match self {
            Notification::Started { .. } => "file-processing-started",
            Notification::Progress { .. } => "file-processing-progress",
            Notification::Completed { .. } => "file-processing-completed",
        }
    }
}

} // verus!

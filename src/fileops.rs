use vstd::prelude::*;

verus! {

/// One filesystem operation that the library asks its caller to perform.
#[derive(Debug)]
pub enum FileOp {
    /// Create a directory and any missing ancestors; nothing happens if it exists.
    CreateDirAll(String),
    /// Copy the bytes of `from` to `to`, replacing what `to` held.
    Copy { from: String, to: String },
    /// Delete a file.
    Remove(String),
}

/// A filesystem operation over paths as character sequences.
pub enum OpSpec {
    CreateDirAll(Seq<char>),
    Copy { from: Seq<char>, to: Seq<char> },
    Remove(Seq<char>),
}

impl View for FileOp {
    type V = OpSpec;

    open spec fn view(&self) -> OpSpec {
        match self {
            FileOp::CreateDirAll(d) => OpSpec::CreateDirAll(d@),
            FileOp::Copy { from, to } => OpSpec::Copy { from: from@, to: to@ },
            FileOp::Remove(p) => OpSpec::Remove(p@),
        }
    }
}

/// The views of a list of operations.
pub open spec fn ops_view(ops: Seq<FileOp>) -> Seq<OpSpec> {
    ops.map_values(|o: FileOp| o@)
}

/// A model of the filesystem: the contents of each file, and the directories.
pub struct FsState {
    pub files: Map<Seq<char>, Seq<u8>>,
    pub dirs: Set<Seq<char>>,
}

/// The state after `op`, or `None` when `op` fails: copying or removing a file
/// that does not exist. (Failures that the model does not hold, such as a
/// permission refused, are reported to the job as they come.)
pub open spec fn apply_op(fs: FsState, op: OpSpec) -> Option<FsState> {
    match op {
        OpSpec::CreateDirAll(d) => Some(FsState { files: fs.files, dirs: fs.dirs.insert(d) }),
        OpSpec::Copy { from, to } => if fs.files.contains_key(from) {
            Some(FsState { files: fs.files.insert(to, fs.files[from]), dirs: fs.dirs })
        } else {
            None
        },
        OpSpec::Remove(p) => if fs.files.contains_key(p) {
            Some(FsState { files: fs.files.remove(p), dirs: fs.dirs })
        } else {
            None
        },
    }
}

/// Performs `ops` in order, stopping at the first that fails. The result is the
/// state reached and whether every operation succeeded.
pub open spec fn run_ops(fs: FsState, ops: Seq<OpSpec>) -> (FsState, bool)
    decreases ops.len(),
{
    if ops.len() == 0 {
        (fs, true)
    } else {
        match apply_op(fs, ops[0]) {
            Some(next) => run_ops(next, ops.drop_first()),
            None => (fs, false),
        }
    }
}

} // verus!

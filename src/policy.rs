use vstd::prelude::*;
use crate::paths::{extension, extension_of};

verus! {

/// Largest accepted input size in bytes (10 MiB).
pub const MAX_FILE_SIZE: u64 = 10 * 1024 * 1024;

/// The outcome of checking an input file against the policy.
#[derive(PartialEq, Eq, Structural, Clone, Copy, Debug)]
pub enum Verdict {
    Valid,
    Invalid,
}

/// Why a verdict could not be reached.
#[derive(PartialEq, Eq, Structural, Clone, Copy, Debug)]
pub enum CheckError {
    /// The file has an accepted extension but its size could not be read
    /// (most often: it does not exist).
    MetadataUnavailable,
}

/// The accepted extensions: `txt` and `pdf`.
pub open spec fn allowed_extension(e: Seq<char>) -> bool {
    e == seq!['t', 'x', 't'] || e == seq!['p', 'd', 'f']
}

/// The verdict on a file at `path` whose size is `size` bytes.
pub open spec fn verdict_of(path: Seq<char>, size: u64) -> Verdict {
    if allowed_extension(extension_of(path)) && size <= MAX_FILE_SIZE {
        Verdict::Valid
    } else {
        Verdict::Invalid
    }
}

/// The outcome of a check: `size` is the file's size, `None` when it could not be read.
pub open spec fn validation_of(path: Seq<char>, size: Option<u64>) -> Result<Verdict, CheckError> {
    if !allowed_extension(extension_of(path)) {
        Ok(Verdict::Invalid)
    } else {
        match size {
            Some(n) => Ok(verdict_of(path, n)),
            None => Err(CheckError::MetadataUnavailable),
        }
    }
}

/// The word by which a verdict is reported: `valid` or `invalid`.
pub open spec fn label_of(v: Verdict) -> Seq<char> {
    match v {
        Verdict::Valid => seq!['v', 'a', 'l', 'i', 'd'],
        Verdict::Invalid => seq!['i', 'n', 'v', 'a', 'l', 'i', 'd'],
    }
}

/// Whether `ext` is one of the accepted extensions.
pub fn is_allowed_extension(ext: &str) -> (r: bool)
    ensures
        r == allowed_extension(ext@),
{
    let n = ext.unicode_len();
    if n != 3 {
        return false;
    }
    let a = ext.get_char(0);
    let b = ext.get_char(1);
    let c = ext.get_char(2);
    let r = (a == 't' && b == 'x' && c == 't') || (a == 'p' && b == 'd' && c == 'f');
    proof {
        if r {
            if a == 't' {
                assert(ext@ =~= seq!['t', 'x', 't']);
            } else {
                assert(ext@ =~= seq!['p', 'd', 'f']);
            }
        } else {
            assert(ext@ != seq!['t', 'x', 't'] && ext@ != seq!['p', 'd', 'f']) by {
                assert(seq!['t', 'x', 't'][0] == 't' && seq!['t', 'x', 't'][1] == 'x'
                    && seq!['t', 'x', 't'][2] == 't');
                assert(seq!['p', 'd', 'f'][0] == 'p' && seq!['p', 'd', 'f'][1] == 'd'
                    && seq!['p', 'd', 'f'][2] == 'f');
            }
        }
    }
    r
}

/// Whether the verdict on `path` depends on the file's size. When it does not,
/// the file need not even exist: its extension already rules it out.
pub fn needs_size(path: &str) -> (r: bool)
    ensures
        r == allowed_extension(extension_of(path@)),
{
    let ext = extension(path);
    is_allowed_extension(ext.as_str())
}

/// The verdict on a file at `path` of `size` bytes: valid exactly when its
/// extension is accepted and it is at most `MAX_FILE_SIZE` bytes long.
pub fn verdict(path: &str, size: u64) -> (r: Verdict)
    ensures
        r == verdict_of(path@, size),
        !allowed_extension(extension_of(path@)) ==> r == Verdict::Invalid,
        allowed_extension(extension_of(path@)) ==> (r == Verdict::Valid <==> size <= MAX_FILE_SIZE),
{
    if needs_size(path) && size <= MAX_FILE_SIZE {
        Verdict::Valid
    } else {
        Verdict::Invalid
    }
}

/// Checks a file against the policy. `size` is the file's size in bytes, or
/// `None` when it could not be read. A path whose extension is not accepted is
/// `Invalid` whatever its size; for one whose extension is accepted a missing
/// size is an error, never a verdict.
pub fn validate(path: &str, size: Option<u64>) -> (r: Result<Verdict, CheckError>)
    ensures
        r == validation_of(path@, size),
{
    if !needs_size(path) {
        Ok(Verdict::Invalid)
    } else {
        match size {
            Some(n) => Ok(verdict(path, n)),
            None => Err(CheckError::MetadataUnavailable),
        }
    }
}

/// The word by which `v` is reported to callers.
pub fn verdict_label(v: Verdict) -> (r: String)
    ensures
        r@ == label_of(v),
{
    match v {
        Verdict::Valid => {
            proof { reveal_strlit("valid"); }
            String::from_str("valid")
        },
        Verdict::Invalid => {
            proof { reveal_strlit("invalid"); }
            String::from_str("invalid")
        },
    }
}

/// Checks a file against the policy and reports the verdict as `valid` or `invalid`.
pub fn check_file(path: &str, size: Option<u64>) -> (r: Result<String, CheckError>)
    ensures
        match validation_of(path@, size) {
            Ok(v) => r is Ok && r->Ok_0@ == label_of(v),
            Err(e) => r == Err::<String, CheckError>(e),
        },
{
    match validate(path, size) {
        Ok(v) => Ok(verdict_label(v)),
        Err(e) => Err(e),
    }
}

} // verus!

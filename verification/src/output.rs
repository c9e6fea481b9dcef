//! The captured result of a completed pipeline.
//!
//! An `Output` is an immutable snapshot of the terminal stage: its exit code
//! (absent when the process was ended by a signal rather than exiting), its
//! captured standard output and its captured standard error, byte for byte.

use vstd::prelude::*;

verus! {

/// What a completed pipeline's terminal stage left behind.
pub struct Output {
    code: Option<i32>,
    stdout: Vec<u8>,
    stderr: Vec<u8>,
}

impl Output {
    /// The exit code, absent on abnormal termination.
    pub closed spec fn code_spec(&self) -> Option<i32> {
        self.code
    }

    /// The captured standard output.
    pub closed spec fn stdout_spec(&self) -> Seq<u8> {
        self.stdout@
    }

    /// The captured standard error.
    pub closed spec fn stderr_spec(&self) -> Seq<u8> {
        self.stderr@
    }

    /// Two snapshots that a caller cannot tell apart: same exit code, same
    /// bytes on both streams.
    pub open spec fn agrees_with(self, other: Output) -> bool {
        &&& self.code_spec() == other.code_spec()
        &&& self.stdout_spec() == other.stdout_spec()
        &&& self.stderr_spec() == other.stderr_spec()
    }

    /// Wraps what was observed of the terminal stage.
    pub fn new(code: Option<i32>, stdout: Vec<u8>, stderr: Vec<u8>) -> (r: Output)
        ensures
            r.code_spec() == code,
            r.stdout_spec() == stdout@,
            r.stderr_spec() == stderr@,
    {
        Output { code, stdout, stderr }
    }

    /// The exit code of the terminal stage, absent when it was ended by a
    /// signal.
    pub fn status_code(&self) -> (r: Option<i32>)
        ensures
            r == self.code_spec(),
    {
        self.code
    }

    /// The bytes the terminal stage wrote to its standard output.
    pub fn stdout(&self) -> (r: &[u8])
        ensures
            r@ == self.stdout_spec(),
    {
        self.stdout.as_slice()
    }

    /// The bytes the terminal stage wrote to its standard error.
    pub fn stderr(&self) -> (r: &[u8])
        ensures
            r@ == self.stderr_spec(),
    {
        self.stderr.as_slice()
    }

    /// A snapshot a caller cannot tell from this one.
    pub fn duplicate(&self) -> (r: Output)
        ensures
            r.agrees_with(*self),
    {
        Output {
            code: self.code,
            stdout: duplicate_bytes(&self.stdout),
            stderr: duplicate_bytes(&self.stderr),
        }
    }
}

/// A byte-for-byte copy.
fn duplicate_bytes(v: &Vec<u8>) -> (r: Vec<u8>)
    ensures
        r@ == v@,
{
    let mut r: Vec<u8> = Vec::new();
    let mut k: usize = 0;
    while k < v.len()
        invariant
            k <= v.len(),
            r@ == v@.take(k as int),
        decreases v.len() - k,
    {
        r.push(v[k]);
        proof {
            assert(r@ =~= v@.take(k + 1));
        }
        k = k + 1;
    }
    proof {
        assert(v@.take(v@.len() as int) =~= v@);
    }
    r
}

} // verus!

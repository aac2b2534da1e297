//! Verdicts of self-checking test ROMs, which report their result as text
//! on the serial port.
use vstd::prelude::*;

verus! {

/// What a test ROM's serial output says so far.
#[derive(Debug, Clone, Copy, PartialEq, Eq, Structural)]
pub enum TestVerdict {
    /// Neither result has been printed yet.
    Running,
    /// The output contains `Passed`.
    Passed,
    /// The output contains `Failed` and not `Passed`.
    Failed,
}

/// `needle` occurs in `hay` at index `i`.
pub open spec fn occurs_at(hay: Seq<u8>, needle: Seq<u8>, i: int) -> bool {
    &&& 0 <= i
    &&& i + needle.len() <= hay.len()
    &&& hay.subrange(i, i + needle.len()) == needle
}

/// `needle` occurs somewhere in `hay`.
pub open spec fn occurs_in(hay: Seq<u8>, needle: Seq<u8>) -> bool {
    exists|i: int| occurs_at(hay, needle, i)
}

/// The ASCII text `Passed`.
pub open spec fn passed_text() -> Seq<u8> {
    seq![0x50u8, 0x61, 0x73, 0x73, 0x65, 0x64]
}

/// The ASCII text `Failed`.
pub open spec fn failed_text() -> Seq<u8> {
    seq![0x46u8, 0x61, 0x69, 0x6C, 0x65, 0x64]
}

/// The verdict of serial output `out`: `Passed` wins over `Failed`.
pub open spec fn verdict_of(out: Seq<u8>) -> TestVerdict {
    if occurs_in(out, passed_text()) {
        TestVerdict::Passed
    } else if occurs_in(out, failed_text()) {
        TestVerdict::Failed
    } else {
        TestVerdict::Running
    }
}

/// Whether `needle` occurs in `hay` at index `i`.
fn matches_at(hay: &[u8], needle: &[u8], i: usize) -> (b: bool)
    requires
        i + needle@.len() <= hay@.len(),
    ensures
        b == occurs_at(hay@, needle@, i as int),
{
    let n = hay.len();
    let mut k: usize = 0;
    while k < needle.len()
        invariant
            n == hay@.len(),
            k <= needle@.len(),
            i + needle@.len() <= hay@.len(),
            forall|j: int| 0 <= j < k ==> hay@[i + j] == needle@[j],
        decreases needle@.len() - k,
    {
        if hay[i + k] != needle[k] {
            assert(hay@.subrange(i as int, i + needle@.len())[k as int] != needle@[k as int]);
            return false;
        }
        k += 1;
    }
    assert(hay@.subrange(i as int, i + needle@.len()) =~= needle@);
    true
}

/// Whether the non-empty `needle` occurs anywhere in `hay`.
fn occurs(hay: &[u8], needle: &[u8]) -> (b: bool)
    requires
        needle@.len() > 0,
    ensures
        b == occurs_in(hay@, needle@),
{
    if needle.len() > hay.len() {
        return false;
    }
    let last = hay.len() - needle.len();
    let mut i: usize = 0;
    while i <= last
        invariant
            needle@.len() > 0,
            needle@.len() <= hay@.len(),
            last == hay@.len() - needle@.len(),
            last < hay.len(),
            i <= last + 1,
            forall|j: int| 0 <= j < i ==> !occurs_at(hay@, needle@, j),
        decreases last + 1 - i,
    {
        if matches_at(hay, needle, i) {
            return true;
        }
        i += 1;
    }
    false
}

/// The verdict of a test ROM's serial output so far: `Passed` once the text
/// `Passed` has appeared, else `Failed` once `Failed` has, else `Running`.
pub fn test_verdict(output: &[u8]) -> (v: TestVerdict)
    ensures
        v == verdict_of(output@),
{
    let passed: Vec<u8> = vec![0x50u8, 0x61, 0x73, 0x73, 0x65, 0x64];
    let failed: Vec<u8> = vec![0x46u8, 0x61, 0x69, 0x6C, 0x65, 0x64];
    assert(passed@ =~= passed_text());
    assert(failed@ =~= failed_text());
    if occurs(output, passed.as_slice()) {
        TestVerdict::Passed
    } else if occurs(output, failed.as_slice()) {
        TestVerdict::Failed
    } else {
        TestVerdict::Running
    }
}

} // verus!

//! Worker discovery: the fixed, ordered candidate lists and the
//! first-existing-match rule.
//!
//! The worker's entry point is looked for at a fixed ordered list of
//! paths relative to the working directory (a development layout first,
//! then the packaged layout); the interpreter that runs it is probed in
//! a fixed order too. Probing the file system and the interpreters is
//! outside work; the caller hands the probe results back here as one
//! flag per candidate, and the choice of the first available candidate
//! is verified.

use vstd::prelude::*;

verus! {

/// The index of the first available candidate: `Some(i)` exactly when
/// candidate `i` is available and no earlier one is; `None` exactly
/// when none is.
pub fn first_available(available: &Vec<bool>) -> (r: Option<usize>)
    ensures
        r matches Some(i) ==> i < available@.len() && available@[i as int] && (forall|j: int|
            0 <= j < i ==> !available@[j]),
        r is None ==> forall|j: int| 0 <= j < available@.len() ==> !available@[j],
{
    let mut i: usize = 0;
    while i < available.len()
        invariant
            i <= available@.len(),
            forall|j: int| 0 <= j < i ==> !available@[j],
        decreases available@.len() - i,
    {
        if available[i] {
            return Some(i);
        }
        i = i + 1;
    }
    None
}

/// The ordered candidate paths of the worker's entry point, checked
/// against the working directory: the development layout first, then
/// the packaged layout. None existing is `WorkerNotFound`.
pub fn worker_candidates() -> (r: Vec<String>)
    ensures
        r@.len() == 2,
        r@[0]@ == "backend/main.py"@,
        r@[1]@ == "resources/backend/main.py"@,
{
    let mut candidates: Vec<String> = Vec::new();
    candidates.push(String::from_str("backend/main.py"));
    candidates.push(String::from_str("resources/backend/main.py"));
    candidates
}

/// The ordered interpreter commands that may run the worker. None
/// answering a version probe is `SpawnFailed`.
pub fn interpreter_candidates() -> (r: Vec<String>)
    ensures
        r@.len() == 2,
        r@[0]@ == "python3"@,
        r@[1]@ == "python"@,
{
    let mut candidates: Vec<String> = Vec::new();
    candidates.push(String::from_str("python3"));
    candidates.push(String::from_str("python"));
    candidates
}

} // verus!

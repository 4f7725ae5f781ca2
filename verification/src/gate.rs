//! The thread-count gate: one word that callers may overwrite until the
//! executor is built, and that is frozen from then on.
//!
//! The word is `UNSET` until somebody asks for a thread count, holds the count
//! that was asked for last, and becomes `LOCKED` when the executor's builder
//! takes it.
//!
//! `ThreadCountGate` holds the word as a plain value: `set_thread_count` and
//! `get_thread_count` are the two steps that change it, and their contracts
//! say what each step answers and leaves. `SharedGate` carries the same word
//! in an atomic cell for the threads of a process: each of its calls is one
//! atomic operation on the cell, so the calls of all threads take effect one
//! after another, each on the word that the one before it left.
//! `crate::history` states what follows for whole runs of calls.

use std::sync::atomic::{AtomicUsize, Ordering};
use vstd::prelude::*;

verus! {

/// The word of a gate that nobody has configured.
pub const UNSET: usize = 0;

/// The word of a gate that has been frozen.
pub const LOCKED: usize = usize::MAX;

/// A thread count that callers may ask for: positive and below `LOCKED`.
pub open spec fn is_thread_count(n: usize) -> bool {
    n != UNSET && n != LOCKED
}

/// What a request for `n` threads does to a gate that holds `word`: the word
/// that replaces it, or `None` where `word` is `LOCKED` and stays.
pub open spec fn request_outcome(word: usize, n: usize) -> Option<usize> {
    if word == LOCKED {
        None
    } else {
        Some(n)
    }
}

/// The word that a gate holds once a request for `n` threads has met `word`.
pub open spec fn word_after_request(word: usize, n: usize) -> usize {
    match request_outcome(word, n) {
        Some(next) => next,
        None => word,
    }
}

/// The word that a gate holds once the executor's builder has taken `word`
/// out of it: `LOCKED`, whatever it held.
pub open spec fn word_after_freeze(word: usize) -> usize {
    LOCKED
}

/// The number of worker threads for an executor whose builder took the word
/// `previous` out of its gate, on a host with `detected` processing units.
pub open spec fn effective_count(previous: usize, detected: usize) -> usize {
    if previous == UNSET {
        detected
    } else {
        previous
    }
}

/// Decides one request for `n` threads against the word that it meets: the
/// word to store in its place, or `None` to leave a frozen gate alone.
pub fn request_transition(word: usize, n: usize) -> (next: Option<usize>)
    ensures
        next == request_outcome(word, n),
{
    if word == LOCKED {
        None
    } else {
        Some(n)
    }
}

/// The number of worker threads to build the executor with: the count that
/// was asked for last, or the host's processing units where nobody asked.
pub fn effective_thread_count(previous: usize, detected: usize) -> (count: usize)
    ensures
        count == effective_count(previous, detected),
{
    if previous == UNSET {
        detected
    } else {
        previous
    }
}

/// A gate, as a plain value. Its view is the word that it holds.
///
/// The field is private: the word changes through `set_thread_count` and
/// `get_thread_count` only, so a word that has become `LOCKED` is never
/// replaced by another.
pub struct ThreadCountGate {
    word: usize,
}

impl ThreadCountGate {
    /// The word that this gate holds.
    pub closed spec fn view(&self) -> usize {
        self.word
    }

    /// A gate that nobody has configured.
    pub fn new() -> (gate: ThreadCountGate)
        ensures
            gate@ == UNSET,
    {
        ThreadCountGate { word: UNSET }
    }

    /// The word that this gate holds.
    pub fn word(&self) -> (word: usize)
        ensures
            word == self@,
    {
        self.word
    }
}

/// Asks `gate` for `n` worker threads. Returns `true` where the request is
/// taken: `gate` then holds `n`. Returns `false` where `gate` is frozen: it
/// then stays as it is.
pub fn set_thread_count(gate: &mut ThreadCountGate, n: usize) -> (accepted: bool)
    requires
        is_thread_count(n),
    ensures
        accepted == (request_outcome(old(gate)@, n) is Some),
        final(gate)@ == word_after_request(old(gate)@, n),
{
    match request_transition(gate.word, n) {
        Some(next) => {
            gate.word = next;
            true
        },
        None => false,
    }
}

/// Freezes `gate` and returns the number of worker threads to build the
/// executor with, on a host with `detected` processing units: the count that
/// `gate` held, or `detected` where it held none. The executor's builder
/// calls this once.
pub fn get_thread_count(gate: &mut ThreadCountGate, detected: usize) -> (count: usize)
    ensures
        count == effective_count(old(gate)@, detected),
        final(gate)@ == word_after_freeze(old(gate)@),
{
    let previous: usize = gate.word;
    gate.word = LOCKED;
    effective_thread_count(previous, detected)
}

/// Calls `num_cpus::get`. Trusted: the count of processing units that the
/// host offers this process, which num_cpus documents to be at least 1.
#[verifier::external_body]
fn detected_cpus() -> (count: usize)
    ensures
        count >= 1,
{
    num_cpus::get()
}

/// A gate in an atomic cell, for all threads of a process.
///
/// Each call is one atomic operation on the cell and takes effect on the
/// word that the cell holds at that moment. Which word that is depends on
/// what the other threads have done, so the contracts here cannot name it:
/// each call hands the word that it met to the step of `ThreadCountGate`,
/// whose contract says what is answered for every word.
pub struct SharedGate {
    cell: AtomicUsize,
}

impl SharedGate {
    /// A shared gate that nobody has configured: it holds the word of a new
    /// `ThreadCountGate`.
    pub fn new() -> (shared: SharedGate) {
        let gate = ThreadCountGate::new();
        SharedGate { cell: AtomicUsize::new(gate.word) }
    }

    /// Calls `AtomicUsize::fetch_update` with `request_transition` as the
    /// update. Trusted: std applies the update to the stored word in one
    /// atomic step and hands back the word it was applied to, as `Ok` where
    /// the update gave a new word and as `Err` where it gave `None`.
    #[verifier::external_body]
    fn apply_request(&self, n: usize) -> (met: Result<usize, usize>)
        ensures
            met matches Ok(word) ==> request_outcome(word, n) is Some,
            met matches Err(word) ==> request_outcome(word, n) is None,
    {
        self.cell.fetch_update(Ordering::SeqCst, Ordering::SeqCst, |word| request_transition(word, n))
    }

    /// Asks for `n` worker threads, in one atomic step. The answer is that of
    /// `set_thread_count` on a gate that holds the word which the request
    /// met.
    pub fn request(&self, n: usize) -> (accepted: bool)
        requires
            is_thread_count(n),
    {
        let met: usize = match self.apply_request(n) {
            Ok(word) => word,
            Err(word) => word,
        };
        let mut gate = ThreadCountGate { word: met };
        set_thread_count(&mut gate, n)
    }

    /// Freezes the cell in one atomic step, which takes its word and leaves
    /// `LOCKED`, and returns the number of worker threads to build the
    /// executor with. The count is that of `get_thread_count` on a gate that
    /// holds the word which was taken, with the processing units that
    /// num_cpus finds.
    pub fn freeze(&self) -> (count: usize)
        ensures
            count != UNSET,
    {
        let detected: usize = detected_cpus();
        let previous: usize = self.cell.swap(LOCKED, Ordering::SeqCst);
        let mut gate = ThreadCountGate { word: previous };
        get_thread_count(&mut gate, detected)
    }
}

} // verus!

//! The page table: one atomically accessed page-state word per page slot.

use crate::page_state::{
    pack, word_status_byte, word_version, Acquire, PageState, PageStatus,
};
use std::sync::atomic::{AtomicU64, Ordering};
use vstd::prelude::*;

verus! {

/// Error of an access to the page table.
#[derive(Debug, Clone, Copy, PartialEq, Eq, Structural)]
pub enum VMCacheError {
    /// The slot id is not below the number of slots.
    OutOfRange,
}

/// How one attempt to lock a page slot exclusively ended.
#[derive(Debug, Clone, Copy, PartialEq, Eq, Structural)]
pub enum TryAcquire {
    /// The compare-and-swap installed the locking word over `observed`.
    /// `resident` is false where the page was evicted: the caller holds the
    /// lock and has to allocate the page before using it.
    Acquired { observed: PageState, resident: bool },
    /// The observed word belongs to another owner: nothing was written.
    Busy { observed: PageState },
    /// The slot no longer held `observed` when the swap ran: nothing was
    /// written, and `found` is the word that the swap met.
    Raced { observed: PageState, found: PageState },
}

impl TryAcquire {
    /// What holds of every attempt, whatever the slot held: a lock was
    /// installed only over a word that the acquire decision locks, with the
    /// residency that the decision gives, and a word that belongs to another
    /// owner was never written over.
    pub open spec fn follows_decision(self) -> bool {
        match self {
            TryAcquire::Acquired { observed, resident } => if resident {
                observed.spec_acquire() is Resident
            } else {
                observed.spec_acquire() is Missing
            },
            TryAcquire::Busy { observed } => observed.spec_acquire() == Acquire::Busy,
            TryAcquire::Raced { observed, found } => observed.spec_acquire() != Acquire::Busy,
        }
    }
}

impl TryAcquire {
    /// Whether an acquirer that is allowed `left` more attempts tries again
    /// after this one: it does while attempts are left and the slot was not
    /// acquired.
    pub open spec fn spec_retry(self, left: usize) -> bool {
        left > 0 && !(self is Acquired)
    }

    /// Decides whether to try again after this attempt, with `left` more
    /// attempts allowed.
    pub fn retry(self, left: usize) -> (again: bool)
        ensures
            again == self.spec_retry(left),
            again == (left > 0 && !(self is Acquired)),
    {
        match self {
            TryAcquire::Acquired { .. } => false,
            _ => left > 0,
        }
    }
}

/// The words that the cells of a new table of `n` slots are made from: each
/// is the word of version 0, evicted.
pub fn initial_words(n: usize) -> (words: Vec<u64>)
    ensures
        words@.len() == n,
        forall|id: int| 0 <= id < n ==> #[trigger] words@[id] == pack(0, 255),
        forall|id: int|
            0 <= id < n ==> word_version(#[trigger] words@[id]) == 0
                && PageStatus::spec_from_byte(word_status_byte(words@[id]))
                == PageStatus::Evicted,
{
    let init: u64 = PageState::evicted().word();
    let mut words: Vec<u64> = Vec::new();
    let mut i: usize = 0;
    while i < n
        invariant
            i <= n,
            words@.len() == i,
            init == pack(0, 255),
            forall|id: int| 0 <= id < i ==> #[trigger] words@[id] == init,
        decreases n - i,
    {
        words.push(init);
        i += 1;
    }
    words
}

/// A table of `S` page-state words, shared by all workers. Every change of a
/// word goes through a compare-and-swap against the word that was observed.
pub struct VMCache<const S: usize> {
    entries: Vec<AtomicU64>,
}

impl<const S: usize> VMCache<S> {
    /// The table always has its `S` slots.
    #[verifier::type_invariant]
    spec fn wf(self) -> bool {
        self.entries@.len() == S
    }

    /// A table of `S` slots. Its cells are made, one for one, from the words
    /// that `initial_words(S)` gives: version 0, evicted. What an atomic cell
    /// holds cannot be spoken of here, so the words are stated where they are
    /// plain values, on `initial_words`, and this function only turns each
    /// word into a cell.
    pub fn new() -> (cache: VMCache<S>)
        ensures
            cache.spec_len() == S,
    {
        let words = initial_words(S);
        let mut entries: Vec<AtomicU64> = Vec::new();
        let mut i: usize = 0;
        while i < S
            invariant
                i <= S,
                words@.len() == S,
                entries@.len() == i,
            decreases S - i,
        {
            entries.push(AtomicU64::new(words[i]));
            i += 1;
        }
        VMCache { entries }
    }

    /// The number of slots of the table.
    pub closed spec fn spec_len(&self) -> nat {
        self.entries@.len()
    }

    /// Reads the word of slot `id`.
    pub fn load(&self, id: usize) -> (r: Result<PageState, VMCacheError>)
        ensures
            r is Ok <==> id < S,
            id >= S ==> r == Err::<PageState, VMCacheError>(VMCacheError::OutOfRange),
    {
        proof {
            use_type_invariant(self);
        }
        if id >= S {
            return Err(VMCacheError::OutOfRange);
        }
        Ok(PageState::from(self.entries[id].load(Ordering::Acquire)))
    }

    /// Installs `new` in slot `id` if the slot still holds `current`, in one
    /// atomic step. `Ok(Ok(()))` says that the word was installed;
    /// `Ok(Err(found))` says that the slot held `found` instead and was left
    /// alone. This is the only way in which the table changes a word.
    pub fn compare_exchange(&self, id: usize, current: PageState, new: PageState) -> (r: Result<
        Result<(), PageState>,
        VMCacheError,
    >)
        ensures
            r is Ok <==> id < S,
            id >= S ==> r == Err::<Result<(), PageState>, VMCacheError>(VMCacheError::OutOfRange),
    {
        proof {
            use_type_invariant(self);
        }
        if id >= S {
            return Err(VMCacheError::OutOfRange);
        }
        match self.entries[id].compare_exchange(
            current.word(),
            new.word(),
            Ordering::AcqRel,
            Ordering::Acquire,
        ) {
            Ok(_) => Ok(Ok(())),
            Err(found) => Ok(Err(PageState::from(found))),
        }
    }

    /// One attempt to lock slot `id` exclusively: observes the word, computes
    /// the locking word from it, and installs that with a compare-and-swap
    /// against the observed word. Nothing is written unless the swap
    /// succeeds, and the attempt is never repeated here.
    pub fn try_acquire(&self, id: usize) -> (r: Result<TryAcquire, VMCacheError>)
        ensures
            r is Ok <==> id < S,
            id >= S ==> r == Err::<TryAcquire, VMCacheError>(VMCacheError::OutOfRange),
            r matches Ok(step) ==> step.follows_decision(),
    {
        let observed = match self.load(id) {
            Ok(observed) => observed,
            Err(e) => {
                return Err(e);
            },
        };
        let (next, resident) = match observed.acquire() {
            Acquire::Resident { next } => (next, true),
            Acquire::Missing { next } => (next, false),
            Acquire::Busy => {
                return Ok(TryAcquire::Busy { observed });
            },
        };
        match self.compare_exchange(id, observed, next) {
            Ok(Ok(())) => Ok(TryAcquire::Acquired { observed, resident }),
            Ok(Err(found)) => Ok(TryAcquire::Raced { observed, found }),
            Err(e) => Err(e),
        }
    }

    /// Tries to lock slot `id` exclusively, at most `attempts` times. With no
    /// attempt allowed nothing is read or written and the result is `None`.
    /// Otherwise an attempt is made, and after each attempt `retry` decides
    /// whether another follows; the result is the last attempt that was
    /// made, which is the one that acquired the slot where one did.
    pub fn acquire(&self, id: usize, attempts: usize) -> (r: Result<
        Option<TryAcquire>,
        VMCacheError,
    >)
        ensures
            r is Ok <==> id < S,
            id >= S ==> r == Err::<Option<TryAcquire>, VMCacheError>(VMCacheError::OutOfRange),
            id < S && attempts == 0 ==> r == Ok::<Option<TryAcquire>, VMCacheError>(None),
            id < S && attempts > 0 ==> r matches Ok(Some(_)),
            r matches Ok(None) ==> attempts == 0,
            r matches Ok(Some(step)) ==> step.follows_decision(),
    {
        if id >= S {
            return Err(VMCacheError::OutOfRange);
        }
        if attempts == 0 {
            return Ok(None);
        }
        let mut left: usize = attempts - 1;
        let mut step = match self.try_acquire(id) {
            Ok(step) => step,
            Err(e) => {
                return Err(e);
            },
        };
        while step.retry(left)
            invariant
                id < S,
                left < attempts,
                step.follows_decision(),
            decreases left,
        {
            left -= 1;
            step = match self.try_acquire(id) {
                Ok(step) => step,
                Err(e) => {
                    return Err(e);
                },
            };
        }
        Ok(Some(step))
    }

    /// Number of page slots.
    pub fn len(&self) -> (n: usize)
        ensures
            n == S,
            n == self.spec_len(),
    {
        proof {
            use_type_invariant(self);
        }
        S
    }
}

} // verus!

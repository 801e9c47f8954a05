//! The versioned page-state word.
//!
//! A page-state word is 64 bits wide. Its low 56 bits hold a version counter
//! and its top byte holds the status tag of the page.

use vstd::prelude::*;
use vstd::std_specs::convert::FromSpecImpl;

verus! {

/// Number of distinct version values: versions are the integers below this.
pub const VERSION_LIMIT: u64 = 0x0100_0000_0000_0000;

/// Mask selecting the version bits of a word.
pub const VERSION_MASK: u64 = 0x00ff_ffff_ffff_ffff;

/// Bit position of the status byte inside a word.
pub const STATUS_SHIFT: u64 = 56;

/// Status byte of an exclusively locked page.
pub const STATUS_LOCKED: u8 = 253;

/// Status byte of a page queued for eviction.
pub const STATUS_MARKED: u8 = 254;

/// Status byte of a page that is not resident.
pub const STATUS_EVICTED: u8 = 255;

/// The status of one page slot.
#[derive(Debug, Clone, Copy, PartialEq, Eq, Structural)]
pub enum PageStatus {
    /// Resident and free to be locked.
    Unlocked,
    /// Locked by the given number of readers.
    LockedShared(u8),
    /// Locked exclusively.
    Locked,
    /// Queued for eviction, not yet reclaimed.
    Marked,
    /// Not resident.
    Evicted,
}

impl PageStatus {
    /// The tag byte that encodes this status.
    pub open spec fn spec_byte(self) -> u8 {
        match self {
            PageStatus::Unlocked => 0,
            PageStatus::Locked => 253,
            PageStatus::Marked => 254,
            PageStatus::Evicted => 255,
            PageStatus::LockedShared(n) => n,
        }
    }

    /// The status that a tag byte decodes to.
    pub open spec fn spec_from_byte(v: u8) -> PageStatus {
        if v == 0 {
            PageStatus::Unlocked
        } else if v == 253 {
            PageStatus::Locked
        } else if v == 254 {
            PageStatus::Marked
        } else if v == 255 {
            PageStatus::Evicted
        } else {
            PageStatus::LockedShared(v)
        }
    }

    /// A status is canonical when decoding its tag byte gives it back: a
    /// shared lock whose count collides with a reserved byte is not.
    pub open spec fn is_canonical(self) -> bool {
        self matches PageStatus::LockedShared(n) ==> n != 0 && n < 253
    }

    /// Encodes the status as its tag byte.
    pub fn byte(self) -> (b: u8)
        ensures
            b == self.spec_byte(),
    {
        match self {
            PageStatus::Unlocked => 0,
            PageStatus::Locked => STATUS_LOCKED,
            PageStatus::Marked => STATUS_MARKED,
            PageStatus::Evicted => STATUS_EVICTED,
            PageStatus::LockedShared(n) => n,
        }
    }

    /// Decodes a tag byte.
    pub fn from_byte(v: u8) -> (s: PageStatus)
        ensures
            s == PageStatus::spec_from_byte(v),
            s.is_canonical(),
            s.spec_byte() == v,
    {
        if v == 0 {
            PageStatus::Unlocked
        } else if v == STATUS_LOCKED {
            PageStatus::Locked
        } else if v == STATUS_MARKED {
            PageStatus::Marked
        } else if v == STATUS_EVICTED {
            PageStatus::Evicted
        } else {
            PageStatus::LockedShared(v)
        }
    }
}

impl From<u8> for PageStatus {
    fn from(v: u8) -> (s: PageStatus) {
        PageStatus::from_byte(v)
    }
}

impl FromSpecImpl<u8> for PageStatus {
    open spec fn obeys_from_spec() -> bool {
        true
    }

    open spec fn from_spec(v: u8) -> PageStatus {
        PageStatus::spec_from_byte(v)
    }
}

impl From<PageStatus> for u8 {
    fn from(s: PageStatus) -> (b: u8) {
        s.byte()
    }
}

impl FromSpecImpl<PageStatus> for u8 {
    open spec fn obeys_from_spec() -> bool {
        true
    }

    open spec fn from_spec(s: PageStatus) -> u8 {
        s.spec_byte()
    }
}

/// One page-state word: a version counter and a status, packed in 64 bits.
#[derive(Debug, Clone, Copy, PartialEq, Eq, Structural)]
pub struct PageState {
    word: u64,
}

/// The word that holds the given version and status byte.
pub open spec fn pack(version: u64, status: u8) -> int {
    status as int * 0x0100_0000_0000_0000 + version as int
}

/// The version field of a word.
pub open spec fn word_version(w: u64) -> u64 {
    (w as int % 0x0100_0000_0000_0000) as u64
}

/// The status byte of a word.
pub open spec fn word_status_byte(w: u64) -> u8 {
    (w as int / 0x0100_0000_0000_0000) as u8
}

impl PageState {
    /// The raw 64-bit word.
    pub closed spec fn spec_word(&self) -> u64 {
        self.word
    }

    /// The state whose raw word is `w`.
    pub closed spec fn spec_from_word(w: u64) -> PageState {
        PageState { word: w }
    }

    /// The version counter held in the word.
    pub open spec fn spec_version(&self) -> u64 {
        word_version(self.spec_word())
    }

    /// The status held in the word.
    pub open spec fn spec_status(&self) -> PageStatus {
        PageStatus::spec_from_byte(word_status_byte(self.spec_word()))
    }

    /// The all-zero word: version 0, unlocked.
    pub fn new() -> (s: PageState)
        ensures
            s.spec_word() == 0,
            s.spec_version() == 0,
            s.spec_status() == PageStatus::Unlocked,
    {
        PageState { word: 0 }
    }

    /// The word of a slot that was never used: version 0, evicted.
    pub fn evicted() -> (s: PageState)
        ensures
            s.spec_word() == pack(0, 255),
            s.spec_version() == 0,
            s.spec_status() == PageStatus::Evicted,
    {
        PageState { word: 0xff00_0000_0000_0000 }
    }

    /// The raw 64-bit word.
    #[verifier::when_used_as_spec(spec_word)]
    pub fn word(&self) -> (w: u64)
        ensures
            w == self.spec_word(),
    {
        self.word
    }

    /// The version counter.
    #[verifier::when_used_as_spec(spec_version)]
    pub fn version(&self) -> (v: u64)
        ensures
            v == self.spec_version(),
            v < VERSION_LIMIT,
    {
        let w = self.word;
        assert(w & 0x00ff_ffff_ffff_ffff == w % 0x0100_0000_0000_0000) by (bit_vector);
        w & VERSION_MASK
    }

    /// Replaces the version counter and keeps the status.
    pub fn set_version(&mut self, new_val: u64)
        requires
            new_val < VERSION_LIMIT,
        ensures
            final(self).spec_version() == new_val,
            final(self).spec_status() == old(self).spec_status(),
            final(self).spec_word() == pack(new_val, word_status_byte(old(self).spec_word())),
    {
        let w = self.word;
        let n = (w & !VERSION_MASK) | new_val;
        assert(n % 0x0100_0000_0000_0000 == new_val && n / 0x0100_0000_0000_0000 == w
            / 0x0100_0000_0000_0000 && n == (w / 0x0100_0000_0000_0000) * 0x0100_0000_0000_0000
            + new_val) by (bit_vector)
            requires
                n == (w & !0x00ff_ffff_ffff_ffffu64) | new_val,
                new_val < 0x0100_0000_0000_0000u64,
        ;
        self.word = n;
    }

    /// The status.
    #[verifier::when_used_as_spec(spec_status)]
    pub fn status(&self) -> (s: PageStatus)
        ensures
            s == self.spec_status(),
            s.is_canonical(),
    {
        let w = self.word;
        let b = (w >> STATUS_SHIFT) as u8;
        assert(b == (w / 0x0100_0000_0000_0000) as u8) by (bit_vector)
            requires
                b == (w >> 56u64) as u8,
        ;
        PageStatus::from_byte(b)
    }

    /// Replaces the status and keeps the version counter. The status is
    /// stored as its tag byte, so reading it back gives what that byte
    /// decodes to: the status itself whenever it is canonical.
    pub fn set_status(&mut self, new_val: PageStatus)
        ensures
            final(self).spec_version() == old(self).spec_version(),
            final(self).spec_status() == PageStatus::spec_from_byte(new_val.spec_byte()),
            new_val.is_canonical() ==> final(self).spec_status() == new_val,
            final(self).spec_word() == pack(old(self).spec_version(), new_val.spec_byte()),
    {
        let w = self.word;
        let b = new_val.byte();
        let n = (w & VERSION_MASK) | ((b as u64) << STATUS_SHIFT);
        assert(n % 0x0100_0000_0000_0000 == w % 0x0100_0000_0000_0000 && (n
            / 0x0100_0000_0000_0000) as u8 == b && n == (b as u64) * 0x0100_0000_0000_0000 + (w
            % 0x0100_0000_0000_0000)) by (bit_vector)
            requires
                n == (w & 0x00ff_ffff_ffff_ffffu64) | ((b as u64) << 56u64),
        ;
        self.word = n;
    }
}

/// What one attempt to lock a page exclusively decides from the word it
/// observed.
#[derive(Debug, Clone, Copy, PartialEq, Eq, Structural)]
pub enum Acquire {
    /// The page is resident, unlocked or marked: `next` is the word that
    /// locks it.
    Resident { next: PageState },
    /// The page is evicted: `next` is the word that locks it, and the caller
    /// has to allocate the page before using it.
    Missing { next: PageState },
    /// Another owner holds the page for now: observe again later.
    Busy,
}

impl PageState {
    /// The same version with the status replaced by `Locked`.
    pub open spec fn spec_locked(&self) -> int {
        pack(self.spec_version(), 253)
    }

    /// The decision of one exclusive acquire attempt on this word.
    pub open spec fn spec_acquire(&self) -> Acquire {
        match self.spec_status() {
            PageStatus::Unlocked | PageStatus::Marked => Acquire::Resident {
                next: PageState::spec_from_word(self.spec_locked() as u64),
            },
            PageStatus::Evicted => Acquire::Missing {
                next: PageState::spec_from_word(self.spec_locked() as u64),
            },
            _ => Acquire::Busy,
        }
    }

    /// Computes the candidate next word of an exclusive acquire from the word
    /// that was observed. The candidate must be installed by a
    /// compare-and-swap against the observed word, never stored blindly.
    pub fn acquire(&self) -> (a: Acquire)
        ensures
            a == self.spec_acquire(),
            a matches Acquire::Resident { next } ==> next.spec_status() == PageStatus::Locked
                && next.spec_version() == self.spec_version() && (self.spec_status()
                == PageStatus::Unlocked || self.spec_status() == PageStatus::Marked),
            a matches Acquire::Missing { next } ==> next.spec_status() == PageStatus::Locked
                && next.spec_version() == self.spec_version() && self.spec_status()
                == PageStatus::Evicted,
            a == Acquire::Busy <==> (self.spec_status() == PageStatus::Locked
                || self.spec_status() is LockedShared),
    {
        match self.status() {
            PageStatus::Unlocked | PageStatus::Marked => {
                let mut next = *self;
                next.set_status(PageStatus::Locked);
                Acquire::Resident { next }
            },
            PageStatus::Evicted => {
                let mut next = *self;
                next.set_status(PageStatus::Locked);
                Acquire::Missing { next }
            },
            _ => Acquire::Busy,
        }
    }
}

/// Model of one atomic compare-and-swap on a cell: the cell's value after the
/// step, and whether the swap took place.
pub open spec fn compare_exchange(cell: u64, current: u64, new: u64) -> (u64, bool) {
    if cell == current {
        (new, true)
    } else {
        (cell, false)
    }
}

/// Decoding a word into version and status and encoding the two again gives
/// exactly the word back.
pub proof fn lemma_word_round_trip(w: u64)
    ensures
        pack(word_version(w), PageStatus::spec_from_byte(word_status_byte(w)).spec_byte()) == w,
        word_version(w) < VERSION_LIMIT,
{
}

/// Encoding a version below the limit together with a status byte and
/// decoding the word gives both back.
pub proof fn lemma_fields_round_trip(version: u64, status: u8)
    requires
        version < VERSION_LIMIT,
    ensures
        0 <= pack(version, status) <= u64::MAX,
        word_version(pack(version, status) as u64) == version,
        word_status_byte(pack(version, status) as u64) == status,
{
}

/// A word holds exactly the versions below the limit. Storing such a version
/// beside a status byte gives a word from which both read back unchanged. No
/// state has a version at or above the limit, so there is no state for
/// `set_version` to produce from such a value: it takes none.
pub proof fn lemma_version_domain(s: PageState, v: u64)
    ensures
        v < VERSION_LIMIT ==> ({
            let w = pack(v, word_status_byte(s.spec_word()));
            &&& 0 <= w <= u64::MAX
            &&& word_version(w as u64) == v
            &&& word_status_byte(w as u64) == word_status_byte(s.spec_word())
        }),
        v >= VERSION_LIMIT ==> forall|t: PageState| #[trigger] t.spec_version() != v,
{
    lemma_fields_round_trip((v % VERSION_LIMIT) as u64, word_status_byte(s.spec_word()));
}

/// Converting a state to its raw word and back, or a raw word to a state and
/// back, changes nothing.
pub proof fn lemma_raw_round_trip(s: PageState, w: u64)
    ensures
        PageState::spec_from_word(s.spec_word()) == s,
        PageState::spec_from_word(w).spec_word() == w,
{
}

/// The four reserved bytes decode to the four plain statuses, every other
/// byte decodes to a shared lock with that count, and each decoded status
/// encodes to the byte it came from.
pub proof fn lemma_status_coverage(b: u8)
    ensures
        PageStatus::spec_from_byte(0) == PageStatus::Unlocked,
        PageStatus::spec_from_byte(253) == PageStatus::Locked,
        PageStatus::spec_from_byte(254) == PageStatus::Marked,
        PageStatus::spec_from_byte(255) == PageStatus::Evicted,
        b != 0 && b != 253 && b != 254 && b != 255 ==> PageStatus::spec_from_byte(b)
            == PageStatus::LockedShared(b),
        PageStatus::LockedShared(b).spec_byte() == b,
        PageStatus::spec_from_byte(b).spec_byte() == b,
{
}

/// A status that is canonical survives encoding and decoding.
pub proof fn lemma_canonical_status_round_trip(s: PageStatus)
    requires
        s.is_canonical(),
    ensures
        PageStatus::spec_from_byte(s.spec_byte()) == s,
{
}

impl Acquire {
    /// The word that the decision wants installed, where it wants one.
    pub open spec fn spec_next(self) -> Option<PageState> {
        match self {
            Acquire::Resident { next } => Some(next),
            Acquire::Missing { next } => Some(next),
            Acquire::Busy => None,
        }
    }
}

/// Two acquirers that observed the same word of a page that can be locked,
/// an evicted one for instance, and race to lock it with a compare-and-swap
/// each: whichever step runs first wins, the other one fails, finds the page
/// locked, and leaves the winner's word in place.
pub proof fn lemma_racing_acquire_has_one_winner(observed: PageState)
    requires
        observed.spec_acquire() != Acquire::Busy,
    ensures
        observed.spec_status() == PageStatus::Evicted ==> observed.spec_acquire() is Missing,
        observed.spec_acquire().spec_next() matches Some(next) && ({
            let first = compare_exchange(
                observed.spec_word(),
                observed.spec_word(),
                next.spec_word(),
            );
            let second = compare_exchange(first.0, observed.spec_word(), next.spec_word());
            &&& first.1
            &&& !second.1
            &&& first.0 == next.spec_word()
            &&& second.0 == next.spec_word()
            &&& PageState::spec_from_word(second.0).spec_status() == PageStatus::Locked
            &&& PageState::spec_from_word(second.0).spec_acquire() == Acquire::Busy
        }),
{
    lemma_fields_round_trip(observed.spec_version(), 253);
}

impl From<u64> for PageState {
    fn from(v: u64) -> (s: PageState)
        ensures
            s.spec_word() == v,
            s == PageState::spec_from_word(v),
    {
        PageState { word: v }
    }
}

impl FromSpecImpl<u64> for PageState {
    open spec fn obeys_from_spec() -> bool {
        true
    }

    open spec fn from_spec(v: u64) -> PageState {
        PageState::spec_from_word(v)
    }
}

impl From<PageState> for u64 {
    fn from(s: PageState) -> (w: u64) {
        s.word
    }
}

impl FromSpecImpl<PageState> for u64 {
    open spec fn obeys_from_spec() -> bool {
        true
    }

    open spec fn from_spec(s: PageState) -> u64 {
        s.spec_word()
    }
}

} // verus!

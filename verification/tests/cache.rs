use exmap::cache::{initial_words, TryAcquire, VMCache, VMCacheError};
use exmap::page_state::{PageState, PageStatus};

#[test]
fn new_table_has_every_slot_evicted_at_version_zero() {
    let cache = VMCache::<64>::new();
    assert_eq!(cache.len(), 64);
    for id in 0..64 {
        let s = cache.load(id).unwrap();
        assert_eq!(s.version(), 0);
        assert_eq!(s.status(), PageStatus::Evicted);
    }
}

#[test]
fn table_without_slots_refuses_every_id() {
    let cache = VMCache::<0>::new();
    assert_eq!(cache.len(), 0);
    assert_eq!(cache.load(0), Err(VMCacheError::OutOfRange));
}

#[test]
fn access_past_the_last_slot_is_reported() {
    let cache = VMCache::<8>::new();
    assert_eq!(cache.load(8), Err(VMCacheError::OutOfRange));
    assert_eq!(cache.load(usize::MAX), Err(VMCacheError::OutOfRange));
    assert_eq!(cache.try_acquire(8), Err(VMCacheError::OutOfRange));
    assert_eq!(cache.acquire(9, 3), Err(VMCacheError::OutOfRange));
    assert!(cache.load(7).is_ok());
}

#[test]
fn first_acquire_of_an_evicted_slot_wins_and_the_second_finds_it_locked() {
    let cache = VMCache::<4>::new();
    let first = cache.try_acquire(2).unwrap();
    assert_eq!(
        first,
        TryAcquire::Acquired { observed: PageState::evicted(), resident: false }
    );
    let locked = cache.load(2).unwrap();
    assert_eq!(locked.status(), PageStatus::Locked);
    assert_eq!(locked.version(), 0);
    let second = cache.try_acquire(2).unwrap();
    assert_eq!(second, TryAcquire::Busy { observed: locked });
    assert_eq!(cache.load(2).unwrap(), locked);
    assert_eq!(cache.load(1).unwrap(), PageState::evicted());
}

#[test]
fn bounded_acquire_makes_no_attempt_when_none_is_allowed() {
    let cache = VMCache::<4>::new();
    assert_eq!(cache.acquire(0, 0), Ok(None));
    assert_eq!(cache.load(0).unwrap(), PageState::evicted());
}

#[test]
fn bounded_acquire_locks_a_free_slot_and_gives_up_on_a_held_one() {
    let cache = VMCache::<4>::new();
    let got = cache.acquire(3, 5).unwrap();
    assert_eq!(
        got,
        Some(TryAcquire::Acquired { observed: PageState::evicted(), resident: false })
    );
    let again = cache.acquire(3, 5).unwrap();
    match again {
        Some(TryAcquire::Busy { observed }) => assert_eq!(observed.status(), PageStatus::Locked),
        other => panic!("unexpected outcome {:?}", other),
    }
}

#[test]
fn compare_exchange_installs_only_over_the_expected_word() {
    let cache = VMCache::<2>::new();
    let mut locked = PageState::evicted();
    locked.set_status(PageStatus::Locked);
    let mut unlocked = locked;
    unlocked.set_status(PageStatus::Unlocked);
    unlocked.set_version(1);

    assert_eq!(cache.compare_exchange(0, unlocked, locked), Ok(Err(PageState::evicted())));
    assert_eq!(cache.load(0).unwrap(), PageState::evicted());
    assert_eq!(cache.compare_exchange(0, PageState::evicted(), locked), Ok(Ok(())));
    assert_eq!(cache.load(0).unwrap(), locked);
    assert_eq!(cache.compare_exchange(0, locked, unlocked), Ok(Ok(())));
    assert_eq!(cache.load(0).unwrap().version(), 1);
    assert_eq!(cache.compare_exchange(2, locked, unlocked), Err(VMCacheError::OutOfRange));
}

#[test]
fn acquire_of_an_unlocked_slot_reports_a_resident_page() {
    let cache = VMCache::<1>::new();
    let mut unlocked = PageState::new();
    unlocked.set_version(3);
    assert_eq!(cache.compare_exchange(0, PageState::evicted(), unlocked), Ok(Ok(())));
    assert_eq!(
        cache.try_acquire(0),
        Ok(TryAcquire::Acquired { observed: unlocked, resident: true })
    );
    let now = cache.load(0).unwrap();
    assert_eq!(now.status(), PageStatus::Locked);
    assert_eq!(now.version(), 3);
}

#[test]
fn two_acquirers_of_one_observed_word_cannot_both_install() {
    let cache = VMCache::<1>::new();
    let observed = cache.load(0).unwrap();
    let mut locked = observed;
    locked.set_status(PageStatus::Locked);
    let first = cache.compare_exchange(0, observed, locked);
    let second = cache.compare_exchange(0, observed, locked);
    assert_eq!(first, Ok(Ok(())));
    assert_eq!(second, Ok(Err(locked)));
    assert_eq!(cache.load(0).unwrap(), locked);
}

#[test]
fn initial_words_are_all_version_zero_evicted() {
    assert!(initial_words(0).is_empty());
    let words = initial_words(5);
    assert_eq!(words, vec![0xff00_0000_0000_0000u64; 5]);
    for w in words {
        let s = PageState::from(w);
        assert_eq!(s.version(), 0);
        assert_eq!(s.status(), PageStatus::Evicted);
    }
}

#[test]
fn new_table_holds_the_initial_words() {
    let cache = VMCache::<16>::new();
    let words = initial_words(16);
    for (id, w) in words.iter().enumerate() {
        assert_eq!(cache.load(id).unwrap().word(), *w);
    }
    assert_eq!(cache.load(16), Err(VMCacheError::OutOfRange));
}

#[test]
fn retry_follows_while_attempts_are_left_and_nothing_was_acquired() {
    let observed = PageState::evicted();
    let mut locked = observed;
    locked.set_status(PageStatus::Locked);
    let acquired = TryAcquire::Acquired { observed, resident: false };
    let busy = TryAcquire::Busy { observed: locked };
    let raced = TryAcquire::Raced { observed, found: locked };
    assert!(!acquired.retry(0));
    assert!(!acquired.retry(3));
    assert!(!busy.retry(0));
    assert!(busy.retry(1));
    assert!(!raced.retry(0));
    assert!(raced.retry(usize::MAX));
}

#[test]
fn bounded_acquire_with_one_attempt_reports_that_attempt() {
    let cache = VMCache::<2>::new();
    assert_eq!(
        cache.acquire(1, 1),
        Ok(Some(TryAcquire::Acquired { observed: PageState::evicted(), resident: false }))
    );
    let locked = cache.load(1).unwrap();
    assert_eq!(cache.acquire(1, 1), Ok(Some(TryAcquire::Busy { observed: locked })));
    assert_eq!(cache.acquire(1, 0), Ok(None));
}

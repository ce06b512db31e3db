use vstd::prelude::*;
use std::cell::UnsafeCell;
use std::sync::atomic::{AtomicBool, Ordering};

verus! {

#[verifier::external_type_specification]
#[verifier::external_body]
#[verifier::reject_recursive_types(T)]
pub struct ExUnsafeCell<T: ?Sized>(UnsafeCell<T>);

/// Calls `std::cell::UnsafeCell::new`, which moves `value` into a fresh cell.
///
/// Nothing is claimed of the result: what a cell holds is invisible to the verifier, and a
/// name for it would need the cell's item type as a parameter.
#[verifier::external_body]
pub(crate) fn new_data_cell<T>(value: T) -> UnsafeCell<T> {
    UnsafeCell::new(value)
}

/// The flag value of a lock that some thread holds.
pub const LOCKED: bool = false;

/// The flag value of a lock that nobody holds.
pub const UNLOCKED: bool = true;

/// Whether a lock whose flag reads `flag` is held by some thread.
pub open spec fn flag_is_held(flag: bool) -> bool {
    flag == LOCKED
}

/// What the exclusive lock's protocol knows at one instant: the flag, and how many threads
/// hold the lock.
pub struct ExclusiveState {
    pub flag: bool,
    pub holders: usize,
}

/// The flag tells the truth about the holders, and there is at most one.
pub open spec fn exclusive_consistent(s: ExclusiveState) -> bool {
    &&& s.holders <= 1
    &&& (s.holders == 1 <==> flag_is_held(s.flag))
}

/// The state after a thread's exchange of `UNLOCKED` for `LOCKED` succeeded, which it does
/// only where the flag read `UNLOCKED`.
pub open spec fn after_acquire(s: ExclusiveState) -> ExclusiveState {
    ExclusiveState { flag: LOCKED, holders: (s.holders + 1) as usize }
}

/// The state after the holder stored `UNLOCKED`.
pub open spec fn after_release(s: ExclusiveState) -> ExclusiveState {
    ExclusiveState { flag: UNLOCKED, holders: (s.holders - 1) as usize }
}

/// Mutual exclusion of the spin lock: from a consistent state, an acquisition (possible only
/// where the flag reads `UNLOCKED`) and a release by the holder both lead to a consistent
/// state, so at no time do two threads hold the lock.
pub proof fn lemma_spin_lock_exclusive(s: ExclusiveState)
    requires
        exclusive_consistent(s),
    ensures
        s.flag == UNLOCKED ==> s.holders == 0 && exclusive_consistent(after_acquire(s))
            && after_acquire(s).holders == 1,
        s.holders == 1 ==> exclusive_consistent(after_release(s)) && after_release(s).holders
            == 0,
        s.holders <= 1,
{
}

/// The exchange that takes the lock: `UNLOCKED` for `LOCKED`, from a free lock to a held
/// one. It succeeds exactly where the flag reads `UNLOCKED`, i.e. where nobody holds the lock.
pub fn acquire_exchange() -> (r: (bool, bool))
    ensures
        r == (UNLOCKED, LOCKED),
        !flag_is_held(r.0),
        flag_is_held(r.1),
{
    (UNLOCKED, LOCKED)
}

/// The flag of a lock that nobody holds: a new lock starts with it, and the holder stores it
/// when it lets go.
pub fn free_flag() -> (f: bool)
    ensures
        f == UNLOCKED,
        !flag_is_held(f),
{
    UNLOCKED
}

/// Whether an acquisition took the lock, given the result of its exchange: exactly where the
/// exchange succeeded.
pub fn exchange_acquired(exchange: Result<bool, bool>) -> (b: bool)
    ensures
        b <==> exchange is Ok,
{
    exchange.is_ok()
}

/// Whether a thread that acquires and then releases leaves the flag as it found it: the
/// acquisition exchanges the free flag for the held one, and the release stores the free
/// flag again.
pub proof fn lemma_acquire_release_frees(s: ExclusiveState)
    requires
        exclusive_consistent(s),
        s.flag == UNLOCKED,
    ensures
        after_release(after_acquire(s)) == s,
{
}

/// A lock that spins while another thread holds it.
#[verifier::reject_recursive_types(T)]
pub struct SpinLock<T> {
    data: UnsafeCell<T>,
    locker: AtomicBool,
}

/// Proof that the current thread holds a `SpinLock`; `unlock` gives the lock back. Only an
/// acquisition of the lock makes one.
#[verifier::reject_recursive_types(T)]
pub struct SpinLockGuard<'a, T> {
    lock: &'a SpinLock<T>,
}

impl<T> SpinLock<T> {
    pub fn new(t: T) -> Self {
        Self { data: new_data_cell(t), locker: AtomicBool::new(free_flag()) }
    }

    /// Takes the lock if nobody holds it. The exchange is the strong one: it fails only
    /// where another thread holds the lock.
    pub fn try_lock<'a>(&'a self) -> (g: Option<SpinLockGuard<'a, T>>)
        ensures
            g matches Some(guard) ==> guard.spec_lock() == self,
    {
        let (current, new_flag) = acquire_exchange();
        let exchange = self.locker.compare_exchange(current, new_flag, Ordering::AcqRel, Ordering::Acquire);
        if exchange_acquired(exchange) {
            Some(SpinLockGuard { lock: self })
        } else {
            None
        }
    }

    /// One round of a blocking `lock`: the weak exchange of `UNLOCKED` for `LOCKED`, which
    /// may also fail spuriously. A blocking acquisition repeats it until it succeeds.
    pub fn lock_attempt<'a>(&'a self) -> (g: Option<SpinLockGuard<'a, T>>)
        ensures
            g matches Some(guard) ==> guard.spec_lock() == self,
    {
        let (current, new_flag) = acquire_exchange();
        let exchange = self.locker.compare_exchange_weak(current, new_flag, Ordering::AcqRel, Ordering::Acquire);
        if exchange_acquired(exchange) {
            Some(SpinLockGuard { lock: self })
        } else {
            None
        }
    }

    /// The cell that holds the protected value. Only the holder of the lock may reach into it.
    pub fn data_cell(&self) -> (c: &UnsafeCell<T>)
        ensures
            *c == self.cell(),
    {
        &self.data
    }

    /// The cell that holds the protected value.
    pub closed spec fn cell(&self) -> UnsafeCell<T> {
        self.data
    }
}

impl<'a, T> SpinLockGuard<'a, T> {
    pub closed spec fn spec_lock(&self) -> &'a SpinLock<T> {
        self.lock
    }

    /// The lock this guard holds.
    pub fn lock(&self) -> (l: &'a SpinLock<T>)
        ensures
            l == self.spec_lock(),
    {
        self.lock
    }

    /// Gives the lock back.
    pub fn unlock(self) {
        self.lock.locker.store(free_flag(), Ordering::Release);
    }
}

} // verus!

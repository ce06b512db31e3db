use vstd::prelude::*;
use std::cell::UnsafeCell;
use std::sync::atomic::{AtomicUsize, Ordering};
use crate::engine::spin::new_data_cell;

verus! {

/// The value of the reader count while a writer holds the lock.
pub const WRITER_ACTIVE: usize = usize::MAX;

/// What a blocking reader does after it read the reader count `readers`: while a writer is
/// active it keeps waiting (`None`); otherwise it tries to exchange `readers` for the count
/// that includes it.
pub open spec fn reader_admission_spec(readers: usize) -> Option<usize> {
    if readers == WRITER_ACTIVE {
        None
    } else {
        Some((readers + 1) as usize)
    }
}

/// What a non-blocking reader does after it read the reader count `readers`: it gives up
/// where a writer is active or where the count with it included would reach the writer's
/// mark; otherwise it tries to exchange `readers` for the count that includes it.
pub open spec fn try_reader_admission_spec(readers: usize) -> Option<usize> {
    if readers + 1 >= WRITER_ACTIVE {
        None
    } else {
        Some((readers + 1) as usize)
    }
}

/// The admission decision of a blocking reader, see `reader_admission_spec`.
pub fn reader_admission(readers: usize) -> (r: Option<usize>)
    ensures
        r == reader_admission_spec(readers),
        r is None <==> readers == WRITER_ACTIVE,
        r matches Some(n) ==> n == readers + 1,
{
    if readers == WRITER_ACTIVE {
        None
    } else {
        Some(readers + 1)
    }
}

/// The admission decision of a non-blocking reader, see `try_reader_admission_spec`.
pub fn try_reader_admission(readers: usize) -> (r: Option<usize>)
    ensures
        r == try_reader_admission_spec(readers),
        r is None <==> readers >= WRITER_ACTIVE - 1,
        r matches Some(n) ==> n == readers + 1 && n < WRITER_ACTIVE,
{
    if readers >= WRITER_ACTIVE - 1 {
        None
    } else {
        Some(readers + 1)
    }
}

/// The exchange a blocking reader makes on the reader count, after it read the number of
/// waiting writers and the count: none while a writer waits (waiting writers go first) or is
/// active; otherwise the count it read for the count that includes it.
pub open spec fn read_exchange_spec(writer_waiting: usize, readers: usize) -> Option<(usize, usize)> {
    if writer_waiting > 0 {
        None
    } else {
        match reader_admission_spec(readers) {
            Some(n) => Some((readers, n)),
            None => None,
        }
    }
}

/// The exchange a non-blocking reader makes, as `read_exchange_spec` but with the admission
/// rule of `try_reader_admission_spec`.
pub open spec fn try_read_exchange_spec(writer_waiting: usize, readers: usize) -> Option<(usize, usize)> {
    if writer_waiting > 0 {
        None
    } else {
        match try_reader_admission_spec(readers) {
            Some(n) => Some((readers, n)),
            None => None,
        }
    }
}

/// The exchange a non-blocking writer makes after it read the number of waiting writers:
/// none while another writer waits (those that block go first); otherwise `0` for
/// `WRITER_ACTIVE`, which succeeds only on a free lock.
pub open spec fn try_write_exchange_spec(writer_waiting: usize) -> Option<(usize, usize)> {
    if writer_waiting > 0 {
        None
    } else {
        Some((0usize, WRITER_ACTIVE))
    }
}

/// The decision of a blocking reader, see `read_exchange_spec`.
pub fn read_admission(writer_waiting: usize, readers: usize) -> (r: Option<(usize, usize)>)
    ensures
        r == read_exchange_spec(writer_waiting, readers),
        writer_waiting > 0 ==> r is None,
        writer_waiting == 0 && readers != WRITER_ACTIVE ==> r == Some((readers, (readers + 1) as usize)),
{
    if writer_waiting > 0 {
        return None;
    }
    match reader_admission(readers) {
        Some(n) => Some((readers, n)),
        None => None,
    }
}

/// The decision of a non-blocking reader, see `try_read_exchange_spec`.
pub fn try_read_admission(writer_waiting: usize, readers: usize) -> (r: Option<(usize, usize)>)
    ensures
        r == try_read_exchange_spec(writer_waiting, readers),
        r is Some <==> writer_waiting == 0 && readers + 1 < WRITER_ACTIVE,
        r matches Some((c, n)) ==> c == readers && n == readers + 1,
{
    if writer_waiting > 0 {
        return None;
    }
    match try_reader_admission(readers) {
        Some(n) => Some((readers, n)),
        None => None,
    }
}

/// The decision of a non-blocking writer, see `try_write_exchange_spec`.
pub fn try_write_admission(writer_waiting: usize) -> (r: Option<(usize, usize)>)
    ensures
        r == try_write_exchange_spec(writer_waiting),
        r is Some <==> writer_waiting == 0,
        r matches Some((c, n)) ==> c == 0 && n == WRITER_ACTIVE,
{
    if writer_waiting > 0 {
        None
    } else {
        Some((0, WRITER_ACTIVE))
    }
}

/// The exchange a blocking writer makes once it announced itself: `0` for `WRITER_ACTIVE`,
/// from a free lock to one the writer holds alone.
pub fn write_exchange() -> (r: (usize, usize))
    ensures
        r == (0usize, WRITER_ACTIVE),
{
    (0, WRITER_ACTIVE)
}

/// Waiting writers go ahead of new readers: while one waits, neither a blocking nor a
/// non-blocking reader makes an exchange, nor does a non-blocking writer; once none waits,
/// a reader beside other readers (and below the writer's mark) and a writer make theirs.
pub proof fn lemma_waiting_writers_go_first(writer_waiting: usize, readers: usize)
    ensures
        writer_waiting > 0 ==> {
            &&& read_exchange_spec(writer_waiting, readers) is None
            &&& try_read_exchange_spec(writer_waiting, readers) is None
            &&& try_write_exchange_spec(writer_waiting) is None
        },
        writer_waiting == 0 && readers + 1 < WRITER_ACTIVE ==> {
            &&& read_exchange_spec(writer_waiting, readers) == Some((readers, (readers + 1) as usize))
            &&& try_read_exchange_spec(writer_waiting, readers) == Some((readers, (readers + 1) as usize))
        },
        writer_waiting == 0 ==> try_write_exchange_spec(writer_waiting) == Some((0usize, WRITER_ACTIVE)),
{
}

/// A writer's exchange, where it succeeds, takes a free lock to one the writer holds alone;
/// a reader's exchange, where it succeeds, adds that reader to the readers and never
/// starts from a lock a writer holds.
pub proof fn lemma_exchanges_follow_the_model(s: SharedState, writer_waiting: usize)
    requires
        shared_consistent(s),
    ensures
        write_exchange_spec_succeeds(s) ==> !s.writer && s.readers == 0 && shared_consistent(after_writer_joins(s)),
        try_read_exchange_spec(writer_waiting, s.word) matches Some((c, n)) ==> c == s.word && !s.writer
            && shared_consistent(after_reader_joins(s, n)),
        read_exchange_spec(writer_waiting, s.word) matches Some((c, n)) ==> c == s.word && !s.writer,
{
}

/// Whether the writer's exchange of `0` for `WRITER_ACTIVE` succeeds on the word of `s`.
pub open spec fn write_exchange_spec_succeeds(s: SharedState) -> bool {
    s.word == 0
}

/// The reader count of a lock that nobody holds: a new lock starts with it, and a writer
/// stores it when it lets go.
pub fn free_word() -> (w: usize)
    ensures
        w == 0,
{
    0
}

/// The number of waiting writers of a new lock: none.
pub fn no_writer_waiting() -> (w: usize)
    ensures
        w == 0,
{
    0
}

/// What a reader subtracts from the count when it lets go: itself.
pub fn reader_leaves() -> (d: usize)
    ensures
        d == 1,
{
    1
}

/// What a blocking writer adds to the waiting count when it announces itself: itself.
pub fn waiting_writer_joins() -> (d: usize)
    ensures
        d == 1,
{
    1
}

/// What a blocking writer subtracts from the waiting count once it holds the lock: itself,
/// as much as it added when it announced itself.
pub fn waiting_writer_leaves() -> (d: usize)
    ensures
        d == 1,
{
    1
}

/// Whether an admission succeeded, given the result of its exchange: exactly where the
/// exchange succeeded.
pub fn exchange_succeeded(exchange: Result<usize, usize>) -> (b: bool)
    ensures
        b <==> exchange is Ok,
{
    exchange.is_ok()
}

/// What a blocking writer's round gives for the result of its exchange: whether it now holds
/// the lock, and whether it stops counting as waiting; both exactly where the exchange
/// succeeded. Otherwise it keeps waiting, and keeps holding new readers back.
pub fn write_round_outcome(exchange: Result<usize, usize>) -> (r: (bool, bool))
    ensures
        r.0 <==> exchange is Ok,
        r.1 <==> exchange is Ok,
{
    (exchange.is_ok(), exchange.is_ok())
}

/// A new lock is free: no holder, no waiting writer; its word is `free_word()`, which both
/// a reader and a writer may take. A reader leaving by `reader_leaves()` and a writer
/// storing `free_word()` give back what they took, so after the last holder has left a
/// writer gets in again.
pub proof fn lemma_fresh_and_released_locks_are_free(readers: usize)
    requires
        0 < readers < WRITER_ACTIVE,
    ensures
        shared_consistent(SharedState { word: 0, readers: 0, writer: false }),
        try_read_exchange_spec(0, 0) == Some((0usize, 1usize)),
        try_write_exchange_spec(0) == Some((0usize, WRITER_ACTIVE)),
        after_reader_leaves(SharedState { word: readers, readers, writer: false }).word == readers - 1,
        after_reader_leaves(SharedState { word: 1, readers: 1, writer: false }).word == 0,
        after_writer_leaves(SharedState { word: WRITER_ACTIVE, readers: 0, writer: true }).word == 0,
{
}

/// What the reader-writer lock's protocol knows at one instant: the reader count word, how
/// many readers hold the lock, and whether a writer holds it.
pub struct SharedState {
    pub word: usize,
    pub readers: usize,
    pub writer: bool,
}

/// The word tells the truth about the holders: `WRITER_ACTIVE` exactly while a writer holds
/// the lock, alone; otherwise the number of readers.
pub open spec fn shared_consistent(s: SharedState) -> bool {
    if s.writer {
        s.word == WRITER_ACTIVE && s.readers == 0
    } else {
        s.word == s.readers && s.readers < WRITER_ACTIVE
    }
}

/// The state after a reader's exchange of the count it read for `admitted` succeeded.
pub open spec fn after_reader_joins(s: SharedState, admitted: usize) -> SharedState {
    SharedState { word: admitted, readers: (s.readers + 1) as usize, writer: s.writer }
}

/// The state after a reader subtracted itself from the count.
pub open spec fn after_reader_leaves(s: SharedState) -> SharedState {
    SharedState { word: (s.word - 1) as usize, readers: (s.readers - 1) as usize, writer: s.writer }
}

/// The state after a writer's exchange of `0` for `WRITER_ACTIVE` succeeded, which it does
/// only where the word read `0`.
pub open spec fn after_writer_joins(s: SharedState) -> SharedState {
    SharedState { word: WRITER_ACTIVE, readers: s.readers, writer: true }
}

/// The state after the writer stored `0`.
pub open spec fn after_writer_leaves(s: SharedState) -> SharedState {
    SharedState { word: 0, readers: s.readers, writer: false }
}

/// While a writer holds the lock, no reader is admitted, blocking or not.
pub proof fn lemma_no_reader_beside_writer(s: SharedState)
    requires
        shared_consistent(s),
        s.writer,
    ensures
        reader_admission_spec(s.word) is None,
        try_reader_admission_spec(s.word) is None,
{
}

/// A writer is admitted only where nobody holds the lock, and then holds it alone.
pub proof fn lemma_writer_alone(s: SharedState)
    requires
        shared_consistent(s),
        s.word == 0,
    ensures
        !s.writer,
        s.readers == 0,
        shared_consistent(after_writer_joins(s)),
{
}

/// A non-blocking reader's admission keeps the word truthful.
pub proof fn lemma_try_read_consistent(s: SharedState)
    requires
        shared_consistent(s),
        try_reader_admission_spec(s.word) is Some,
    ensures
        !s.writer,
        shared_consistent(after_reader_joins(s, try_reader_admission_spec(s.word)->0)),
{
}

/// A blocking reader's admission keeps the word truthful, as long as the readers already
/// inside are fewer than `WRITER_ACTIVE - 1`: the next one would set the word to the
/// writer's mark.
pub proof fn lemma_read_consistent(s: SharedState)
    requires
        shared_consistent(s),
        reader_admission_spec(s.word) is Some,
        s.word < WRITER_ACTIVE - 1,
    ensures
        !s.writer,
        shared_consistent(after_reader_joins(s, reader_admission_spec(s.word)->0)),
{
}

/// A holder's release keeps the word truthful: a reader's subtraction, and the writer's
/// store of `0`.
pub proof fn lemma_release_consistent(s: SharedState)
    requires
        shared_consistent(s),
    ensures
        !s.writer && s.readers > 0 ==> shared_consistent(after_reader_leaves(s)),
        s.writer ==> shared_consistent(after_writer_leaves(s)) && after_writer_leaves(s).word == 0,
{
}

/// A reader that joins and then leaves restores the word it found.
pub proof fn lemma_join_leave_restores(s: SharedState)
    requires
        shared_consistent(s),
        reader_admission_spec(s.word) is Some,
    ensures
        after_reader_leaves(after_reader_joins(s, reader_admission_spec(s.word)->0)) == s,
{
}

/// A reader-writer lock that spins while it cannot be taken. Waiting writers have
/// precedence: while one waits, no new reader is admitted.
#[verifier::reject_recursive_types(T)]
pub struct SpinRwLock<T> {
    data: UnsafeCell<T>,
    readers: AtomicUsize,
    writer_waiting: AtomicUsize,
}

/// Proof that the current thread reads under a `SpinRwLock`; `release` gives it back. Only
/// a reader's admission makes one.
#[verifier::reject_recursive_types(T)]
pub struct SpinReadLockGuard<'a, T> {
    lock: &'a SpinRwLock<T>,
}

/// Proof that the current thread writes under a `SpinRwLock`; `release` gives it back. Only
/// a writer's admission makes one.
#[verifier::reject_recursive_types(T)]
pub struct SpinWriteLockGuard<'a, T> {
    lock: &'a SpinRwLock<T>,
}

impl<T> SpinRwLock<T> {
    pub fn new(t: T) -> Self {
        Self {
            data: new_data_cell(t),
            readers: AtomicUsize::new(free_word()),
            writer_waiting: AtomicUsize::new(no_writer_waiting()),
        }
    }

    /// One round of a blocking `read`: gives way while a writer waits or is active, and
    /// otherwise tries, with the weak exchange, to add itself to the reader count. A blocking
    /// read repeats it until it succeeds.
    pub fn read_attempt<'a>(&'a self) -> (g: Option<SpinReadLockGuard<'a, T>>)
        ensures
            g matches Some(guard) ==> guard.spec_lock() == self,
    {
        let writer_waiting: usize = self.writer_waiting.load(Ordering::Acquire);
        let readers: usize = self.readers.load(Ordering::Acquire);
        match read_admission(writer_waiting, readers) {
            None => None,
            Some((current, new_readers)) => {
                let exchange = self.readers.compare_exchange_weak(current, new_readers, Ordering::AcqRel, Ordering::Acquire);
                if exchange_succeeded(exchange) {
                    Some(SpinReadLockGuard { lock: self })
                } else {
                    None
                }
            },
        }
    }

    /// Reads under the lock if that is possible at once: not while a writer waits or is
    /// active, and not where the reader count would reach the writer's mark.
    pub fn try_read<'a>(&'a self) -> (g: Option<SpinReadLockGuard<'a, T>>)
        ensures
            g matches Some(guard) ==> guard.spec_lock() == self,
    {
        let writer_waiting: usize = self.writer_waiting.load(Ordering::Acquire);
        let readers: usize = self.readers.load(Ordering::Acquire);
        match try_read_admission(writer_waiting, readers) {
            None => None,
            Some((current, new_readers)) => {
                let exchange = self.readers.compare_exchange(current, new_readers, Ordering::AcqRel, Ordering::Acquire);
                if exchange_succeeded(exchange) {
                    Some(SpinReadLockGuard { lock: self })
                } else {
                    None
                }
            },
        }
    }

    /// The start of a blocking `write`: the writer announces that it waits, which holds new
    /// readers back.
    pub fn announce_writer(&self) {
        self.writer_waiting.fetch_add(waiting_writer_joins(), Ordering::AcqRel);
    }

    /// One round of a blocking `write`, after `announce_writer`: the weak exchange of `0`
    /// for `WRITER_ACTIVE`. On success the writer no longer counts as waiting. A blocking
    /// write repeats it until it succeeds.
    pub fn write_attempt<'a>(&'a self) -> (g: Option<SpinWriteLockGuard<'a, T>>)
        ensures
            g matches Some(guard) ==> guard.spec_lock() == self,
    {
        let (current, new_word) = write_exchange();
        let exchange = self.readers.compare_exchange_weak(current, new_word, Ordering::AcqRel, Ordering::Acquire);
        let (acquired, stops_waiting) = write_round_outcome(exchange);
        if stops_waiting {
            self.writer_waiting.fetch_sub(waiting_writer_leaves(), Ordering::AcqRel);
        }
        if acquired {
            Some(SpinWriteLockGuard { lock: self })
        } else {
            None
        }
    }

    /// Writes under the lock if that is possible at once: not while another writer waits
    /// (those that block have precedence), and only where nobody holds the lock.
    pub fn try_write<'a>(&'a self) -> (g: Option<SpinWriteLockGuard<'a, T>>)
        ensures
            g matches Some(guard) ==> guard.spec_lock() == self,
    {
        let writer_waiting: usize = self.writer_waiting.load(Ordering::Acquire);
        match try_write_admission(writer_waiting) {
            None => None,
            Some((current, new_word)) => {
                let exchange = self.readers.compare_exchange(current, new_word, Ordering::AcqRel, Ordering::Acquire);
                if exchange_succeeded(exchange) {
                    Some(SpinWriteLockGuard { lock: self })
                } else {
                    None
                }
            },
        }
    }

    /// The cell that holds the protected value. Only a holder of the lock may reach into it,
    /// and only the writer may change what it holds.
    pub fn data_cell(&self) -> (c: &UnsafeCell<T>)
        ensures
            *c == self.cell(),
    {
        &self.data
    }

    /// The cell that holds the protected value.
    pub closed spec fn cell(&self) -> UnsafeCell<T> {
        self.data
    }
}

impl<'a, T> SpinReadLockGuard<'a, T> {
    pub closed spec fn spec_lock(&self) -> &'a SpinRwLock<T> {
        self.lock
    }

    /// The lock this guard reads under.
    pub fn lock(&self) -> (l: &'a SpinRwLock<T>)
        ensures
            l == self.spec_lock(),
    {
        self.lock
    }

    /// Gives the lock back: the reader subtracts itself from the count.
    pub fn release(self) {
        self.lock.readers.fetch_sub(reader_leaves(), Ordering::AcqRel);
    }
}

impl<'a, T> SpinWriteLockGuard<'a, T> {
    pub closed spec fn spec_lock(&self) -> &'a SpinRwLock<T> {
        self.lock
    }

    /// The lock this guard writes under.
    pub fn lock(&self) -> (l: &'a SpinRwLock<T>)
        ensures
            l == self.spec_lock(),
    {
        self.lock
    }

    /// Gives the lock back: the writer stores `0`, which frees it.
    pub fn release(self) {
        self.lock.readers.store(free_word(), Ordering::Release);
    }
}

} // verus!

use graph_processing::engine::spin::{SpinLock, LOCKED, UNLOCKED};
use graph_processing::engine::spin_rw::{
    reader_admission, try_reader_admission, SpinRwLock, WRITER_ACTIVE,
};

#[test]
fn flag_values() {
    assert!(!LOCKED);
    assert!(UNLOCKED);
}

#[test]
fn try_lock_excludes_a_second_holder() {
    let lock = SpinLock::new(5u32);
    let g = lock.try_lock().unwrap();
    assert!(lock.try_lock().is_none());
    assert!(lock.lock_attempt().is_none());
    g.unlock();
    let g2 = lock.try_lock().unwrap();
    g2.unlock();
}

#[test]
fn lock_attempt_takes_a_free_lock() {
    let lock = SpinLock::new(());
    let mut got = None;
    for _ in 0..1000 {
        if let Some(g) = lock.lock_attempt() {
            got = Some(g);
            break;
        }
    }
    let g = got.unwrap();
    assert!(lock.try_lock().is_none());
    g.unlock();
    assert!(lock.try_lock().is_some());
}

#[test]
fn reader_admission_values() {
    assert_eq!(reader_admission(0), Some(1));
    assert_eq!(reader_admission(41), Some(42));
    assert_eq!(reader_admission(WRITER_ACTIVE), None);
    assert_eq!(reader_admission(WRITER_ACTIVE - 1), Some(WRITER_ACTIVE));
}

#[test]
fn try_reader_admission_values() {
    assert_eq!(try_reader_admission(0), Some(1));
    assert_eq!(try_reader_admission(7), Some(8));
    assert_eq!(try_reader_admission(WRITER_ACTIVE), None);
    assert_eq!(try_reader_admission(WRITER_ACTIVE - 1), None);
    assert_eq!(try_reader_admission(WRITER_ACTIVE - 2), Some(WRITER_ACTIVE - 1));
}

#[test]
fn readers_share_and_keep_writers_out() {
    let lock = SpinRwLock::new(vec![1u8]);
    let r1 = lock.try_read().unwrap();
    let r2 = lock.try_read().unwrap();
    assert!(lock.try_write().is_none());
    r1.release();
    assert!(lock.try_write().is_none());
    r2.release();
    let w = lock.try_write().unwrap();
    w.release();
}

#[test]
fn writer_keeps_everybody_out() {
    let lock = SpinRwLock::new(0u64);
    let w = lock.try_write().unwrap();
    assert!(lock.try_read().is_none());
    assert!(lock.read_attempt().is_none());
    assert!(lock.try_write().is_none());
    w.release();
    let r = lock.try_read().unwrap();
    r.release();
}

#[test]
fn waiting_writer_holds_new_readers_back() {
    let lock = SpinRwLock::new(0u64);
    let r = lock.try_read().unwrap();
    lock.announce_writer();
    assert!(lock.try_read().is_none());
    assert!(lock.read_attempt().is_none());
    // a non-blocking writer yields to the one that waits
    r.release();
    assert!(lock.try_write().is_none());
    let mut w = None;
    for _ in 0..1000 {
        if let Some(g) = lock.write_attempt() {
            w = Some(g);
            break;
        }
    }
    let w = w.unwrap();
    assert!(lock.try_read().is_none());
    w.release();
    // the writer no longer waits, so readers come in again
    let r = lock.try_read().unwrap();
    r.release();
}

#[test]
fn read_attempt_joins_other_readers() {
    let lock = SpinRwLock::new(());
    let r1 = lock.try_read().unwrap();
    let mut r2 = None;
    for _ in 0..1000 {
        if let Some(g) = lock.read_attempt() {
            r2 = Some(g);
            break;
        }
    }
    let r2 = r2.unwrap();
    r1.release();
    r2.release();
    assert!(lock.try_write().is_some());
}

#[test]
fn exchange_results_decide_admission() {
    assert!(exchange_acquired(Ok(true)));
    assert!(!exchange_acquired(Err(false)));
    assert!(exchange_succeeded(Ok(0)));
    assert!(!exchange_succeeded(Err(3)));
    assert_eq!(write_round_outcome(Ok(0)), (true, true));
    assert_eq!(write_round_outcome(Err(2)), (false, false));
}

#[test]
fn free_and_release_words() {
    assert_eq!(free_flag(), UNLOCKED);
    assert_eq!(free_word(), 0);
    assert_eq!(no_writer_waiting(), 0);
    assert_eq!(reader_leaves(), 1);
    assert_eq!(waiting_writer_joins(), 1);
    assert_eq!(waiting_writer_leaves(), 1);
}

#[test]
fn data_cell_is_the_lock_own_cell() {
    let lock = SpinLock::new(7u8);
    assert!(std::ptr::eq(lock.data_cell(), lock.data_cell()));
    let rw = SpinRwLock::new(7u8);
    assert!(std::ptr::eq(rw.data_cell(), rw.data_cell()));
}

use graph_processing::engine::spin::{acquire_exchange, exchange_acquired, free_flag};
use graph_processing::engine::spin_rw::{
    exchange_succeeded, free_word, no_writer_waiting, read_admission, reader_leaves,
    try_read_admission, try_write_admission, waiting_writer_joins, waiting_writer_leaves,
    write_exchange, write_round_outcome,
};

#[test]
fn acquire_exchange_takes_a_free_lock() {
    assert_eq!(acquire_exchange(), (UNLOCKED, LOCKED));
}

#[test]
fn waiting_writer_stops_read_admission() {
    assert_eq!(read_admission(1, 0), None);
    assert_eq!(read_admission(0, 0), Some((0, 1)));
    assert_eq!(read_admission(0, 3), Some((3, 4)));
    assert_eq!(read_admission(0, WRITER_ACTIVE), None);
    assert_eq!(try_read_admission(2, 5), None);
    assert_eq!(try_read_admission(0, 5), Some((5, 6)));
    assert_eq!(try_read_admission(0, WRITER_ACTIVE - 1), None);
    assert_eq!(try_write_admission(1), None);
    assert_eq!(try_write_admission(0), Some((0, WRITER_ACTIVE)));
    assert_eq!(write_exchange(), (0, WRITER_ACTIVE));
}

#[test]
fn fresh_locks_are_free() {
    let l = SpinLock::new(1u8);
    assert!(l.try_lock().is_some());
    let rw = SpinRwLock::new(1u8);
    rw.try_read().unwrap().release();
    assert!(rw.try_write().is_some());
}

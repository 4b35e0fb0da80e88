use nck_daemon::lock_table::{ReleaseOutcome, StoreState};
use nck_daemon::store::{join_path, DecrementLock, PendingFile, Store, StoreLock, SEPARATOR};

#[test]
fn join_puts_a_separator_between() {
    assert_eq!(join_path(b"/var/store", b"files"), b"/var/store/files".to_vec());
    assert_eq!(SEPARATOR, b'/');
}

#[test]
fn join_keeps_a_trailing_separator() {
    assert_eq!(join_path(b"/var/store/", b"files"), b"/var/store/files".to_vec());
    assert_eq!(join_path(b"/", b"tmp"), b"/tmp".to_vec());
}

#[test]
fn join_to_empty_directory_is_the_name() {
    assert_eq!(join_path(b"", b"files"), b"files".to_vec());
}

#[test]
fn join_of_absolute_name_replaces_directory() {
    assert_eq!(join_path(b"/var/store", b"/etc/passwd"), b"/etc/passwd".to_vec());
}

#[test]
fn join_of_empty_name_ends_in_separator() {
    assert_eq!(join_path(b"/var/store", b""), b"/var/store/".to_vec());
    assert_eq!(join_path(b"", b""), Vec::<u8>::new());
}

#[test]
fn new_store_lays_out_directories() {
    let store = Store::new(b"/var/lib/nck/store", b"/var/lib/nck");
    assert_eq!(store.files_directory(), b"/var/lib/nck/store/files");
    assert_eq!(store.tmp_directory(), b"/var/lib/nck/tmp");
    assert_eq!(store.holders(b"/var/lib/nck/store/files"), 0);
}

#[test]
fn get_file_counts_before_it_opens() {
    let mut store = Store::new(b"/s", b"/r");
    let result: Result<StoreLock<u32>, String> = store.get_file(b"abc123", |seen, path| {
        assert_eq!(path, b"/s/files/abc123");
        assert_eq!(seen.holders(path), 1);
        Ok(7)
    });
    let lock = match result {
        Ok(lock) => lock,
        Err(error) => panic!("{}", error),
    };
    assert_eq!(lock.as_path(), b"/s/files/abc123");
    assert_eq!(*lock.file(), 7);
    assert_eq!(store.holders(b"/s/files/abc123"), 1);
    let (file, outcome) = lock.release(&mut store);
    assert_eq!(file, 7);
    assert_eq!(outcome, ReleaseOutcome::Freed);
    assert_eq!(store.holders(b"/s/files/abc123"), 0);
}

#[test]
fn get_file_takes_count_back_when_open_fails() {
    let mut store = Store::new(b"/s", b"/r");
    let result: Result<StoreLock<u32>, String> = store.get_file(b"missing", |seen, path| {
        assert_eq!(seen.holders(path), 1);
        Err(String::from("no such file"))
    });
    match result {
        Ok(_) => panic!("open failed, so must get_file"),
        Err(error) => assert_eq!(error, "no such file"),
    }
    assert_eq!(store.holders(b"/s/files/missing"), 0);
}

#[test]
fn failed_open_leaves_other_readers_counted() {
    let mut store = Store::new(b"/s", b"/r");
    let first: Result<StoreLock<u32>, String> = store.get_file(b"h", |_, _| Ok(1));
    let first = match first {
        Ok(lock) => lock,
        Err(error) => panic!("{}", error),
    };
    let second: Result<StoreLock<u32>, String> = store.get_file(b"h", |seen, path| {
        assert_eq!(seen.holders(path), 2);
        Err(String::from("denied"))
    });
    assert!(second.is_err());
    assert_eq!(store.holders(b"/s/files/h"), 1);
    let (_, outcome) = first.release(&mut store);
    assert_eq!(outcome, ReleaseOutcome::Freed);
}

#[test]
fn readers_of_one_hash_are_counted_together() {
    let mut store = Store::new(b"/s", b"/r");
    let a: Result<StoreLock<u32>, String> = store.get_file(b"h", |_, _| Ok(1));
    let b: Result<StoreLock<u32>, String> = store.get_file(b"h", |seen, path| {
        assert_eq!(seen.holders(path), 2);
        Ok(2)
    });
    let (a, b) = match (a, b) {
        (Ok(a), Ok(b)) => (a, b),
        _ => panic!("both opens succeed"),
    };
    assert_eq!(store.holders(b"/s/files/h"), 2);
    assert_eq!(a.release(&mut store).1, ReleaseOutcome::StillHeld);
    assert_eq!(store.holders(b"/s/files/h"), 1);
    assert_eq!(b.release(&mut store).1, ReleaseOutcome::Freed);
    assert_eq!(store.holders(b"/s/files/h"), 0);
}

#[test]
fn create_file_counts_scratch_before_it_creates() {
    let mut store = Store::new(b"/s", b"/r");
    let result: Result<PendingFile<Vec<u8>>, String> = store.create_file(b"scratch-1", |seen, path| {
        assert_eq!(path, b"/r/tmp/scratch-1");
        assert_eq!(seen.holders(path), 1);
        Ok(Vec::new())
    });
    let mut pending = match result {
        Ok(pending) => pending,
        Err(error) => panic!("{}", error),
    };
    assert_eq!(pending.as_path(), b"/r/tmp/scratch-1");
    assert_eq!(store.holders(b"/r/tmp/scratch-1"), 1);
    pending.deref_mut().extend_from_slice(b"written");
    assert_eq!(pending.deref(), &b"written".to_vec());
    let (file, outcome) = pending.abandon(&mut store);
    assert_eq!(file, b"written".to_vec());
    assert_eq!(outcome, ReleaseOutcome::Freed);
    assert_eq!(store.holders(b"/r/tmp/scratch-1"), 0);
}

#[test]
fn create_file_takes_count_back_when_creation_fails() {
    let mut store = Store::new(b"/s", b"/r");
    let result: Result<PendingFile<Vec<u8>>, String> =
        store.create_file(b"scratch-2", |_, _| Err(String::from("disk full")));
    match result {
        Ok(_) => panic!("creation failed"),
        Err(error) => assert_eq!(error, "disk full"),
    }
    assert_eq!(store.holders(b"/r/tmp/scratch-2"), 0);
}

#[test]
fn complete_publishes_and_releases_scratch() {
    let mut store = Store::new(b"/s", b"/r");
    let pending: Result<PendingFile<Vec<u8>>, String> =
        store.create_file(b"w1", |_, _| Ok(b"artifact".to_vec()));
    let pending = match pending {
        Ok(pending) => pending,
        Err(error) => panic!("{}", error),
    };
    let mut copied = false;
    let result: Result<StoreLock<Vec<u8>>, String> = pending.complete(
        &mut store,
        b"cafe",
        |seen, from, to| {
            assert_eq!(from, b"/r/tmp/w1");
            assert_eq!(to, b"/s/files/cafe");
            assert_eq!(seen.holders(from), 1);
            assert_eq!(seen.holders(to), 1);
            copied = true;
            Ok(())
        },
        |seen, path| {
            assert_eq!(path, b"/s/files/cafe");
            assert_eq!(seen.holders(path), 1);
            assert_eq!(seen.holders(b"/r/tmp/w1"), 1);
            Ok(b"artifact".to_vec())
        },
    );
    assert!(copied);
    let lock = match result {
        Ok(lock) => lock,
        Err(error) => panic!("{}", error),
    };
    assert_eq!(lock.as_path(), b"/s/files/cafe");
    assert_eq!(lock.file(), &b"artifact".to_vec());
    assert_eq!(store.holders(b"/s/files/cafe"), 1);
    assert_eq!(store.holders(b"/r/tmp/w1"), 0);
}

#[test]
fn complete_then_get_file_share_one_path() {
    let mut store = Store::new(b"/s", b"/r");
    let pending: Result<PendingFile<u32>, String> = store.create_file(b"w", |_, _| Ok(0));
    let pending = match pending {
        Ok(pending) => pending,
        Err(error) => panic!("{}", error),
    };
    let written: Result<StoreLock<u32>, String> =
        pending.complete(&mut store, b"beef", |_, _, _| Ok(()), |_, _| Ok(1));
    let written = match written {
        Ok(lock) => lock,
        Err(error) => panic!("{}", error),
    };
    let read: Result<StoreLock<u32>, String> = store.get_file(b"beef", |seen, path| {
        assert_eq!(seen.holders(path), 2);
        Ok(2)
    });
    let read = match read {
        Ok(lock) => lock,
        Err(error) => panic!("{}", error),
    };
    assert_eq!(read.as_path(), written.as_path());
    assert_eq!(store.holders(b"/s/files/beef"), 2);
    assert_eq!(written.release(&mut store).1, ReleaseOutcome::StillHeld);
    assert_eq!(read.release(&mut store).1, ReleaseOutcome::Freed);
}

#[test]
fn complete_releases_both_paths_when_copy_fails() {
    let mut store = Store::new(b"/s", b"/r");
    let pending: Result<PendingFile<u32>, String> = store.create_file(b"w", |_, _| Ok(0));
    let pending = match pending {
        Ok(pending) => pending,
        Err(error) => panic!("{}", error),
    };
    let mut opened = false;
    let result: Result<StoreLock<u32>, String> = pending.complete(
        &mut store,
        b"dead",
        |_, _, _| Err(String::from("copy failed")),
        |_, _| {
            opened = true;
            Ok(1)
        },
    );
    assert!(!opened);
    match result {
        Ok(_) => panic!("copy failed"),
        Err(error) => assert_eq!(error, "copy failed"),
    }
    assert_eq!(store.holders(b"/s/files/dead"), 0);
    assert_eq!(store.holders(b"/r/tmp/w"), 0);
}

#[test]
fn complete_releases_both_paths_when_open_fails() {
    let mut store = Store::new(b"/s", b"/r");
    let pending: Result<PendingFile<u32>, String> = store.create_file(b"w", |_, _| Ok(0));
    let pending = match pending {
        Ok(pending) => pending,
        Err(error) => panic!("{}", error),
    };
    let result: Result<StoreLock<u32>, String> = pending.complete(
        &mut store,
        b"dead",
        |_, _, _| Ok(()),
        |_, _| Err(String::from("open failed")),
    );
    match result {
        Ok(_) => panic!("open failed"),
        Err(error) => assert_eq!(error, "open failed"),
    }
    assert_eq!(store.holders(b"/s/files/dead"), 0);
    assert_eq!(store.holders(b"/r/tmp/w"), 0);
}

#[test]
fn complete_keeps_other_holders_of_destination() {
    let mut store = Store::new(b"/s", b"/r");
    let reader: Result<StoreLock<u32>, String> = store.get_file(b"h", |_, _| Ok(9));
    let reader = match reader {
        Ok(lock) => lock,
        Err(error) => panic!("{}", error),
    };
    let pending: Result<PendingFile<u32>, String> = store.create_file(b"w", |_, _| Ok(0));
    let pending = match pending {
        Ok(pending) => pending,
        Err(error) => panic!("{}", error),
    };
    let result: Result<StoreLock<u32>, String> = pending.complete(
        &mut store,
        b"h",
        |seen, _, to| {
            assert_eq!(seen.holders(to), 2);
            Err(String::from("busy"))
        },
        |_, _| Ok(1),
    );
    assert!(result.is_err());
    assert_eq!(store.holders(b"/s/files/h"), 1);
    assert_eq!(reader.release(&mut store).1, ReleaseOutcome::Freed);
}

#[test]
fn handle_of_another_store_is_an_excess_release() {
    let mut first = Store::new(b"/a", b"/a");
    let mut second = Store::new(b"/b", b"/b");
    let kept: Result<StoreLock<u32>, String> = second.get_file(b"k", |_, _| Ok(1));
    assert!(kept.is_ok());
    let lock: Result<StoreLock<u32>, String> = first.get_file(b"h", |_, _| Ok(1));
    let lock = match lock {
        Ok(lock) => lock,
        Err(error) => panic!("{}", error),
    };
    let (_, outcome) = lock.release(&mut second);
    assert_eq!(outcome, ReleaseOutcome::Excess);
    assert_eq!(second.holders(b"/b/files/k"), 1);
    assert_eq!(first.holders(b"/a/files/h"), 1);
}

#[test]
fn register_and_settle_in_two_steps() {
    let mut store = Store::new(b"/s", b"/r");
    let dec = store.register(b"/s/files/two".to_vec());
    assert_eq!(dec.as_path(), b"/s/files/two");
    assert_eq!(store.holders(b"/s/files/two"), 1);
    let opened: Result<u32, String> = Ok(5);
    let lock = match store.settle(dec, opened) {
        Ok(lock) => lock,
        Err(error) => panic!("{}", error),
    };
    assert_eq!(*lock.file(), 5);
    assert_eq!(store.holders(b"/s/files/two"), 1);

    let dec = store.register(b"/s/files/two".to_vec());
    assert_eq!(store.holders(b"/s/files/two"), 2);
    let failed: Result<u32, String> = Err(String::from("gone"));
    match store.settle(dec, failed) {
        Ok(_) => panic!("the open failed"),
        Err(error) => assert_eq!(error, "gone"),
    }
    assert_eq!(store.holders(b"/s/files/two"), 1);
}

#[test]
fn decrement_lock_counts_and_releases() {
    let mut state = StoreState::new();
    let first = DecrementLock::new(b"/p".to_vec(), &mut state);
    let second = DecrementLock::new(b"/p".to_vec(), &mut state);
    assert_eq!(first.as_path(), b"/p");
    assert_eq!(state.holders(b"/p"), 2);
    assert_eq!(first.release(&mut state), ReleaseOutcome::StillHeld);
    assert_eq!(second.release(&mut state), ReleaseOutcome::Freed);
    assert_eq!(state.holders(b"/p"), 0);
}

#[test]
fn store_lock_pairs_file_and_handle() {
    let mut store = Store::new(b"/s", b"/r");
    let dec = store.register(b"/s/files/x".to_vec());
    let lock = StoreLock::new(String::from("file"), dec);
    assert_eq!(lock.as_path(), b"/s/files/x");
    assert_eq!(lock.file(), "file");
    let (file, outcome) = lock.release(&mut store);
    assert_eq!(file, "file");
    assert_eq!(outcome, ReleaseOutcome::Freed);
}

#[test]
fn locked_file_can_be_written_through_the_lock() {
    let mut store = Store::new(b"/s", b"/r");
    let dec = store.register(b"/s/files/w".to_vec());
    let mut lock = StoreLock::new(vec![1u8], dec);
    lock.file_mut().push(2);
    assert_eq!(lock.file(), &vec![1u8, 2]);
    assert_eq!(lock.as_path(), b"/s/files/w");
    assert_eq!(store.holders(b"/s/files/w"), 1);
}

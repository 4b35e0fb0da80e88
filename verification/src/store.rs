//! The content-addressed store: files named by their hash, scratch files for
//! writes in progress, and handles that keep a path counted in the lock table
//! for as long as they live.
//!
//! The store decides which path a hash has and when a path is counted. Opening,
//! creating and copying files is the caller's part, handed in as closures. Each
//! closure also receives the store, as it is at the moment of the call: a path
//! is always counted before the file behind it is touched.

use crate::lock_table::{
    holders, lemma_release_undoes_take, no_stale_entries, release_outcome, with_holder, without_holder, ReleaseOutcome,
    StoreState,
};
use vstd::prelude::*;
use vstd::slice::slice_to_vec;

verus! {

/// The byte that separates the components of a path.
pub const SEPARATOR: u8 = 47;

/// `name` adjoined to `directory`. An absolute `name` replaces the directory.
/// Otherwise a separator is put between the two unless the directory is empty
/// or already ends in one.
pub open spec fn joined(directory: Seq<u8>, name: Seq<u8>) -> Seq<u8> {
    if name.len() > 0 && name[0] == SEPARATOR {
        name
    } else if directory.len() > 0 && directory.last() != SEPARATOR {
        directory + seq![SEPARATOR] + name
    } else {
        directory + name
    }
}

/// Adjoins `name` to `directory`.
pub fn join_path(directory: &[u8], name: &[u8]) -> (path: Vec<u8>)
    ensures
        path@ == joined(directory@, name@),
{
    if name.len() > 0 && name[0] == SEPARATOR {
        return slice_to_vec(name);
    }
    let mut path = slice_to_vec(directory);
    if directory.len() > 0 && directory[directory.len() - 1] != SEPARATOR {
        path.push(SEPARATOR);
    }
    path.extend_from_slice(name);
    path
}

/// A name is relative: it does not begin with a separator.
pub open spec fn relative(name: Seq<u8>) -> bool {
    name.len() == 0 || name[0] != SEPARATOR
}

/// Below one directory, different relative names have different paths. So two
/// hashes share an entry of the lock table only if they are the same hash.
pub proof fn lemma_joined_is_injective(directory: Seq<u8>, first: Seq<u8>, second: Seq<u8>)
    requires
        relative(first),
        relative(second),
        joined(directory, first) == joined(directory, second),
    ensures
        first == second,
{
    let stem = if directory.len() > 0 && directory.last() != SEPARATOR {
        directory + seq![SEPARATOR]
    } else {
        directory
    };
    assert(joined(directory, first) =~= stem + first);
    assert(joined(directory, second) =~= stem + second);
    assert((stem + first).subrange(stem.len() as int, (stem + first).len() as int) =~= first);
    assert((stem + second).subrange(stem.len() as int, (stem + second).len() as int) =~= second);
}

/// A relative name is joined below its directory: the path begins with the
/// directory.
pub proof fn lemma_joined_is_below(directory: Seq<u8>, name: Seq<u8>)
    requires
        relative(name),
    ensures
        directory.is_prefix_of(joined(directory, name)),
        name.is_suffix_of(joined(directory, name)),
{
    let path = joined(directory, name);
    assert(path.subrange(0, directory.len() as int) =~= directory);
    assert(path.subrange(path.len() - name.len(), path.len() as int) =~= name);
}

/// The name of the directory of finished files, below the store directory.
pub open spec fn files_name() -> Seq<u8> {
    seq![102u8, 105u8, 108u8, 101u8, 115u8]
}

/// The name of the directory of scratch files, below the root directory.
pub open spec fn tmp_name() -> Seq<u8> {
    seq![116u8, 109u8, 112u8]
}

/// Keeps one path counted in the lock table. Made by counting the path, and
/// given back to the table on release.
#[derive(Debug)]
pub struct DecrementLock {
    path: Vec<u8>,
}

impl DecrementLock {
    /// The path that this handle holds.
    pub closed spec fn held_path(&self) -> Seq<u8> {
        self.path@
    }

    /// Counts `path` in `state` and returns the handle that stands for it.
    pub fn new(path: Vec<u8>, state: &mut StoreState) -> (lock: DecrementLock)
        requires
            holders(old(state)@, path@) < usize::MAX,
        ensures
            lock.held_path() == path@,
            final(state)@ == with_holder(old(state)@, path@),
    {
        state.increase_lock(slice_to_vec(path.as_slice()));
        DecrementLock { path }
    }

    /// The path that this handle holds.
    pub fn as_path(&self) -> (path: &[u8])
        ensures
            path@ == self.held_path(),
    {
        self.path.as_slice()
    }

    /// Gives the handle back: the count of its path goes down by one.
    pub fn release(self, state: &mut StoreState) -> (outcome: ReleaseOutcome)
        ensures
            final(state)@ == without_holder(old(state)@, self.held_path()),
            outcome == release_outcome(old(state)@, self.held_path()),
    {
        state.decrease_lock(self.path)
    }
}

/// A locked store file: an open file together with the handle that keeps its
/// path counted.
#[derive(Debug)]
pub struct StoreLock<F> {
    file: F,
    // The path is counted before the file is opened, so the two are made apart.
    dec: DecrementLock,
}

impl<F> StoreLock<F> {
    /// The path that this lock holds.
    pub closed spec fn held_path(&self) -> Seq<u8> {
        self.dec.held_path()
    }

    /// The open file.
    pub closed spec fn held_file(&self) -> F {
        self.file
    }

    /// Pairs an open file with the handle that was made for its path.
    pub fn new(file: F, dec: DecrementLock) -> (lock: StoreLock<F>)
        ensures
            lock.held_file() == file,
            lock.held_path() == dec.held_path(),
    {
        StoreLock { file, dec }
    }

    /// The path of the locked file.
    pub fn as_path(&self) -> (path: &[u8])
        ensures
            path@ == self.held_path(),
    {
        self.dec.as_path()
    }

    /// The open file.
    pub fn file(&self) -> (file: &F)
        ensures
            *file == self.held_file(),
    {
        &self.file
    }

    /// The open file, to write to. The lock keeps its path.
    pub fn file_mut(&mut self) -> (file: &mut F)
        ensures
            *file == old(self).held_file(),
            final(self).held_file() == *final(file),
            final(self).held_path() == old(self).held_path(),
    {
        &mut self.file
    }

    /// Releases the lock: the count of its path goes down by one, and the file
    /// is handed back to be closed.
    pub fn release(self, store: &mut Store) -> (released: (F, ReleaseOutcome))
        ensures
            released.0 == self.held_file(),
            released.1 == release_outcome(old(store)@, self.held_path()),
            final(store)@ == without_holder(old(store)@, self.held_path()),
            final(store).same_directories(*old(store)),
    {
        let outcome = self.dec.release(&mut store.state);
        (self.file, outcome)
    }
}

/// The store: the directory of finished files, the directory of scratch files,
/// and the lock table over both.
pub struct Store {
    state: StoreState,
    files_directory: Vec<u8>,
    tmp_directory: Vec<u8>,
}

impl View for Store {
    type V = Map<Seq<u8>, nat>;

    /// The lock table: each held path with its number of holders.
    closed spec fn view(&self) -> Map<Seq<u8>, nat> {
        self.state@
    }
}

impl Store {
    /// The directory of finished files.
    pub closed spec fn files_path(&self) -> Seq<u8> {
        self.files_directory@
    }

    /// The directory of scratch files.
    pub closed spec fn tmp_path(&self) -> Seq<u8> {
        self.tmp_directory@
    }

    /// The two stores have the same directories.
    pub open spec fn same_directories(&self, other: Store) -> bool {
        self.files_path() == other.files_path() && self.tmp_path() == other.tmp_path()
    }

    /// `self` is `origin` with the lock table `table`. This is the store that
    /// a closure is shown.
    pub open spec fn is_with_table(&self, origin: Store, table: Map<Seq<u8>, nat>) -> bool {
        self.same_directories(origin) && self@ == table
    }

    /// The path of the finished file with the given hash.
    pub open spec fn canonical_path(&self, hash: Seq<u8>) -> Seq<u8> {
        joined(self.files_path(), hash)
    }

    /// The path of the scratch file with the given name.
    pub open spec fn scratch_path(&self, name: Seq<u8>) -> Seq<u8> {
        joined(self.tmp_path(), name)
    }

    /// A store with an empty lock table. Finished files live in `files` below
    /// `store_directory`, scratch files in `tmp` below `root_directory`. The
    /// caller creates both directories.
    pub fn new(store_directory: &[u8], root_directory: &[u8]) -> (store: Store)
        ensures
            store.files_path() == joined(store_directory@, files_name()),
            store.tmp_path() == joined(root_directory@, tmp_name()),
            store@ == Map::<Seq<u8>, nat>::empty(),
    {
        let mut files: Vec<u8> = Vec::new();
        files.push(102u8);
        files.push(105u8);
        files.push(108u8);
        files.push(101u8);
        files.push(115u8);
        let mut tmp: Vec<u8> = Vec::new();
        tmp.push(116u8);
        tmp.push(109u8);
        tmp.push(112u8);
        assert(files@ =~= files_name());
        assert(tmp@ =~= tmp_name());
        Store {
            state: StoreState::new(),
            files_directory: join_path(store_directory, files.as_slice()),
            tmp_directory: join_path(root_directory, tmp.as_slice()),
        }
    }

    /// The directory of finished files.
    pub fn files_directory(&self) -> (path: &[u8])
        ensures
            path@ == self.files_path(),
    {
        self.files_directory.as_slice()
    }

    /// The directory of scratch files.
    pub fn tmp_directory(&self) -> (path: &[u8])
        ensures
            path@ == self.tmp_path(),
    {
        self.tmp_directory.as_slice()
    }

    /// The number of handles that hold `path`. A path has holders exactly when
    /// it has an entry in the table.
    pub fn holders(&self, path: &[u8]) -> (count: usize)
        ensures
            count == holders(self@, path@),
            count > 0 <==> self@.contains_key(path@),
            no_stale_entries(self@),
    {
        self.state.holders(path)
    }

    /// Counts `path` in the lock table and returns the handle that stands for
    /// it. To be called before the file at `path` is opened or created.
    pub fn register(&mut self, path: Vec<u8>) -> (dec: DecrementLock)
        requires
            holders(old(self)@, path@) < usize::MAX,
        ensures
            dec.held_path() == path@,
            final(self)@ == with_holder(old(self)@, path@),
            final(self).same_directories(*old(self)),
    {
        DecrementLock::new(path, &mut self.state)
    }

    /// Some call of `open`, on `origin` with the table `table` and on `path`,
    /// returned `outcome`.
    pub open spec fn opened_with<F, E, O: FnOnce(&Store, &[u8]) -> Result<F, E>>(
        open: O,
        origin: Store,
        table: Map<Seq<u8>, nat>,
        path: Seq<u8>,
        outcome: Result<F, E>,
    ) -> bool {
        exists|seen: &Store, at: &[u8]|
            seen.is_with_table(origin, table) && at@ == path && #[trigger] open.ensures(
                (seen, at),
                outcome,
            )
    }

    /// `open` accepts every call on `origin` with the table `table` and on
    /// `path`.
    pub open spec fn may_open<F, E, O: FnOnce(&Store, &[u8]) -> Result<F, E>>(
        open: O,
        origin: Store,
        table: Map<Seq<u8>, nat>,
        path: Seq<u8>,
    ) -> bool {
        forall|seen: &Store, at: &[u8]|
            seen.is_with_table(origin, table) && at@ == path ==> #[trigger] open.requires(
                (seen, at),
            )
    }

    /// Some call of `copy`, on `origin` with the table `table`, from `from` to
    /// `to`, succeeded (`failure` is `None`) or failed with the error in
    /// `failure`.
    pub open spec fn copied_with<E, C: FnOnce(&Store, &[u8], &[u8]) -> Result<(), E>>(
        copy: C,
        origin: Store,
        table: Map<Seq<u8>, nat>,
        from: Seq<u8>,
        to: Seq<u8>,
        failure: Option<E>,
    ) -> bool {
        exists|seen: &Store, source: &[u8], target: &[u8], outcome: Result<(), E>|
            seen.is_with_table(origin, table) && source@ == from && target@ == to
                && #[trigger] copy.ensures((seen, source, target), outcome) && failure == (
            match outcome {
                Ok(_) => None::<E>,
                Err(error) => Some(error),
            })
    }

    /// `copy` accepts every call on `origin` with the table `table`, from
    /// `from` to `to`.
    pub open spec fn may_copy<E, C: FnOnce(&Store, &[u8], &[u8]) -> Result<(), E>>(
        copy: C,
        origin: Store,
        table: Map<Seq<u8>, nat>,
        from: Seq<u8>,
        to: Seq<u8>,
    ) -> bool {
        forall|seen: &Store, source: &[u8], target: &[u8]|
            seen.is_with_table(origin, table) && source@ == from && target@ == to
                ==> #[trigger] copy.requires((seen, source, target))
    }

    /// Ends an attempt to open the file for which `dec` was made. A file that
    /// was opened is paired with `dec`, and the table stays as it is. After a
    /// failure `dec` is released, so that no count leaks, and the error is
    /// passed on.
    pub fn settle<F, E>(&mut self, dec: DecrementLock, opened: Result<F, E>) -> (result: Result<
        StoreLock<F>,
        E,
    >)
        ensures
            final(self).same_directories(*old(self)),
            match opened {
                Ok(file) => {
                    &&& result matches Ok(lock)
                    &&& lock.held_file() == file
                    &&& lock.held_path() == dec.held_path()
                    &&& final(self)@ == old(self)@
                },
                Err(error) => {
                    &&& result == Err::<StoreLock<F>, E>(error)
                    &&& final(self)@ == without_holder(old(self)@, dec.held_path())
                },
            },
    {
        match opened {
            Ok(file) => Ok(StoreLock::new(file, dec)),
            Err(error) => {
                dec.release(&mut self.state);
                Err(error)
            },
        }
    }

    /// Acquires the finished file with the given hash for reading. The path is
    /// counted first, and `open` is called on a store that already counts it:
    /// a reclaimer never sees the path free while it is being opened. If
    /// `open` fails, the count is taken back and the error is passed on.
    pub fn get_file<F, E, O>(&mut self, hash: &[u8], open: O) -> (result: Result<StoreLock<F>, E>)
        where O: FnOnce(&Store, &[u8]) -> Result<F, E>
        requires
            holders(old(self)@, old(self).canonical_path(hash@)) < usize::MAX,
            Store::may_open(
                open,
                *old(self),
                with_holder(old(self)@, old(self).canonical_path(hash@)),
                old(self).canonical_path(hash@),
            ),
        ensures
            final(self).same_directories(*old(self)),
            match result {
                Ok(lock) => {
                    &&& lock.held_path() == old(self).canonical_path(hash@)
                    &&& final(self)@ == with_holder(old(self)@, lock.held_path())
                    &&& Store::opened_with(
                        open,
                        *old(self),
                        final(self)@,
                        lock.held_path(),
                        Ok::<F, E>(lock.held_file()),
                    )
                },
                Err(error) => {
                    &&& final(self)@ == old(self)@
                    &&& Store::opened_with(
                        open,
                        *old(self),
                        with_holder(old(self)@, old(self).canonical_path(hash@)),
                        old(self).canonical_path(hash@),
                        Err::<F, E>(error),
                    )
                },
            },
    {
        proof {
            use_type_invariant(&self.state);
            self.state.lemma_counts_positive();
            lemma_release_undoes_take(self@, self.canonical_path(hash@));
        }
        let path = join_path(self.files_directory.as_slice(), hash);
        let dec = self.register(path);
        let opened = open(&*self, dec.as_path());
        self.settle(dec, opened)
    }

    /// Begins a write: counts the scratch file `name` below the scratch
    /// directory, then has `create` make it, on a store that already counts
    /// it. The caller picks a name that no other scratch file has. If `create`
    /// fails, the count is taken back and the error is passed on.
    pub fn create_file<F, E, C>(&mut self, name: &[u8], create: C) -> (result: Result<
        PendingFile<F>,
        E,
    >)
        where C: FnOnce(&Store, &[u8]) -> Result<F, E>
        requires
            holders(old(self)@, old(self).scratch_path(name@)) < usize::MAX,
            Store::may_open(
                create,
                *old(self),
                with_holder(old(self)@, old(self).scratch_path(name@)),
                old(self).scratch_path(name@),
            ),
        ensures
            final(self).same_directories(*old(self)),
            match result {
                Ok(pending) => {
                    &&& pending.held_path() == old(self).scratch_path(name@)
                    &&& final(self)@ == with_holder(old(self)@, pending.held_path())
                    &&& Store::opened_with(
                        create,
                        *old(self),
                        final(self)@,
                        pending.held_path(),
                        Ok::<F, E>(pending.held_file()),
                    )
                },
                Err(error) => {
                    &&& final(self)@ == old(self)@
                    &&& Store::opened_with(
                        create,
                        *old(self),
                        with_holder(old(self)@, old(self).scratch_path(name@)),
                        old(self).scratch_path(name@),
                        Err::<F, E>(error),
                    )
                },
            },
    {
        proof {
            use_type_invariant(&self.state);
            self.state.lemma_counts_positive();
            lemma_release_undoes_take(self@, self.scratch_path(name@));
        }
        let path = join_path(self.tmp_directory.as_slice(), name);
        let dec = self.register(path);
        let created = create(&*self, dec.as_path());
        match self.settle(dec, created) {
            Ok(lock) => Ok(PendingFile { lock }),
            Err(error) => Err(error),
        }
    }
}

/// A file that will be written to the store: an open scratch file whose path
/// is counted in the lock table.
#[derive(Debug)]
pub struct PendingFile<F> {
    lock: StoreLock<F>,
}

impl<F> PendingFile<F> {
    /// The path of the scratch file.
    pub closed spec fn held_path(&self) -> Seq<u8> {
        self.lock.held_path()
    }

    /// The open scratch file.
    pub closed spec fn held_file(&self) -> F {
        self.lock.held_file()
    }

    /// The path of the scratch file.
    pub fn as_path(&self) -> (path: &[u8])
        ensures
            path@ == self.held_path(),
    {
        self.lock.as_path()
    }

    /// The open scratch file, to read from.
    pub fn deref(&self) -> (file: &F)
        ensures
            *file == self.held_file(),
    {
        self.lock.file()
    }

    /// The open scratch file, to write to.
    pub fn deref_mut(&mut self) -> (file: &mut F)
        ensures
            *file == old(self).held_file(),
            final(self).held_file() == *final(file),
            final(self).held_path() == old(self).held_path(),
    {
        self.lock.file_mut()
    }

    /// Gives the write up: the scratch path is released and the scratch file
    /// is handed back. Nothing reaches the directory of finished files.
    pub fn abandon(self, store: &mut Store) -> (released: (F, ReleaseOutcome))
        ensures
            released.0 == self.held_file(),
            released.1 == release_outcome(old(store)@, self.held_path()),
            final(store)@ == without_holder(old(store)@, self.held_path()),
            final(store).same_directories(*old(store)),
    {
        self.lock.release(store)
    }

    /// Writes the file into the store under the given hash. The destination is
    /// counted first. Then `copy` copies the scratch file to it and `open`
    /// opens it for reading, both on a store that counts the two paths. If
    /// either fails, the destination's count is taken back and the error is
    /// passed on. In every case the scratch path is released last, after the
    /// copy, and the scratch file is dropped.
    pub fn complete<E, C, O>(self, store: &mut Store, hash: &[u8], copy: C, open: O) -> (result:
        Result<StoreLock<F>, E>)
        where
            C: FnOnce(&Store, &[u8], &[u8]) -> Result<(), E>,
            O: FnOnce(&Store, &[u8]) -> Result<F, E>,
        requires
            holders(old(store)@, old(store).canonical_path(hash@)) < usize::MAX,
            Store::may_copy(
                copy,
                *old(store),
                with_holder(old(store)@, old(store).canonical_path(hash@)),
                self.held_path(),
                old(store).canonical_path(hash@),
            ),
            Store::may_open(
                open,
                *old(store),
                with_holder(old(store)@, old(store).canonical_path(hash@)),
                old(store).canonical_path(hash@),
            ),
        ensures
            final(store).same_directories(*old(store)),
            match result {
                Ok(lock) => {
                    &&& lock.held_path() == old(store).canonical_path(hash@)
                    &&& final(store)@ == without_holder(
                        with_holder(old(store)@, lock.held_path()),
                        self.held_path(),
                    )
                    &&& Store::copied_with(
                        copy,
                        *old(store),
                        with_holder(old(store)@, lock.held_path()),
                        self.held_path(),
                        lock.held_path(),
                        None::<E>,
                    )
                    &&& Store::opened_with(
                        open,
                        *old(store),
                        with_holder(old(store)@, lock.held_path()),
                        lock.held_path(),
                        Ok::<F, E>(lock.held_file()),
                    )
                },
                Err(error) => {
                    &&& final(store)@ == without_holder(old(store)@, self.held_path())
                    &&& (Store::copied_with(
                        copy,
                        *old(store),
                        with_holder(old(store)@, old(store).canonical_path(hash@)),
                        self.held_path(),
                        old(store).canonical_path(hash@),
                        Some(error),
                    ) || (Store::copied_with(
                        copy,
                        *old(store),
                        with_holder(old(store)@, old(store).canonical_path(hash@)),
                        self.held_path(),
                        old(store).canonical_path(hash@),
                        None::<E>,
                    ) && Store::opened_with(
                        open,
                        *old(store),
                        with_holder(old(store)@, old(store).canonical_path(hash@)),
                        old(store).canonical_path(hash@),
                        Err::<F, E>(error),
                    )))
                },
            },
    {
        proof {
            use_type_invariant(&store.state);
            store.state.lemma_counts_positive();
            lemma_release_undoes_take(store@, store.canonical_path(hash@));
        }
        let destination = join_path(store.files_directory(), hash);
        let dec = store.register(destination);
        let ghost counted = *store;
        let copied = copy(&*store, self.lock.as_path(), dec.as_path());
        assert(Store::copied_with(
            copy,
            *old(store),
            counted@,
            self.held_path(),
            dec.held_path(),
            match copied {
                Ok(_) => None::<E>,
                Err(error) => Some(error),
            },
        ));
        let opened = match copied {
            Ok(()) => {
                let opened = open(&*store, dec.as_path());
                assert(Store::opened_with(open, *old(store), counted@, dec.held_path(), opened));
                opened
            },
            Err(error) => Err(error),
        };
        let result = store.settle(dec, opened);
        let _ = self.lock.release(store);
        result
    }
}

} // verus!

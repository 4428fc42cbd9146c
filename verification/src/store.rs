//! A versioned store with check-then-write commits, at the granularity of
//! single keys: the yardstick against which the retry engine's conflicts are
//! defined.

use vstd::prelude::*;

verus! {

/// One committed write: the key, and the version that the commit produced.
#[derive(PartialEq, Eq, Structural, Clone, Copy, Debug)]
pub struct WriteRecord {
    pub key: u64,
    pub version: u64,
}

/// The commit was refused: a key that the attempt read has been written
/// since its snapshot.
#[derive(PartialEq, Eq, Structural, Clone, Copy, Debug)]
pub struct Conflict;

pub struct Store {
    /// The version of the last commit, 0 before the first.
    pub version: u64,
    /// Every committed write, oldest first.
    pub log: Vec<WriteRecord>,
}

/// Some key of `read_set` was written by a commit later than `base`.
pub open spec fn conflicts(log: Seq<WriteRecord>, read_set: Seq<u64>, base: u64) -> bool {
    exists|i: int|
        0 <= i < log.len() && (#[trigger] log[i]).version > base && read_set.contains(log[i].key)
}

/// The records that a commit of `write_set` at `version` adds to the log.
pub open spec fn records(write_set: Seq<u64>, version: u64) -> Seq<WriteRecord> {
    Seq::new(write_set.len(), |j: int| WriteRecord { key: write_set[j], version })
}

/// No key occurs in both.
pub open spec fn disjoint(a: Seq<u64>, b: Seq<u64>) -> bool {
    forall|i: int, j: int| 0 <= i < a.len() && 0 <= j < b.len() ==> a[i] != b[j]
}

/// Whether `key` occurs in `keys`.
pub fn contains_key(keys: &Vec<u64>, key: u64) -> (found: bool)
    ensures
        found == keys@.contains(key),
{
    let mut i: usize = 0;
    while i < keys.len()
        invariant
            i <= keys@.len(),
            forall|j: int| 0 <= j < i ==> keys@[j] != key,
        decreases keys@.len() - i,
    {
        if keys[i] == key {
            return true;
        }
        i += 1;
    }
    false
}

impl Store {
    /// No write is later than the store's version.
    pub open spec fn well_formed(&self) -> bool {
        forall|i: int| 0 <= i < self.log@.len() ==> (#[trigger] self.log@[i]).version <= self.version
    }

    pub fn new() -> (store: Self)
        ensures
            store.well_formed(),
            store.version == 0,
            store.log@.len() == 0,
    {
        Store { version: 0, log: Vec::new() }
    }

    /// The version that an attempt starting now is based on.
    pub fn take_snapshot(&self) -> (base: u64)
        ensures
            base == self.version,
    {
        self.version
    }

    /// Whether an attempt that read `read_set` at `base_version` has been
    /// overtaken by a later write to one of those keys.
    pub fn has_conflict(&self, read_set: &Vec<u64>, base_version: u64) -> (found: bool)
        ensures
            found == conflicts(self.log@, read_set@, base_version),
    {
        let mut i: usize = 0;
        while i < self.log.len()
            invariant
                i <= self.log@.len(),
                forall|j: int|
                    0 <= j < i ==> !((#[trigger] self.log@[j]).version > base_version
                        && read_set@.contains(self.log@[j].key)),
            decreases self.log@.len() - i,
        {
            if self.log[i].version > base_version && contains_key(read_set, self.log[i].key) {
                return true;
            }
            i += 1;
        }
        false
    }

    /// Check-then-write. The write set is committed as one new version if
    /// and only if no key of the read set was written after `base_version`;
    /// otherwise the store stays as it is.
    pub fn commit(&mut self, read_set: &Vec<u64>, write_set: &Vec<u64>, base_version: u64) -> (done:
        Result<u64, Conflict>)
        requires
            old(self).well_formed(),
            old(self).version < u64::MAX,
        ensures
            final(self).well_formed(),
            done.is_err() <==> conflicts(old(self).log@, read_set@, base_version),
            done.is_err() ==> *final(self) == *old(self),
            done matches Ok(v) ==> v == old(self).version + 1 && final(self).version == v && final(
                self).log@ == old(self).log@ + records(write_set@, v),
    {
        if self.has_conflict(read_set, base_version) {
            return Err(Conflict);
        }
        let v: u64 = self.version + 1;
        self.version = v;
        let mut i: usize = 0;
        while i < write_set.len()
            invariant
                i <= write_set@.len(),
                self.version == v,
                v == old(self).version + 1,
                old(self).well_formed(),
                self.log@ == old(self).log@ + records(write_set@, v).subrange(0, i as int),
            decreases write_set@.len() - i,
        {
            self.log.push(WriteRecord { key: write_set[i], version: v });
            proof {
                assert(self.log@ =~= old(self).log@ + records(write_set@, v).subrange(
                    0,
                    i as int + 1,
                ));
            }
            i += 1;
        }
        proof {
            assert(records(write_set@, v).subrange(0, i as int) =~= records(write_set@, v));
            assert forall|j: int| 0 <= j < self.log@.len() implies (#[trigger] self.log@[j]).version
                <= self.version by {
                if j < old(self).log@.len() {
                    assert(self.log@[j] == old(self).log@[j]);
                }
            }
        }
        Ok(v)
    }
}

/// An attempt that commits before anyone else does is never in conflict.
pub proof fn lemma_fresh_snapshot_never_conflicts(store: Store, read_set: Seq<u64>)
    requires
        store.well_formed(),
    ensures
        !conflicts(store.log@, read_set, store.version),
{
}

/// Non-interference: however many writes are committed after an attempt's
/// snapshot, and in whatever order, if none of them touches a key that the
/// attempt read, the attempt is exactly as committable as it was.
pub proof fn lemma_disjoint_writes_do_not_interfere(
    log: Seq<WriteRecord>,
    later: Seq<WriteRecord>,
    read_set: Seq<u64>,
    base: u64,
)
    requires
        forall|i: int| 0 <= i < later.len() ==> !read_set.contains((#[trigger] later[i]).key),
    ensures
        conflicts(log + later, read_set, base) == conflicts(log, read_set, base),
{
    let extended = log + later;
    if conflicts(extended, read_set, base) {
        let i = choose|i: int|
            0 <= i < extended.len() && (#[trigger] extended[i]).version > base
                && read_set.contains(extended[i].key);
        if i >= log.len() {
            assert(extended[i] == later[i - log.len()]);
        }
        assert(extended[i] == log[i]);
    }
    if conflicts(log, read_set, base) {
        let i = choose|i: int|
            0 <= i < log.len() && (#[trigger] log[i]).version > base && read_set.contains(
                log[i].key,
            );
        assert(extended[i] == log[i]);
    }
}

/// A commit that writes none of the keys that an attempt read leaves that
/// attempt exactly as committable as it was.
pub proof fn lemma_disjoint_commit_does_not_interfere(
    log: Seq<WriteRecord>,
    read_set: Seq<u64>,
    base: u64,
    other_writes: Seq<u64>,
    version: u64,
)
    requires
        disjoint(read_set, other_writes),
    ensures
        conflicts(log + records(other_writes, version), read_set, base) == conflicts(
            log,
            read_set,
            base,
        ),
{
    let later = records(other_writes, version);
    assert forall|i: int| 0 <= i < later.len() implies !read_set.contains(
        (#[trigger] later[i]).key,
    ) by {
        if read_set.contains(later[i].key) {
            let r = choose|r: int| 0 <= r < read_set.len() && read_set[r] == later[i].key;
            assert(read_set[r] != other_writes[i]);
        }
    }
    lemma_disjoint_writes_do_not_interfere(log, later, read_set, base);
}

/// Two attempts on disjoint keys both commit, in either order: if neither
/// was in conflict when the first of them commits, the second is not in
/// conflict afterwards.
pub proof fn lemma_disjoint_attempts_both_commit(
    log: Seq<WriteRecord>,
    first_writes: Seq<u64>,
    first_version: u64,
    second_reads: Seq<u64>,
    second_base: u64,
)
    requires
        disjoint(second_reads, first_writes),
        !conflicts(log, second_reads, second_base),
    ensures
        !conflicts(log + records(first_writes, first_version), second_reads, second_base),
{
    lemma_disjoint_commit_does_not_interfere(
        log,
        second_reads,
        second_base,
        first_writes,
        first_version,
    );
}

} // verus!

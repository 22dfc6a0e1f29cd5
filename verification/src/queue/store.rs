//! The two tables of the queue, held in memory, with the rules of the store:
//! an entry becomes visible when the transaction that wrote it commits, a
//! claimed row is skipped by every other claim until its claim ends, and a
//! dead-letter row is only written when none with its identifier exists.
use crate::queue::DeadLetterRecord;
use crate::queue::DeadLetterView;
use crate::queue::FailureContext;
use crate::queue::JobType;
use crate::queue::QueueEntry;
use crate::queue::QueueEntryView;
use vstd::prelude::*;

verus! {

/// A row of the pending table: the entry, and whether an open claim holds it.
pub struct RowView {
    pub entry: QueueEntryView,
    pub claimed: bool,
}

/// The two tables as sequences of rows, oldest row first.
pub struct StoreView {
    pub pending: Seq<RowView>,
    pub dead_letters: Seq<DeadLetterView>,
}

/// Whether some entry of `entries` has the identifier `task_id`.
pub open spec fn stages(entries: Seq<QueueEntryView>, task_id: Seq<char>) -> bool {
    exists|i: int| 0 <= i < entries.len() && (#[trigger] entries[i]).task_id == task_id
}

/// Whether no two entries of `entries` share an identifier.
pub open spec fn distinct_entries(entries: Seq<QueueEntryView>) -> bool {
    forall|i: int, j: int|
        0 <= i < j < entries.len() ==> (#[trigger] entries[i]).task_id != (
        #[trigger] entries[j]).task_id
}

/// The rows with which `entries` enter the pending table.
pub open spec fn fresh_rows(entries: Seq<QueueEntryView>) -> Seq<RowView> {
    Seq::new(entries.len(), |i: int| RowView { entry: entries[i], claimed: false })
}

/// The dead-letter row for an attempt on `entry` that ended with `error`.
pub open spec fn dead_letter_for(entry: QueueEntryView, error: Seq<char>) -> DeadLetterView {
    DeadLetterView {
        job_id: entry.task_id,
        job_type: JobType::EmailDelivery,
        task_id: entry.task_id,
        email: entry.email,
        error,
    }
}

/// How many of `rows` no claim holds.
pub open spec fn count_unclaimed(rows: Seq<RowView>) -> nat
    decreases rows.len(),
{
    if rows.len() == 0 {
        0
    } else {
        let last: nat = if rows.last().claimed {
            0
        } else {
            1
        };
        count_unclaimed(rows.drop_last()) + last
    }
}

impl StoreView {
    /// Whether no two pending rows share an identifier.
    pub open spec fn distinct_ids(self) -> bool {
        forall|i: int, j: int|
            0 <= i < j < self.pending.len() ==> (#[trigger] self.pending[i]).entry.task_id != (
            #[trigger] self.pending[j]).entry.task_id
    }

    /// Whether the pending table has a row with this identifier.
    pub open spec fn has_pending(self, task_id: Seq<char>) -> bool {
        exists|i: int|
            0 <= i < self.pending.len() && (#[trigger] self.pending[i]).entry.task_id == task_id
    }

    /// Whether the dead-letter table has a row with this identifier.
    pub open spec fn has_dead_letter(self, job_id: Seq<char>) -> bool {
        exists|i: int|
            0 <= i < self.dead_letters.len() && (#[trigger] self.dead_letters[i]).job_id == job_id
    }

    /// Whether row `i` is the oldest row that no claim holds.
    pub open spec fn is_first_unclaimed(self, i: int) -> bool {
        &&& 0 <= i < self.pending.len()
        &&& !self.pending[i].claimed
        &&& forall|j: int| 0 <= j < i ==> (#[trigger] self.pending[j]).claimed
    }

    /// Whether every pending row is held by a claim (true of an empty table).
    pub open spec fn all_claimed(self) -> bool {
        forall|i: int| 0 <= i < self.pending.len() ==> (#[trigger] self.pending[i]).claimed
    }

    /// The oldest row that no claim holds, if there is one.
    pub open spec fn first_unclaimed(self) -> Option<int> {
        if exists|i: int| self.is_first_unclaimed(i) {
            Some(choose|i: int| self.is_first_unclaimed(i))
        } else {
            None
        }
    }

    /// The row with this identifier, if there is one.
    pub open spec fn position(self, task_id: Seq<char>) -> Option<int> {
        if self.has_pending(task_id) {
            Some(
                choose|i: int|
                    0 <= i < self.pending.len() && (#[trigger] self.pending[i]).entry.task_id
                        == task_id,
            )
        } else {
            None
        }
    }

    /// The store after row `i` was claimed.
    pub open spec fn claimed_at(self, i: int) -> StoreView {
        StoreView {
            pending: self.pending.update(
                i,
                RowView { entry: self.pending[i].entry, claimed: true },
            ),
            dead_letters: self.dead_letters,
        }
    }

    /// The store after the claim on the row with this identifier was given up.
    pub open spec fn released(self, task_id: Seq<char>) -> StoreView {
        match self.position(task_id) {
            Some(i) => StoreView {
                pending: self.pending.update(
                    i,
                    RowView { entry: self.pending[i].entry, claimed: false },
                ),
                dead_letters: self.dead_letters,
            },
            None => self,
        }
    }

    /// The store without the row with this identifier.
    pub open spec fn without(self, task_id: Seq<char>) -> StoreView {
        match self.position(task_id) {
            Some(i) => StoreView {
                pending: self.pending.remove(i),
                dead_letters: self.dead_letters,
            },
            None => self,
        }
    }

    /// The store after a dead-letter row was written: appended, unless a row
    /// with its identifier exists already.
    pub open spec fn with_dead_letter(self, record: DeadLetterView) -> StoreView {
        if self.has_dead_letter(record.job_id) {
            self
        } else {
            StoreView { pending: self.pending, dead_letters: self.dead_letters.push(record) }
        }
    }

    /// The store after the claim on `task_id` was completed: the row is gone,
    /// and the failure that the claim carried, if any, is written.
    pub open spec fn settled(self, task_id: Seq<char>, failure: Option<DeadLetterView>) -> StoreView {
        match failure {
            Some(record) => self.without(task_id).with_dead_letter(record),
            None => self.without(task_id),
        }
    }

    /// The store after the entry of row `i` was claimed, tried once and
    /// completed, when the attempt ended with `error` (`None` for success).
    pub open spec fn attempted(self, i: int, error: Option<Seq<char>>) -> StoreView {
        let entry = self.pending[i].entry;
        match error {
            Some(text) => self.claimed_at(i).settled(
                entry.task_id,
                Some(dead_letter_for(entry, text)),
            ),
            None => self.claimed_at(i).settled(entry.task_id, None),
        }
    }

    /// How many pending rows no claim holds.
    pub open spec fn unclaimed(self) -> nat {
        count_unclaimed(self.pending)
    }

    /// The store after one more claim.
    pub open spec fn after_claim(self) -> StoreView {
        match self.first_unclaimed() {
            Some(i) => self.claimed_at(i),
            None => self,
        }
    }

    /// What `n` claims in a row hand out, none of them completed in between:
    /// the entry of each claim, or `None` where a claim found nothing.
    pub open spec fn claims(self, n: nat) -> Seq<Option<QueueEntryView>>
        decreases n,
    {
        if n == 0 {
            Seq::empty()
        } else {
            let first = match self.first_unclaimed() {
                Some(i) => Some(self.pending[i].entry),
                None => None,
            };
            seq![first] + self.after_claim().claims((n - 1) as nat)
        }
    }

    /// Whether `entry` is in a pending row that no claim holds.
    pub open spec fn offers(self, entry: QueueEntryView) -> bool {
        exists|r: int|
            0 <= r < self.pending.len() && !(#[trigger] self.pending[r]).claimed
                && self.pending[r].entry == entry
    }

    /// Whether a transaction with these entries can commit.
    pub open spec fn admits(self, staged: Seq<QueueEntryView>) -> bool {
        forall|i: int| 0 <= i < staged.len() ==> !self.has_pending((#[trigger] staged[i]).task_id)
    }

    /// The store after a transaction with these entries has committed.
    pub open spec fn with_entries(self, staged: Seq<QueueEntryView>) -> StoreView {
        StoreView { pending: self.pending + fresh_rows(staged), dead_letters: self.dead_letters }
    }
}

/// Why the store refuses a write.
#[derive(Clone, Copy, Debug, PartialEq, Eq, Structural)]
pub enum StorageError {
    /// An entry with the same identifier is pending or staged already.
    Conflict,
}

struct PendingRow {
    entry: QueueEntry,
    claimed: bool,
}

/// The pending table and the dead-letter table.
pub struct QueueStore {
    pending: Vec<PendingRow>,
    dead_letters: Vec<DeadLetterRecord>,
}

/// An open transaction of a producer: entries that become pending on commit.
pub struct QueueTransaction {
    staged: Vec<QueueEntry>,
}

/// An open transaction of a consumer, bound to the row that it has claimed.
/// The claim ends with [`QueueStore::complete`] or [`QueueStore::abandon`]; a
/// claim that is only dropped leaves its row claimed.
pub struct Claim {
    entry: QueueEntry,
    failure: Option<DeadLetterRecord>,
}

impl View for QueueTransaction {
    type V = Seq<QueueEntryView>;

    closed spec fn view(&self) -> Seq<QueueEntryView> {
        Seq::new(self.staged@.len(), |i: int| self.staged@[i]@)
    }
}

impl View for QueueStore {
    type V = StoreView;

    closed spec fn view(&self) -> StoreView {
        StoreView {
            pending: Seq::new(
                self.pending@.len(),
                |i: int| RowView { entry: self.pending@[i].entry@, claimed: self.pending@[i].claimed },
            ),
            dead_letters: Seq::new(self.dead_letters@.len(), |i: int| self.dead_letters@[i]@),
        }
    }
}

impl Claim {
    /// The entry that the claim holds.
    pub closed spec fn claimed(self) -> QueueEntryView {
        self.entry@
    }

    /// The failure that will be written when the claim is completed.
    pub closed spec fn failure(self) -> Option<DeadLetterView> {
        match self.failure {
            Some(record) => Some(record@),
            None => None,
        }
    }

    /// The entry that the claim holds.
    pub fn entry(&self) -> (entry: &QueueEntry)
        ensures
            entry@ == self.claimed(),
    {
        &self.entry
    }

    /// Notes the failure of the attempt in the transaction of the claim. The
    /// record carries the identifier of the claimed entry. Of several
    /// failures the first one stays.
    pub fn record_failure(&mut self, job_type: JobType, context: FailureContext)
        ensures
            final(self).claimed() == old(self).claimed(),
            final(self).failure() == match old(self).failure() {
                Some(first) => Some(first),
                None => Some(
                    DeadLetterView {
                        job_id: old(self).claimed().task_id,
                        job_type,
                        task_id: context.task_id@,
                        email: context.email@,
                        error: context.error@,
                    },
                ),
            },
    {
        if self.failure.is_none() {
            self.failure = Some(
                DeadLetterRecord { job_id: self.entry.task_id.clone(), job_type, context },
            );
        }
    }
}

impl QueueTransaction {
    /// How many entries the transaction has staged.
    pub fn len(&self) -> (n: usize)
        ensures
            n == self@.len(),
    {
        self.staged.len()
    }

    /// Whether the transaction has staged an entry with this identifier.
    pub fn has_staged(&self, task_id: &String) -> (found: bool)
        ensures
            found == stages(self@, task_id@),
    {
        let mut i: usize = 0;
        while i < self.staged.len()
            invariant
                i <= self.staged@.len(),
                forall|j: int| 0 <= j < i ==> (#[trigger] self@[j]).task_id != task_id@,
            decreases self.staged@.len() - i,
        {
            if self.staged[i].task_id == *task_id {
                assert(self@[i as int].task_id == task_id@);
                return true;
            }
            i += 1;
        }
        false
    }
}

impl QueueStore {
    /// A store with two empty tables.
    pub fn new() -> (store: Self)
        ensures
            store@.pending.len() == 0,
            store@.dead_letters.len() == 0,
            store@.distinct_ids(),
    {
        QueueStore { pending: Vec::new(), dead_letters: Vec::new() }
    }

    /// Opens a transaction for a producer. Nothing is staged yet.
    pub fn begin(&self) -> (tx: QueueTransaction)
        ensures
            tx@.len() == 0,
            distinct_entries(tx@),
    {
        QueueTransaction { staged: Vec::new() }
    }

    /// How many rows the pending table has.
    pub fn pending_len(&self) -> (n: usize)
        ensures
            n == self@.pending.len(),
    {
        self.pending.len()
    }

    /// How many rows the dead-letter table has.
    pub fn dead_letter_len(&self) -> (n: usize)
        ensures
            n == self@.dead_letters.len(),
    {
        self.dead_letters.len()
    }

    /// The row of the pending table with this identifier, if there is one.
    fn find_pending(&self, task_id: &String) -> (found: Option<usize>)
        ensures
            match found {
                Some(i) => i < self@.pending.len() && self@.pending[i as int].entry.task_id
                    == task_id@,
                None => !self@.has_pending(task_id@),
            },
    {
        let mut i: usize = 0;
        while i < self.pending.len()
            invariant
                i <= self.pending@.len(),
                forall|j: int| 0 <= j < i ==> (#[trigger] self@.pending[j]).entry.task_id != task_id@,
            decreases self.pending@.len() - i,
        {
            if self.pending[i].entry.task_id == *task_id {
                return Some(i);
            }
            i += 1;
        }
        None
    }

    /// Whether the pending table has a row with this identifier.
    pub fn is_pending(&self, task_id: &String) -> (found: bool)
        ensures
            found == self@.has_pending(task_id@),
    {
        self.find_pending(task_id).is_some()
    }

    /// Whether the dead-letter table has a row with this identifier.
    pub fn is_dead_letter(&self, job_id: &String) -> (found: bool)
        ensures
            found == self@.has_dead_letter(job_id@),
    {
        let mut i: usize = 0;
        while i < self.dead_letters.len()
            invariant
                i <= self.dead_letters@.len(),
                forall|j: int| 0 <= j < i ==> (#[trigger] self@.dead_letters[j]).job_id != job_id@,
            decreases self.dead_letters@.len() - i,
        {
            if self.dead_letters[i].job_id == *job_id {
                assert(self@.dead_letters[i as int].job_id == job_id@);
                return true;
            }
            i += 1;
        }
        false
    }

    /// The entries of the pending table, oldest first.
    pub fn pending_entries(&self) -> (entries: Vec<QueueEntry>)
        ensures
            entries@.len() == self@.pending.len(),
            forall|i: int|
                0 <= i < entries@.len() ==> (#[trigger] entries@[i])@ == self@.pending[i].entry,
    {
        let mut entries: Vec<QueueEntry> = Vec::new();
        let mut i: usize = 0;
        while i < self.pending.len()
            invariant
                i <= self.pending@.len(),
                entries@.len() == i,
                forall|j: int| 0 <= j < i ==> (#[trigger] entries@[j])@ == self@.pending[j].entry,
            decreases self.pending@.len() - i,
        {
            entries.push(self.pending[i].entry.clone());
            i += 1;
        }
        entries
    }

    /// The rows of the dead-letter table, oldest first.
    pub fn dead_letter_records(&self) -> (records: Vec<DeadLetterRecord>)
        ensures
            records@.len() == self@.dead_letters.len(),
            forall|i: int|
                0 <= i < records@.len() ==> (#[trigger] records@[i])@ == self@.dead_letters[i],
    {
        let mut records: Vec<DeadLetterRecord> = Vec::new();
        let mut i: usize = 0;
        while i < self.dead_letters.len()
            invariant
                i <= self.dead_letters@.len(),
                records@.len() == i,
                forall|j: int| 0 <= j < i ==> (#[trigger] records@[j])@ == self@.dead_letters[j],
            decreases self.dead_letters@.len() - i,
        {
            records.push(self.dead_letters[i].clone());
            i += 1;
        }
        records
    }

    /// Stages `entry` in the transaction `tx`. The pending table does not
    /// change before the transaction commits. An entry whose identifier is
    /// pending already, or staged already, is refused.
    pub fn enqueue(&self, tx: &mut QueueTransaction, entry: QueueEntry) -> (done: Result<
        (),
        StorageError,
    >)
        requires
            distinct_entries(old(tx)@),
        ensures
            distinct_entries(final(tx)@),
            done is Err <==> self@.has_pending(entry@.task_id) || stages(old(tx)@, entry@.task_id),
            done is Ok ==> final(tx)@ == old(tx)@.push(entry@),
            done is Err ==> done == Err::<(), StorageError>(StorageError::Conflict) && final(tx)@
                == old(tx)@,
    {
        if self.is_pending(&entry.task_id) || tx.has_staged(&entry.task_id) {
            return Err(StorageError::Conflict);
        }
        tx.staged.push(entry);
        proof {
            assert(tx@ =~= old(tx)@.push(entry@));
            assert forall|i: int, j: int| 0 <= i < j < tx@.len() implies (#[trigger] tx@[i]).task_id
                != (#[trigger] tx@[j]).task_id by {
                if j == tx@.len() - 1 {
                    assert(old(tx)@[i] == tx@[i]);
                } else {
                    assert(old(tx)@[i] == tx@[i]);
                    assert(old(tx)@[j] == tx@[j]);
                }
            }
        }
        Ok(())
    }

    /// Whether every staged entry of `tx` is absent from the pending table.
    fn admits_all(&self, tx: &QueueTransaction) -> (free: bool)
        ensures
            free == self@.admits(tx@),
    {
        let mut i: usize = 0;
        while i < tx.staged.len()
            invariant
                i <= tx.staged@.len(),
                forall|j: int| 0 <= j < i ==> !self@.has_pending((#[trigger] tx@[j]).task_id),
            decreases tx.staged@.len() - i,
        {
            if self.is_pending(&tx.staged[i].task_id) {
                assert(self@.has_pending(tx@[i as int].task_id));
                return false;
            }
            i += 1;
        }
        true
    }

    /// Commits `tx`: its entries become pending rows, in the order in which
    /// they were staged, or none of them does. The commit is refused when an
    /// identifier of the transaction has become pending in the meantime.
    pub fn commit(&mut self, tx: QueueTransaction) -> (done: Result<(), StorageError>)
        requires
            old(self)@.distinct_ids(),
            distinct_entries(tx@),
        ensures
            final(self)@.distinct_ids(),
            done is Ok <==> old(self)@.admits(tx@),
            done is Ok ==> final(self)@ == old(self)@.with_entries(tx@),
            done is Err ==> done == Err::<(), StorageError>(StorageError::Conflict) && final(self)@
                == old(self)@,
    {
        if !self.admits_all(&tx) {
            return Err(StorageError::Conflict);
        }
        let mut i: usize = 0;
        while i < tx.staged.len()
            invariant
                i <= tx.staged@.len(),
                self@.dead_letters == old(self)@.dead_letters,
                self@.pending =~= old(self)@.pending + fresh_rows(tx@.take(i as int)),
            decreases tx.staged@.len() - i,
        {
            let entry = tx.staged[i].clone();
            let ghost before = self@.pending;
            self.pending.push(PendingRow { entry, claimed: false });
            proof {
                let row = RowView { entry: tx@[i as int], claimed: false };
                assert(self@.pending =~= before.push(row));
                assert(fresh_rows(tx@.take(i + 1)) =~= fresh_rows(tx@.take(i as int)).push(row));
            }
            i += 1;
        }
        proof {
            assert(tx@.take(i as int) =~= tx@);
            lemma_commit_keeps_ids_distinct(old(self)@, tx@);
        }
        Ok(())
    }

    /// Claims the oldest row that no open claim holds, skipping every claimed
    /// row without waiting for it. `None` means that there is no such row;
    /// nothing has changed then. That it is the oldest row is the choice of
    /// this store: the laws below rest only on the row being unclaimed.
    pub fn dequeue_one(&mut self) -> (claim: Option<Claim>)
        requires
            old(self)@.distinct_ids(),
        ensures
            final(self)@.distinct_ids(),
            claim is None <==> old(self)@.all_claimed(),
            match old(self)@.first_unclaimed() {
                Some(i) => {
                    &&& claim matches Some(c)
                    &&& c.claimed() == old(self)@.pending[i].entry
                    &&& c.failure() is None
                    &&& final(self)@ == old(self)@.claimed_at(i)
                },
                None => claim is None && final(self)@ == old(self)@,
            },
    {
        let mut i: usize = 0;
        while i < self.pending.len()
            invariant
                *self == *old(self),
                old(self)@.distinct_ids(),
                i <= self.pending@.len(),
                forall|j: int| 0 <= j < i ==> (#[trigger] self@.pending[j]).claimed,
            decreases self.pending@.len() - i,
        {
            if !self.pending[i].claimed {
                let entry = self.pending[i].entry.clone();
                proof {
                    assert(self@.is_first_unclaimed(i as int));
                    lemma_first_unclaimed_is_unique(self@, i as int);
                }
                self.pending[i].claimed = true;
                proof {
                    assert(!old(self)@.pending[i as int].claimed);
                    assert(self@.pending =~= old(self)@.claimed_at(i as int).pending);
                    assert(self@.dead_letters =~= old(self)@.dead_letters);
                    lemma_flag_keeps_ids_distinct(old(self)@, self@);
                }
                return Some(Claim { entry, failure: None });
            }
            i += 1;
        }
        proof {
            assert forall|k: int| !self@.is_first_unclaimed(k) by {}
        }
        None
    }

    /// Ends a claim by removing its row and committing: the entry is gone from
    /// the pending table, and the failure that the claim carries, if any, is
    /// written to the dead-letter table unless a row with its identifier
    /// exists there already.
    pub fn complete(&mut self, claim: Claim)
        requires
            old(self)@.distinct_ids(),
        ensures
            final(self)@.distinct_ids(),
            final(self)@ == old(self)@.settled(claim.claimed().task_id, claim.failure()),
    {
        let found = self.find_pending(&claim.entry.task_id);
        if let Some(i) = found {
            proof {
                lemma_position_is_unique(self@, claim.entry.task_id@, i as int);
            }
            self.pending.remove(i);
            proof {
                assert(self@.pending =~= old(self)@.without(claim.entry.task_id@).pending);
                assert(self@.dead_letters =~= old(self)@.dead_letters);
            }
        }
        assert(self@ == old(self)@.without(claim.entry.task_id@));
        if let Some(record) = claim.failure {
            if !self.is_dead_letter(&record.job_id) {
                let ghost before = self@;
                self.dead_letters.push(record);
                proof {
                    assert(self@.dead_letters =~= before.with_dead_letter(record@).dead_letters);
                    assert(self@.pending =~= before.pending);
                }
            }
        }
    }

    /// Ends a claim without doing anything: the row is released for the next
    /// claim, and the failure that the claim carries is dropped.
    pub fn abandon(&mut self, claim: Claim)
        requires
            old(self)@.distinct_ids(),
        ensures
            final(self)@.distinct_ids(),
            final(self)@ == old(self)@.released(claim.claimed().task_id),
    {
        let found = self.find_pending(&claim.entry.task_id);
        if let Some(i) = found {
            proof {
                lemma_position_is_unique(self@, claim.entry.task_id@, i as int);
            }
            self.pending[i].claimed = false;
            proof {
                assert(self@.pending =~= old(self)@.released(claim.entry.task_id@).pending);
                assert(self@.dead_letters =~= old(self)@.dead_letters);
                lemma_flag_keeps_ids_distinct(old(self)@, self@);
            }
        }
    }
}

/// A store that differs from one with distinct identifiers only in the
/// claims on its rows has distinct identifiers too.
proof fn lemma_flag_keeps_ids_distinct(before: StoreView, after: StoreView)
    requires
        before.distinct_ids(),
        after.pending.len() == before.pending.len(),
        forall|i: int|
            0 <= i < before.pending.len() ==> (#[trigger] after.pending[i]).entry
                == before.pending[i].entry,
    ensures
        after.distinct_ids(),
{
    assert forall|i: int, j: int| 0 <= i < j < after.pending.len() implies (
    #[trigger] after.pending[i]).entry.task_id != (#[trigger] after.pending[j]).entry.task_id by {
        assert(before.pending[i].entry.task_id != before.pending[j].entry.task_id);
    }
}

/// Under distinct identifiers the row with a given identifier is unique.
proof fn lemma_position_is_unique(store: StoreView, task_id: Seq<char>, i: int)
    requires
        store.distinct_ids(),
        0 <= i < store.pending.len(),
        store.pending[i].entry.task_id == task_id,
    ensures
        store.has_pending(task_id),
        store.position(task_id) == Some(i),
{
    let k = choose|k: int|
        0 <= k < store.pending.len() && (#[trigger] store.pending[k]).entry.task_id == task_id;
    if k < i {
        assert(store.pending[k].entry.task_id != store.pending[i].entry.task_id);
    } else if i < k {
        assert(store.pending[i].entry.task_id != store.pending[k].entry.task_id);
    }
}

/// Rows that a commit adds keep the identifiers of the pending table distinct.
proof fn lemma_commit_keeps_ids_distinct(store: StoreView, staged: Seq<QueueEntryView>)
    requires
        store.distinct_ids(),
        distinct_entries(staged),
        store.admits(staged),
    ensures
        store.with_entries(staged).distinct_ids(),
{
    let after = store.with_entries(staged);
    let n = store.pending.len() as int;
    assert forall|i: int, j: int| 0 <= i < j < after.pending.len() implies (
    #[trigger] after.pending[i]).entry.task_id != (#[trigger] after.pending[j]).entry.task_id by {
        if j < n {
            assert(after.pending[i] == store.pending[i]);
            assert(after.pending[j] == store.pending[j]);
        } else if i < n {
            assert(after.pending[i] == store.pending[i]);
            assert(after.pending[j].entry == staged[j - n]);
            assert(!store.has_pending(staged[j - n].task_id));
        } else {
            assert(after.pending[i].entry == staged[i - n]);
            assert(after.pending[j].entry == staged[j - n]);
        }
    }
}

/// There is at most one oldest unclaimed row.
proof fn lemma_first_unclaimed_is_unique(store: StoreView, i: int)
    requires
        store.is_first_unclaimed(i),
    ensures
        store.first_unclaimed() == Some(i),
{
    let k = choose|k: int| store.is_first_unclaimed(k);
    if k < i {
        assert(store.pending[k].claimed);
    } else if i < k {
        assert(store.pending[i].claimed);
    }
}

/// The dead-letter row of a failed attempt names the task twice, as the key
/// of the row and inside its context, and the context also holds the address
/// and the error text.
pub proof fn law_dead_letter_names_its_task(entry: QueueEntryView, error: Seq<char>)
    ensures
        dead_letter_for(entry, error).job_id == entry.task_id,
        dead_letter_for(entry, error).task_id == entry.task_id,
        dead_letter_for(entry, error).email == entry.email,
        dead_letter_for(entry, error).error == error,
        dead_letter_for(entry, error).job_type == JobType::EmailDelivery,
{
}

/// A claim on a store without an unclaimed row hands out nothing, at once,
/// and a store whose pending table is empty is such a store.
pub proof fn law_empty_queue_yields_nothing(store: StoreView)
    ensures
        store.all_claimed() <==> store.first_unclaimed() is None,
        store.pending.len() == 0 ==> store.first_unclaimed() is None,
        store.first_unclaimed() is None ==> store.after_claim() == store,
{
    if !store.all_claimed() {
        let j = choose|j: int| 0 <= j < store.pending.len() && !(#[trigger] store.pending[j]).claimed;
        let i = lemma_first_unclaimed_exists(store, j);
    } else {
        assert forall|k: int| !store.is_first_unclaimed(k) by {
            if 0 <= k < store.pending.len() {
                assert(store.pending[k].claimed);
            }
        }
    }
}

/// An unclaimed row has an oldest unclaimed row at or before it.
proof fn lemma_first_unclaimed_exists(store: StoreView, j: int) -> (i: int)
    requires
        0 <= j < store.pending.len(),
        !store.pending[j].claimed,
    ensures
        0 <= i <= j,
        store.is_first_unclaimed(i),
        store.first_unclaimed() is Some,
    decreases j,
{
    if forall|k: int| 0 <= k < j ==> (#[trigger] store.pending[k]).claimed {
        assert(store.is_first_unclaimed(j));
        j
    } else {
        let k = choose|k: int| 0 <= k < j && !(#[trigger] store.pending[k]).claimed;
        lemma_first_unclaimed_exists(store, k)
    }
}

/// After the entry of a row was claimed, tried once and completed, the entry
/// is gone from the pending table and every other row is as it was. The
/// dead-letter table is as it was after a success; after a failure it has
/// grown by the row of this failure, unless a row with the identifier of the
/// entry was there before.
pub proof fn law_attempt_settles_entry(store: StoreView, i: int, error: Option<Seq<char>>)
    requires
        store.distinct_ids(),
        0 <= i < store.pending.len(),
    ensures
        store.attempted(i, error).distinct_ids(),
        !store.attempted(i, error).has_pending(store.pending[i].entry.task_id),
        store.attempted(i, error).pending == store.pending.remove(i),
        error is None ==> store.attempted(i, error).dead_letters == store.dead_letters,
        error matches Some(text) ==> store.attempted(i, error).dead_letters == if store.has_dead_letter(
            store.pending[i].entry.task_id,
        ) {
            store.dead_letters
        } else {
            store.dead_letters.push(dead_letter_for(store.pending[i].entry, text))
        },
        store.attempted(i, error).dead_letters.len() == store.dead_letters.len() + 1 <==> error is Some
            && !store.has_dead_letter(store.pending[i].entry.task_id),
        store.attempted(i, error).dead_letters.len() == store.dead_letters.len()
            || store.attempted(i, error).dead_letters.len() == store.dead_letters.len() + 1,
{
    let entry = store.pending[i].entry;
    let claimed = store.claimed_at(i);
    lemma_flag_keeps_ids_distinct(store, claimed);
    lemma_position_is_unique(claimed, entry.task_id, i);
    let removed = claimed.without(entry.task_id);
    assert(removed.pending =~= store.pending.remove(i));
    assert(removed.dead_letters == store.dead_letters);
    assert forall|a: int, b: int| 0 <= a < b < removed.pending.len() implies (
    #[trigger] removed.pending[a]).entry.task_id != (#[trigger] removed.pending[b]).entry.task_id by {
        let a0 = if a < i { a } else { a + 1 };
        let b0 = if b < i { b } else { b + 1 };
        assert(removed.pending[a] == store.pending[a0]);
        assert(removed.pending[b] == store.pending[b0]);
    }
    assert(!removed.has_pending(entry.task_id)) by {
        if removed.has_pending(entry.task_id) {
            let a = choose|a: int|
                0 <= a < removed.pending.len() && (#[trigger] removed.pending[a]).entry.task_id
                    == entry.task_id;
            let a0 = if a < i { a } else { a + 1 };
            assert(removed.pending[a] == store.pending[a0]);
            if a0 < i {
                assert(store.pending[a0].entry.task_id != store.pending[i].entry.task_id);
            } else {
                assert(store.pending[i].entry.task_id != store.pending[a0].entry.task_id);
            }
        }
    }
    assert(removed.has_dead_letter(entry.task_id) == store.has_dead_letter(entry.task_id));
}

/// Claiming the oldest unclaimed row leaves one unclaimed row less.
proof fn lemma_claim_takes_one(store: StoreView, i: int)
    requires
        0 <= i < store.pending.len(),
        !store.pending[i].claimed,
    ensures
        store.unclaimed() == store.claimed_at(i).unclaimed() + 1,
{
    lemma_count_after_claim(store.pending, i);
}

/// Marking an unclaimed row of `rows` as claimed lowers the count by one.
proof fn lemma_count_after_claim(rows: Seq<RowView>, i: int)
    requires
        0 <= i < rows.len(),
        !rows[i].claimed,
    ensures
        count_unclaimed(rows) == count_unclaimed(
            rows.update(i, RowView { entry: rows[i].entry, claimed: true }),
        ) + 1,
    decreases rows.len(),
{
    let marked = rows.update(i, RowView { entry: rows[i].entry, claimed: true });
    if i == rows.len() - 1 {
        assert(marked.drop_last() =~= rows.drop_last());
    } else {
        lemma_count_after_claim(rows.drop_last(), i);
        assert(marked.drop_last() =~= rows.drop_last().update(
            i,
            RowView { entry: rows[i].entry, claimed: true },
        ));
        assert(marked.last() == rows.last());
    }
}

/// Rows that are all claimed count as zero unclaimed rows.
proof fn lemma_count_of_claimed(rows: Seq<RowView>)
    requires
        forall|k: int| 0 <= k < rows.len() ==> (#[trigger] rows[k]).claimed,
    ensures
        count_unclaimed(rows) == 0,
    decreases rows.len(),
{
    if rows.len() > 0 {
        assert forall|k: int| 0 <= k < rows.drop_last().len() implies (
        #[trigger] rows.drop_last()[k]).claimed by {
            assert(rows.drop_last()[k] == rows[k]);
        }
        lemma_count_of_claimed(rows.drop_last());
        assert(rows.last() == rows[rows.len() - 1]);
    }
}

/// Concurrent claims never share an entry. When `n` workers claim one after
/// the other, none of them completing in between, and at least `n` rows are
/// unclaimed, every worker gets an entry, each of these entries was pending
/// and unclaimed before, and no two of them have the same identifier.
pub proof fn law_concurrent_claims_are_distinct(store: StoreView, n: nat)
    requires
        store.distinct_ids(),
        n <= store.unclaimed(),
    ensures
        store.claims(n).len() == n,
        forall|k: int|
            0 <= k < n ==> (#[trigger] store.claims(n)[k]) is Some && store.offers(
                store.claims(n)[k]->0,
            ),
        forall|k: int, l: int|
            0 <= k < l < n ==> (#[trigger] store.claims(n)[k])->0.task_id != (
            #[trigger] store.claims(n)[l])->0.task_id,
    decreases n,
{
    if n > 0 {
        if store.all_claimed() {
            lemma_count_of_claimed(store.pending);
        }
        let j = choose|j: int| 0 <= j < store.pending.len() && !(#[trigger] store.pending[j]).claimed;
        let i0 = lemma_first_unclaimed_exists(store, j);
        let i = store.first_unclaimed()->0;
        lemma_first_unclaimed_is_unique(store, i0);
        assert(i == i0);
        let next = store.claimed_at(i);
        assert(store.after_claim() == next);
        lemma_claim_takes_one(store, i);
        lemma_flag_keeps_ids_distinct(store, next);
        let rest = next.claims((n - 1) as nat);
        law_concurrent_claims_are_distinct(next, (n - 1) as nat);
        let all = store.claims(n);
        assert(all =~= seq![Some(store.pending[i].entry)] + rest);
        assert(all[0] == Some(store.pending[i].entry));
        assert(store.offers(store.pending[i].entry));
        assert forall|k: int| 0 <= k < n implies (#[trigger] all[k]) is Some && store.offers(
            all[k]->0,
        ) && (k > 0 ==> all[k]->0.task_id != store.pending[i].entry.task_id) by {
            if k > 0 {
                assert(all[k] == rest[k - 1]);
                let entry = rest[k - 1]->0;
                assert(next.offers(entry));
                let r = choose|r: int|
                    0 <= r < next.pending.len() && !(#[trigger] next.pending[r]).claimed
                        && next.pending[r].entry == entry;
                assert(r != i);
                assert(next.pending[r] == store.pending[r]);
                if r < i {
                    assert(store.pending[r].entry.task_id != store.pending[i].entry.task_id);
                } else {
                    assert(store.pending[i].entry.task_id != store.pending[r].entry.task_id);
                }
            }
        }
        assert forall|k: int, l: int| 0 <= k < l < n implies (#[trigger] all[k])->0.task_id != (
        #[trigger] all[l])->0.task_id by {
            if k == 0 {
                assert(all[l] is Some);
            } else {
                assert(all[k] == rest[k - 1]);
                assert(all[l] == rest[l - 1]);
            }
        }
    }
}

/// An entry is pending after a commit exactly if it was pending before or
/// the committed transaction had staged it; rows that were there keep their
/// place and their claims, and the dead-letter table is not touched.
pub proof fn law_entries_appear_on_commit(
    store: StoreView,
    staged: Seq<QueueEntryView>,
    task_id: Seq<char>,
)
    ensures
        store.with_entries(staged).has_pending(task_id) <==> store.has_pending(task_id) || stages(
            staged,
            task_id,
        ),
        store.with_entries(staged).pending.len() == store.pending.len() + staged.len(),
        forall|i: int|
            0 <= i < store.pending.len() ==> (#[trigger] store.with_entries(staged).pending[i])
                == store.pending[i],
        store.with_entries(staged).dead_letters == store.dead_letters,
{
    let after = store.with_entries(staged);
    let n = store.pending.len() as int;
    if store.has_pending(task_id) {
        let i = choose|i: int|
            0 <= i < store.pending.len() && (#[trigger] store.pending[i]).entry.task_id == task_id;
        assert(after.pending[i].entry.task_id == task_id);
    }
    if stages(staged, task_id) {
        let j = choose|j: int| 0 <= j < staged.len() && (#[trigger] staged[j]).task_id == task_id;
        assert(after.pending[n + j].entry.task_id == task_id);
    }
    if after.has_pending(task_id) {
        let k = choose|k: int|
            0 <= k < after.pending.len() && (#[trigger] after.pending[k]).entry.task_id == task_id;
        if k < n {
            assert(store.pending[k].entry.task_id == task_id);
        } else {
            assert(staged[k - n].task_id == task_id);
        }
    }
}

} // verus!

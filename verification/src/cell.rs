//! Single-slot broadcast cells.
//!
//! A cell holds the value of the most recent write and nothing older. One task writes;
//! any task may read the latest value; up to `N` subscribed readers are told of changes,
//! each at most once per change and always with the newest value.

use vstd::prelude::*;

verus! {

/// What a broadcast cell holds, as a mathematical value.
#[verifier::ext_equal]
pub struct CellState<T> {
    /// The value of the most recent write, if there was one.
    pub latest: Option<T>,
    /// The number of writes so far.
    pub version: nat,
    /// For each subscribed reader, the version that it observed last.
    pub observed: Seq<nat>,
}

impl<T> CellState<T> {
    /// A cell that was never written and has no subscribed reader.
    pub open spec fn initial() -> Self {
        CellState { latest: None, version: 0, observed: Seq::empty() }
    }

    /// A value is held exactly when a write happened, and no reader is ahead of the cell.
    pub open spec fn wf(self) -> bool {
        &&& self.version == 0 <==> self.latest is None
        &&& forall|r: int| 0 <= r < self.observed.len() ==> self.observed[r] <= self.version
    }

    /// The cell after a write of `value`.
    pub open spec fn write(self, value: T) -> Self {
        CellState { latest: Some(value), version: self.version + 1, observed: self.observed }
    }

    /// The cell after each value of `values` was written in turn.
    pub open spec fn write_all(self, values: Seq<T>) -> Self
        decreases values.len(),
    {
        if values.len() == 0 {
            self
        } else {
            self.write_all(values.drop_last()).write(values.last())
        }
    }

    /// The cell with one more subscribed reader, which has observed nothing yet.
    pub open spec fn subscribe(self) -> Self {
        CellState { latest: self.latest, version: self.version, observed: self.observed.push(0) }
    }

    /// Reader `r` is subscribed.
    pub open spec fn knows(self, r: int) -> bool {
        0 <= r < self.observed.len()
    }

    /// A write happened that reader `r` has not observed.
    pub open spec fn has_update(self, r: int) -> bool {
        self.knows(r) && self.observed[r] < self.version
    }

    /// What a poll for a change hands to reader `r`.
    pub open spec fn poll(self, r: int) -> Option<T> {
        if self.has_update(r) {
            self.latest
        } else {
            None
        }
    }

    /// The cell after reader `r` has observed the current version.
    pub open spec fn observe(self, r: int) -> Self {
        if self.knows(r) {
            CellState {
                latest: self.latest,
                version: self.version,
                observed: self.observed.update(r, self.version),
            }
        } else {
            self
        }
    }
}

/// A cell that was never written holds no value. After a write it holds the written value,
/// and keeps it through every subscription and every observation: only the next write
/// changes it.
pub proof fn lemma_value_stays_until_next_write<T>(cell: CellState<T>, value: T, r: int)
    ensures
        CellState::<T>::initial().latest is None,
        cell.write(value).latest == Some(value),
        cell.subscribe().latest == cell.latest,
        cell.observe(r).latest == cell.latest,
{
}

/// Every operation keeps a well-formed cell well-formed, and a new cell is well-formed.
pub proof fn lemma_wf_is_kept<T>(cell: CellState<T>, value: T, r: int)
    requires
        cell.wf(),
    ensures
        CellState::<T>::initial().wf(),
        cell.write(value).wf(),
        cell.subscribe().wf(),
        cell.observe(r).wf(),
{
}

/// The version only advances: by one with each write, and not at all otherwise.
pub proof fn lemma_version_advances<T>(cell: CellState<T>, values: Seq<T>, r: int)
    ensures
        cell.write_all(values).version == cell.version + values.len(),
        cell.write_all(values).observed == cell.observed,
        cell.subscribe().version == cell.version,
        cell.observe(r).version == cell.version,
    decreases values.len(),
{
    if values.len() > 0 {
        lemma_version_advances(cell, values.drop_last(), r);
    }
}

/// Writes are not queued. After any number of writes, one or more, a subscribed reader's
/// poll yields the value written last; having observed it, the reader has nothing more to
/// get until the next write.
pub proof fn lemma_poll_yields_newest<T>(cell: CellState<T>, values: Seq<T>, r: int)
    requires
        cell.wf(),
        cell.knows(r),
        values.len() > 0,
    ensures
        cell.write_all(values).poll(r) == Some(values.last()),
        cell.write_all(values).observe(r).poll(r) is None,
{
    lemma_version_advances(cell, values, r);
}

/// A reader that has observed the cell gets nothing from a poll while no write happens,
/// and a reader that is new to a cell gets the value that the cell already holds.
pub proof fn lemma_poll_without_write<T>(cell: CellState<T>, r: int)
    requires
        cell.wf(),
    ensures
        cell.observe(r).poll(r) is None,
        cell.subscribe().poll(cell.observed.len() as int) == cell.latest,
{
}

/// The handle of a subscribed reader: its position among the readers of its cell.
#[derive(Clone, Copy, Debug)]
pub struct Reader {
    slot: usize,
}

impl Reader {
    /// The position, counted from zero in the order of subscription.
    pub closed spec fn index(self) -> int {
        self.slot as int
    }
}

/// A single-slot, last-value-wins holder of a `T` with change notification for up to `N`
/// subscribed readers.
pub struct BroadcastCell<T: Copy, const N: usize> {
    slot: Option<T>,
    /// `pending[r]` is set while reader `r` has a write to observe.
    pending: [bool; N],
    readers: usize,
    version: Ghost<nat>,
    observed: Ghost<Seq<nat>>,
}

impl<T: Copy, const N: usize> View for BroadcastCell<T, N> {
    type V = CellState<T>;

    closed spec fn view(&self) -> CellState<T> {
        CellState { latest: self.slot, version: self.version@, observed: self.observed@ }
    }
}

impl<T: Copy, const N: usize> BroadcastCell<T, N> {
    #[verifier::type_invariant]
    spec fn inv(self) -> bool {
        &&& self@.wf()
        &&& self.readers <= N
        &&& self.observed@.len() == self.readers
        &&& forall|r: int|
            0 <= r < self.readers ==> self.pending@[r] == (self.observed@[r] < self.version@)
    }

    /// A cell without a value and without subscribed readers.
    pub fn new() -> (cell: Self)
        ensures
            cell@ == CellState::<T>::initial(),
    {
        BroadcastCell {
            slot: None,
            pending: [false;N],
            readers: 0,
            version: Ghost(0),
            observed: Ghost(Seq::empty()),
        }
    }

    /// Stores `value` in place of whatever was held and advances the version, so that every
    /// subscribed reader has a change to observe. A task that waits for a change of this
    /// cell is due to run again after this call.
    pub fn write(&mut self, value: T)
        ensures
            final(self)@ == old(self)@.write(value),
            final(self)@.wf(),
            forall|r: int| final(self)@.knows(r) ==> final(self)@.has_update(r),
    {
        proof {
            use_type_invariant(&*self);
        }
        *self =
        BroadcastCell {
            slot: Some(value),
            pending: [true;N],
            readers: self.readers,
            version: Ghost(self.version@ + 1),
            observed: self.observed,
        };
    }

    /// The most recently written value, or `None` before the first write.
    pub fn read_latest(&self) -> (value: Option<T>)
        ensures
            value == self@.latest,
            self@.wf(),
    {
        proof {
            use_type_invariant(self);
        }
        self.slot
    }

    /// The number of subscribed readers.
    pub fn reader_count(&self) -> (count: usize)
        ensures
            count == self@.observed.len(),
            count <= N,
    {
        proof {
            use_type_invariant(self);
        }
        self.readers
    }

    /// Subscribes one more reader, if fewer than `N` are subscribed. The new reader has
    /// observed nothing: a value written earlier counts as a change for it.
    pub fn subscribe(&mut self) -> (reader: Option<Reader>)
        ensures
            final(self)@.wf(),
            old(self)@.observed.len() < N ==> final(self)@ == old(self)@.subscribe(),
            old(self)@.observed.len() < N ==> (reader matches Some(r) && r.index() == old(
                self,
            )@.observed.len()),
            old(self)@.observed.len() >= N ==> final(self)@ == old(self)@ && reader is None,
    {
        proof {
            use_type_invariant(&*self);
        }
        if self.readers < N {
            let slot: usize = self.readers;
            let mut pending = self.pending;
            pending[slot] = self.slot.is_some();
            *self =
            BroadcastCell {
                slot: self.slot,
                pending,
                readers: slot + 1,
                version: self.version,
                observed: Ghost(self.observed@.push(0)),
            };
            Some(Reader { slot })
        } else {
            None
        }
    }

    /// Hands `reader` the latest value if a write happened since it last got one, and marks
    /// that write as observed. Writes in between are not queued: only the newest is
    /// delivered. Returns `None` when nothing changed: the reader's task then waits for the
    /// next write before it polls again. A cell knows a reader by its position alone; a
    /// position at which no reader is subscribed gets `None`.
    pub fn poll_change(&mut self, reader: Reader) -> (value: Option<T>)
        ensures
            value == old(self)@.poll(reader.index()),
            value is Some <==> old(self)@.has_update(reader.index()),
            final(self)@ == old(self)@.observe(reader.index()),
            final(self)@.wf(),
    {
        proof {
            use_type_invariant(&*self);
        }
        if reader.slot < self.readers && self.pending[reader.slot] {
            let mut pending = self.pending;
            pending[reader.slot] = false;
            *self =
            BroadcastCell {
                slot: self.slot,
                pending,
                readers: self.readers,
                version: self.version,
                observed: Ghost(self.observed@.update(reader.slot as int, self.version@)),
            };
            self.slot
        } else {
            assert(self@.observe(reader.index()) =~= self@);
            None
        }
    }
}

} // verus!

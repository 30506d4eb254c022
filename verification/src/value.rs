//! A value that is updated over time, with a count of its updates, and the
//! waits for its next updates.
use vstd::prelude::*;

verus! {

/// The latest of a series of values, with the number of updates so far.
pub struct ValueCell<T> {
    counter: usize,
    value: T,
}

impl<T: Copy + Default> ValueCell<T> {
    /// Number of updates so far.
    pub closed spec fn count(&self) -> usize {
        self.counter
    }

    /// The latest value.
    pub closed spec fn current(&self) -> T {
        self.value
    }

    /// A cell holding `T::default()` that was never updated.
    pub fn new() -> (r: Self)
        ensures
            r.count() == 0,
            call_ensures(T::default, (), r.current()),
    {
        ValueCell { counter: 0, value: T::default() }
    }

    pub fn get(&self) -> (r: T)
        ensures
            r == self.current(),
    {
        self.value
    }

    pub fn update(&mut self, value: T)
        requires
            old(self).count() < usize::MAX,
        ensures
            final(self).count() == old(self).count() + 1,
            final(self).current() == value,
    {
        self.counter = self.counter + 1;
        self.value = value;
    }

    /// A wait for the next update of this cell.
    pub fn next(&self) -> (r: NextValue)
        requires
            self.count() < usize::MAX,
        ensures
            r.counter == self.count() + 1,
    {
        NextValue { counter: self.counter + 1 }
    }

    /// A stream of the updates of this cell from now on.
    pub fn stream(&self) -> (r: ValueStream)
        ensures
            r.counter == self.count(),
    {
        ValueStream { counter: self.update_count() }
    }

    /// Number of updates so far.
    pub fn update_count(&self) -> (r: usize)
        ensures
            r == self.count(),
    {
        self.counter
    }
}

/// A wait for a cell to reach `counter` updates.
#[derive(Clone, Copy, PartialEq, Eq, Structural, Debug)]
pub struct NextValue {
    pub counter: usize,
}

impl NextValue {
    /// The cell's latest value once it has had `counter` updates, nothing
    /// before.
    pub open spec fn poll_spec<T: Copy + Default>(self, cell: ValueCell<T>) -> Option<T> {
        if cell.count() >= self.counter {
            Some(cell.current())
        } else {
            None
        }
    }

    /// The cell's latest value once it has had `counter` updates, nothing
    /// before.
    pub fn poll<T: Copy + Default>(&self, cell: &ValueCell<T>) -> (r: Option<T>)
        ensures
            r == self.poll_spec(*cell),
    {
        if cell.update_count() >= self.counter {
            Some(cell.get())
        } else {
            None
        }
    }
}

/// The position of a reader in the updates of a cell.
#[derive(Clone, Copy, PartialEq, Eq, Structural, Debug)]
pub struct ValueStream {
    pub counter: usize,
}

impl ValueStream {
    /// A wait for the first update after the ones this stream has seen and
    /// the ones the cell had when the stream last asked.
    pub fn next<T: Copy + Default>(&mut self, cell: &ValueCell<T>) -> (r: NextValue)
        requires
            cell.count() < usize::MAX,
            old(self).counter < usize::MAX,
        ensures
            r.counter == if cell.count() > old(self).counter {
                cell.count()
            } else {
                old(self).counter
            },
            final(self).counter == r.counter + 1,
    {
        let current = cell.update_count();
        let counter = if current > self.counter {
            current
        } else {
            self.counter
        };
        self.counter = counter + 1;
        NextValue { counter }
    }
}

/// A wait for the next value is not over on the cell it was made from, and
/// once the cell is updated it is over with the value the update wrote.
pub proof fn lemma_next_waits_for_update<T: Copy + Default>(cell: ValueCell<T>, updated: ValueCell<T>, value: T)
    requires
        cell.count() < usize::MAX,
        updated.count() == cell.count() + 1,
        updated.current() == value,
    ensures
        (NextValue { counter: (cell.count() + 1) as usize }).poll_spec(cell) is None,
        (NextValue { counter: (cell.count() + 1) as usize }).poll_spec(updated) == Some(value),
{
}

/// Successive waits taken from a stream never wait for the same update twice.
pub proof fn lemma_stream_advances(first: NextValue, stream: ValueStream, second: NextValue, count: usize)
    requires
        stream.counter == first.counter + 1,
        second.counter == if count > stream.counter {
            count
        } else {
            stream.counter
        },
    ensures
        second.counter > first.counter,
{
}

} // verus!

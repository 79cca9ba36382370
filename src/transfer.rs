use vstd::prelude::*;

use crate::error::Error;

verus! {

/// Name and size of a partition, as the device's partition table gives them.
#[derive(Debug, Clone, PartialEq, Eq)]
pub struct PartitionDescriptor {
    pub name: String,
    pub size: u64,
}

/// Index of the first entry of `table` named `name`, if any.
pub open spec fn partition_index(table: Seq<PartitionDescriptor>, name: Seq<char>) -> Option<int>
    decreases table.len(),
{
    if table.len() == 0 {
        None
    } else if table.last().name@ == name && partition_index(table.drop_last(), name) is None {
        Some(table.len() - 1)
    } else {
        partition_index(table.drop_last(), name)
    }
}

proof fn lemma_partition_index(table: Seq<PartitionDescriptor>, name: Seq<char>)
    ensures
        match partition_index(table, name) {
            None => forall|j: int| 0 <= j < table.len() ==> (#[trigger] table[j]).name@ != name,
            Some(k) => 0 <= k < table.len() && table[k].name@ == name
                && forall|j: int| 0 <= j < k ==> (#[trigger] table[j]).name@ != name,
        },
    decreases table.len(),
{
    if table.len() > 0 {
        lemma_partition_index(table.drop_last(), name);
        assert forall|j: int| 0 <= j < table.len() - 1 implies #[trigger] table[j] == table.drop_last()[j] by {}
    }
}

/// Resolves a partition name to its descriptor; the first entry of that
/// name wins.
pub fn find_partition(table: &Vec<PartitionDescriptor>, name: &String) -> (r: Result<PartitionDescriptor, Error>)
    ensures
        match partition_index(table@, name@) {
            None => r == Err::<PartitionDescriptor, Error>(Error::PartitionNotFound),
            Some(k) => r == Ok::<PartitionDescriptor, Error>(table@[k]),
        },
{
    let mut i: usize = 0;
    while i < table.len()
        invariant
            0 <= i <= table@.len(),
            forall|j: int| 0 <= j < i ==> (#[trigger] table@[j]).name@ != name@,
        decreases table@.len() - i,
    {
        if table[i].name == *name {
            let found = PartitionDescriptor { name: table[i].name.clone(), size: table[i].size };
            proof {
                lemma_partition_index(table@, name@);
            }
            return Ok(found);
        }
        i = i + 1;
    }
    proof {
        lemma_partition_index(table@, name@);
    }
    Err(Error::PartitionNotFound)
}

/// Number of chunks of at most `c` bytes that move `n` bytes; an empty
/// transfer still takes one step.
pub open spec fn chunk_count(n: int, c: int) -> int {
    if n == 0 {
        1
    } else {
        (n + c - 1) / c
    }
}

/// Progress of one chunked transfer of `total` bytes in chunks of
/// `chunk_size` bytes.
pub struct Transfer {
    total: u64,
    chunk_size: u64,
    done: u64,
    calls: u64,
    failed: bool,
}

impl Transfer {
    pub closed spec fn total(&self) -> u64 {
        self.total
    }

    pub closed spec fn chunk(&self) -> u64 {
        self.chunk_size
    }

    /// Bytes moved so far: the sum of the chunks completed.
    pub closed spec fn done(&self) -> u64 {
        self.done
    }

    /// Progress reports handed out so far, one per completed chunk.
    pub closed spec fn calls(&self) -> u64 {
        self.calls
    }

    pub closed spec fn failed(&self) -> bool {
        self.failed
    }

    pub closed spec fn wf(&self) -> bool {
        &&& self.chunk_size > 0
        &&& self.done <= self.total
        &&& self.done as int == if self.calls as int * self.chunk_size as int >= self.total as int {
            self.total as int
        } else {
            self.calls as int * self.chunk_size as int
        }
        &&& (self.calls <= 1 || (self.calls as int - 1) * (self.chunk_size as int) < (self.total as int))
    }

    /// Every chunk has been moved and reported at least once.
    pub open spec fn finished(&self) -> bool {
        self.calls() >= 1 && self.done() == self.total()
    }

    /// Size of the chunk that comes next.
    pub open spec fn next_size(&self) -> u64 {
        if self.total() - self.done() < self.chunk() {
            (self.total() - self.done()) as u64
        } else {
            self.chunk()
        }
    }

    /// A transfer that has moved nothing yet.
    pub fn new(total: u64, chunk_size: u64) -> (r: Transfer)
        requires
            chunk_size > 0,
        ensures
            r.wf(),
            r.total() == total,
            r.chunk() == chunk_size,
            r.done() == 0,
            r.calls() == 0,
            !r.failed(),
    {
        Transfer { total, chunk_size, done: 0, calls: 0, failed: false }
    }

    /// Size of the next chunk to move, or none once the transfer is finished
    /// or has failed.
    pub fn next_chunk(&self) -> (r: Option<u64>)
        requires
            self.wf(),
        ensures
            (self.failed() || self.finished()) ==> r is None,
            !(self.failed() || self.finished()) ==> r == Some(self.next_size()),
    {
        if self.failed || (self.calls >= 1 && self.done == self.total) {
            None
        } else if self.total - self.done < self.chunk_size {
            Some(self.total - self.done)
        } else {
            Some(self.chunk_size)
        }
    }

    /// Records that the next chunk was moved, and returns the progress report
    /// (bytes moved so far, total bytes) that observers are given for it.
    pub fn chunk_done(&mut self) -> (r: (u64, u64))
        requires
            old(self).wf(),
            !old(self).failed(),
            !old(self).finished(),
        ensures
            final(self).wf(),
            final(self).total() == old(self).total(),
            final(self).chunk() == old(self).chunk(),
            final(self).done() == old(self).done() + old(self).next_size(),
            final(self).calls() == old(self).calls() + 1,
            !final(self).failed(),
            final(self).done() >= old(self).done(),
            r == (final(self).done(), final(self).total()),
    {
        let n: u64 = if self.total - self.done < self.chunk_size {
            self.total - self.done
        } else {
            self.chunk_size
        };
        proof {
            let c = self.chunk_size as int;
            let k = self.calls as int;
            assert(k * c + c == (k + 1) * c) by (nonlinear_arith);
            if k >= 1 {
                assert(k * c >= c) by (nonlinear_arith)
                    requires k >= 1, c > 0;
                assert(k * c >= k) by (nonlinear_arith)
                    requires k >= 1, c > 0;
            }
        }
        self.done = self.done + n;
        self.calls = self.calls + 1;
        (self.done, self.total)
    }

    /// Records that moving the next chunk failed: the transfer is over, no
    /// further chunk is offered and no further report is given.
    pub fn chunk_failed(&mut self, msg: String) -> (r: Error)
        requires
            old(self).wf(),
        ensures
            final(self).wf(),
            final(self).failed(),
            final(self).done() == old(self).done(),
            final(self).calls() == old(self).calls(),
            final(self).total() == old(self).total(),
            r == Error::Io(msg),
    {
        self.failed = true;
        Error::Io(msg)
    }

    /// Whether every chunk has been moved.
    pub fn is_finished(&self) -> (r: bool)
        ensures
            r == self.finished(),
    {
        self.calls >= 1 && self.done == self.total
    }
}

/// A finished transfer of N bytes in chunks of C bytes has reported progress
/// exactly ceil(N / C) times (once when N is 0), its chunks add up to exactly
/// N bytes, and its last report says that all N bytes were moved.
pub proof fn lemma_finished_counts(t: Transfer)
    requires
        t.wf(),
        t.finished(),
    ensures
        t.calls() == chunk_count(t.total() as int, t.chunk() as int),
        t.done() == t.total(),
{
    let n = t.total() as int;
    let c = t.chunk() as int;
    let k = t.calls() as int;
    if n > 0 {
        assert(k * c >= n);
        if k == 1 {
            assert((k - 1) * c == 0) by (nonlinear_arith)
                requires k == 1;
        }
        assert((k - 1) * c < n);
        assert((n + c - 1) / c == k) by (nonlinear_arith)
            requires k * c >= n, (k - 1) * c < n, c > 0, n > 0, k >= 1;
    } else {
        if k >= 2 {
            assert((k - 1) * c >= 0) by (nonlinear_arith)
                requires k >= 2, c > 0;
        }
    }
}

} // verus!

//! The memory arena: a bounded address space of heap cells with allocate,
//! read, write, free and an address-stable compaction pass.

use vstd::prelude::*;

verus! {

/// A failure raised by the memory arena.
#[derive(Debug, Clone, Copy, PartialEq, Eq, Structural)]
pub enum MemoryError {
    /// The arena is at its configured capacity.
    OutOfMemory { requested: usize, available: usize },
    /// The address was never allocated, or was already freed.
    InvalidAddress(u32),
    /// An access crossed the bounds of a cell.
    AccessViolation { address: u32, size: usize },
}

/// A heap-resident value, addressed by a 32-bit index.
#[derive(Debug, Clone)]
pub enum MemoryCell {
    Integer(i64),
    Bytes(Vec<u8>),
    String(String),
}

/// The mathematical model of a heap cell.
pub ghost enum AbsCell {
    Integer(i64),
    Bytes(Seq<u8>),
    Str(Seq<char>),
}

impl View for MemoryCell {
    type V = AbsCell;

    open spec fn view(&self) -> AbsCell {
        match self {
            MemoryCell::Integer(i) => AbsCell::Integer(*i),
            MemoryCell::Bytes(b) => AbsCell::Bytes(b@),
            MemoryCell::String(s) => AbsCell::Str(s@),
        }
    }
}

/// What allocation returns: on success, the next unused address; once the
/// cell count reaches the configured maximum (or the 32-bit address space is
/// exhausted), an `OutOfMemory` failure, and the arena is unchanged.
pub open spec fn spec_alloc(cells: Seq<Option<AbsCell>>, max: nat, c: AbsCell) -> (Seq<
    Option<AbsCell>,
>, Result<u32, MemoryError>) {
    if cells.len() < max && cells.len() <= u32::MAX {
        (cells.push(Some(c)), Ok(cells.len() as u32))
    } else {
        let avail = if cells.len() <= max { (max - cells.len()) as usize } else { 0 };
        (cells, Err(MemoryError::OutOfMemory { requested: 1, available: avail }))
    }
}

/// The length of the arena once every trailing tombstone is removed; no live
/// cell moves.
pub open spec fn trimmed_len(cells: Seq<Option<AbsCell>>) -> nat
    decreases cells.len(),
{
    if cells.len() == 0 || cells.last() is Some {
        cells.len()
    } else {
        trimmed_len(cells.drop_last())
    }
}

/// Runtime memory: a bounded arena of cells. Freed cells become tombstones,
/// so every other live address stays valid.
pub struct Memory {
    cells: Vec<Option<MemoryCell>>,
    max_size: usize,
}

impl View for Memory {
    type V = Seq<Option<AbsCell>>;

    closed spec fn view(&self) -> Seq<Option<AbsCell>> {
        self.cells@.map_values(
            |c: Option<MemoryCell>|
                match c {
                    Some(cell) => Some(cell@),
                    None => None,
                },
        )
    }
}

impl Memory {
    /// The configured maximum number of cells.
    pub closed spec fn capacity(&self) -> nat {
        self.max_size as nat
    }

    /// A fresh arena that will hold at most `max_size` cells.
    pub fn new(max_size: usize) -> (m: Memory)
        ensures
            m@ =~= Seq::<Option<AbsCell>>::empty(),
            m.capacity() == max_size,
    {
        Memory { cells: Vec::new(), max_size }
    }

    /// Allocates a new cell at the next unused address; addresses increase
    /// monotonically. Fails with `OutOfMemory` once the cell count reaches
    /// the configured maximum.
    pub fn allocate(&mut self, cell: MemoryCell) -> (r: Result<u32, MemoryError>)
        ensures
            (final(self)@, r) == spec_alloc(old(self)@, old(self).capacity(), cell@),
            final(self).capacity() == old(self).capacity(),
    {
        if self.cells.len() >= self.max_size || self.cells.len() > u32::MAX as usize {
            return Err(
                MemoryError::OutOfMemory {
                    requested: 1,
                    available: self.max_size.saturating_sub(self.cells.len()),
                },
            );
        }
        let addr = self.cells.len() as u32;
        self.cells.push(Some(cell));
        proof {
            assert(self@ =~= old(self)@.push(Some(cell@)));
        }
        Ok(addr)
    }

    /// Reads the live cell at `addr`; fails with `InvalidAddress` for an
    /// address never allocated or already freed.
    pub fn read(&self, addr: u32) -> (r: Result<&MemoryCell, MemoryError>)
        ensures
            match r {
                Ok(c) => addr < self@.len() && self@[addr as int] == Some(c@),
                Err(e) => {
                    &&& (addr >= self@.len() || self@[addr as int] is None)
                    &&& e == MemoryError::InvalidAddress(addr)
                },
            },
    {
        if (addr as usize) < self.cells.len() {
            match &self.cells[addr as usize] {
                Some(c) => Ok(c),
                None => Err(MemoryError::InvalidAddress(addr)),
            }
        } else {
            Err(MemoryError::InvalidAddress(addr))
        }
    }

    /// Overwrites the live cell at `addr`; fails with `InvalidAddress` for an
    /// address never allocated or already freed, leaving the arena unchanged.
    pub fn write(&mut self, addr: u32, cell: MemoryCell) -> (r: Result<(), MemoryError>)
        ensures
            final(self).capacity() == old(self).capacity(),
            match r {
                Ok(_) => {
                    &&& addr < old(self)@.len()
                    &&& old(self)@[addr as int] is Some
                    &&& final(self)@ =~= old(self)@.update(addr as int, Some(cell@))
                },
                Err(e) => {
                    &&& (addr >= old(self)@.len() || old(self)@[addr as int] is None)
                    &&& e == MemoryError::InvalidAddress(addr)
                    &&& final(self)@ == old(self)@
                },
            },
    {
        if (addr as usize) < self.cells.len() {
            let live = self.cells[addr as usize].is_some();
            if live {
                self.cells.set(addr as usize, Some(cell));
                return Ok(());
            }
        }
        Err(MemoryError::InvalidAddress(addr))
    }

    /// Frees the live cell at `addr`, leaving a tombstone so that every other
    /// address stays stable; fails with `InvalidAddress` for an address never
    /// allocated or already freed.
    pub fn free(&mut self, addr: u32) -> (r: Result<(), MemoryError>)
        ensures
            final(self).capacity() == old(self).capacity(),
            match r {
                Ok(_) => {
                    &&& addr < old(self)@.len()
                    &&& old(self)@[addr as int] is Some
                    &&& final(self)@ =~= old(self)@.update(addr as int, None)
                },
                Err(e) => {
                    &&& (addr >= old(self)@.len() || old(self)@[addr as int] is None)
                    &&& e == MemoryError::InvalidAddress(addr)
                    &&& final(self)@ == old(self)@
                },
            },
    {
        if (addr as usize) < self.cells.len() {
            let live = self.cells[addr as usize].is_some();
            if live {
                self.cells.set(addr as usize, None);
                return Ok(());
            }
        }
        Err(MemoryError::InvalidAddress(addr))
    }

    /// Reclaims tombstoned cells at the tail of the arena. No live address
    /// ever moves: the cells that remain are exactly the prefix of the old
    /// arena up to its last live cell.
    pub fn gc(&mut self, roots: &[u32])
        ensures
            final(self)@ =~= old(self)@.subrange(0, trimmed_len(old(self)@) as int),
            final(self).capacity() == old(self).capacity(),
    {
        let _ = roots;
        loop
            invariant_except_break
                self.max_size == old(self).max_size,
                self@.len() <= old(self)@.len(),
                self@ =~= old(self)@.subrange(0, self@.len() as int),
                trimmed_len(self@) == trimmed_len(old(self)@),
            ensures
                self.max_size == old(self).max_size,
                self@ =~= old(self)@.subrange(0, trimmed_len(old(self)@) as int),
            decreases self.cells@.len(),
        {
            let n = self.cells.len();
            if n == 0 {
                proof {
                    assert(trimmed_len(self@) == 0);
                    assert(self@ =~= old(self)@.subrange(0, 0));
                }
                break;
            }
            let last_live = self.cells[n - 1].is_some();
            if last_live {
                proof {
                    assert(self@.last() is Some);
                    assert(trimmed_len(self@) == self@.len());
                }
                break;
            }
            let ghost prev = self@;
            proof {
                assert(prev.last() is None);
                assert(trimmed_len(prev) == trimmed_len(prev.drop_last()));
            }
            self.cells.pop();
            proof {
                assert(self@ =~= prev.drop_last());
                assert(self@ =~= old(self)@.subrange(0, self@.len() as int));
            }
        }
    }
}

/// If the cell just before `l` is live, the trimmed length is at least `l`.
proof fn lemma_trimmed_last_live(cells: Seq<Option<AbsCell>>, l: nat)
    requires
        0 < l <= cells.len(),
        cells[l - 1] is Some,
    ensures
        trimmed_len(cells) >= l,
    decreases cells.len(),
{
    if cells.len() > 0 && cells.last() is None {
        assert(l < cells.len());
        lemma_trimmed_last_live(cells.drop_last(), l);
    }
}

/// Law: allocation into an arena with room always succeeds, at the address
/// equal to the number of cells allocated so far; the new cell is readable
/// there and every other cell is unchanged.
pub proof fn lemma_alloc_fresh(cells: Seq<Option<AbsCell>>, max: nat, c: AbsCell)
    requires
        cells.len() < max,
        cells.len() <= u32::MAX,
    ensures
        ({
            let (m2, r) = spec_alloc(cells, max, c);
            &&& r == Ok::<u32, MemoryError>(cells.len() as u32)
            &&& m2.len() == cells.len() + 1
            &&& m2[cells.len() as int] == Some(c)
            &&& forall|i: int| 0 <= i < cells.len() ==> #[trigger] m2[i] == cells[i]
        }),
{
}

/// Law: across any sequence of allocations, successful addresses strictly
/// increase — an address is never reused, and each is at least the starting
/// cell count.
pub proof fn lemma_alloc_addresses_increase(
    cells: Seq<Option<AbsCell>>,
    max: nat,
    cs: Seq<AbsCell>,
)
    ensures
        ({
            let (m, rs) = spec_alloc_all(cells, max, cs);
            &&& rs.len() == cs.len()
            &&& forall|i: int|
                0 <= i < rs.len() && rs[i] is Ok ==> (#[trigger] rs[i])->Ok_0 >= cells.len()
            &&& forall|i: int, j: int|
                0 <= i < j < rs.len() && rs[i] is Ok && rs[j] is Ok ==> (#[trigger] rs[i])->Ok_0
                    < (#[trigger] rs[j])->Ok_0
        }),
    decreases cs.len(),
{
    if cs.len() > 0 {
        let (m1, r1) = spec_alloc(cells, max, cs[0]);
        let (m2, rs2) = spec_alloc_all(m1, max, cs.drop_first());
        let rs = seq![r1] + rs2;
        assert(spec_alloc_all(cells, max, cs).1 == rs);
        lemma_alloc_addresses_increase(m1, max, cs.drop_first());
        assert(rs[0] == r1);
        assert(forall|i: int| 1 <= i < rs.len() ==> #[trigger] rs[i] == rs2[i - 1]);
        assert(m1.len() >= cells.len());
        assert(r1 is Ok ==> r1->Ok_0 == cells.len() && m1.len() == cells.len() + 1);
    }
}

/// The results of a sequence of allocations, performed in order.
pub open spec fn spec_alloc_all(
    cells: Seq<Option<AbsCell>>,
    max: nat,
    cs: Seq<AbsCell>,
) -> (Seq<Option<AbsCell>>, Seq<Result<u32, MemoryError>>)
    decreases cs.len(),
{
    if cs.len() == 0 {
        (cells, Seq::empty())
    } else {
        let (m1, r1) = spec_alloc(cells, max, cs[0]);
        let (m2, rs) = spec_alloc_all(m1, max, cs.drop_first());
        (m2, seq![r1] + rs)
    }
}

/// Law: into a fresh arena of capacity `k`, the first `k` allocations all
/// succeed, at the addresses `0, 1, …, k − 1`, and the `(k + 1)`th fails
/// with `OutOfMemory`.
pub proof fn lemma_arena_capacity(k: nat, cs: Seq<AbsCell>)
    requires
        cs.len() == k + 1,
        k <= u32::MAX,
    ensures
        ({
            let (m, rs) = spec_alloc_all(Seq::empty(), k, cs);
            &&& rs.len() == k + 1
            &&& forall|i: int| 0 <= i < k ==> rs[i] == Ok::<u32, MemoryError>(i as u32)
            &&& rs[k as int] == Err::<u32, MemoryError>(
                MemoryError::OutOfMemory { requested: 1, available: 0 },
            )
        }),
{
    lemma_arena_fill(Seq::empty(), k, cs);
}

/// Generalisation of the capacity law to an arena already holding a prefix
/// of live cells.
proof fn lemma_arena_fill(cells: Seq<Option<AbsCell>>, max: nat, cs: Seq<AbsCell>)
    requires
        cells.len() + cs.len() == max + 1,
        max <= u32::MAX,
    ensures
        ({
            let (m, rs) = spec_alloc_all(cells, max, cs);
            &&& rs.len() == cs.len()
            &&& forall|i: int|
                0 <= i < cs.len() - 1 ==> rs[i] == Ok::<u32, MemoryError>((cells.len() + i) as u32)
            &&& cs.len() >= 1 ==> rs[cs.len() - 1] == Err::<u32, MemoryError>(
                MemoryError::OutOfMemory { requested: 1, available: 0 },
            )
        }),
    decreases cs.len(),
{
    if cs.len() == 0 {
        return;
    }
    let (m1, r1) = spec_alloc(cells, max, cs[0]);
    let (m2, rs2) = spec_alloc_all(m1, max, cs.drop_first());
    let rs = seq![r1] + rs2;
    assert(spec_alloc_all(cells, max, cs).1 == rs);
    if cs.len() == 1 {
        assert(cells.len() == max);
        assert(rs[0] == r1);
    } else {
        assert(cells.len() < max);
        lemma_arena_fill(m1, max, cs.drop_first());
        assert(rs[0] == r1);
        assert(forall|i: int| 1 <= i < cs.len() ==> #[trigger] rs[i] == rs2[i - 1]);
        assert(forall|i: int|
            1 <= i < cs.len() - 1 ==> #[trigger] rs2[i - 1] == Ok::<u32, MemoryError>((m1.len() + i - 1) as u32));
    }
}

} // verus!

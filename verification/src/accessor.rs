//! Hardware access strategies for operation regions.
//!
//! An operation region is a window onto one hardware address space. The
//! platform layer binds each region to a pair of read/write operations at
//! namespace-build time; everything above that pair treats the hardware as
//! an abstract array of 64-bit values. The binding is expressed here as the
//! capability trait [`AccessorOps`]: one implementation per address-space
//! kind, each free to carry whatever configuration it captured when it was
//! bound. [`Accessor`] is the memory-backed implementation, which captures a
//! word-addressed register window.

use vstd::prelude::*;

verus! {

/// A pair of hardware read/write operations bound to an operation region.
///
/// The abstract state of the hardware behind the accessor is its view; a
/// read is a function of that state, and a write maps it to a new state.
/// Every implementation must prove `read_agrees_on_equal_views` and
/// `write_agrees_on_equal_views`: two accessors with the same abstract
/// state — in particular an accessor and a copy of it — share their
/// read/write behavior.
pub trait AccessorOps: View + Sized {
    /// The value a read at `offset` yields, as a function of the accessor's
    /// abstract state.
    spec fn read_spec(&self, offset: usize) -> u64;

    /// The abstract state after `value` is written at `offset`.
    spec fn written_view(&self, offset: usize, value: u64) -> Self::V;

    /// Reads yield a function of the abstract state alone.
    proof fn read_agrees_on_equal_views(a: Self, b: Self, offset: usize)
        requires
            a@ == b@,
        ensures
            a.read_spec(offset) == b.read_spec(offset),
    ;

    /// Writes drive the abstract state as a function of it alone.
    proof fn write_agrees_on_equal_views(a: Self, b: Self, offset: usize, value: u64)
        requires
            a@ == b@,
        ensures
            a.written_view(offset, value) == b.written_view(offset, value),
    ;

    fn read(&self, offset: usize) -> (r: u64)
        ensures
            r == self.read_spec(offset),
    ;

    fn write(&mut self, offset: usize, value: u64)
        ensures
            final(self)@ == old(self).written_view(offset, value),
    ;
}

/// The memory-backed accessor: a word-addressed window of 64-bit cells,
/// captured when the region was bound. Reads outside the window yield zero
/// and writes outside it are dropped, so no firmware-chosen offset can
/// reach past the bound window.
pub struct Accessor {
    cells: Vec<u64>,
}

impl View for Accessor {
    type V = Seq<u64>;

    closed spec fn view(&self) -> Seq<u64> {
        self.cells@
    }
}

impl Accessor {
    /// Binds an accessor to the given window of cells.
    pub fn new(cells: Vec<u64>) -> (r: Accessor)
        ensures
            r@ == cells@,
    {
        Accessor { cells }
    }

    /// The number of cells in the bound window.
    pub fn window_len(&self) -> (r: usize)
        ensures
            r == self@.len(),
    {
        self.cells.len()
    }
}

impl AccessorOps for Accessor {
    open spec fn read_spec(&self, offset: usize) -> u64 {
        if offset < self@.len() {
            self@[offset as int]
        } else {
            0
        }
    }

    open spec fn written_view(&self, offset: usize, value: u64) -> Seq<u64> {
        if offset < self@.len() {
            self@.update(offset as int, value)
        } else {
            self@
        }
    }

    proof fn read_agrees_on_equal_views(a: Accessor, b: Accessor, offset: usize) {
    }

    proof fn write_agrees_on_equal_views(a: Accessor, b: Accessor, offset: usize, value: u64) {
    }

    fn read(&self, offset: usize) -> (r: u64) {
        if offset < self.cells.len() {
            self.cells[offset]
        } else {
            0
        }
    }

    fn write(&mut self, offset: usize, value: u64) {
        if offset < self.cells.len() {
            self.cells.set(offset, value);
        }
    }
}

impl Clone for Accessor {
    /// A copy of an accessor shares its abstract state, and with it — by
    /// `read_agrees_on_equal_views` — its read/write behavior.
    fn clone(&self) -> (r: Accessor)
        ensures
            r@ == self@,
    {
        Accessor { cells: clone_cells(&self.cells) }
    }
}

fn clone_cells(cells: &Vec<u64>) -> (r: Vec<u64>)
    ensures
        r@ == cells@,
{
    let mut r: Vec<u64> = Vec::new();
    let mut i: usize = 0;
    while i < cells.len()
        invariant
            i <= cells@.len(),
            r@ == cells@.subrange(0, i as int),
        decreases cells@.len() - i,
    {
        r.push(cells[i]);
        i = i + 1;
    }
    assert(r@ == cells@);
    r
}

} // verus!

use vstd::prelude::*;
use crate::bus::{holds, Device};
use crate::display::{Color, SymbolWrite};
use crate::ram::{load_into, spliced};

verus! {

/// The global address of the video device's first cell.
pub const VIC_BASE: u16 = 0xb000;

/// A bulk load that would run past the end of the video memory.
#[derive(Clone, Copy, PartialEq, Eq, Debug, Structural)]
pub struct SetMemoryError {}

/// What one clock of the video device draws: the first cell picks the column.
pub open spec fn vic_output(cells: Seq<u8>) -> Option<SymbolWrite> {
    if cells.len() > 0 {
        Some(SymbolWrite { x: cells[0] as u16, y: 0, symbol: 'a', color: Color::Red })
    } else {
        None
    }
}

/// A minimal video device whose cells answer to addresses from `VIC_BASE` on.
pub struct SimpleVic {
    pub memory: Vec<u8>,
}

impl SimpleVic {
    /// A video device with `size` zeroed cells.
    pub fn new(size: usize) -> (r: Self)
        ensures
            r.memory@ == Seq::new(size as nat, |i: int| 0u8),
    {
        let ram = crate::ram::Ram::new(size);
        SimpleVic { memory: ram.memory }
    }

    /// Copies `data` into the cells starting at cell `offset`; fails, changing
    /// nothing, when the span would pass the end.
    pub fn set_memory(&mut self, data: &[u8], offset: u16) -> (r: Result<(), SetMemoryError>)
        ensures
            r is Err <==> offset + data@.len() > old(self).memory@.len(),
            r is Ok ==> final(self).memory@ == spliced(old(self).memory@, data@, offset as int),
            r is Err ==> final(self).memory@ == old(self).memory@,
    {
        match load_into(&mut self.memory, data, offset) {
            Ok(()) => Ok(()),
            Err(_) => Err(SetMemoryError {}),
        }
    }
}

impl Device for SimpleVic {
    open spec fn base(&self) -> int {
        VIC_BASE as int
    }

    open spec fn cells(&self) -> Seq<u8> {
        self.memory@
    }

    open spec fn tick_output(&self) -> Option<SymbolWrite> {
        vic_output(self.memory@)
    }

    fn get_byte(&self, offset: u16) -> (r: u8) {
        self.memory[(offset - VIC_BASE) as usize]
    }

    fn set_byte(&mut self, byte: u8, offset: u16) {
        self.memory.set((offset - VIC_BASE) as usize, byte);
    }

    fn tick(&mut self) -> (r: Option<SymbolWrite>) {
        if self.memory.len() > 0 {
            Some(SymbolWrite { x: self.memory[0] as u16, y: 0, symbol: 'a', color: Color::Red })
        } else {
            None
        }
    }

    fn get_bytes_slice(&self, from: u16, to: u16) -> (r: Vec<u8>) {
        copy_range(&self.memory, (from - VIC_BASE) as usize, (to - VIC_BASE) as usize)
    }
}

/// The elements of `v` from `lo` up to, not including, `hi`.
pub fn copy_range(v: &Vec<u8>, lo: usize, hi: usize) -> (r: Vec<u8>)
    requires
        lo <= hi <= v@.len(),
    ensures
        r@ == v@.subrange(lo as int, hi as int),
{
    let mut out: Vec<u8> = Vec::new();
    let mut i: usize = lo;
    while i < hi
        invariant
            lo <= i <= hi,
            hi <= v@.len(),
            out@ == v@.subrange(lo as int, i as int),
        decreases hi - i,
    {
        out.push(v[i]);
        i = i + 1;
        assert(out@ =~= v@.subrange(lo as int, i as int));
    }
    out
}

} // verus!

use vstd::prelude::*;

verus! {

/// A bulk load that would run past the end of the buffer.
#[derive(Clone, Copy, PartialEq, Eq, Debug, Structural)]
pub struct SetMemoryError {}

/// The cells after `data` was copied into `mem` at `offset`.
pub open spec fn spliced(mem: Seq<u8>, data: Seq<u8>, offset: int) -> Seq<u8> {
    Seq::new(
        mem.len(),
        |i: int|
            if offset <= i < offset + data.len() {
                data[i - offset]
            } else {
                mem[i]
            },
    )
}

/// Copies `data` into `memory` at `offset`; shared by the byte-buffer devices.
pub fn load_into(memory: &mut Vec<u8>, data: &[u8], offset: u16) -> (r: Result<(), SetMemoryError>)
    ensures
        r is Err <==> offset + data@.len() > old(memory)@.len(),
        r is Ok ==> final(memory)@ == spliced(old(memory)@, data@, offset as int),
        r is Err ==> final(memory)@ == old(memory)@,
{
    let off = offset as usize;
    if data.len() > memory.len() || off > memory.len() - data.len() {
        return Err(SetMemoryError {});
    }
    let mut i: usize = 0;
    while i < data.len()
        invariant
            off + data@.len() <= memory@.len(),
            memory@.len() <= usize::MAX,
            memory@.len() == old(memory)@.len(),
            i <= data@.len(),
            forall|j: int|
                0 <= j < memory@.len() ==> memory@[j] == (if off <= j < off + i {
                    data@[j - off]
                } else {
                    old(memory)@[j]
                }),
        decreases data.len() - i,
    {
        memory.set(i + off, data[i]);
        i = i + 1;
    }
    assert(memory@ =~= spliced(old(memory)@, data@, offset as int));
    Ok(())
}

/// Random-access memory, mapped at address zero: the global address is the index.
pub struct Ram {
    pub memory: Vec<u8>,
}

impl Ram {
    /// A zero-filled memory of `size` bytes.
    pub fn new(size: usize) -> (r: Self)
        ensures
            r.memory@ == Seq::new(size as nat, |i: int| 0u8),
    {
        let mut memory: Vec<u8> = Vec::new();
        let mut i: usize = 0;
        while i < size
            invariant
                i <= size,
                memory@ == Seq::new(i as nat, |j: int| 0u8),
            decreases size - i,
        {
            memory.push(0);
            i = i + 1;
            assert(memory@ =~= Seq::new(i as nat, |j: int| 0u8));
        }
        Ram { memory }
    }

    /// Copies `data` into memory starting at `offset`; fails, changing nothing,
    /// when the span would pass the end.
    pub fn set_memory(&mut self, data: &[u8], offset: u16) -> (r: Result<(), SetMemoryError>)
        ensures
            r is Err <==> offset + data@.len() > old(self).memory@.len(),
            r is Ok ==> final(self).memory@ == spliced(old(self).memory@, data@, offset as int),
            r is Err ==> final(self).memory@ == old(self).memory@,
    {
        load_into(&mut self.memory, data, offset)
    }
}

} // verus!

verus! {

impl crate::bus::Device for Ram {
    open spec fn base(&self) -> int {
        0
    }

    open spec fn cells(&self) -> Seq<u8> {
        self.memory@
    }

    open spec fn tick_output(&self) -> Option<crate::display::SymbolWrite> {
        None
    }

    fn get_byte(&self, offset: u16) -> (r: u8) {
        self.memory[offset as usize]
    }

    fn set_byte(&mut self, byte: u8, offset: u16) {
        self.memory.set(offset as usize, byte);
    }

    fn tick(&mut self) -> (r: Option<crate::display::SymbolWrite>) {
        None
    }

    fn get_bytes_slice(&self, from: u16, to: u16) -> (r: Vec<u8>) {
        crate::vic::copy_range(&self.memory, from as usize, to as usize)
    }
}

} // verus!

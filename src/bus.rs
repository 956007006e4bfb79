use vstd::prelude::*;
use crate::display::SymbolWrite;
use crate::ram::{Ram, SetMemoryError};
use crate::vic::{SimpleVic, VIC_BASE};

verus! {

/// Whether a device whose first cell answers to `base` and which holds `len`
/// cells has a cell at global address `addr`.
pub open spec fn holds(base: int, len: int, addr: int) -> bool {
    base <= addr < base + len
}

/// A memory-mapped unit. Addresses passed in are global bus addresses; the
/// device translates them to its own cells.
pub trait Device {
    /// The global address of the first cell.
    spec fn base(&self) -> int;

    /// The cells, in address order.
    spec fn cells(&self) -> Seq<u8>;

    /// What one clock of the device hands to the display.
    spec fn tick_output(&self) -> Option<SymbolWrite>;

    fn get_byte(&self, offset: u16) -> (r: u8)
        requires
            holds(self.base(), self.cells().len() as int, offset as int),
        ensures
            r == self.cells()[offset - self.base()],
    ;

    fn set_byte(&mut self, byte: u8, offset: u16)
        requires
            holds(old(self).base(), old(self).cells().len() as int, offset as int),
        ensures
            final(self).base() == old(self).base(),
            final(self).cells() == old(self).cells().update(offset - old(self).base(), byte),
    ;

    fn tick(&mut self) -> (r: Option<SymbolWrite>)
        ensures
            final(self).base() == old(self).base(),
            final(self).cells() == old(self).cells(),
            r == old(self).tick_output(),
    ;

    /// The cells from `from` up to, not including, `to`.
    fn get_bytes_slice(&self, from: u16, to: u16) -> (r: Vec<u8>)
        requires
            from <= to,
            self.base() <= from,
            to <= self.base() + self.cells().len(),
        ensures
            r@ == self.cells().subrange(from - self.base(), to - self.base()),
    ;
}

/// A bus read that no connection answers.
#[derive(Clone, Copy, PartialEq, Eq, Debug, Structural)]
pub enum BusError {
    UnmappedAddress(u16),
}

/// The devices this bus can carry.
pub enum BusDevice {
    Ram(Ram),
    Vic(SimpleVic),
}

/// What a device is, as the bus sees it.
pub struct DeviceModel {
    pub vic: bool,
    pub cells: Seq<u8>,
}

impl DeviceModel {
    /// The global address of the first cell.
    pub open spec fn base(self) -> int {
        if self.vic {
            VIC_BASE as int
        } else {
            0
        }
    }

    /// Whether a cell answers to `addr`.
    pub open spec fn has(self, addr: u16) -> bool {
        holds(self.base(), self.cells.len() as int, addr as int)
    }

    /// The cell that answers to `addr`.
    pub open spec fn at(self, addr: u16) -> u8 {
        self.cells[addr - self.base()]
    }

    /// What one clock of the device hands to the display.
    pub open spec fn tick_output(self) -> Option<SymbolWrite> {
        if self.vic {
            crate::vic::vic_output(self.cells)
        } else {
            None
        }
    }
}

impl BusDevice {
    pub open spec fn model(&self) -> DeviceModel {
        match self {
            BusDevice::Ram(r) => DeviceModel { vic: false, cells: r.memory@ },
            BusDevice::Vic(v) => DeviceModel { vic: true, cells: v.memory@ },
        }
    }

    /// Copies `data` into the device's cells starting at cell `offset`.
    pub fn set_memory(&mut self, data: &[u8], offset: u16) -> (r: Result<(), SetMemoryError>)
        ensures
            final(self).model().vic == old(self).model().vic,
            r is Err <==> offset + data@.len() > old(self).model().cells.len(),
            r is Ok ==> final(self).model().cells == crate::ram::spliced(
                old(self).model().cells,
                data@,
                offset as int,
            ),
            r is Err ==> final(self).model() == old(self).model(),
    {
        match self {
            BusDevice::Ram(ram) => ram.set_memory(data, offset),
            BusDevice::Vic(vic) => match vic.set_memory(data, offset) {
                Ok(()) => Ok(()),
                Err(_) => Err(SetMemoryError {}),
            },
        }
    }
}

impl Device for BusDevice {
    open spec fn base(&self) -> int {
        self.model().base()
    }

    open spec fn cells(&self) -> Seq<u8> {
        self.model().cells
    }

    open spec fn tick_output(&self) -> Option<SymbolWrite> {
        self.model().tick_output()
    }

    fn get_byte(&self, offset: u16) -> (r: u8) {
        match self {
            BusDevice::Ram(ram) => ram.get_byte(offset),
            BusDevice::Vic(vic) => vic.get_byte(offset),
        }
    }

    fn set_byte(&mut self, byte: u8, offset: u16) {
        match self {
            BusDevice::Ram(ram) => ram.set_byte(byte, offset),
            BusDevice::Vic(vic) => vic.set_byte(byte, offset),
        }
    }

    fn tick(&mut self) -> (r: Option<SymbolWrite>) {
        match self {
            BusDevice::Ram(ram) => ram.tick(),
            BusDevice::Vic(vic) => vic.tick(),
        }
    }

    fn get_bytes_slice(&self, from: u16, to: u16) -> (r: Vec<u8>) {
        match self {
            BusDevice::Ram(ram) => ram.get_bytes_slice(from, to),
            BusDevice::Vic(vic) => vic.get_bytes_slice(from, to),
        }
    }
}

/// A device attached to the bus for the inclusive address range `from..=to`.
pub struct Connection {
    pub device: BusDevice,
    pub from: u16,
    pub to: u16,
}

/// A connection, as the bus sees it.
pub struct ConnModel {
    pub device: DeviceModel,
    pub from: u16,
    pub to: u16,
}

impl Connection {
    pub open spec fn model(&self) -> ConnModel {
        ConnModel { device: self.device.model(), from: self.from, to: self.to }
    }
}

/// Whether the connection's range holds `addr`.
pub open spec fn covers(c: ConnModel, addr: u16) -> bool {
    c.from <= addr <= c.to
}

/// Every address in the connection's range has a cell in its device.
pub open spec fn conn_ok(c: ConnModel) -> bool {
    c.from > c.to || (c.device.has(c.from) && c.device.has(c.to))
}

/// The index of the first connection, at `i` or after, whose range holds `addr`.
pub open spec fn first_cover(m: Seq<ConnModel>, addr: u16, i: int) -> Option<int>
    decreases m.len() - i,
{
    if i < 0 || i >= m.len() {
        None
    } else if covers(m[i], addr) {
        Some(i)
    } else {
        first_cover(m, addr, i + 1)
    }
}

/// A read: the byte of the first connection whose range holds the address.
pub open spec fn bus_read(m: Seq<ConnModel>, addr: u16) -> Result<u8, BusError> {
    match first_cover(m, addr, 0) {
        Some(i) => Ok(m[i].device.at(addr)),
        None => Err(BusError::UnmappedAddress(addr)),
    }
}

/// A connection after a write of `byte` at `addr` reached it, if it covers `addr`.
pub open spec fn conn_after_write(c: ConnModel, addr: u16, byte: u8) -> ConnModel {
    if covers(c, addr) {
        ConnModel {
            device: DeviceModel {
                vic: c.device.vic,
                cells: c.device.cells.update(addr - c.device.base(), byte),
            },
            from: c.from,
            to: c.to,
        }
    } else {
        c
    }
}

/// A write: every connection whose range holds the address takes the byte.
pub open spec fn bus_write(m: Seq<ConnModel>, addr: u16, byte: u8) -> Seq<ConnModel> {
    Seq::new(m.len(), |i: int| conn_after_write(m[i], addr, byte))
}

/// What one bus clock hands to the display, from connection `i` on.
pub open spec fn tick_outputs(m: Seq<ConnModel>, i: int) -> Seq<SymbolWrite>
    decreases m.len() - i,
{
    if i < 0 || i >= m.len() {
        Seq::empty()
    } else {
        match m[i].device.tick_output() {
            Some(w) => seq![w] + tick_outputs(m, i + 1),
            None => tick_outputs(m, i + 1),
        }
    }
}

/// The little-endian word at `addr` and the address after it.
pub open spec fn bus_read_u16(m: Seq<ConnModel>, addr: u16) -> Result<u16, BusError> {
    match bus_read(m, addr) {
        Err(e) => Err(e),
        Ok(lo) => match bus_read(m, addr.wrapping_add(1)) {
            Err(e) => Err(e),
            Ok(hi) => Ok(((hi as u16) * 256 + lo as u16) as u16),
        },
    }
}

/// An ordered registry of connections. Reads go to the first connection whose
/// range holds the address; writes go to all of them.
pub struct Bus {
    pub connections: Vec<Connection>,
}

impl Bus {
    /// The connections in registration order.
    pub open spec fn view(&self) -> Seq<ConnModel> {
        self.connections@.map_values(|c: Connection| c.model())
    }

    /// Every connection's range lies inside its device.
    pub open spec fn wf(&self) -> bool {
        forall|i: int| 0 <= i < self@.len() ==> #[trigger] conn_ok(self@[i])
    }

    pub fn new() -> (r: Self)
        ensures
            r@ == Seq::<ConnModel>::empty(),
            r.wf(),
    {
        Bus { connections: Vec::new() }
    }

    /// Appends a connection; its range must lie inside the device.
    pub fn connect_device(&mut self, device: BusDevice, from: u16, to: u16)
        requires
            old(self).wf(),
            from <= to ==> device.model().has(from) && device.model().has(to),
        ensures
            final(self).wf(),
            final(self)@ == old(self)@.push(ConnModel { device: device.model(), from, to }),
    {
        self.connections.push(Connection { device, from, to });
        assert(self@ =~~= old(self)@.push(ConnModel { device: device.model(), from, to }));
    }

    /// Writes `byte` at `offset` in every device whose range holds it.
    pub fn set_byte(&mut self, byte: u8, offset: u16)
        requires
            old(self).wf(),
        ensures
            final(self).wf(),
            final(self)@ == bus_write(old(self)@, offset, byte),
    {
        let n = self.connections.len();
        let mut i: usize = 0;
        while i < n
            invariant
                n == self.connections@.len(),
                n == old(self).connections@.len(),
                i <= n,
                forall|j: int|
                    0 <= j < n ==> #[trigger] self@[j] == (if j < i {
                        conn_after_write(old(self)@[j], offset, byte)
                    } else {
                        old(self)@[j]
                    }),
                forall|j: int| 0 <= j < n ==> #[trigger] conn_ok(old(self)@[j]),
            decreases n - i,
        {
            let from = self.connections[i].from;
            let to = self.connections[i].to;
            let ghost prev = self.connections@;
            let ghost prev_view = self@;
            assert(self@[i as int] == old(self)@[i as int]);
            assert(self@[i as int].device == self.connections@[i as int].device.model());
            if from <= offset && offset <= to {
                assert(conn_ok(old(self)@[i as int]));
                self.connections[i].device.set_byte(byte, offset);
            }
            assert(self@[i as int] =~~= conn_after_write(old(self)@[i as int], offset, byte));
            assert forall|j: int| 0 <= j < n && j != i implies self@[j] == prev_view[j] by {
                assert(self.connections@[j] == prev[j]);
            }
            assert forall|j: int| 0 <= j < n implies #[trigger] self@[j] == (if j < i + 1 {
                conn_after_write(old(self)@[j], offset, byte)
            } else {
                old(self)@[j]
            }) by {
                if j != i {
                    assert(self@[j] == prev_view[j]);
                }
            }
            i = i + 1;
        }
        assert(self@ =~~= bus_write(old(self)@, offset, byte));
        assert forall|j: int| 0 <= j < self@.len() implies #[trigger] conn_ok(self@[j]) by {
            assert(conn_ok(old(self)@[j]));
        }
    }

    /// One clock of every device, in registration order; returns what they
    /// hand to the display.
    pub fn tick(&mut self) -> (r: Vec<SymbolWrite>)
        requires
            old(self).wf(),
        ensures
            final(self)@ == old(self)@,
            final(self).wf(),
            r@ == tick_outputs(old(self)@, 0),
    {
        let n = self.connections.len();
        let mut out: Vec<SymbolWrite> = Vec::new();
        let mut i: usize = 0;
        while i < n
            invariant
                n == self.connections@.len(),
                i <= n,
                self@ == old(self)@,
                out@ + tick_outputs(self@, i as int) == tick_outputs(self@, 0),
            decreases n - i,
        {
            let w = self.connections[i].device.tick();
            assert(self@ =~~= old(self)@);
            match w {
                Some(s) => {
                    out.push(s);
                },
                None => {},
            }
            assert(out@ + tick_outputs(self@, i + 1) =~= tick_outputs(self@, 0));
            i = i + 1;
        }
        assert(out@ =~= out@ + tick_outputs(self@, n as int));
        out
    }

    /// The byte at `offset`, from the first device whose range holds it.
    pub fn get_byte(&self, offset: u16) -> (r: Result<u8, BusError>)
        requires
            self.wf(),
        ensures
            r == bus_read(self@, offset),
    {
        let n = self.connections.len();
        let mut i: usize = 0;
        while i < n
            invariant
                n == self.connections@.len(),
                i <= n,
                first_cover(self@, offset, 0) == first_cover(self@, offset, i as int),
                self.wf(),
            decreases n - i,
        {
            let c = &self.connections[i];
            if c.from <= offset && offset <= c.to {
                assert(conn_ok(self@[i as int]));
                return Ok(c.device.get_byte(offset));
            }
            i = i + 1;
        }
        Err(BusError::UnmappedAddress(offset))
    }

    /// The cells from `from` up to, not including, `to`, from the first device
    /// whose range holds all of `from..=to`.
    pub fn get_bytes_slice(&self, from: u16, to: u16) -> (r: Result<Vec<u8>, BusError>)
        requires
            self.wf(),
            from <= to,
        ensures
            r is Err <==> forall|i: int| 0 <= i < self@.len() ==> !(self@[i].from <= from && to <= self@[i].to),
            r matches Ok(v) ==> exists|i: int|
                0 <= i < self@.len() && self@[i].from <= from && to <= self@[i].to && conn_ok(self@[i])
                && (forall|j: int| 0 <= j < i ==> !(self@[j].from <= from && to <= self@[j].to))
                && v@ == self@[i].device.cells.subrange(
                    from - self@[i].device.base(),
                    to - self@[i].device.base(),
                ),
            r is Err ==> r == Err::<Vec<u8>, BusError>(BusError::UnmappedAddress(from)),
    {
        let n = self.connections.len();
        let mut i: usize = 0;
        while i < n
            invariant
                n == self.connections@.len(),
                i <= n,
                forall|j: int| 0 <= j < i ==> !(self@[j].from <= from && to <= self@[j].to),
                self.wf(),
                from <= to,
            decreases n - i,
        {
            let c = &self.connections[i];
            if c.from <= from && to <= c.to {
                assert(conn_ok(self@[i as int]));
                let v = c.device.get_bytes_slice(from, to);
                return Ok(v);
            }
            i = i + 1;
        }
        Err(BusError::UnmappedAddress(from))
    }

    /// The little-endian word at `offset`: low byte there, high byte at the
    /// next address (wrapping).
    pub fn get_two_bytes(&self, offset: u16) -> (r: Result<u16, BusError>)
        requires
            self.wf(),
        ensures
            r == bus_read_u16(self@, offset),
    {
        let lo = self.get_byte(offset)?;
        let hi = self.get_byte(offset.wrapping_add(1))?;
        Ok((hi as u16) * 256 + lo as u16)
    }

    /// Copies `data` into the device of connection `index`, at its cell `offset`.
    pub fn load(&mut self, index: usize, data: &[u8], offset: u16) -> (r: Result<(), SetMemoryError>)
        requires
            old(self).wf(),
            index < old(self)@.len(),
        ensures
            final(self).wf(),
            r is Err <==> offset + data@.len() > old(self)@[index as int].device.cells.len(),
            r is Ok ==> final(self)@ == old(self)@.update(
                index as int,
                ConnModel {
                    device: DeviceModel {
                        vic: old(self)@[index as int].device.vic,
                        cells: crate::ram::spliced(old(self)@[index as int].device.cells, data@, offset as int),
                    },
                    from: old(self)@[index as int].from,
                    to: old(self)@[index as int].to,
                },
            ),
            r is Err ==> final(self)@ == old(self)@,
    {
        let r = self.connections[index].device.set_memory(data, offset);
        assert(forall|j: int| 0 <= j < self@.len() && j != index ==> self@[j] == old(self)@[j]);
        proof {
            if r is Ok {
                assert(self@ =~~= old(self)@.update(
                    index as int,
                    ConnModel {
                        device: DeviceModel {
                            vic: old(self)@[index as int].device.vic,
                            cells: crate::ram::spliced(old(self)@[index as int].device.cells, data@, offset as int),
                        },
                        from: old(self)@[index as int].from,
                        to: old(self)@[index as int].to,
                    },
                ));
            } else {
                assert(self@ =~~= old(self)@);
            }
        }
        assert forall|j: int| 0 <= j < self@.len() implies #[trigger] conn_ok(self@[j]) by {
            assert(conn_ok(old(self)@[j]));
        }
        r
    }
}

/// A byte written at an address that a device answers reads back unchanged.
pub proof fn lemma_write_then_read(m: Seq<ConnModel>, addr: u16, byte: u8)
    requires
        forall|i: int| 0 <= i < m.len() ==> #[trigger] conn_ok(m[i]),
        bus_read(m, addr) is Ok,
    ensures
        bus_read(bus_write(m, addr, byte), addr) == Ok::<u8, BusError>(byte),
{
    let w = bus_write(m, addr, byte);
    lemma_first_cover_same(m, w, addr, 0);
    let i = first_cover(m, addr, 0)->Some_0;
    lemma_first_cover_found(m, addr, 0);
    assert(conn_ok(m[i]));
}

proof fn lemma_first_cover_found(m: Seq<ConnModel>, addr: u16, k: int)
    requires
        0 <= k,
    ensures
        first_cover(m, addr, k) matches Some(i) ==> k <= i < m.len() && covers(m[i], addr),
    decreases m.len() - k,
{
    if k < m.len() && !covers(m[k], addr) {
        lemma_first_cover_found(m, addr, k + 1);
    }
}

proof fn lemma_first_cover_same(m: Seq<ConnModel>, w: Seq<ConnModel>, addr: u16, k: int)
    requires
        0 <= k,
        w.len() == m.len(),
        forall|i: int| 0 <= i < m.len() ==> #[trigger] w[i].from == m[i].from && w[i].to == m[i].to,
    ensures
        first_cover(w, addr, k) == first_cover(m, addr, k),
    decreases m.len() - k,
{
    if k < m.len() {
        assert(w[k].from == m[k].from && w[k].to == m[k].to);
        lemma_first_cover_same(m, w, addr, k + 1);
    }
}

} // verus!

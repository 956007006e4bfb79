use vstd::prelude::*;
use crate::bus::{bus_read, bus_write, conn_ok, tick_outputs, Bus, BusDevice, BusError, ConnModel, DeviceModel};
use crate::cpu::{reset_state, step, Cpu, CpuError};
use crate::display::SymbolWrite;
use crate::ram::{spliced, Ram, SetMemoryError};
use crate::vic::{SimpleVic, VIC_BASE};

verus! {

/// Size of the RAM device, in bytes.
pub const RAM_SIZE: usize = 0x10000;
/// Last address at which RAM answers.
pub const RAM_END: u16 = 0xafff;
/// Size of the video device, in bytes: one cell for each address it answers.
pub const VIC_SIZE: usize = 0x101;
/// Last address at which the video device answers.
pub const VIC_END: u16 = 0xb100;

/// The bus of a fresh machine: zeroed RAM at `0..=RAM_END`, then the zeroed
/// video device at `VIC_BASE..=VIC_END`.
pub open spec fn machine_bus() -> Seq<ConnModel> {
    seq![
        ConnModel {
            device: DeviceModel { vic: false, cells: Seq::new(RAM_SIZE as nat, |i: int| 0u8) },
            from: 0,
            to: RAM_END,
        },
        ConnModel {
            device: DeviceModel { vic: true, cells: Seq::new(VIC_SIZE as nat, |i: int| 0u8) },
            from: VIC_BASE,
            to: VIC_END,
        },
    ]
}

/// The processor wired to RAM and the video device.
pub struct C64 {
    pub cpu: Cpu,
    pub bus: Bus,
}

impl C64 {
    pub fn new() -> (r: Self)
        ensures
            r.cpu == reset_state(0),
            r.bus.wf(),
            r.bus@ == machine_bus(),
    {
        let mut bus = Bus::new();
        let ram = Ram::new(RAM_SIZE);
        bus.connect_device(BusDevice::Ram(ram), 0, RAM_END);
        let vic = SimpleVic::new(VIC_SIZE);
        bus.connect_device(BusDevice::Vic(vic), VIC_BASE, VIC_END);
        assert(bus@ =~~= machine_bus());
        C64 { cpu: Cpu::new(), bus }
    }

    /// Copies a program into RAM at `offset`.
    pub fn load_program(&mut self, data: &[u8], offset: u16) -> (r: Result<(), SetMemoryError>)
        requires
            old(self).bus.wf(),
            old(self).bus@.len() > 0,
        ensures
            final(self).bus.wf(),
            final(self).cpu == old(self).cpu,
            r is Err <==> offset + data@.len() > old(self).bus@[0].device.cells.len(),
            r is Ok ==> final(self).bus@ == old(self).bus@.update(
                0,
                ConnModel {
                    device: DeviceModel {
                        vic: old(self).bus@[0].device.vic,
                        cells: spliced(old(self).bus@[0].device.cells, data@, offset as int),
                    },
                    from: old(self).bus@[0].from,
                    to: old(self).bus@[0].to,
                },
            ),
            r is Err ==> final(self).bus@ == old(self).bus@,
    {
        self.bus.load(0, data, offset)
    }

    /// One clock of the processor, then one of every device; returns what
    /// the devices hand to the display. On an error nothing changes.
    pub fn tick(&mut self) -> (r: Result<Vec<SymbolWrite>, CpuError>)
        requires
            old(self).bus.wf(),
        ensures
            final(self).bus.wf(),
            match step(old(self).cpu, old(self).bus@) {
                Ok((c, m)) => r matches Ok(w) && w@ == tick_outputs(m, 0) && final(self).cpu == c
                    && final(self).bus@ == m,
                Err(e) => r == Err::<Vec<SymbolWrite>, CpuError>(e) && final(self).cpu == old(self).cpu
                    && final(self).bus@ == old(self).bus@,
            },
    {
        self.cpu.tick(&mut self.bus)?;
        Ok(self.bus.tick())
    }
}

/// On a bus whose first connection is the machine's RAM, a byte written at
/// any address up to `RAM_END` reads back unchanged.
pub proof fn lemma_ram_write_then_read(m: Seq<ConnModel>, a: u16, b: u8)
    requires
        forall|i: int| 0 <= i < m.len() ==> #[trigger] conn_ok(m[i]),
        m.len() > 0,
        m[0].from == 0,
        m[0].to == RAM_END,
        a <= RAM_END,
    ensures
        bus_read(bus_write(m, a, b), a) == Ok::<u8, BusError>(b),
{
    assert(conn_ok(m[0]));
    crate::bus::lemma_write_then_read(m, a, b);
}

} // verus!

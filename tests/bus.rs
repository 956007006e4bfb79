use c64emu::bus::{Bus, BusDevice, BusError};
use c64emu::c64::C64;
use c64emu::debugger::{parse_request, Request};
use c64emu::display::Color;
use c64emu::ram::Ram;
use c64emu::vic::SimpleVic;

#[test]
fn read_of_unmapped_address_fails() {
    let mut bus = Bus::new();
    bus.connect_device(BusDevice::Ram(Ram::new(16)), 0, 15);
    assert_eq!(bus.get_byte(16), Err(BusError::UnmappedAddress(16)));
    assert_eq!(bus.get_byte(15), Ok(0));
    // a write nobody answers is dropped
    bus.set_byte(1, 0x8000);
    assert_eq!(bus.get_byte(0x8000), Err(BusError::UnmappedAddress(0x8000)));
}

#[test]
fn read_goes_to_first_match_and_write_to_all() {
    let mut bus = Bus::new();
    bus.connect_device(BusDevice::Ram(Ram::new(16)), 0, 15);
    bus.connect_device(BusDevice::Ram(Ram::new(16)), 8, 15);
    bus.load(1, &[5], 9).unwrap();
    // the first connection answers the read
    assert_eq!(bus.get_byte(9), Ok(0));
    bus.set_byte(7, 9);
    assert_eq!(bus.get_byte(9), Ok(7));
    assert_eq!(bus.get_bytes_slice(8, 12), Ok(vec![0, 7, 0, 0]));
}

#[test]
fn two_bytes_are_little_endian() {
    let mut bus = Bus::new();
    bus.connect_device(BusDevice::Ram(Ram::new(0x10000)), 0, 0xffff);
    bus.set_byte(0x34, 0x1000);
    bus.set_byte(0x12, 0x1001);
    assert_eq!(bus.get_two_bytes(0x1000), Ok(0x1234));
    // the second byte wraps to address zero
    bus.set_byte(0xcd, 0xffff);
    bus.set_byte(0xab, 0x0000);
    assert_eq!(bus.get_two_bytes(0xffff), Ok(0xabcd));
}

#[test]
fn slice_needs_one_connection_holding_it() {
    let mut bus = Bus::new();
    bus.connect_device(BusDevice::Ram(Ram::new(16)), 0, 7);
    bus.connect_device(BusDevice::Ram(Ram::new(16)), 8, 15);
    assert_eq!(bus.get_bytes_slice(6, 9), Err(BusError::UnmappedAddress(6)));
    assert_eq!(bus.get_bytes_slice(8, 10), Ok(vec![0, 0]));
}

#[test]
fn bus_tick_collects_video_output() {
    let mut bus = Bus::new();
    bus.connect_device(BusDevice::Ram(Ram::new(16)), 0, 15);
    bus.connect_device(BusDevice::Vic(SimpleVic::new(4)), 0xb000, 0xb003);
    bus.set_byte(9, 0xb000);
    let out = bus.tick();
    assert_eq!(out.len(), 1);
    assert_eq!(out[0].x, 9);
    assert_eq!(out[0].color, Color::Red);
}

#[test]
fn machine_ram_write_then_read() {
    let mut c64 = C64::new();
    for a in [0x0000u16, 0x1234, 0xafff] {
        c64.bus.set_byte(0x5a, a);
        assert_eq!(c64.bus.get_byte(a), Ok(0x5a));
    }
    assert_eq!(c64.bus.get_byte(0xb101), Err(BusError::UnmappedAddress(0xb101)));
}

#[test]
fn machine_runs_store_to_video() {
    // LDX #$07; STX $b000
    let mut c64 = C64::new();
    c64.load_program(&[0xa2, 0x07, 0x8e, 0x00, 0xb0], 0).unwrap();
    let mut last = Vec::new();
    for _ in 0..6 {
        last = c64.tick().unwrap();
    }
    assert_eq!(c64.cpu.reg.x, 7);
    assert_eq!(last.len(), 1);
    assert_eq!(last[0].x, 7);
    assert!(c64.load_program(&[0; 4], 0xfffe).is_err());
}

#[test]
fn parse_request_routes() {
    assert_eq!(parse_request("/get_cpu_state"), Some(Request::CpuState));
    assert_eq!(parse_request("/get_vic_state?x=1"), Some(Request::VicState));
    assert_eq!(parse_request("/memory/10"), Some(Request::Memory));
    assert_eq!(parse_request("/dissasembly"), Some(Request::Dissasembly));
    assert_eq!(parse_request("/screen_texture"), Some(Request::ScreenTexture));
    assert_eq!(parse_request("/get_cpu"), None);
    assert_eq!(parse_request(""), None);
}

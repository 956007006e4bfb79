use c64emu::bus::Device;
use c64emu::ram::{Ram, SetMemoryError};
use c64emu::vic::SimpleVic;

#[test]
fn set_memory_to_begin() {
    let mut ram = Ram::new(8);
    let card = vec![1, 2, 3, 4];
    let expexted = vec![1, 2, 3, 4, 0, 0, 0, 0];
    assert!(ram.set_memory(&card, 0).is_ok());
    assert_eq!(ram.memory, expexted);
}

#[test]
fn set_memory_to_middle() {
    let mut ram = Ram::new(8);
    let card = vec![1, 2, 3, 4];
    let expexted = vec![0, 0, 1, 2, 3, 4, 0, 0];
    assert!(ram.set_memory(&card, 2).is_ok());
    assert_eq!(ram.memory, expexted);
}

#[test]
fn set_memory_to_end() {
    let mut ram = Ram::new(8);
    let card = vec![1, 2, 3, 4];
    let expexted = vec![0, 0, 0, 0, 1, 2, 3, 4];
    assert!(ram.set_memory(&card, 4).is_ok());
    assert_eq!(ram.memory, expexted);
}

#[test]
fn set_memory_to_pass_end() {
    let mut ram = Ram::new(8);
    let card = vec![1, 2, 3, 4];
    assert!(ram.set_memory(&card, 5).is_err());
}

#[test]
fn set_memory_past_end_changes_nothing() {
    let mut ram = Ram::new(4);
    assert_eq!(ram.set_memory(&[9, 9, 9], 2), Err(SetMemoryError {}));
    assert_eq!(ram.memory, vec![0, 0, 0, 0]);
}

#[test]
fn ram_byte_access_and_slice() {
    let mut ram = Ram::new(16);
    ram.set_byte(0xaa, 3);
    assert_eq!(ram.get_byte(3), 0xaa);
    assert_eq!(ram.get_bytes_slice(2, 5), vec![0, 0xaa, 0]);
    assert_eq!(ram.tick(), None);
}

#[test]
fn vic_translates_global_addresses() {
    let mut vic = SimpleVic::new(4);
    vic.set_byte(7, 0xb001);
    assert_eq!(vic.memory, vec![0, 7, 0, 0]);
    assert_eq!(vic.get_byte(0xb001), 7);
    assert_eq!(vic.get_bytes_slice(0xb000, 0xb002), vec![0, 7]);
    assert!(vic.set_memory(&[1, 2, 3, 4, 5], 0).is_err());
    assert!(vic.set_memory(&[3], 0).is_ok());
    let w = vic.tick().unwrap();
    assert_eq!(w.x, 3);
    assert_eq!(w.y, 0);
    assert_eq!(w.symbol, 'a');
}

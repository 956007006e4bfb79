use c64emu::ops_lookup::{decode, AddressMode, Code};

#[test]
fn decode_indexed_load_with_penalty() {
    let d = decode(0xbd).unwrap();
    assert_eq!(d.code, Code::LDA);
    assert_eq!(d.mode, AddressMode::AbsoluteX);
    assert_eq!(d.instruction_bytes, 3);
    assert_eq!(d.cycles, 4);
    assert!(d.page_boundary_cycle);
}

#[test]
fn decode_indexed_store_without_penalty() {
    let d = decode(0x9d).unwrap();
    assert_eq!(d.code, Code::STA);
    assert_eq!(d.cycles, 5);
    assert!(!d.page_boundary_cycle);
}

#[test]
fn decode_branches_jumps_and_breaks() {
    let d = decode(0xd0).unwrap();
    assert_eq!(d.code, Code::BNE);
    assert_eq!(d.mode, AddressMode::Relative);
    assert_eq!(d.instruction_bytes, 2);
    assert!(d.page_boundary_cycle);
    let d = decode(0x6c).unwrap();
    assert_eq!(d.code, Code::JMP);
    assert_eq!(d.mode, AddressMode::Indirect);
    assert_eq!(d.cycles, 5);
    let d = decode(0x00).unwrap();
    assert_eq!(d.code, Code::BRK);
    assert_eq!(d.instruction_bytes, 1);
    assert_eq!(d.cycles, 7);
}

#[test]
fn unassigned_opcodes_decode_to_none() {
    assert!(decode(0x02).is_none());
    assert!(decode(0xff).is_none());
    let assigned = (0u16..=255).filter(|op| decode(*op as u8).is_some()).count();
    assert_eq!(assigned, 151);
}

use gbretools::disassembler::{ByteType, Disassembler};
use gbretools::gb::{GBInstruction, GameBoy};

#[test]
fn new_image_is_all_unknown() {
    let rom = [0x00u8, 0xc3, 0x00, 0x00];
    let d = Disassembler::<GameBoy>::new(&rom);
    assert_eq!(d.len(), 4);
    for offset in 0..4 {
        assert_eq!(d.tag_at(offset), ByteType::Unknown);
    }
}

#[test]
fn scenario_nop_then_jp_back_to_start() {
    // NOP; JP 0x0000: discovery tags the two instruction starts and leaves
    // the operand bytes of the JP untouched
    let rom = [0x00u8, 0xc3, 0x00, 0x00];
    let mut d = Disassembler::<GameBoy>::new(&rom);
    d.mark_code(0);
    assert_eq!(d.tag_at(0), ByteType::Code);
    assert_eq!(d.tag_at(1), ByteType::Code);
    assert_eq!(d.tag_at(2), ByteType::Unknown);
    assert_eq!(d.tag_at(3), ByteType::Unknown);
}

#[test]
fn marking_code_twice_changes_nothing() {
    let rom = [0x00u8, 0xc3, 0x00, 0x00];
    let mut once = Disassembler::<GameBoy>::new(&rom);
    once.mark_code(0);
    let mut twice = Disassembler::<GameBoy>::new(&rom);
    twice.mark_code(0);
    twice.mark_code(0);
    for offset in 0..4 {
        assert_eq!(once.tag_at(offset), twice.tag_at(offset));
    }
}

#[test]
fn discovery_stops_at_data_without_downgrading() {
    let rom = [0x00u8, 0x00, 0x00];
    let mut d = Disassembler::<GameBoy>::new(&rom);
    d.mark_data(1);
    d.mark_code(0);
    assert_eq!(d.tag_at(0), ByteType::Code);
    assert_eq!(d.tag_at(1), ByteType::Data);
    assert_eq!(d.tag_at(2), ByteType::Unknown);
}

#[test]
fn remarking_data_as_code_reruns_discovery() {
    let rom = [0x00u8, 0x00, 0x00];
    let mut d = Disassembler::<GameBoy>::new(&rom);
    d.mark_data(0);
    assert_eq!(d.tag_at(0), ByteType::Data);
    d.mark_code(0);
    assert_eq!(d.tag_at(0), ByteType::Code);
    assert_eq!(d.tag_at(1), ByteType::Code);
    assert_eq!(d.tag_at(2), ByteType::Code);
}

#[test]
fn discovery_follows_call_and_fallthrough() {
    // 0x0000: CALL 0x0004 (falls through); 0x0003: NOP; 0x0004: RET
    let rom = [0xcdu8, 0x04, 0x00, 0x00, 0xc9];
    let mut d = Disassembler::<GameBoy>::new(&rom);
    d.mark_code(0);
    assert_eq!(d.tag_at(0), ByteType::Code);
    assert_eq!(d.tag_at(1), ByteType::Unknown);
    assert_eq!(d.tag_at(2), ByteType::Unknown);
    assert_eq!(d.tag_at(3), ByteType::Code);
    assert_eq!(d.tag_at(4), ByteType::Code);
}

#[test]
fn conditional_branch_explores_both_paths() {
    // 0x0000: JR NZ, +2 (target 0x0004); 0x0002: RET; 0x0004: RET
    let rom = [0x20u8, 0x02, 0xc9, 0x00, 0xc9];
    let mut d = Disassembler::<GameBoy>::new(&rom);
    d.mark_code(0);
    assert_eq!(d.tag_at(0), ByteType::Code);
    assert_eq!(d.tag_at(1), ByteType::Unknown);
    assert_eq!(d.tag_at(2), ByteType::Code);
    assert_eq!(d.tag_at(3), ByteType::Unknown);
    assert_eq!(d.tag_at(4), ByteType::Code);
}

#[test]
fn backward_branch_is_discovered() {
    // 0x0001: JR -3, jumping back to the NOP at 0x0000
    let rom = [0x00u8, 0x18, 0xfd];
    let mut d = Disassembler::<GameBoy>::new(&rom);
    d.mark_code(1);
    assert_eq!(d.tag_at(0), ByteType::Code);
    assert_eq!(d.tag_at(1), ByteType::Code);
    assert_eq!(d.tag_at(2), ByteType::Unknown);
}

#[test]
fn discovery_terminates_on_self_loop() {
    // JP 0x0000 jumps to itself
    let rom = [0xc3u8, 0x00, 0x00];
    let mut d = Disassembler::<GameBoy>::new(&rom);
    d.mark_code(0);
    assert_eq!(d.tag_at(0), ByteType::Code);
    assert_eq!(d.tag_at(1), ByteType::Unknown);
    assert_eq!(d.tag_at(2), ByteType::Unknown);
}

#[test]
fn discovery_stops_at_illegal_opcode() {
    // NOP; 0xD3 is not a known opcode
    let rom = [0x00u8, 0xd3, 0x00];
    let mut d = Disassembler::<GameBoy>::new(&rom);
    d.mark_code(0);
    assert_eq!(d.tag_at(0), ByteType::Code);
    assert_eq!(d.tag_at(1), ByteType::Unknown);
    assert_eq!(d.tag_at(2), ByteType::Unknown);
}

#[test]
fn discovery_stops_cleanly_at_image_end() {
    // the last instruction falls through to the end of the image
    let rom = [0x00u8, 0x00];
    let mut d = Disassembler::<GameBoy>::new(&rom);
    d.mark_code(0);
    assert_eq!(d.tag_at(0), ByteType::Code);
    assert_eq!(d.tag_at(1), ByteType::Code);
}

#[test]
fn marking_an_undecodable_seed_still_grants_code() {
    // the user override wins even where no instruction decodes
    let rom = [0xd3u8];
    let mut d = Disassembler::<GameBoy>::new(&rom);
    d.mark_code(0);
    assert_eq!(d.tag_at(0), ByteType::Code);
}

#[test]
fn remarking_undecodable_data_as_code_keeps_the_override() {
    // an explicit mark-code on a Data offset never leaves the tag behind,
    // decodable or not
    let rom = [0xd3u8];
    let mut d = Disassembler::<GameBoy>::new(&rom);
    d.mark_data(0);
    d.mark_code(0);
    assert_eq!(d.tag_at(0), ByteType::Code);
}

#[test]
fn discovery_follows_in_bank_branches() {
    // a jump inside the switchable window, read from that window, resolves
    // through the read location's own bank
    let mut rom = vec![0u8; 0x5000];
    rom[0x4000] = 0xc3;
    rom[0x4001] = 0x10;
    rom[0x4002] = 0x40;
    rom[0x4010] = 0xc9;
    let mut d = Disassembler::<GameBoy>::new(&rom);
    d.mark_code(0x4000);
    assert_eq!(d.tag_at(0x4000), ByteType::Code);
    assert_eq!(d.tag_at(0x4001), ByteType::Unknown);
    assert_eq!(d.tag_at(0x4010), ByteType::Code);
}

#[test]
fn mark_unknown_clears_a_tag() {
    let rom = [0x00u8, 0x00];
    let mut d = Disassembler::<GameBoy>::new(&rom);
    d.mark_data(0);
    assert_eq!(d.tag_at(0), ByteType::Data);
    d.mark_unknown(0);
    assert_eq!(d.tag_at(0), ByteType::Unknown);
}

#[test]
fn mark_data_overrides_code() {
    let rom = [0x00u8, 0x00];
    let mut d = Disassembler::<GameBoy>::new(&rom);
    d.mark_code(0);
    assert_eq!(d.tag_at(0), ByteType::Code);
    d.mark_data(0);
    assert_eq!(d.tag_at(0), ByteType::Data);
}

#[test]
fn resolve_branch_address_of_jp() {
    let rom = [0xc3u8, 0x02, 0x00, 0x00];
    let d = Disassembler::<GameBoy>::new(&rom);
    assert_eq!(d.resolve_branch_address(0), Some(2));
}

#[test]
fn resolve_branch_address_of_jr() {
    // JR +2 at offset 0: target is 0 + (2 + 2) = 4
    let rom = [0x18u8, 0x02, 0x00, 0x00, 0x00];
    let d = Disassembler::<GameBoy>::new(&rom);
    assert_eq!(d.resolve_branch_address(0), Some(4));
}

#[test]
fn resolve_branch_address_out_of_image_is_none() {
    // JP 0x1000 in a 4-byte image: in the fixed window but past the end
    let rom = [0xc3u8, 0x00, 0x10, 0x00];
    let d = Disassembler::<GameBoy>::new(&rom);
    assert_eq!(d.resolve_branch_address(0), None);
}

#[test]
fn resolve_branch_address_of_non_branch_is_none() {
    let rom = [0x00u8, 0x00];
    let d = Disassembler::<GameBoy>::new(&rom);
    assert_eq!(d.resolve_branch_address(0), None);
}

#[test]
fn align_returns_classified_offsets_unchanged() {
    let rom = [0x3eu8, 0x12, 0x00];
    let mut d = Disassembler::<GameBoy>::new(&rom);
    d.mark_data(1);
    assert_eq!(d.align_address_to_valid_location(1), 1);
    d.mark_unknown(1);
    d.mark_code(1);
    assert_eq!(d.align_address_to_valid_location(1), 1);
}

#[test]
fn align_snaps_to_spanning_instruction_start() {
    // LD A, 0x12 at offset 0 is two bytes, so offset 1 is mid-instruction
    let rom = [0x3eu8, 0x12, 0x00];
    let d = Disassembler::<GameBoy>::new(&rom);
    assert_eq!(d.align_address_to_valid_location(1), 0);
}

#[test]
fn align_prefers_the_earliest_spanning_start() {
    // LD BC, 0x1234 at offset 0 is three bytes and spans offset 2; the
    // byte at offset 1 decodes to a one-byte instruction that does not
    let rom = [0x01u8, 0x34, 0x12, 0x00];
    let d = Disassembler::<GameBoy>::new(&rom);
    assert_eq!(d.align_address_to_valid_location(2), 0);
}

#[test]
fn align_keeps_offset_without_spanning_decode() {
    // 0xD3 and 0xDB are not known opcodes, so nothing spans offset 2
    let rom = [0xd3u8, 0xdb, 0x00];
    let d = Disassembler::<GameBoy>::new(&rom);
    assert_eq!(d.align_address_to_valid_location(2), 2);
}

#[test]
fn next_valid_address_steps_over_whole_instructions() {
    let rom = [0x01u8, 0x34, 0x12, 0x00];
    let mut d = Disassembler::<GameBoy>::new(&rom);
    d.mark_code(0);
    // stepping from the three-byte LD lands on the next instruction start
    assert_eq!(d.next_valid_address(0), 3);
}

#[test]
fn next_valid_address_steps_one_byte_on_unknown() {
    let rom = [0x01u8, 0x34, 0x12, 0x00];
    let d = Disassembler::<GameBoy>::new(&rom);
    assert_eq!(d.next_valid_address(0), 1);
}

#[test]
fn next_valid_address_steps_one_byte_on_data() {
    let rom = [0xd3u8, 0x00];
    let mut d = Disassembler::<GameBoy>::new(&rom);
    d.mark_data(0);
    assert_eq!(d.next_valid_address(0), 1);
}

#[test]
fn next_valid_address_steps_one_byte_on_undecodable_code() {
    // an explicit mark-code can put a Code tag on an undecodable byte;
    // stepping from it advances by a single byte
    let rom = [0xd3u8, 0x00];
    let mut d = Disassembler::<GameBoy>::new(&rom);
    d.mark_code(0);
    assert_eq!(d.tag_at(0), ByteType::Code);
    assert_eq!(d.next_valid_address(0), 1);
}

#[test]
fn instruction_at_reports_the_decoded_instruction() {
    let rom = [0x00u8, 0xc3, 0x00, 0x00];
    let d = Disassembler::<GameBoy>::new(&rom);
    assert_eq!(d.instruction_at(0), Some(GBInstruction::NOP));
    assert!(d.instruction_at(1).is_some());
    assert_eq!(d.instruction_at(3), Some(GBInstruction::NOP));
    let undecodable = [0x00u8, 0xd3];
    let d2 = Disassembler::<GameBoy>::new(&undecodable);
    assert_eq!(d2.instruction_at(1), None);
}

use agc_emulator::arith::{NEG_ONE, NEG_ZERO};
use agc_emulator::instructions::{
    ccs, das, dca, dcs, decode, execute, mask, mp, msu, read_16, save_corrected, step, ts, Instruction,
    Op,
};
use agc_emulator::memory::{is_16bit, AgcError, Memory, ACC, BB, EB, FB, L, Q, Z, ZERO};

fn machine_with(program: &[u16]) -> Memory {
    let mut mem = Memory::new();
    mem.load_program(&program.to_vec());
    mem
}

fn acc(mem: &Memory) -> u16 {
    mem.read(ACC).unwrap()
}

fn pc(mem: &Memory) -> u16 {
    mem.read(Z).unwrap()
}

#[test]
fn increment_then_load_leaves_one_in_the_accumulator() {
    // INCR 120, then CA 120.
    let mut mem = machine_with(&[0b0010100000000000 + 120, 0b0011000000000000 + 120]);
    assert_eq!(step(&mut mem), Ok(()));
    assert_eq!(mem.read(120), Ok(1));
    assert_eq!(step(&mut mem), Ok(()));
    assert_eq!(acc(&mem), 1);
    assert_eq!(pc(&mem), 2050);
}

#[test]
fn power_on_state() {
    let mem = Memory::new();
    assert_eq!(acc(&mem), 0);
    assert_eq!(pc(&mem), 2048);
    assert_eq!(mem.get_index(), 0);
    assert!(!mem.extracode());
    assert!(!mem.interrupts_enabled());
    assert_eq!(mem.read(ZERO), Ok(0));
}

#[test]
fn address_map_errors() {
    let mut mem = Memory::new();
    assert_eq!(mem.read(8), Err(AgcError::ReservedAddress(8)));
    assert_eq!(mem.read(47), Err(AgcError::ReservedAddress(47)));
    assert_eq!(mem.read(600), Err(AgcError::UnimplementedBank(600)));
    assert_eq!(mem.read(1500), Err(AgcError::UnimplementedBank(1500)));
    assert_eq!(mem.read(3072), Err(AgcError::UnimplementedBank(3072)));
    assert_eq!(mem.write(2048, 5), Err(AgcError::WriteToFixed(2048)));
    assert_eq!(mem.write(1024, 5), Err(AgcError::WriteToFixed(1024)));
    assert_eq!(mem.write(ZERO, 5), Err(AgcError::WriteToZero));
    assert_eq!(mem.write(20, 5), Err(AgcError::ReservedAddress(20)));
    assert_eq!(mem.write(700, 5), Err(AgcError::UnimplementedBank(700)));
    assert_eq!(mem.load_fixed(100, 5), Err(AgcError::UnimplementedBank(100)));
    assert_eq!(mem.read(48), Ok(0));
    assert_eq!(mem.read(511), Ok(0));
}

#[test]
fn addresses_are_cut_to_twelve_bits() {
    let mut mem = Memory::new();
    assert_eq!(mem.write(0x1000 + 300, 9), Ok(()));
    assert_eq!(mem.read(300), Ok(9));
}

#[test]
fn registers_keep_their_width() {
    let mut mem = Memory::new();
    assert_eq!(mem.write(ACC, 0xBFFF), Ok(()));
    assert_eq!(acc(&mem), 0xBFFF);
    assert_eq!(mem.write(Q, 0x8001), Ok(()));
    assert_eq!(mem.read(Q), Ok(0x8001));
    assert_eq!(mem.write(L, 0xFFFF), Ok(()));
    assert_eq!(mem.read(L), Ok(0x7FFF));
    assert_eq!(mem.write(Z, 0xFFFF), Ok(()));
    assert_eq!(pc(&mem), 0x0FFF);
    assert_eq!(mem.write(300, 0xFFFF), Ok(()));
    assert_eq!(mem.read(300), Ok(0x7FFF));
}

#[test]
fn bank_registers_share_one_cell() {
    let mut mem = Memory::new();
    assert_eq!(mem.write(FB, 0x7C00), Ok(()));
    assert_eq!(mem.write(EB, 0x0300), Ok(()));
    assert_eq!(mem.read(FB), Ok(0x7C00));
    assert_eq!(mem.read(EB), Ok(0x0300));
    assert_eq!(mem.read(BB), Ok(0x7C03));
    assert_eq!(mem.write(BB, 0xFFFF), Ok(()));
    assert_eq!(mem.read(BB), Ok(0x7FFF));
    assert_eq!(mem.read(EB), Ok(0x0700));
    assert_eq!(mem.read(FB), Ok(0x7C00));
    assert_eq!(mem.write(BB, 0x1234), Ok(()));
    assert_eq!(mem.read(BB), Ok(0x1234));
}

#[test]
fn read_16_sign_extends_fifteen_bit_locations() {
    let mut mem = Memory::new();
    assert_eq!(mem.write(300, 0x7FFD), Ok(()));
    assert_eq!(read_16(&mem, 300), Ok(0xFFFD));
    assert_eq!(mem.write(ACC, 0x7FFD), Ok(()));
    assert_eq!(read_16(&mem, ACC), Ok(0x7FFD));
    assert!(is_16bit(ACC) && is_16bit(Q) && !is_16bit(L));
}

#[test]
fn store_without_overflow_reads_back_unchanged() {
    let mut mem = Memory::new();
    for n in [0u16, 5, 0xFFFA, NEG_ZERO, 0x3FFF] {
        assert_eq!(save_corrected(&mut mem, n, 300), Ok(0));
        assert_eq!(read_16(&mem, 300), Ok(n));
    }
}

#[test]
fn store_with_overflow_corrects_and_reports() {
    let mut mem = Memory::new();
    assert_eq!(save_corrected(&mut mem, 0x4001, 300), Ok(1));
    assert_eq!(mem.read(300), Ok(0x0001));
    assert_eq!(save_corrected(&mut mem, 0xBFFF, 301), Ok(NEG_ONE));
    assert_eq!(mem.read(301), Ok(0x7FFF));
    // The accumulator keeps the raw value.
    assert_eq!(save_corrected(&mut mem, 0x4001, ACC), Ok(1));
    assert_eq!(acc(&mem), 0x4001);
    assert_eq!(save_corrected(&mut mem, 5, 2048), Err(AgcError::WriteToFixed(2048)));
}

fn ccs_on(value: u16) -> (u16, u16) {
    let mut mem = Memory::new();
    assert_eq!(mem.write(300, value), Ok(()));
    assert_eq!(execute(&mut mem, 0b0001000000000000 + 300), Ok(()));
    (acc(&mem), pc(&mem) - 2048)
}

#[test]
fn ccs_branches_four_ways() {
    assert_eq!(ccs_on(0), (0, 2));
    assert_eq!(ccs_on(0x7FF7), (7, 3)); // -8
    assert_eq!(ccs_on(0x7FFF), (0, 4)); // -0
    assert_eq!(ccs_on(9), (8, 1));
    assert_eq!(ccs_on(1), (0, 1));
}

#[test]
fn ccs_on_the_accumulator_reads_the_tag() {
    let mut mem = Memory::new();
    assert_eq!(mem.write(ACC, 0xBFFF), Ok(()));
    assert_eq!(ccs(&mut mem, ACC), Ok(()));
    assert_eq!(acc(&mem), 0x3FFF);
    assert_eq!(pc(&mem), 2050);
    let mut mem = Memory::new();
    assert_eq!(mem.write(ACC, 0x4000), Ok(()));
    assert_eq!(ccs(&mut mem, ACC), Ok(()));
    assert_eq!(acc(&mem), 0x3FFF);
    assert_eq!(pc(&mem), 2048);
}

#[test]
fn index_biases_the_next_word_once() {
    // INDEX 300, then CA 299 (biased to CA 300), then CA 299.
    let mut mem = machine_with(&[0b0101000000000000 + 300, 0b0011000000000000 + 299, 0b0011000000000000 + 299]);
    assert_eq!(mem.write(300, 1), Ok(()));
    assert_eq!(mem.write(299, 2), Ok(()));
    assert_eq!(step(&mut mem), Ok(()));
    assert_eq!(mem.get_index(), 1);
    assert_eq!(decode(&mem, 0b0011000000000000 + 299), Ok(Instruction(Op::Ca, Some(300))));
    assert_eq!(step(&mut mem), Ok(()));
    assert_eq!(acc(&mem), 1);
    assert_eq!(mem.get_index(), 0);
    assert_eq!(step(&mut mem), Ok(()));
    assert_eq!(acc(&mem), 2);
}

#[test]
fn extended_index_keeps_the_extended_set() {
    // EXTEND, INDEX 300 (extended), SU 299 biased to SU 300.
    let mut mem = machine_with(&[6, 0b0101000000000000 + 300, 0b0110000000000000 + 299]);
    assert_eq!(mem.write(300, 1), Ok(()));
    assert_eq!(mem.write(ACC, 5), Ok(()));
    assert_eq!(step(&mut mem), Ok(()));
    assert!(mem.extracode());
    assert_eq!(step(&mut mem), Ok(()));
    assert!(mem.extracode());
    assert_eq!(mem.get_index(), 1);
    assert_eq!(step(&mut mem), Ok(()));
    assert!(!mem.extracode());
    assert_eq!(acc(&mem), 4);
}

#[test]
fn unimplemented_and_undefined_instructions_fail() {
    let mut mem = Memory::new();
    // RESUME is INDEX 15 in the basic set.
    assert_eq!(execute(&mut mem, 0b0101000000001111), Err(AgcError::UnimplementedInstruction(0b0101000000001111)));
    let mut mem = Memory::new();
    mem.set_extracode();
    // DV.
    assert_eq!(execute(&mut mem, 0b0001000000110000), Err(AgcError::UnimplementedInstruction(0b0001000000110000)));
    let mut mem = Memory::new();
    mem.set_extracode();
    assert_eq!(execute(&mut mem, 0b0000000000110000), Err(AgcError::UndefinedInstruction(0b0000000000110000)));
}

#[test]
fn refused_words_leave_the_machine_unchanged() {
    let mut mem = Memory::new();
    assert_eq!(mem.write(ACC, 9), Ok(()));
    assert_eq!(execute(&mut mem, 0b0101000000001111), Err(AgcError::UnimplementedInstruction(0b0101000000001111)));
    assert_eq!(acc(&mem), 9);
    assert_eq!(pc(&mem), 2048);
    assert!(!mem.extracode());
}

#[test]
fn decode_names_both_sets() {
    let mut mem = Memory::new();
    assert_eq!(decode(&mem, 2), Ok(Instruction(Op::Return, None)));
    assert_eq!(decode(&mem, 6), Ok(Instruction(Op::Extend, None)));
    assert_eq!(decode(&mem, 0b0100000000000000), Ok(Instruction(Op::Com, None)));
    assert_eq!(decode(&mem, 0b0001010000000101), Ok(Instruction(Op::Tcf, Some(0b010000000101))));
    assert_eq!(decode(&mem, 0b0101100000110010), Ok(Instruction(Op::Ts, Some(50))));
    mem.set_extracode();
    assert_eq!(decode(&mem, 0b0001010000000101), Ok(Instruction(Op::Bzf, Some(0b010000000101))));
    assert_eq!(decode(&mem, 0b0111000000110010), Ok(Instruction(Op::Mp, Some(50))));
    assert_eq!(decode(&mem, 0b0010010000110010), Ok(Instruction(Op::Qxch, Some(50))));
    // Decoding changes nothing.
    assert!(mem.extracode());
}

#[test]
fn tc_and_return() {
    // TC 2060 at 2048; RETURN at 2060.
    let mut image = vec![0u16; 16];
    image[0] = 2060;
    image[12] = 2;
    let mut mem = machine_with(&image);
    assert_eq!(step(&mut mem), Ok(()));
    assert_eq!(pc(&mem), 2060);
    assert_eq!(mem.read(Q), Ok(2049));
    assert_eq!(step(&mut mem), Ok(()));
    assert_eq!(pc(&mem), 2049);
}

#[test]
fn interrupt_flag_follows_relint_and_inhint() {
    let mut mem = machine_with(&[3, 4]);
    assert_eq!(step(&mut mem), Ok(()));
    assert!(mem.interrupts_enabled());
    assert_eq!(step(&mut mem), Ok(()));
    assert!(!mem.interrupts_enabled());
}

#[test]
fn branches_on_zero_and_minus() {
    let mut mem = Memory::new();
    mem.set_extracode();
    assert_eq!(execute(&mut mem, 0b0001010000000101), Ok(()));
    assert_eq!(pc(&mem), 0b010000000101);
    let mut mem = Memory::new();
    assert_eq!(mem.write(ACC, 0x7FFF), Ok(()));
    mem.set_extracode();
    assert_eq!(execute(&mut mem, 0b0001010000000101), Ok(()));
    assert_eq!(pc(&mem), 2049);
    let mut mem = Memory::new();
    assert_eq!(mem.write(ACC, NEG_ONE), Ok(()));
    mem.set_extracode();
    assert_eq!(execute(&mut mem, 0b0110010000000101), Ok(()));
    assert_eq!(pc(&mem), 0b010000000101);
    let mut mem = Memory::new();
    assert_eq!(mem.write(ACC, 1), Ok(()));
    mem.set_extracode();
    assert_eq!(execute(&mut mem, 0b0110010000000101), Ok(()));
    assert_eq!(pc(&mem), 2049);
}

#[test]
fn ts_skips_on_overflow() {
    let mut mem = Memory::new();
    assert_eq!(mem.write(ACC, 0x4001), Ok(()));
    assert_eq!(ts(&mut mem, 300), Ok(()));
    assert_eq!(mem.read(300), Ok(1));
    assert_eq!(acc(&mem), 1);
    assert_eq!(pc(&mem), 2049);
    // Into the accumulator itself the value stays and the skip remains.
    let mut mem = Memory::new();
    assert_eq!(mem.write(ACC, 0xBFFF), Ok(()));
    assert_eq!(ts(&mut mem, ACC), Ok(()));
    assert_eq!(acc(&mem), 0xBFFF);
    assert_eq!(pc(&mem), 2049);
    let mut mem = Memory::new();
    assert_eq!(mem.write(ACC, 7), Ok(()));
    assert_eq!(ts(&mut mem, 300), Ok(()));
    assert_eq!(mem.read(300), Ok(7));
    assert_eq!(pc(&mem), 2048);
}

#[test]
fn ads_stores_the_corrected_sum() {
    let mut mem = Memory::new();
    assert_eq!(mem.write(ACC, 3), Ok(()));
    assert_eq!(mem.write(300, 16382), Ok(()));
    // ADS 300.
    assert_eq!(execute(&mut mem, 0b0010110000000000 + 300), Ok(()));
    assert_eq!(acc(&mem), 0x4001);
    assert_eq!(mem.read(300), Ok(1));
}

#[test]
fn das_carries_low_to_high() {
    let mut mem = Memory::new();
    // A,L = 0, 16383; (300, 301) = 0, 1.
    assert_eq!(mem.write(L, 16383), Ok(()));
    assert_eq!(mem.write(301, 1), Ok(()));
    assert_eq!(das(&mut mem, 301), Ok(()));
    assert_eq!(mem.read(301), Ok(0));
    assert_eq!(mem.read(300), Ok(1));
    assert_eq!(acc(&mem), 0);
    assert_eq!(mem.read(L), Ok(0));
}

#[test]
fn das_reports_high_overflow() {
    let mut mem = Memory::new();
    assert_eq!(mem.write(ACC, 16383), Ok(()));
    assert_eq!(mem.write(300, 1), Ok(()));
    assert_eq!(das(&mut mem, 301), Ok(()));
    assert_eq!(mem.read(300), Ok(0x0000));
    assert_eq!(acc(&mem), 1);
}

#[test]
fn double_loads_take_the_low_word_first() {
    let mut mem = Memory::new();
    assert_eq!(mem.write(300, 0x7FFE), Ok(()));
    assert_eq!(mem.write(301, 5), Ok(()));
    assert_eq!(dca(&mut mem, 301), Ok(()));
    assert_eq!(acc(&mem), NEG_ONE);
    assert_eq!(mem.read(L), Ok(5));
    assert_eq!(dcs(&mut mem, 301), Ok(()));
    assert_eq!(acc(&mem), 1);
    assert_eq!(mem.read(L), Ok(0x7FFA));
}

#[test]
fn multiply_splits_the_product() {
    let mut mem = Memory::new();
    assert_eq!(mem.write(ACC, 3), Ok(()));
    assert_eq!(mem.write(300, 5), Ok(()));
    assert_eq!(mp(&mut mem, 300), Ok(()));
    assert_eq!(acc(&mem), 0);
    assert_eq!(mem.read(L), Ok(15));
    let mut mem = Memory::new();
    assert_eq!(mem.write(ACC, 0x2000), Ok(()));
    assert_eq!(mem.write(300, 4), Ok(()));
    assert_eq!(mp(&mut mem, 300), Ok(()));
    assert_eq!(acc(&mem), 2);
    assert_eq!(mem.read(L), Ok(0));
    // A negative product carries its sign in bit 15.
    let mut mem = Memory::new();
    assert_eq!(mem.write(ACC, 0xFFFC), Ok(()));
    assert_eq!(mem.write(300, 2), Ok(()));
    assert_eq!(mp(&mut mem, 300), Ok(()));
    assert_eq!(acc(&mem), 0xBFFF);
    assert_eq!(mem.read(L), Ok(0x3FF9));
}

#[test]
fn multiply_zero_products() {
    let mut mem = Memory::new();
    assert_eq!(mem.write(ACC, 0), Ok(()));
    assert_eq!(mem.write(300, 0x7FF0), Ok(()));
    assert_eq!(mp(&mut mem, 300), Ok(()));
    assert_eq!(acc(&mem), NEG_ZERO);
    assert_eq!(mem.read(L), Ok(0x7FFF));
    let mut mem = Memory::new();
    assert_eq!(mem.write(ACC, 5), Ok(()));
    assert_eq!(mp(&mut mem, 300), Ok(()));
    assert_eq!(acc(&mem), 0);
    assert_eq!(mem.read(L), Ok(0));
}

#[test]
fn mask_ands_with_the_operand() {
    let mut mem = Memory::new();
    assert_eq!(mem.write(ACC, 0xFF0F), Ok(()));
    assert_eq!(mem.write(300, 0x70FF), Ok(()));
    assert_eq!(mask(&mut mem, 300), Ok(()));
    assert_eq!(acc(&mem), 0xF00F);
    assert_eq!(mem.write(Q, 0x00F0), Ok(()));
    assert_eq!(mask(&mut mem, Q), Ok(()));
    assert_eq!(acc(&mem), 0x0000);
}

#[test]
fn modular_subtract() {
    let mut mem = Memory::new();
    assert_eq!(mem.write(ACC, 5), Ok(()));
    assert_eq!(mem.write(300, 7), Ok(()));
    assert_eq!(msu(&mut mem, 300), Ok(()));
    assert_eq!(acc(&mem), 0xFFFD);
    let mut mem = Memory::new();
    assert_eq!(mem.write(ACC, 9), Ok(()));
    assert_eq!(mem.write(300, 7), Ok(()));
    assert_eq!(msu(&mut mem, 300), Ok(()));
    assert_eq!(acc(&mem), 2);
}

#[test]
fn exchanges() {
    let mut mem = Memory::new();
    assert_eq!(mem.write(ACC, 0x4001), Ok(()));
    assert_eq!(mem.write(300, 0x7FFE), Ok(()));
    // XCH 300.
    assert_eq!(execute(&mut mem, 0b0101110000000000 + 300), Ok(()));
    assert_eq!(acc(&mem), NEG_ONE);
    assert_eq!(mem.read(300), Ok(1));
    // LXCH 300.
    assert_eq!(mem.write(L, 9), Ok(()));
    assert_eq!(execute(&mut mem, 0b0010010000000000 + 300), Ok(()));
    assert_eq!(mem.read(L), Ok(1));
    assert_eq!(mem.read(300), Ok(9));
    // QXCH 300.
    assert_eq!(mem.write(Q, 0x7FF0), Ok(()));
    mem.set_extracode();
    assert_eq!(execute(&mut mem, 0b0010010000000000 + 300), Ok(()));
    assert_eq!(mem.read(Q), Ok(9));
    assert_eq!(mem.read(300), Ok(0x3FF0));
}

#[test]
fn augment_and_diminish_follow_the_sign() {
    let mut mem = Memory::new();
    assert_eq!(mem.write(300, 5), Ok(()));
    assert_eq!(mem.write(301, 0x7FFA), Ok(()));
    mem.set_extracode();
    assert_eq!(execute(&mut mem, 0b0010100000000000 + 300), Ok(()));
    assert_eq!(mem.read(300), Ok(6));
    mem.set_extracode();
    assert_eq!(execute(&mut mem, 0b0010100000000000 + 301), Ok(()));
    assert_eq!(mem.read(301), Ok(0x7FF9));
    mem.set_extracode();
    assert_eq!(execute(&mut mem, 0b0010110000000000 + 300), Ok(()));
    assert_eq!(mem.read(300), Ok(5));
    mem.set_extracode();
    assert_eq!(execute(&mut mem, 0b0010110000000000 + 301), Ok(()));
    assert_eq!(mem.read(301), Ok(0x7FFA));
}

#[test]
fn clear_and_subtract_complements() {
    let mut mem = Memory::new();
    assert_eq!(mem.write(300, 5), Ok(()));
    assert_eq!(execute(&mut mem, 0b0100000000000000 + 300), Ok(()));
    assert_eq!(acc(&mem), 0xFFFA);
    // COM complements the accumulator.
    assert_eq!(execute(&mut mem, 0b0100000000000000), Ok(()));
    assert_eq!(acc(&mem), 5);
}

#[test]
fn load_program_masks_to_fifteen_bits() {
    let mut mem = Memory::new();
    mem.load_program(&vec![0xFFFF, 7]);
    assert_eq!(mem.read(2048), Ok(0x7FFF));
    assert_eq!(mem.read(2049), Ok(7));
    assert_eq!(mem.read(2050), Ok(0));
}

#[test]
fn write_acc_signed_extends() {
    let mut mem = Memory::new();
    mem.write_acc_signed(0x7FFD);
    assert_eq!(acc(&mem), 0xFFFD);
}

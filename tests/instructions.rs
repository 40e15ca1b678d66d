use dmg_cpu::alu::{add8, daa8, sub8, Flags};
use dmg_cpu::Fault;
use dmg_cpu::CPU;
use dmg_cpu::MMU;

fn cpu_at(addr: u16, program: &[u8]) -> CPU {
    let mut m = MMU::new(vec![0; 256]).unwrap();
    for (i, b) in program.iter().enumerate() {
        m.write(addr + i as u16, *b);
    }
    let mut cpu = CPU::new(m);
    cpu.set_pc(addr);
    cpu
}

fn run(cpu: &mut CPU, steps: usize) {
    for _ in 0..steps {
        cpu.step().unwrap();
    }
}

fn flags(cpu: &CPU) -> (bool, bool, bool, bool) {
    (cpu.f_z(), cpu.f_n(), cpu.f_h(), cpu.f_c())
}

#[test]
fn new_cpu_starts_after_boot_handoff() {
    let cpu = CPU::new(MMU::new(vec![0; 256]).unwrap());
    assert_eq!(cpu.pc(), 0x0100);
    assert_eq!(cpu.sp(), 0);
    assert_eq!(cpu.af(), 0);
    assert_eq!(cpu.bc(), 0);
    assert_eq!(cpu.de(), 0);
    assert_eq!(cpu.hl(), 0);
}

#[test]
fn ld_add_nop_program() {
    // LD A,5; ADD A,3; NOP, placed in working RAM.
    let mut cpu = cpu_at(0xc000, &[0x3e, 0x05, 0xc6, 0x03, 0x00]);
    run(&mut cpu, 3);
    assert_eq!(cpu.a(), 8);
    assert_eq!(flags(&cpu), (false, false, false, false));
    assert_eq!(cpu.pc(), 0xc005);
}

#[test]
fn ld_add_nop_program_in_boot_image() {
    let mut boot = vec![0u8; 256];
    boot[..5].copy_from_slice(&[0x3e, 0x05, 0xc6, 0x03, 0x00]);
    let mut cpu = CPU::new(MMU::new(boot).unwrap());
    cpu.set_pc(0x0000);
    run(&mut cpu, 3);
    assert_eq!(cpu.a(), 8);
    assert_eq!(flags(&cpu), (false, false, false, false));
    assert_eq!(cpu.pc(), 0x0005);
}

#[test]
fn first_step_at_0x0100_runs_unmapped_ff_as_rst_38() {
    let mut cpu = CPU::new(MMU::new(vec![0; 256]).unwrap());
    run(&mut cpu, 1);
    assert_eq!(cpu.pc(), 0x0038);
    assert_eq!(cpu.sp(), 0xfffe);
    // Low byte of the return address lands in high RAM, the high byte at the
    // unmapped 0xffff.
    assert_eq!(cpu.mmu().read(0xfffe), 0x01);
}

#[test]
fn add_sets_flags() {
    let mut cpu = cpu_at(0xc000, &[0x3e, 0x0f, 0xc6, 0x01]);
    run(&mut cpu, 2);
    assert_eq!(cpu.a(), 0x10);
    assert_eq!(flags(&cpu), (false, false, true, false));

    let mut cpu = cpu_at(0xc000, &[0x3e, 0xff, 0xc6, 0x01]);
    run(&mut cpu, 2);
    assert_eq!(cpu.a(), 0x00);
    assert_eq!(flags(&cpu), (true, false, true, true));

    // ADD A,B with B = 0x80
    let mut cpu = cpu_at(0xc000, &[0x3e, 0x80, 0x06, 0x80, 0x80]);
    run(&mut cpu, 3);
    assert_eq!(cpu.a(), 0x00);
    assert_eq!(flags(&cpu), (true, false, false, true));
}

#[test]
fn sub_and_cp_set_flags() {
    let mut cpu = cpu_at(0xc000, &[0x3e, 0x10, 0xd6, 0x01]);
    run(&mut cpu, 2);
    assert_eq!(cpu.a(), 0x0f);
    assert_eq!(flags(&cpu), (false, true, true, false));

    let mut cpu = cpu_at(0xc000, &[0x3e, 0x01, 0xd6, 0x02]);
    run(&mut cpu, 2);
    assert_eq!(cpu.a(), 0xff);
    assert_eq!(flags(&cpu), (false, true, true, true));

    let mut cpu = cpu_at(0xc000, &[0x3e, 0x42, 0xd6, 0x42]);
    run(&mut cpu, 2);
    assert_eq!(cpu.a(), 0x00);
    assert_eq!(flags(&cpu), (true, true, false, false));

    // CP 0x42 leaves A alone
    let mut cpu = cpu_at(0xc000, &[0x3e, 0x42, 0xfe, 0x42]);
    run(&mut cpu, 2);
    assert_eq!(cpu.a(), 0x42);
    assert_eq!(flags(&cpu), (true, true, false, false));

    // CP 0x50: A < 0x50
    let mut cpu = cpu_at(0xc000, &[0x3e, 0x42, 0xfe, 0x50]);
    run(&mut cpu, 2);
    assert_eq!(flags(&cpu), (false, true, false, true));
}

#[test]
fn adc_and_sbc_use_carry_in() {
    // SCF; LD A,0x0e; ADC A,0x01
    let mut cpu = cpu_at(0xc000, &[0x37, 0x3e, 0x0e, 0xce, 0x01]);
    run(&mut cpu, 3);
    assert_eq!(cpu.a(), 0x10);
    assert_eq!(flags(&cpu), (false, false, true, false));

    // SCF; LD A,0x10; SBC A,0x0f
    let mut cpu = cpu_at(0xc000, &[0x37, 0x3e, 0x10, 0xde, 0x0f]);
    run(&mut cpu, 3);
    assert_eq!(cpu.a(), 0x00);
    assert_eq!(flags(&cpu), (true, true, true, false));

    // SCF; LD A,0xff; ADC A,0x00
    let mut cpu = cpu_at(0xc000, &[0x37, 0x3e, 0xff, 0xce, 0x00]);
    run(&mut cpu, 3);
    assert_eq!(cpu.a(), 0x00);
    assert_eq!(flags(&cpu), (true, false, true, true));
}

#[test]
fn logic_ops_set_flags() {
    let mut cpu = cpu_at(0xc000, &[0x3e, 0xf0, 0xe6, 0x0f]);
    run(&mut cpu, 2);
    assert_eq!(cpu.a(), 0x00);
    assert_eq!(flags(&cpu), (true, false, true, false));

    let mut cpu = cpu_at(0xc000, &[0x3e, 0xf0, 0xf6, 0x0f]);
    run(&mut cpu, 2);
    assert_eq!(cpu.a(), 0xff);
    assert_eq!(flags(&cpu), (false, false, false, false));

    // XOR A
    let mut cpu = cpu_at(0xc000, &[0x3e, 0x5a, 0xaf]);
    run(&mut cpu, 2);
    assert_eq!(cpu.a(), 0x00);
    assert_eq!(flags(&cpu), (true, false, false, false));
}

#[test]
fn inc_and_dec_keep_carry() {
    // LD B,0x0f; INC B
    let mut cpu = cpu_at(0xc000, &[0x06, 0x0f, 0x04]);
    run(&mut cpu, 2);
    assert_eq!(cpu.bc(), 0x1000);
    assert_eq!(flags(&cpu), (false, false, true, false));

    // SCF; LD B,0x01; DEC B
    let mut cpu = cpu_at(0xc000, &[0x37, 0x06, 0x01, 0x05]);
    run(&mut cpu, 3);
    assert_eq!(cpu.bc(), 0x0000);
    assert_eq!(flags(&cpu), (true, true, false, true));

    // DEC C from zero wraps and borrows from bit 4
    let mut cpu = cpu_at(0xc000, &[0x0d]);
    run(&mut cpu, 1);
    assert_eq!(cpu.bc(), 0x00ff);
    assert_eq!(flags(&cpu), (false, true, true, false));

    // INC A from 0xff
    let mut cpu = cpu_at(0xc000, &[0x3e, 0xff, 0x3c]);
    run(&mut cpu, 2);
    assert_eq!(cpu.a(), 0x00);
    assert_eq!(flags(&cpu), (true, false, true, false));
}

#[test]
fn push_then_pop_restores_sp_and_pair() {
    // LD SP,0xd000; LD BC,0x1234; PUSH BC; POP BC
    let mut cpu = cpu_at(0xc000, &[0x31, 0x00, 0xd0, 0x01, 0x34, 0x12, 0xc5, 0xc1]);
    run(&mut cpu, 3);
    assert_eq!(cpu.sp(), 0xcffe);
    assert_eq!(cpu.mmu().read(0xcffe), 0x34);
    assert_eq!(cpu.mmu().read(0xcfff), 0x12);
    run(&mut cpu, 1);
    assert_eq!(cpu.sp(), 0xd000);
    assert_eq!(cpu.bc(), 0x1234);

    // PUSH HL; POP DE moves the value across pairs
    let mut cpu = cpu_at(0xc000, &[0x31, 0x00, 0xd0, 0x21, 0xcd, 0xab, 0xe5, 0xd1]);
    run(&mut cpu, 4);
    assert_eq!(cpu.de(), 0xabcd);
    assert_eq!(cpu.sp(), 0xd000);
}

#[test]
fn push_then_pop_af() {
    // LD SP,0xd000; SCF; LD A,0x77; PUSH AF; POP AF
    let mut cpu = cpu_at(0xc000, &[0x31, 0x00, 0xd0, 0x37, 0x3e, 0x77, 0xf5, 0xf1]);
    run(&mut cpu, 5);
    assert_eq!(cpu.af(), 0x7710);
    assert_eq!(cpu.sp(), 0xd000);
}

#[test]
fn pop_af_clears_low_nibble_of_f() {
    // LD SP,0xd000; LD BC,0x12ff; PUSH BC; POP AF
    let mut cpu = cpu_at(0xc000, &[0x31, 0x00, 0xd0, 0x01, 0xff, 0x12, 0xc5, 0xf1]);
    run(&mut cpu, 4);
    assert_eq!(cpu.a(), 0x12);
    assert_eq!(cpu.f(), 0xf0);
    assert_eq!(cpu.af(), 0x12f0);
    assert_eq!(flags(&cpu), (true, true, true, true));
}

#[test]
fn set_af_clears_low_nibble_of_f() {
    let mut cpu = cpu_at(0xc000, &[]);
    cpu.set_af(0xabcd);
    assert_eq!(cpu.af(), 0xabc0);
}

#[test]
fn f_low_nibble_stays_zero_over_a_run() {
    let program = [
        0x31, 0x00, 0xd0, // LD SP,0xd000
        0x01, 0xff, 0xff, // LD BC,0xffff
        0xc5, // PUSH BC
        0xf1, // POP AF
        0x3e, 0x99, // LD A,0x99
        0xc6, 0x99, // ADD A,0x99
        0x27, // DAA
        0x3f, // CCF
        0x2f, // CPL
        0xd6, 0x01, // SUB 1
        0xcb, 0x37, // SWAP A
        0x09, // ADD HL,BC
        0xe8, 0xff, // ADD SP,-1
        0x17, // RLA
    ];
    let mut cpu = cpu_at(0xc000, &program);
    for _ in 0..14 {
        cpu.step().unwrap();
        assert_eq!(cpu.f() & 0x0f, 0);
    }
    assert_eq!(cpu.pc(), 0xc000 + program.len() as u16);
}

#[test]
fn daa_known_vectors() {
    // LD A,0x45; DAA with all flags clear
    let mut cpu = cpu_at(0xc000, &[0x3e, 0x45, 0x27]);
    run(&mut cpu, 2);
    assert_eq!(cpu.a(), 0x45);
    assert!(!cpu.f_z());
    assert!(!cpu.f_c());

    // LD A,0x9a; DAA with all flags clear
    let mut cpu = cpu_at(0xc000, &[0x3e, 0x9a, 0x27]);
    run(&mut cpu, 2);
    assert_eq!(cpu.a(), 0x00);
    assert!(cpu.f_c());
    assert!(cpu.f_z());
    assert!(!cpu.f_h());

    let none = Flags { z: false, n: false, h: false, c: false };
    assert_eq!(daa8(0x45, none).value, 0x45);
    assert_eq!(daa8(0x9a, none).value, 0x00);
    assert!(daa8(0x9a, none).flags.c);
}

#[test]
fn daa_after_bcd_add_and_sub() {
    // LD A,0x15; ADD A,0x27; DAA -> 0x42
    let mut cpu = cpu_at(0xc000, &[0x3e, 0x15, 0xc6, 0x27, 0x27]);
    run(&mut cpu, 3);
    assert_eq!(cpu.a(), 0x42);
    assert_eq!(flags(&cpu), (false, false, false, false));

    // LD A,0x42; SUB 0x15; DAA -> 0x27
    let mut cpu = cpu_at(0xc000, &[0x3e, 0x42, 0xd6, 0x15, 0x27]);
    run(&mut cpu, 3);
    assert_eq!(cpu.a(), 0x27);
    assert_eq!(flags(&cpu), (false, true, false, false));

    // LD A,0x90; ADD A,0x90; DAA -> 0x80 with carry
    let mut cpu = cpu_at(0xc000, &[0x3e, 0x90, 0xc6, 0x90, 0x27]);
    run(&mut cpu, 3);
    assert_eq!(cpu.a(), 0x80);
    assert_eq!(flags(&cpu), (false, false, false, true));
}

#[test]
fn jp_nz_not_taken_consumes_operand() {
    // XOR A (sets Z); JP NZ,0x1234
    let mut cpu = cpu_at(0xc000, &[0xaf, 0xc2, 0x34, 0x12]);
    run(&mut cpu, 1);
    let x = cpu.pc();
    run(&mut cpu, 1);
    assert_eq!(cpu.pc(), x + 3);

    // Z clear: the jump is taken
    let mut cpu = cpu_at(0xc000, &[0xc2, 0x34, 0x12]);
    run(&mut cpu, 1);
    assert_eq!(cpu.pc(), 0x1234);
}

#[test]
fn other_branches_not_taken_consume_operands() {
    // XOR A; JR NZ,+5; CALL NZ,0x1234; JP C,0x1234; CALL C,0x1234; JR C,-2
    let mut cpu = cpu_at(
        0xc000,
        &[0xaf, 0x20, 0x05, 0xc4, 0x34, 0x12, 0xda, 0x34, 0x12, 0xdc, 0x34, 0x12, 0x38, 0xfe],
    );
    cpu.set_sp(0xd000);
    run(&mut cpu, 2);
    assert_eq!(cpu.pc(), 0xc003);
    run(&mut cpu, 1);
    assert_eq!(cpu.pc(), 0xc006);
    assert_eq!(cpu.sp(), 0xd000);
    run(&mut cpu, 3);
    assert_eq!(cpu.pc(), 0xc00e);
    assert_eq!(cpu.sp(), 0xd000);
}

#[test]
fn call_and_ret() {
    // LD SP,0xd000; CALL 0xc010
    let mut cpu = cpu_at(0xc000, &[0x31, 0x00, 0xd0, 0xcd, 0x10, 0xc0]);
    run(&mut cpu, 2);
    assert_eq!(cpu.pc(), 0xc010);
    assert_eq!(cpu.sp(), 0xcffe);
    assert_eq!(cpu.mmu().read16(0xcffe), 0xc006);
}

#[test]
fn call_then_ret_returns_past_the_call() {
    let mut m = MMU::new(vec![0; 256]).unwrap();
    // LD SP,0xd000; CALL 0xc010; NOP
    for (i, b) in [0x31u8, 0x00, 0xd0, 0xcd, 0x10, 0xc0, 0x00].iter().enumerate() {
        m.write(0xc000 + i as u16, *b);
    }
    // SCF; RET C
    m.write(0xc010, 0x37);
    m.write(0xc011, 0xd8);
    let mut cpu = CPU::new(m);
    cpu.set_pc(0xc000);
    run(&mut cpu, 4);
    assert_eq!(cpu.pc(), 0xc006);
    assert_eq!(cpu.sp(), 0xd000);
}

#[test]
fn rst_calls_fixed_address() {
    // LD SP,0xd000; RST 0x28
    let mut cpu = cpu_at(0xc000, &[0x31, 0x00, 0xd0, 0xef]);
    run(&mut cpu, 2);
    assert_eq!(cpu.pc(), 0x0028);
    assert_eq!(cpu.sp(), 0xcffe);
    assert_eq!(cpu.mmu().read16(0xcffe), 0xc004);
}

#[test]
fn jr_moves_by_signed_offset() {
    let mut cpu = cpu_at(0xc000, &[0x18, 0xfe]);
    run(&mut cpu, 1);
    assert_eq!(cpu.pc(), 0xc000);

    let mut cpu = cpu_at(0xc000, &[0x18, 0x10]);
    run(&mut cpu, 1);
    assert_eq!(cpu.pc(), 0xc012);
}

#[test]
fn jp_hl_loads_pc() {
    let mut cpu = cpu_at(0xc000, &[0x21, 0x34, 0x12, 0xe9]);
    run(&mut cpu, 2);
    assert_eq!(cpu.pc(), 0x1234);
}

#[test]
fn sp_offset_arithmetic() {
    // LD SP,0xc0ff; LD HL,SP+1
    let mut cpu = cpu_at(0xc000, &[0x31, 0xff, 0xc0, 0xf8, 0x01]);
    run(&mut cpu, 2);
    assert_eq!(cpu.hl(), 0xc100);
    assert_eq!(cpu.sp(), 0xc0ff);
    assert_eq!(flags(&cpu), (false, false, true, true));

    // LD SP,0xc000; LD HL,SP-1
    let mut cpu = cpu_at(0xc000, &[0x31, 0x00, 0xc0, 0xf8, 0xff]);
    run(&mut cpu, 2);
    assert_eq!(cpu.hl(), 0xbfff);
    assert_eq!(flags(&cpu), (false, false, false, false));

    // XOR A; LD SP,0xfff8; ADD SP,8: Z is cleared
    let mut cpu = cpu_at(0xc000, &[0xaf, 0x31, 0xf8, 0xff, 0xe8, 0x08]);
    run(&mut cpu, 3);
    assert_eq!(cpu.sp(), 0x0000);
    assert_eq!(flags(&cpu), (false, false, true, true));
}

#[test]
fn add_hl_r16_flags() {
    // XOR A; LD HL,0x0fff; LD BC,0x0001; ADD HL,BC: Z kept
    let mut cpu = cpu_at(0xc000, &[0xaf, 0x21, 0xff, 0x0f, 0x01, 0x01, 0x00, 0x09]);
    run(&mut cpu, 4);
    assert_eq!(cpu.hl(), 0x1000);
    assert_eq!(flags(&cpu), (true, false, true, false));

    // LD HL,0xffff; ADD HL,HL
    let mut cpu = cpu_at(0xc000, &[0x21, 0xff, 0xff, 0x29]);
    run(&mut cpu, 2);
    assert_eq!(cpu.hl(), 0xfffe);
    assert_eq!(flags(&cpu), (false, false, true, true));
}

#[test]
fn inc_dec_r16_wrap_without_flags() {
    // LD BC,0xffff; INC BC; DEC DE
    let mut cpu = cpu_at(0xc000, &[0x01, 0xff, 0xff, 0x03, 0x1b]);
    run(&mut cpu, 3);
    assert_eq!(cpu.bc(), 0x0000);
    assert_eq!(cpu.de(), 0xffff);
    assert_eq!(cpu.f(), 0);
}

#[test]
fn rotate_a_clears_z() {
    // RLCA on A = 0
    let mut cpu = cpu_at(0xc000, &[0x07]);
    run(&mut cpu, 1);
    assert_eq!(cpu.a(), 0);
    assert_eq!(flags(&cpu), (false, false, false, false));

    // LD A,0x81; RRA (carry clear) -> 0x40, C set
    let mut cpu = cpu_at(0xc000, &[0x3e, 0x81, 0x1f]);
    run(&mut cpu, 2);
    assert_eq!(cpu.a(), 0x40);
    assert_eq!(flags(&cpu), (false, false, false, true));
}

#[test]
fn prefixed_rotates_and_shifts() {
    // LD A,0x85; RLC A
    let mut cpu = cpu_at(0xc000, &[0x3e, 0x85, 0xcb, 0x07]);
    run(&mut cpu, 2);
    assert_eq!(cpu.a(), 0x0b);
    assert_eq!(flags(&cpu), (false, false, false, true));

    // LD B,0x01; RR B
    let mut cpu = cpu_at(0xc000, &[0x06, 0x01, 0xcb, 0x18]);
    run(&mut cpu, 2);
    assert_eq!(cpu.bc(), 0x0000);
    assert_eq!(flags(&cpu), (true, false, false, true));

    // LD A,0x81; SRA A
    let mut cpu = cpu_at(0xc000, &[0x3e, 0x81, 0xcb, 0x2f]);
    run(&mut cpu, 2);
    assert_eq!(cpu.a(), 0xc0);
    assert!(cpu.f_c());

    // LD A,0x81; SRL A
    let mut cpu = cpu_at(0xc000, &[0x3e, 0x81, 0xcb, 0x3f]);
    run(&mut cpu, 2);
    assert_eq!(cpu.a(), 0x40);
    assert!(cpu.f_c());

    // LD A,0x81; SLA A
    let mut cpu = cpu_at(0xc000, &[0x3e, 0x81, 0xcb, 0x27]);
    run(&mut cpu, 2);
    assert_eq!(cpu.a(), 0x02);
    assert!(cpu.f_c());

    // LD A,0xf1; SWAP A
    let mut cpu = cpu_at(0xc000, &[0x3e, 0xf1, 0xcb, 0x37]);
    run(&mut cpu, 2);
    assert_eq!(cpu.a(), 0x1f);
    assert_eq!(flags(&cpu), (false, false, false, false));

    // SCF; LD C,0x80; RL C -> 0x01, C set
    let mut cpu = cpu_at(0xc000, &[0x37, 0x0e, 0x80, 0xcb, 0x11]);
    run(&mut cpu, 3);
    assert_eq!(cpu.bc(), 0x0001);
    assert!(cpu.f_c());
}

#[test]
fn prefixed_bit_operations() {
    // LD H,0x80; BIT 7,H
    let mut cpu = cpu_at(0xc000, &[0x26, 0x80, 0xcb, 0x7c]);
    run(&mut cpu, 2);
    assert_eq!(flags(&cpu), (false, false, true, false));

    // BIT 0,H on 0x80
    let mut cpu = cpu_at(0xc000, &[0x26, 0x80, 0xcb, 0x44]);
    run(&mut cpu, 2);
    assert_eq!(flags(&cpu), (true, false, true, false));

    // SET 3,C
    let mut cpu = cpu_at(0xc000, &[0xcb, 0xd9]);
    run(&mut cpu, 1);
    assert_eq!(cpu.bc(), 0x0008);

    // LD A,0xff; RES 7,A
    let mut cpu = cpu_at(0xc000, &[0x3e, 0xff, 0xcb, 0xbf]);
    run(&mut cpu, 2);
    assert_eq!(cpu.a(), 0x7f);
}

#[test]
fn prefixed_ops_on_memory_at_hl() {
    // LD HL,0xc100; LD (HL),0x81; SWAP (HL); SET 1,(HL)
    let mut cpu = cpu_at(0xc000, &[0x21, 0x00, 0xc1, 0x36, 0x81, 0xcb, 0x36, 0xcb, 0xce]);
    run(&mut cpu, 4);
    assert_eq!(cpu.mmu().read(0xc100), 0x1a);
}

#[test]
fn ld_hl_increment_and_decrement() {
    // LD HL,0xc100; LD A,0x5a; LD (HL+),A; LD A,(HL-)
    let mut cpu = cpu_at(0xc000, &[0x21, 0x00, 0xc1, 0x3e, 0x5a, 0x22, 0x3a]);
    run(&mut cpu, 3);
    assert_eq!(cpu.mmu().read(0xc100), 0x5a);
    assert_eq!(cpu.hl(), 0xc101);
    run(&mut cpu, 1);
    assert_eq!(cpu.a(), 0x00);
    assert_eq!(cpu.hl(), 0xc100);
}

#[test]
fn io_port_loads() {
    // LD A,0x77; LDH (0x80),A; LD C,0x81; LD (C),A; LD A,0; LDH A,(0x80)
    let mut cpu =
        cpu_at(0xc000, &[0x3e, 0x77, 0xe0, 0x80, 0x0e, 0x81, 0xe2, 0x3e, 0x00, 0xf0, 0x80]);
    run(&mut cpu, 4);
    assert_eq!(cpu.mmu().read(0xff80), 0x77);
    assert_eq!(cpu.mmu().read(0xff81), 0x77);
    run(&mut cpu, 2);
    assert_eq!(cpu.a(), 0x77);
}

#[test]
fn indirect_and_absolute_loads() {
    // LD BC,0xc100; LD A,0x12; LD (BC),A; LD DE,0xc100; LD A,0; LD A,(DE)
    let mut cpu = cpu_at(
        0xc000,
        &[0x01, 0x00, 0xc1, 0x3e, 0x12, 0x02, 0x11, 0x00, 0xc1, 0x3e, 0x00, 0x1a],
    );
    run(&mut cpu, 6);
    assert_eq!(cpu.a(), 0x12);

    // LD A,0x34; LD (0xc200),A; LD A,0; LD A,(0xc200)
    let mut cpu = cpu_at(0xc000, &[0x3e, 0x34, 0xea, 0x00, 0xc2, 0x3e, 0x00, 0xfa, 0x00, 0xc2]);
    run(&mut cpu, 2);
    assert_eq!(cpu.mmu().read(0xc200), 0x34);
    run(&mut cpu, 2);
    assert_eq!(cpu.a(), 0x34);

    // LD SP,0xabcd; LD (0xc100),SP
    let mut cpu = cpu_at(0xc000, &[0x31, 0xcd, 0xab, 0x08, 0x00, 0xc1]);
    run(&mut cpu, 2);
    assert_eq!(cpu.mmu().read16(0xc100), 0xabcd);
}

#[test]
fn ld_r8_r8_and_ld_sp_hl() {
    // LD B,0x12; LD D,B; LD HL,0xc123; LD SP,HL
    let mut cpu = cpu_at(0xc000, &[0x06, 0x12, 0x50, 0x21, 0x23, 0xc1, 0xf9]);
    run(&mut cpu, 4);
    assert_eq!(cpu.de(), 0x1200);
    assert_eq!(cpu.sp(), 0xc123);
}

#[test]
fn cpl_scf_ccf() {
    // LD A,0x35; CPL
    let mut cpu = cpu_at(0xc000, &[0x3e, 0x35, 0x2f, 0x37, 0x3f]);
    run(&mut cpu, 2);
    assert_eq!(cpu.a(), 0xca);
    assert_eq!(flags(&cpu), (false, true, true, false));
    run(&mut cpu, 1);
    assert_eq!(flags(&cpu), (false, false, false, true));
    run(&mut cpu, 1);
    assert_eq!(flags(&cpu), (false, false, false, false));
}

#[test]
fn di_ei_change_nothing() {
    let mut cpu = cpu_at(0xc000, &[0xf3, 0xfb]);
    run(&mut cpu, 2);
    assert_eq!(cpu.pc(), 0xc002);
    assert_eq!(cpu.af(), 0);
}

#[test]
fn unimplemented_opcode_is_reported() {
    for op in [0xd3u8, 0x76, 0x10, 0xfd] {
        let mut cpu = cpu_at(0xc000, &[op]);
        assert_eq!(cpu.step(), Err(Fault::UnimplementedOpcode { opcode: op }));
        assert_eq!(cpu.pc(), 0xc001);
    }
}

#[test]
fn alu_add_and_sub_exact_values() {
    let r = add8(0x3a, 0xc6, false);
    assert_eq!(r.value, 0x00);
    assert_eq!(r.flags, Flags { z: true, n: false, h: true, c: true });
    let r = add8(0x12, 0x34, false);
    assert_eq!(r.value, 0x46);
    assert_eq!(r.flags, Flags { z: false, n: false, h: false, c: false });
    let r = sub8(0x3e, 0x40, false);
    assert_eq!(r.value, 0xfe);
    assert_eq!(r.flags, Flags { z: false, n: true, h: false, c: true });
    let r = sub8(0x3e, 0x0f, false);
    assert_eq!(r.value, 0x2f);
    assert_eq!(r.flags, Flags { z: false, n: true, h: true, c: false });
    assert_eq!(Flags { z: true, n: false, h: true, c: false }.to_byte(), 0xa0);
    assert_eq!(Flags::from_byte(0x50), Flags { z: false, n: true, h: false, c: true });
}

#[test]
fn operand_names() {
    assert_eq!(CPU::reg_to_string(0), "B");
    assert_eq!(CPU::reg_to_string(5), "L");
    assert_eq!(CPU::reg_to_string(6), "(HL)");
    assert_eq!(CPU::reg_to_string(7), "A");
    assert_eq!(CPU::reg16_to_string(0), "BC");
    assert_eq!(CPU::reg16_to_string(3), "SP");
}

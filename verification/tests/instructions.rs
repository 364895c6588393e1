use mos6502::bus::Bus;
use mos6502::cpu::CPU;
use mos6502::instructions::brk;
use mos6502::registers::StatusFlags;

struct TestBus {
    memory: [u8; 0x10000],
}

impl TestBus {
    fn new() -> Self {
        Self { memory: [0; 0x10000] }
    }

    fn load(&mut self, data: &[u8], start_address: u16) {
        let start = start_address as usize;
        let end = start + data.len();
        self.memory[start..end].copy_from_slice(data);
    }
}

impl Bus for TestBus {
    // The ghost view of the bus; never called at run time.
    fn mem(&self) -> vstd::map::Map<u16, u8> {
        panic!()
    }

    fn read(&mut self, addr: u16) -> u8 {
        self.memory[addr as usize]
    }

    fn write(&mut self, addr: u16, data: u8) {
        self.memory[addr as usize] = data;
    }
}

fn create_cpu_with_program(program: &[u8]) -> CPU<TestBus> {
    let mut bus = TestBus::new();
    bus.load(program, 0x8000);
    // Reset vector points at 0x8000.
    bus.memory[0xFFFC] = 0x00;
    bus.memory[0xFFFD] = 0x80;

    let mut cpu = CPU::new(bus);
    cpu.reset();
    cpu
}

#[test]
fn test_adc_immediate_binary_mode_no_carry() {
    // LDA #$10; ADC #$05
    let program = vec![0xA9, 0x10, 0x69, 0x05];
    let mut cpu = create_cpu_with_program(&program);
    cpu.reset();

    cpu.step();
    assert_eq!(cpu.registers.a, 0x10);
    assert_eq!(cpu.registers.status.carry, false);
    assert_eq!(cpu.registers.status.zero, false);
    assert_eq!(cpu.registers.status.negative, false);
    assert_eq!(cpu.registers.status.overflow, false);

    cpu.step();
    assert_eq!(cpu.registers.a, 0x15);
    assert_eq!(cpu.registers.status.carry, false);
    assert_eq!(cpu.registers.status.zero, false);
    assert_eq!(cpu.registers.status.negative, false);
    assert_eq!(cpu.registers.status.overflow, false);
}

#[test]
fn test_adc_immediate_binary_mode_with_carry() {
    // LDA #$FF; ADC #$01
    let program = vec![0xA9, 0xFF, 0x69, 0x01];
    let mut cpu = create_cpu_with_program(&program);
    cpu.reset();

    cpu.step();
    assert_eq!(cpu.registers.a, 0xFF);

    cpu.step();
    assert_eq!(cpu.registers.a, 0x00);
    assert_eq!(cpu.registers.status.carry, true);
    assert_eq!(cpu.registers.status.zero, true);
    assert_eq!(cpu.registers.status.negative, false);
    assert_eq!(cpu.registers.status.overflow, false);
}

#[test]
fn test_adc_immediate_decimal_mode() {
    // SED; LDA #$15; ADC #$27
    let program = vec![0xF8, 0xA9, 0x15, 0x69, 0x27];
    let mut cpu = create_cpu_with_program(&program);
    cpu.reset();

    cpu.step();
    assert_eq!(cpu.registers.status.decimal_mode, true);

    cpu.step();
    assert_eq!(cpu.registers.a, 0x15);

    cpu.step();
    assert_eq!(cpu.registers.a, 0x42);
    assert_eq!(cpu.registers.status.carry, false);
    assert_eq!(cpu.registers.status.zero, false);
    assert_eq!(cpu.registers.status.negative, false);
    // The overflow flag is undefined in decimal mode on the NMOS 6502.
}

#[test]
fn test_adc_immediate_decimal_mode_with_carry() {
    // SED; LDA #$99; ADC #$01
    let program = vec![0xF8, 0xA9, 0x99, 0x69, 0x01];
    let mut cpu = create_cpu_with_program(&program);
    cpu.reset();

    cpu.step();
    assert_eq!(cpu.registers.status.decimal_mode, true);

    cpu.step();
    assert_eq!(cpu.registers.a, 0x99);

    cpu.step();
    assert_eq!(cpu.registers.a, 0x00);
    assert_eq!(cpu.registers.status.carry, true);
    assert_eq!(cpu.registers.status.zero, true);
    assert_eq!(cpu.registers.status.negative, false);
}

#[test]
fn test_and() {
    // LDA #$FF; AND #$FF
    let program = vec![0xA9, 0xFF, 0x29, 0xFF];
    let mut cpu = create_cpu_with_program(&program);
    cpu.reset();

    cpu.step();
    assert_eq!(cpu.registers.a, 0xFF);
    assert_eq!(cpu.registers.status.zero, false);
    assert_eq!(cpu.registers.status.negative, true);
}

#[test]
fn test_asl() {
    // LDA #$01; ASL
    let program = vec![0xA9, 0x01, 0x0A];
    let mut cpu = create_cpu_with_program(&program);
    cpu.reset();

    cpu.step();
    assert_eq!(cpu.registers.a, 0x01);
    assert_eq!(cpu.registers.status.zero, false);
    assert_eq!(cpu.registers.status.negative, false);
}

#[test]
fn test_bcc() {
    // CLC; BCC $02
    let program = vec![0x18, 0x90, 0x02];
    let mut cpu = create_cpu_with_program(&program);
    cpu.reset();

    cpu.step();
    assert_eq!(cpu.registers.status.carry, false);
    assert_eq!(cpu.registers.pc, 0x8001);

    cpu.step();
    // PC after operand: 0x8003; offset +2; target 0x8005.
    assert_eq!(cpu.registers.pc, 0x8005);
    // 2 (CLC) + 2 (BCC base) + 1 (branch taken) = 5
    assert_eq!(cpu.cycles(), 5);
}

#[test]
fn test_bcs() {
    // SEC; BCS $02
    let program = vec![0x38, 0xB0, 0x02];
    let mut cpu = create_cpu_with_program(&program);
    cpu.reset();

    cpu.step();
    assert_eq!(cpu.registers.status.carry, true);
    assert_eq!(cpu.registers.pc, 0x8001);

    cpu.step();
    assert_eq!(cpu.registers.pc, 0x8005);
    assert_eq!(cpu.cycles(), 5);
}

#[test]
fn test_beq_branch_taken() {
    // LDA #$00; BEQ $02
    let program = vec![0xA9, 0x00, 0xF0, 0x02];
    let mut cpu = create_cpu_with_program(&program);
    cpu.reset();

    cpu.step();
    assert_eq!(cpu.registers.a, 0x00);
    assert_eq!(cpu.registers.status.zero, true);
    assert_eq!(cpu.registers.pc, 0x8002);

    cpu.step();
    // PC after operand: 0x8004; offset +2; target 0x8006.
    assert_eq!(cpu.registers.pc, 0x8006);
    // 2 (LDA) + 2 (BEQ base) + 1 (branch taken) = 5
    assert_eq!(cpu.cycles(), 5);
}

#[test]
fn test_beq_branch_not_taken() {
    // LDA #$01; BEQ $02
    let program = vec![0xA9, 0x01, 0xF0, 0x02];
    let mut cpu = create_cpu_with_program(&program);
    cpu.reset();

    cpu.step();
    assert_eq!(cpu.registers.a, 0x01);
    assert_eq!(cpu.registers.status.zero, false);
    assert_eq!(cpu.registers.pc, 0x8002);

    cpu.step();
    // Not taken: PC advances past the two branch bytes.
    assert_eq!(cpu.registers.pc, 0x8004);
    // 2 (LDA) + 2 (BEQ base) = 4
    assert_eq!(cpu.cycles(), 4);
}

#[test]
fn test_bit() {
    // LDA #$80; BIT $40
    let program = vec![0xA9, 0x80, 0x24, 0x40];
    let mut cpu = create_cpu_with_program(&program);
    cpu.reset();

    cpu.bus.write(0x0040, 0x40);

    cpu.step();
    assert_eq!(cpu.registers.a, 0x80);
    assert_eq!(cpu.registers.status.zero, false);
    assert_eq!(cpu.registers.status.negative, true);

    cpu.step();
    // A & $40 == 0, N from bit 7 of $40 (0), V from bit 6 of $40 (1).
    assert_eq!(cpu.registers.status.zero, true);
    assert_eq!(cpu.registers.status.negative, false);
    assert_eq!(cpu.registers.status.overflow, true);
}

#[test]
fn test_brk() {
    let mut cpu = CPU::new(TestBus::new());
    cpu.registers.pc = 0x1000;
    cpu.registers.sp = 0xFF;
    cpu.registers.status = StatusFlags::new();
    cpu.registers.status.carry = true;
    cpu.registers.status.zero = false;
    cpu.registers.status.negative = true;

    // IRQ vector points at 0x2000.
    cpu.bus.write(0xFFFE, 0x00);
    cpu.bus.write(0xFFFF, 0x20);

    brk(&mut cpu, 0);

    assert_eq!(cpu.registers.pc, 0x2000);

    // PC+1 pushed, high byte first.
    assert_eq!(cpu.bus.read(0x01FF), 0x10);
    assert_eq!(cpu.bus.read(0x01FE), 0x01);

    let status_pushed = cpu.bus.read(0x01FD);
    assert_eq!(status_pushed & 0x10, 0x10); // B set
    assert_eq!(status_pushed & 0x20, 0x20); // U set
    assert_eq!(status_pushed & 0x01, 0x01); // carry preserved
    assert_eq!(status_pushed & 0x80, 0x80); // negative preserved

    assert!(cpu.registers.status.interrupt_disable);
    assert_eq!(cpu.registers.sp, 0xFC);
}

#[test]
fn test_clc() {
    // CLC
    let program = vec![0x18];
    let mut cpu = create_cpu_with_program(&program);
    cpu.reset();

    cpu.step();
    assert_eq!(cpu.registers.status.carry, false);
}

#[test]
fn test_cld() {
    // CLD
    let program = vec![0xD8];
    let mut cpu = create_cpu_with_program(&program);
    cpu.reset();

    cpu.step();
    assert_eq!(cpu.registers.status.decimal_mode, false);
}

#[test]
fn test_cmp_immediate() {
    // LDA #$50; CMP #$40
    let program = vec![0xA9, 0x50, 0xC9, 0x40];
    let mut cpu = create_cpu_with_program(&program);

    cpu.step();
    assert_eq!(cpu.registers.a, 0x50);

    cpu.step();
    assert_eq!(cpu.registers.status.carry, true);
    assert_eq!(cpu.registers.status.zero, false);
    assert_eq!(cpu.registers.status.negative, false);

    // A == M
    cpu.registers.a = 0x40;
    cpu.registers.pc = 0x8002;
    cpu.step();
    assert_eq!(cpu.registers.status.carry, true);
    assert_eq!(cpu.registers.status.zero, true);
    assert_eq!(cpu.registers.status.negative, false);

    // A < M
    cpu.registers.a = 0x30;
    cpu.registers.pc = 0x8002;
    cpu.step();
    assert_eq!(cpu.registers.status.carry, false);
    assert_eq!(cpu.registers.status.zero, false);
    assert_eq!(cpu.registers.status.negative, true);
}

#[test]
fn test_cpx_immediate() {
    // LDX #$50; CPX #$40
    let program = vec![0xA2, 0x50, 0xE0, 0x40];
    let mut cpu = create_cpu_with_program(&program);

    cpu.step();
    assert_eq!(cpu.registers.x, 0x50);

    cpu.step();
    assert_eq!(cpu.registers.status.carry, true);
    assert_eq!(cpu.registers.status.zero, false);
    assert_eq!(cpu.registers.status.negative, false);
}

#[test]
fn test_cpy_immediate() {
    // LDY #$50; CPY #$40
    let program = vec![0xA0, 0x50, 0xC0, 0x40];
    let mut cpu = create_cpu_with_program(&program);

    cpu.step();
    assert_eq!(cpu.registers.y, 0x50);

    cpu.step();
    assert_eq!(cpu.registers.status.carry, true);
    assert_eq!(cpu.registers.status.zero, false);
    assert_eq!(cpu.registers.status.negative, false);
}

#[test]
fn test_dec_zero_page() {
    // LDA #$01; STA $10; DEC $10; LDA $10
    let program = vec![0xA9, 0x01, 0x85, 0x10, 0xC6, 0x10, 0xA5, 0x10];
    let mut cpu = create_cpu_with_program(&program);

    cpu.step();
    assert_eq!(cpu.registers.a, 0x01);

    cpu.step();
    assert_eq!(cpu.bus.read(0x0010), 0x01);

    cpu.step();
    assert_eq!(cpu.bus.read(0x0010), 0x00);
    assert_eq!(cpu.registers.status.zero, true);
    assert_eq!(cpu.registers.status.negative, false);

    cpu.step();
    assert_eq!(cpu.registers.a, 0x00);
}

#[test]
fn test_dec_zero_page_with_ldx() {
    // LDA #$01; LDX #$01; STA $10; DEC $10; LDA $10
    let program = vec![0xA9, 0x01, 0xA2, 0x01, 0x85, 0x10, 0xC6, 0x10, 0xA5, 0x10];
    let mut cpu = create_cpu_with_program(&program);

    cpu.step();
    assert_eq!(cpu.registers.a, 0x01);

    cpu.step();
    assert_eq!(cpu.registers.x, 0x01);

    cpu.step();
    assert_eq!(cpu.bus.read(0x0010), 0x01);

    cpu.step();
    assert_eq!(cpu.bus.read(0x0010), 0x00);
    assert_eq!(cpu.registers.status.zero, true);
    assert_eq!(cpu.registers.status.negative, false);

    cpu.step();
    assert_eq!(cpu.registers.a, 0x00);
}

#[test]
fn test_dec_zero_page_with_ldy() {
    // LDA #$01; LDY #$01; STA $10; DEC $10; LDA $10
    let program = vec![0xA9, 0x01, 0xA0, 0x01, 0x85, 0x10, 0xC6, 0x10, 0xA5, 0x10];
    let mut cpu = create_cpu_with_program(&program);

    cpu.step();
    assert_eq!(cpu.registers.a, 0x01);

    cpu.step();
    assert_eq!(cpu.registers.y, 0x01);

    cpu.step();
    assert_eq!(cpu.bus.read(0x0010), 0x01);

    cpu.step();
    assert_eq!(cpu.bus.read(0x0010), 0x00);
    assert_eq!(cpu.registers.status.zero, true);
    assert_eq!(cpu.registers.status.negative, false);

    cpu.step();
    assert_eq!(cpu.registers.a, 0x00);
}

#[test]
fn test_dex_implied() {
    // LDA #$01; LDX #$01; DEX; LDA $00
    let program = vec![0xA9, 0x01, 0xA2, 0x01, 0xCA, 0xA5, 0x00];
    let mut cpu = create_cpu_with_program(&program);
    cpu.reset();

    cpu.step();
    assert_eq!(cpu.registers.a, 0x01);
    assert_eq!(cpu.registers.status.zero, false);
    assert_eq!(cpu.registers.status.negative, false);

    cpu.step();
    assert_eq!(cpu.registers.x, 0x01);
    assert_eq!(cpu.registers.status.zero, false);
    assert_eq!(cpu.registers.status.negative, false);

    cpu.step();
    assert_eq!(cpu.registers.x, 0x00);
    assert_eq!(cpu.registers.status.zero, true);
    assert_eq!(cpu.registers.status.negative, false);

    cpu.step();
    assert_eq!(cpu.registers.a, 0x00);
    assert_eq!(cpu.registers.status.zero, true);
    assert_eq!(cpu.registers.status.negative, false);
}

#[test]
fn test_dey_implied() {
    // LDA #$01; LDY #$01; DEY; LDA $00
    let program = vec![0xA9, 0x01, 0xA0, 0x01, 0x88, 0xA5, 0x00];
    let mut cpu = create_cpu_with_program(&program);
    cpu.reset();

    cpu.step();
    assert_eq!(cpu.registers.a, 0x01);
    assert_eq!(cpu.registers.status.zero, false);
    assert_eq!(cpu.registers.status.negative, false);

    cpu.step();
    assert_eq!(cpu.registers.y, 0x01);
    assert_eq!(cpu.registers.status.zero, false);
    assert_eq!(cpu.registers.status.negative, false);

    cpu.step();
    assert_eq!(cpu.registers.y, 0x00);
    assert_eq!(cpu.registers.status.zero, true);
    assert_eq!(cpu.registers.status.negative, false);

    cpu.step();
    assert_eq!(cpu.registers.a, 0x00);
    assert_eq!(cpu.registers.status.zero, true);
    assert_eq!(cpu.registers.status.negative, false);
}

#[test]
fn test_eor_immediate() {
    // LDA #$01; EOR #$01; LDA $00
    let program = vec![0xA9, 0x01, 0x49, 0x01, 0xA5, 0x00];
    let mut cpu = create_cpu_with_program(&program);
    cpu.reset();

    cpu.step();
    assert_eq!(cpu.registers.a, 0x01);
    assert_eq!(cpu.registers.status.zero, false);
    assert_eq!(cpu.registers.status.negative, false);

    cpu.step();
    assert_eq!(cpu.registers.a, 0x00);
    assert_eq!(cpu.registers.status.zero, true);
    assert_eq!(cpu.registers.status.negative, false);

    cpu.step();
    assert_eq!(cpu.registers.a, 0x00);
    assert_eq!(cpu.registers.status.zero, true);
    assert_eq!(cpu.registers.status.negative, false);
}

#[test]
fn test_inc_zero_page() {
    // LDA #$01; STA $00; INC $00; LDA $00
    let program = vec![0xA9, 0x01, 0x85, 0x00, 0xE6, 0x00, 0xA5, 0x00];
    let mut cpu = create_cpu_with_program(&program);
    cpu.reset();

    cpu.step();
    assert_eq!(cpu.registers.a, 0x01);
    assert_eq!(cpu.registers.status.zero, false);
    assert_eq!(cpu.registers.status.negative, false);

    cpu.step();
    assert_eq!(cpu.bus.read(0x00), 0x01);

    cpu.step();
    assert_eq!(cpu.bus.read(0x00), 0x02);
    assert_eq!(cpu.registers.status.zero, false);
    assert_eq!(cpu.registers.status.negative, false);

    cpu.step();
    assert_eq!(cpu.registers.a, 0x02);
    assert_eq!(cpu.registers.status.zero, false);
    assert_eq!(cpu.registers.status.negative, false);
}

#[test]
fn test_inx() {
    // LDX #$01; INX
    let program = vec![0xA2, 0x01, 0xE8];
    let mut cpu = create_cpu_with_program(&program);
    cpu.reset();

    cpu.step();
    assert_eq!(cpu.registers.x, 0x01);
    assert_eq!(cpu.registers.status.zero, false);
    assert_eq!(cpu.registers.status.negative, false);

    cpu.step();
    assert_eq!(cpu.registers.x, 0x02);
    assert_eq!(cpu.registers.status.zero, false);
    assert_eq!(cpu.registers.status.negative, false);
}

#[test]
fn test_inx_overflow() {
    // LDX #$FF; INX
    let program = vec![0xA2, 0xFF, 0xE8];
    let mut cpu = create_cpu_with_program(&program);
    cpu.reset();

    cpu.step();
    assert_eq!(cpu.registers.x, 0xFF);
    assert_eq!(cpu.registers.status.zero, false);
    assert_eq!(cpu.registers.status.negative, true);

    cpu.step();
    assert_eq!(cpu.registers.x, 0x00);
    assert_eq!(cpu.registers.status.zero, true);
    assert_eq!(cpu.registers.status.negative, false);
}

#[test]
fn test_iny() {
    // LDY #$01; INY
    let program = vec![0xA0, 0x01, 0xC8];
    let mut cpu = create_cpu_with_program(&program);
    cpu.reset();

    cpu.step();
    assert_eq!(cpu.registers.y, 0x01);
    assert_eq!(cpu.registers.status.zero, false);
    assert_eq!(cpu.registers.status.negative, false);

    cpu.step();
    assert_eq!(cpu.registers.y, 0x02);
    assert_eq!(cpu.registers.status.zero, false);
    assert_eq!(cpu.registers.status.negative, false);
}

#[test]
fn test_iny_overflow() {
    // LDY #$FF; INY
    let program = vec![0xA0, 0xFF, 0xC8];
    let mut cpu = create_cpu_with_program(&program);
    cpu.reset();

    cpu.step();
    assert_eq!(cpu.registers.y, 0xFF);
    assert_eq!(cpu.registers.status.zero, false);
    assert_eq!(cpu.registers.status.negative, true);

    cpu.step();
    assert_eq!(cpu.registers.y, 0x00);
    assert_eq!(cpu.registers.status.zero, true);
    assert_eq!(cpu.registers.status.negative, false);
}

#[test]
fn test_lda_immediate() {
    // LDA #$80
    let program = vec![0xA9, 0x80];
    let mut cpu = create_cpu_with_program(&program);
    cpu.reset();

    cpu.step();
    assert_eq!(cpu.registers.a, 0x80);
    assert_eq!(cpu.registers.status.zero, false);
    assert_eq!(cpu.registers.status.negative, true);
}

#[test]
fn test_lda_zero_page() {
    // LDA $00
    let program = vec![0xA5, 0x00];
    let mut cpu = create_cpu_with_program(&program);
    cpu.reset();

    cpu.step();
    assert_eq!(cpu.registers.a, 0x00);
    assert_eq!(cpu.registers.status.zero, true);
    assert_eq!(cpu.registers.status.negative, false);
}

#[test]
fn test_lda_zero_page_x() {
    // LDA $00,X
    let program = vec![0xB5, 0x00];
    let mut cpu = create_cpu_with_program(&program);
    cpu.reset();

    cpu.step();
    assert_eq!(cpu.registers.a, 0x00);
    assert_eq!(cpu.registers.status.zero, true);
    assert_eq!(cpu.registers.status.negative, false);
}

#[test]
fn test_lsr_accumulator() {
    // LDA #$80; LSR A
    let program = vec![0xA9, 0x80, 0x4A];
    let mut cpu = create_cpu_with_program(&program);
    cpu.reset();

    cpu.step();
    assert_eq!(cpu.registers.a, 0x80);
    assert_eq!(cpu.registers.status.zero, false);
    assert_eq!(cpu.registers.status.negative, true);

    cpu.step();
    assert_eq!(cpu.registers.a, 0x40);
    assert_eq!(cpu.registers.status.zero, false);
    assert_eq!(cpu.registers.status.negative, false);
    assert_eq!(cpu.registers.status.carry, false);
}

#[test]
fn test_lsr_accumulator_with_carry() {
    // LDA #$01; LSR A
    let program = vec![0xA9, 0x01, 0x4A];
    let mut cpu = create_cpu_with_program(&program);
    cpu.reset();

    cpu.step();
    assert_eq!(cpu.registers.a, 0x01);
    assert_eq!(cpu.registers.status.zero, false);
    assert_eq!(cpu.registers.status.negative, false);

    cpu.step();
    assert_eq!(cpu.registers.a, 0x00);
    assert_eq!(cpu.registers.status.zero, true);
    assert_eq!(cpu.registers.status.negative, false);
    assert_eq!(cpu.registers.status.carry, true);
}

#[test]
fn test_jmp_indirect_page_boundary_bug() {
    // JMP ($10FF)
    let program = vec![0x6C, 0xFF, 0x10];
    let mut cpu = create_cpu_with_program(&program);
    cpu.reset();

    // The high byte is read from $1000, not $1100.
    cpu.bus.write(0x10FF, 0x00);
    cpu.bus.write(0x1000, 0x80);

    cpu.step();
    assert_eq!(cpu.registers.pc, 0x8000);
}

#[test]
fn test_jmp_normal() {
    // JMP $8000
    let program = vec![0x4C, 0x00, 0x80];
    let mut cpu = create_cpu_with_program(&program);
    cpu.reset();

    cpu.step();
    assert_eq!(cpu.registers.pc, 0x8000);
}

#[test]
fn test_jsr() {
    // LDA #$01; JSR $8005; subroutine: LDA #$02; RTS
    let program = vec![0xA9, 0x01, 0x20, 0x05, 0x80, 0xA9, 0x02, 0x60];
    let mut cpu = create_cpu_with_program(&program);
    cpu.reset();

    cpu.step();
    assert_eq!(cpu.registers.a, 0x01);
    assert_eq!(cpu.registers.status.zero, false);
    assert_eq!(cpu.registers.status.negative, false);
    assert_eq!(cpu.registers.pc, 0x8002);

    cpu.step();
    assert_eq!(cpu.registers.pc, 0x8005);
}

#[test]
fn test_rts() {
    // LDA #$01; JSR $8006; NOP; subroutine at $8006: LDA #$02; RTS
    let program = vec![0xA9, 0x01, 0x20, 0x06, 0x80, 0xEA, 0xA9, 0x02, 0x60];
    let mut cpu = create_cpu_with_program(&program);
    cpu.reset();

    cpu.step();
    assert_eq!(cpu.registers.a, 0x01);
    assert_eq!(cpu.registers.status.zero, false);
    assert_eq!(cpu.registers.status.negative, false);
    assert_eq!(cpu.registers.pc, 0x8002);

    cpu.step();
    assert_eq!(cpu.registers.pc, 0x8006);

    cpu.step();
    assert_eq!(cpu.registers.a, 0x02);
    assert_eq!(cpu.registers.pc, 0x8008);

    cpu.step();
    // Return address 0x8004 was pushed; RTS resumes at 0x8005.
    assert_eq!(cpu.registers.pc, 0x8005);

    cpu.step();
    assert_eq!(cpu.registers.pc, 0x8006);
}

#[test]
fn test_jsr_rts() {
    let program = vec![0xA9, 0x01, 0x20, 0x06, 0x80, 0xEA, 0xA9, 0x02, 0x60];
    let mut cpu = create_cpu_with_program(&program);
    cpu.reset();

    cpu.step();
    assert_eq!(cpu.registers.a, 0x01);
    assert_eq!(cpu.registers.pc, 0x8002);
    assert_eq!(cpu.registers.status.negative, false);

    cpu.step();
    assert_eq!(cpu.registers.pc, 0x8006);

    cpu.step();
    assert_eq!(cpu.registers.a, 0x02);
    assert_eq!(cpu.registers.pc, 0x8008);

    cpu.step();
    assert_eq!(cpu.registers.pc, 0x8005);

    cpu.step();
    assert_eq!(cpu.registers.pc, 0x8006);
}

#[test]
fn test_irq() {
    let mut cpu = CPU::new(TestBus::new());
    cpu.registers.pc = 0x1234;
    cpu.registers.status = StatusFlags {
        carry: false,
        zero: false,
        interrupt_disable: false,
        decimal_mode: false,
        break_mode: false,
        overflow: false,
        unused: true,
        negative: false,
    };
    cpu.registers.sp = 0xFF;

    // IRQ vector points at 0x2000.
    cpu.bus.write(0xFFFE, 0x00);
    cpu.bus.write(0xFFFF, 0x20);

    cpu.irq();

    assert_eq!(cpu.bus.read(0x01FF), 0x12);
    assert_eq!(cpu.bus.read(0x01FE), 0x34);

    let status_pushed = cpu.bus.read(0x01FD);
    assert_eq!(status_pushed & 0x10, 0x00); // B cleared
    assert_eq!(status_pushed & 0x20, 0x20); // U set

    assert!(cpu.registers.status.interrupt_disable);
    assert_eq!(cpu.registers.pc, 0x2000);
    assert_eq!(cpu.registers.sp, 0xFC);
}

#[test]
fn test_nmi() {
    let mut cpu = CPU::new(TestBus::new());
    cpu.registers.pc = 0x1234;
    cpu.registers.status = StatusFlags {
        carry: false,
        zero: false,
        interrupt_disable: false,
        decimal_mode: false,
        break_mode: false,
        overflow: false,
        unused: true,
        negative: false,
    };
    cpu.registers.sp = 0xFF;

    // NMI vector points at 0x3000.
    cpu.bus.write(0xFFFA, 0x00);
    cpu.bus.write(0xFFFB, 0x30);

    cpu.nmi();

    assert_eq!(cpu.bus.read(0x01FF), 0x12);
    assert_eq!(cpu.bus.read(0x01FE), 0x34);

    let status_pushed = cpu.bus.read(0x01FD);
    assert_eq!(status_pushed & 0x10, 0x00); // B cleared
    assert_eq!(status_pushed & 0x20, 0x20); // U set

    assert!(cpu.registers.status.interrupt_disable);
    assert_eq!(cpu.registers.pc, 0x3000);
    assert_eq!(cpu.registers.sp, 0xFC);
}

#[test]
fn test_irq_with_interrupts_disabled() {
    let mut cpu = CPU::new(TestBus::new());
    cpu.registers.pc = 0x1234;
    cpu.registers.status.interrupt_disable = true;
    cpu.registers.sp = 0xFF;

    cpu.bus.write(0xFFFE, 0x00);
    cpu.bus.write(0xFFFF, 0x20);

    cpu.irq();

    assert_eq!(cpu.registers.pc, 0x1234);
    assert_eq!(cpu.registers.sp, 0xFF);
}

#[test]
fn test_sbc_binary_mode() {
    // LDA #$50; SBC #$10
    let program = vec![0xA9, 0x50, 0xE9, 0x10];
    let mut cpu = create_cpu_with_program(&program);

    // Carry set: no borrow.
    cpu.registers.status.carry = true;

    cpu.step();
    assert_eq!(cpu.registers.a, 0x50);

    cpu.step();
    assert_eq!(cpu.registers.a, 0x40);
    assert_eq!(cpu.registers.status.carry, true);
    assert_eq!(cpu.registers.status.zero, false);
    assert_eq!(cpu.registers.status.negative, false);
    assert_eq!(cpu.registers.status.overflow, false);
}

#[test]
fn test_sbc_decimal_mode() {
    // SED; LDA #$50; SBC #$10
    let program = vec![0xF8, 0xA9, 0x50, 0xE9, 0x10];
    let mut cpu = create_cpu_with_program(&program);

    // Carry set: no borrow.
    cpu.registers.status.carry = true;

    cpu.step();
    assert!(cpu.registers.status.decimal_mode);

    cpu.step();
    assert_eq!(cpu.registers.a, 0x50);

    cpu.step();
    assert_eq!(cpu.registers.a, 0x40);
    assert_eq!(cpu.registers.status.carry, true);
    assert_eq!(cpu.registers.status.zero, false);
    assert_eq!(cpu.registers.status.negative, false);
}

#[test]
fn test_ora() {
    // LDA #$50; ORA #$10
    let program = vec![0xA9, 0x50, 0x09, 0x10];
    let mut cpu = create_cpu_with_program(&program);

    cpu.step();
    assert_eq!(cpu.registers.a, 0x50);

    cpu.step();
    assert_eq!(cpu.registers.a, 0x50);
    assert_eq!(cpu.registers.status.zero, false);
    assert_eq!(cpu.registers.status.negative, false);
}

#[test]
fn test_rol_accumulator() {
    // CLC; LDA #$80; ROL A
    let program = vec![0x18, 0xA9, 0x80, 0x2A];
    let mut cpu = create_cpu_with_program(&program);
    cpu.reset();

    cpu.step();
    assert_eq!(cpu.registers.status.carry, false);

    cpu.step();
    assert_eq!(cpu.registers.a, 0x80);
    assert_eq!(cpu.registers.status.zero, false);
    assert_eq!(cpu.registers.status.negative, true);

    cpu.step();
    assert_eq!(cpu.registers.a, 0x00);
    assert_eq!(cpu.registers.status.carry, true);
    assert_eq!(cpu.registers.status.zero, true);
    assert_eq!(cpu.registers.status.negative, false);
}

#[test]
fn test_rol_memory() {
    // CLC; LDA #$80; STA $10; ROL $10; LDA $10
    let program = vec![0x18, 0xA9, 0x80, 0x85, 0x10, 0x26, 0x10, 0xA5, 0x10];
    let mut cpu = create_cpu_with_program(&program);
    cpu.reset();

    cpu.step();
    assert_eq!(cpu.registers.status.carry, false);

    cpu.step();
    assert_eq!(cpu.registers.a, 0x80);

    cpu.step();
    assert_eq!(cpu.bus.read(0x0010), 0x80);

    cpu.step();
    assert_eq!(cpu.bus.read(0x0010), 0x00);
    assert_eq!(cpu.registers.status.carry, true);
    assert_eq!(cpu.registers.status.zero, true);
    assert_eq!(cpu.registers.status.negative, false);

    cpu.step();
    assert_eq!(cpu.registers.a, 0x00);
}

#[test]
fn test_rol_with_carry_set() {
    // SEC; LDA #$01; ROL A
    let program = vec![0x38, 0xA9, 0x01, 0x2A];
    let mut cpu = create_cpu_with_program(&program);
    cpu.reset();

    cpu.step();
    assert_eq!(cpu.registers.status.carry, true);

    cpu.step();
    assert_eq!(cpu.registers.a, 0x01);

    cpu.step();
    assert_eq!(cpu.registers.a, 0x03);
    assert_eq!(cpu.registers.status.carry, false);
    assert_eq!(cpu.registers.status.zero, false);
    assert_eq!(cpu.registers.status.negative, false);
}

#[test]
fn test_rol_memory_with_carry_set() {
    // SEC; LDA #$01; STA $10; ROL $10; LDA $10
    let program = vec![0x38, 0xA9, 0x01, 0x85, 0x10, 0x26, 0x10, 0xA5, 0x10];
    let mut cpu = create_cpu_with_program(&program);
    cpu.reset();

    cpu.step();
    assert_eq!(cpu.registers.status.carry, true);

    cpu.step();
    assert_eq!(cpu.registers.a, 0x01);

    cpu.step();
    assert_eq!(cpu.bus.read(0x0010), 0x01);

    cpu.step();
    assert_eq!(cpu.bus.read(0x0010), 0x03);
    assert_eq!(cpu.registers.status.carry, false);
    assert_eq!(cpu.registers.status.zero, false);
    assert_eq!(cpu.registers.status.negative, false);

    cpu.step();
    assert_eq!(cpu.registers.a, 0x03);
}

#[test]
fn test_ror_accumulator() {
    // CLC; LDA #$01; ROR A
    let program = vec![0x18, 0xA9, 0x01, 0x6A];
    let mut cpu = create_cpu_with_program(&program);
    cpu.reset();

    cpu.step();
    assert_eq!(cpu.registers.status.carry, false);

    cpu.step();
    assert_eq!(cpu.registers.a, 0x01);
    assert_eq!(cpu.registers.status.zero, false);
    assert_eq!(cpu.registers.status.negative, false);

    cpu.step();
    assert_eq!(cpu.registers.a, 0x00);
    assert_eq!(cpu.registers.status.carry, true);
    assert_eq!(cpu.registers.status.zero, true);
    assert_eq!(cpu.registers.status.negative, false);
}

#[test]
fn test_ror_memory() {
    // CLC; LDA #$01; STA $10; ROR $10; LDA $10
    let program = vec![0x18, 0xA9, 0x01, 0x85, 0x10, 0x66, 0x10, 0xA5, 0x10];
    let mut cpu = create_cpu_with_program(&program);
    cpu.reset();

    cpu.step();
    assert_eq!(cpu.registers.status.carry, false);

    cpu.step();
    assert_eq!(cpu.registers.a, 0x01);

    cpu.step();
    assert_eq!(cpu.bus.read(0x0010), 0x01);

    cpu.step();
    assert_eq!(cpu.bus.read(0x0010), 0x00);
    assert_eq!(cpu.registers.status.carry, true);
    assert_eq!(cpu.registers.status.zero, true);
    assert_eq!(cpu.registers.status.negative, false);

    cpu.step();
    assert_eq!(cpu.registers.a, 0x00);
}

#[test]
fn test_ror_with_carry_set() {
    // SEC; LDA #$00; ROR A
    let program = vec![0x38, 0xA9, 0x00, 0x6A];
    let mut cpu = create_cpu_with_program(&program);
    cpu.reset();

    cpu.step();
    assert_eq!(cpu.registers.status.carry, true);

    cpu.step();
    assert_eq!(cpu.registers.a, 0x00);

    cpu.step();
    assert_eq!(cpu.registers.a, 0x80);
    assert_eq!(cpu.registers.status.carry, false);
    assert_eq!(cpu.registers.status.zero, false);
    assert_eq!(cpu.registers.status.negative, true);
}

#[test]
fn test_tax() {
    // LDA #$10; TAX
    let program = vec![0xA9, 0x10, 0xAA];
    let mut cpu = create_cpu_with_program(&program);

    cpu.step();
    assert_eq!(cpu.registers.a, 0x10);

    cpu.step();
    assert_eq!(cpu.registers.x, 0x10);
    assert_eq!(cpu.registers.status.zero, false);
    assert_eq!(cpu.registers.status.negative, false);
}

#[test]
fn test_tay() {
    // LDA #$10; TAY
    let program = vec![0xA9, 0x10, 0xA8];
    let mut cpu = create_cpu_with_program(&program);

    cpu.step();
    assert_eq!(cpu.registers.a, 0x10);

    cpu.step();
    assert_eq!(cpu.registers.y, 0x10);
    assert_eq!(cpu.registers.status.zero, false);
    assert_eq!(cpu.registers.status.negative, false);
}

#[test]
fn test_tsx() {
    // TSX
    let program = vec![0xBA];
    let mut cpu = create_cpu_with_program(&program);

    cpu.registers.sp = 0xFD;

    cpu.step();
    assert_eq!(cpu.registers.x, 0xFD);
    assert_eq!(cpu.registers.status.zero, false);
    assert_eq!(cpu.registers.status.negative, true);
}

#[test]
fn test_txa() {
    // LDX #$10; TXA
    let program = vec![0xA2, 0x10, 0x8A];
    let mut cpu = create_cpu_with_program(&program);

    cpu.step();
    assert_eq!(cpu.registers.x, 0x10);

    cpu.step();
    assert_eq!(cpu.registers.a, 0x10);
    assert_eq!(cpu.registers.status.zero, false);
    assert_eq!(cpu.registers.status.negative, false);
}

#[test]
fn test_txs() {
    // LDX #$10; TXS
    let program = vec![0xA2, 0x10, 0x9A];
    let mut cpu = create_cpu_with_program(&program);

    cpu.step();
    assert_eq!(cpu.registers.x, 0x10);

    cpu.step();
    assert_eq!(cpu.registers.sp, 0x10);
    assert_eq!(cpu.registers.status.zero, false);
    assert_eq!(cpu.registers.status.negative, false);
}

#[test]
fn test_tya() {
    // LDY #$10; TYA
    let program = vec![0xA0, 0x10, 0x98];
    let mut cpu = create_cpu_with_program(&program);

    cpu.step();
    assert_eq!(cpu.registers.y, 0x10);

    cpu.step();
    assert_eq!(cpu.registers.a, 0x10);
    assert_eq!(cpu.registers.status.zero, false);
    assert_eq!(cpu.registers.status.negative, false);
}

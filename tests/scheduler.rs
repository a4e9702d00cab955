use dmg_core::cpu::{fetch_opcode, interrupt_check, Cpu};
use dmg_core::instructions::{CoreInstructions, OP_DI, OP_EI, OP_HALT, OP_JR, OP_NOP};
use dmg_core::master::Master;
use dmg_core::memory::{Ram, REG_DIV, REG_IE, REG_IF, REG_LY, REG_LYC, REG_STAT};
use dmg_core::peripherals::{Console, Controls, Divider, Dma, Gpu, HeadlessGpu, Instruct, TimedPeripheral};
use dmg_core::ppu_mode::{mode_for_tick, observe_mode, PpuMode, STAT_SELECT_HBLANK, STAT_SELECT_LYC, STAT_SELECT_VBLANK};

struct NoInput;
impl Controls for NoInput {
    fn update_ram(&mut self, _ram: &mut Ram) {}
}

struct NoDma;
impl Dma for NoDma {
    fn update_dma(&mut self, _ram: &mut Ram) {}
}

#[derive(Default)]
struct Quiet {
    dumps: usize,
    waits: usize,
}
impl Console for Quiet {
    fn debug_step(&mut self, _m: &Master, _c: &Cpu, _r: &Ram, _i: &Instruct) {
        self.dumps += 1;
    }
    fn wait(&mut self) {
        self.waits += 1;
    }
}

/// Records, at each scanline commit, the scanline register and the request register.
#[derive(Default)]
struct LineLog {
    lines: Vec<(u8, u8)>,
}
impl Gpu for LineLog {
    fn push_line(&mut self, ram: &Ram) {
        self.lines.push((ram[REG_LY], ram[REG_IF]));
    }
}

/// A timer that only adds up the cycles it is handed.
#[derive(Default)]
struct CycleSum {
    total: u64,
    calls: u64,
}
impl TimedPeripheral for CycleSum {
    fn update(&mut self, cycles: u64, _ram: &mut Ram) {
        self.total += cycles;
        self.calls += 1;
    }
}

fn blank_ram() -> Box<Ram> {
    vec![0u8; 0x10000].into_boxed_slice().try_into().unwrap()
}

/// A program at `at` that jumps to itself forever.
fn spin_at(ram: &mut Ram, at: usize) {
    ram[at] = OP_JR;
    ram[at + 1] = 0xFE;
}

#[test]
fn three_steps_of_a_halt_loop() {
    let mut ram = blank_ram();
    ram[0x100] = OP_NOP;
    ram[0x101] = OP_HALT;
    ram[0x102] = OP_JR;
    ram[0x103] = 0xFC;
    let mut cpu = Cpu::new(0x100, 0xFFFE);
    let mut m = Master::new(false, false, false, false);
    let mut timer = CycleSum::default();
    let mut console = Quiet::default();
    m.step(&mut cpu, &mut CoreInstructions, &mut timer, &mut NoInput, &mut NoDma, &mut console, &mut ram);
    m.step(&mut cpu, &mut CoreInstructions, &mut timer, &mut NoInput, &mut NoDma, &mut console, &mut ram);
    m.step(&mut cpu, &mut CoreInstructions, &mut timer, &mut NoInput, &mut NoDma, &mut console, &mut ram);
    assert_eq!(m.nb_steps, 3);
    assert_eq!(m.tick, 1 + 1 + 3);
    assert_eq!(ram[REG_IF], 0);
    assert_eq!(ram[REG_IE], 0);
    assert_eq!(cpu.pc, 0x100);
    assert_eq!(console.dumps, 0);
}

#[test]
fn cycles_reach_the_timer_exactly() {
    let mut ram = blank_ram();
    ram[0] = OP_NOP;
    spin_at(&mut ram, 1);
    let mut cpu = Cpu::new(0, 0xFFFE);
    let mut m = Master::new(false, false, false, false);
    let mut timer = CycleSum::default();
    for _ in 0..20 {
        m.step(&mut cpu, &mut CoreInstructions, &mut timer, &mut NoInput, &mut NoDma, &mut Quiet::default(), &mut ram);
    }
    assert_eq!(timer.calls, 20);
    assert_eq!(timer.total, 1 + 19 * 3);
    assert_eq!(m.tick, timer.total);
}

#[test]
fn frame_keeps_the_scanline_budget() {
    let mut ram = blank_ram();
    spin_at(&mut ram, 0x100);
    ram[REG_LY] = 77;
    let mut cpu = Cpu::new(0x100, 0xFFFE);
    let mut m = Master::new(false, false, false, false);
    let mut timer = CycleSum::default();
    let mut gpu = LineLog::default();
    m.screen(&mut cpu, &mut CoreInstructions, &mut gpu, &mut timer, &mut NoInput, &mut NoDma, &mut Quiet::default(), &mut ram);
    assert_eq!(gpu.lines.len(), 144);
    for (i, (ly, _)) in gpu.lines.iter().enumerate() {
        assert_eq!(*ly as usize, i);
    }
    assert_eq!(ram[REG_LY], 154);
    // Each scanline-equivalent runs 38 jumps of 3 cycles: 114 cycles exactly.
    assert_eq!(m.tick, 114);
    assert_eq!(timer.total, 154 * 114);
    assert_eq!(m.mode, PpuMode::VBlank);
}

#[test]
fn scanline_overshoots_by_less_than_one_instruction() {
    let mut ram = blank_ram();
    ram[0] = OP_NOP;
    spin_at(&mut ram, 1);
    let mut cpu = Cpu::new(0, 0xFFFE);
    let mut m = Master::new(false, false, false, false);
    let mut timer = CycleSum::default();
    ram[REG_LY] = 5;
    let (steps, last) = m.run_scanline(5, &mut cpu, &mut CoreInstructions, &mut LineLog::default(), &mut timer, &mut NoInput, &mut NoDma, &mut Quiet::default(), &mut ram);
    // 1 + 3 * 38 = 115: the first count at or past 114.
    assert_eq!(m.tick, 115);
    assert_eq!(timer.total, 115);
    assert_eq!(steps, 39);
    assert_eq!(last, 112);
    assert_eq!(ram[REG_LY], 6);
}

#[test]
fn one_vblank_request_per_frame() {
    let mut ram = blank_ram();
    spin_at(&mut ram, 0x100);
    let mut cpu = Cpu::new(0x100, 0xFFFE);
    let mut m = Master::new(false, false, false, false);
    let mut gpu = LineLog::default();
    m.screen(&mut cpu, &mut CoreInstructions, &mut gpu, &mut CycleSum::default(), &mut NoInput, &mut NoDma, &mut Quiet::default(), &mut ram);
    assert!(gpu.lines.iter().all(|(_, flags)| flags & 0x01 == 0));
    assert_eq!(ram[REG_IF] & 0x01, 0x01);
}

#[test]
fn vblank_request_is_served_at_its_vector() {
    let mut ram = blank_ram();
    spin_at(&mut ram, 0x100);
    spin_at(&mut ram, 0x40);
    ram[REG_IE] = 0x01;
    let mut cpu = Cpu::new(0x100, 0xFFFE);
    cpu.mie = true;
    let mut m = Master::new(false, false, false, false);
    m.screen(&mut cpu, &mut CoreInstructions, &mut LineLog::default(), &mut CycleSum::default(), &mut NoInput, &mut NoDma, &mut Quiet::default(), &mut ram);
    assert_eq!(cpu.pc, 0x40);
    assert!(!cpu.mie);
    assert_eq!(ram[REG_IF] & 0x01, 0);
    assert_eq!(cpu.sp, 0xFFFC);
    assert_eq!(ram[0xFFFC], 0x00);
    assert_eq!(ram[0xFFFD], 0x01);
}

#[test]
fn compare_interrupt_on_line_ten() {
    let mut ram = blank_ram();
    spin_at(&mut ram, 0x100);
    ram[REG_STAT] = STAT_SELECT_LYC;
    ram[REG_LYC] = 10;
    let mut cpu = Cpu::new(0x100, 0xFFFE);
    let mut m = Master::new(false, false, false, false);
    let mut gpu = LineLog::default();
    m.screen(&mut cpu, &mut CoreInstructions, &mut gpu, &mut CycleSum::default(), &mut NoInput, &mut NoDma, &mut Quiet::default(), &mut ram);
    for (ly, flags) in &gpu.lines[..10] {
        assert_eq!(flags & 0x02, 0, "line {}", ly);
    }
    assert_eq!(gpu.lines[10].1 & 0x02, 0x02);
    assert_eq!(ram[REG_IF] & 0x02, 0x02);
}

#[test]
fn mode_edges_fire_once() {
    let mut ram = blank_ram();
    ram[REG_STAT] = STAT_SELECT_HBLANK | STAT_SELECT_VBLANK;
    let script = [PpuMode::PixelTransfer, PpuMode::HBlank, PpuMode::HBlank, PpuMode::VBlank, PpuMode::VBlank];
    let mut previous = script[0];
    let mut fired = Vec::new();
    for mode in &script[1..] {
        ram[REG_IF] = 0;
        previous = observe_mode(3, previous, *mode, &mut ram);
        fired.push(ram[REG_IF] & 0x02 != 0);
    }
    assert_eq!(fired, vec![true, false, true, false]);
}

#[test]
fn lcd_stat_records_the_previous_mode() {
    let mut ram = blank_ram();
    ram[REG_STAT] = STAT_SELECT_HBLANK;
    let mut m = Master::new(false, false, false, false);
    m.previous_mode = PpuMode::PixelTransfer;
    m.mode = PpuMode::HBlank;
    m.lcd_stat(0, &mut ram);
    assert_eq!(m.previous_mode, PpuMode::HBlank);
    assert_eq!(ram[REG_IF], 0x02);
    ram[REG_IF] = 0;
    m.lcd_stat(0, &mut ram);
    assert_eq!(ram[REG_IF], 0);
}

#[test]
fn unselected_edges_stay_quiet() {
    let mut ram = blank_ram();
    let r = observe_mode(0, PpuMode::HBlank, PpuMode::VBlank, &mut ram);
    assert_eq!(r, PpuMode::VBlank);
    assert_eq!(ram[REG_IF], 0);
}

#[test]
fn mode_threshold() {
    assert_eq!(mode_for_tick(0), PpuMode::PixelTransfer);
    assert_eq!(mode_for_tick(63), PpuMode::PixelTransfer);
    assert_eq!(mode_for_tick(64), PpuMode::HBlank);
}

#[test]
fn dispatch_before_fetch() {
    let mut ram = blank_ram();
    ram[0x1234] = OP_EI;
    ram[0x50] = OP_HALT;
    ram[REG_IE] = 0x05;
    ram[REG_IF] = 0x04;
    let mut cpu = Cpu::new(0x1234, 0xD000);
    cpu.mie = true;
    let (opcode, _) = fetch_opcode(&mut cpu, &mut ram);
    assert_eq!(opcode, OP_HALT);
    assert_eq!(cpu.pc, 0x51);
    assert_eq!(cpu.sp, 0xCFFE);
    assert_eq!(ram[0xCFFE], 0x34);
    assert_eq!(ram[0xCFFF], 0x12);
    assert_eq!(ram[REG_IF], 0);
}

#[test]
fn dispatch_takes_lowest_source() {
    let mut ram = blank_ram();
    ram[REG_IE] = 0xFF;
    ram[REG_IF] = 0x18;
    let mut cpu = Cpu::new(0x300, 0x0001);
    cpu.mie = true;
    interrupt_check(&mut cpu, &mut ram);
    assert_eq!(cpu.pc, 0x58);
    assert_eq!(cpu.sp, 0xFFFF);
    assert_eq!(ram[0xFFFF], 0x00);
    assert_eq!(ram[0x0000], 0x03);
    assert_eq!(ram[REG_IF], 0x10);
}

#[test]
fn no_dispatch_without_master_enable() {
    let mut ram = blank_ram();
    ram[REG_IE] = 0x01;
    ram[REG_IF] = 0x01;
    let mut cpu = Cpu::new(0x300, 0xFFFE);
    interrupt_check(&mut cpu, &mut ram);
    assert_eq!(cpu, Cpu::new(0x300, 0xFFFE));
    assert_eq!(ram[REG_IF], 0x01);
}

#[test]
fn enable_takes_effect_one_step_later() {
    let mut ram = blank_ram();
    ram[0x200] = OP_EI;
    ram[0x201] = OP_NOP;
    ram[0x202] = OP_NOP;
    ram[0x40] = OP_HALT;
    ram[REG_IE] = 0x01;
    ram[REG_IF] = 0x01;
    let mut cpu = Cpu::new(0x200, 0xFFFE);
    let mut m = Master::new(false, false, false, false);
    let mut t = CycleSum::default();
    m.step(&mut cpu, &mut CoreInstructions, &mut t, &mut NoInput, &mut NoDma, &mut Quiet::default(), &mut ram);
    assert!(!cpu.mie);
    assert!(cpu.ei_pending);
    m.step(&mut cpu, &mut CoreInstructions, &mut t, &mut NoInput, &mut NoDma, &mut Quiet::default(), &mut ram);
    assert!(cpu.mie);
    assert_eq!(cpu.pc, 0x202);
    m.step(&mut cpu, &mut CoreInstructions, &mut t, &mut NoInput, &mut NoDma, &mut Quiet::default(), &mut ram);
    assert_eq!(cpu.pc, 0x41);
    assert!(!cpu.mie);
}

#[test]
fn disable_is_immediate() {
    let mut ram = blank_ram();
    ram[0x200] = OP_DI;
    let mut cpu = Cpu::new(0x200, 0xFFFE);
    cpu.mie = true;
    let mut m = Master::new(false, false, false, false);
    m.step(&mut cpu, &mut CoreInstructions, &mut CycleSum::default(), &mut NoInput, &mut NoDma, &mut Quiet::default(), &mut ram);
    assert!(!cpu.mie);
}

#[test]
fn step_by_step_dumps_and_waits() {
    let mut ram = blank_ram();
    let mut cpu = Cpu::new(0, 0xFFFE);
    let mut m = Master::new(true, false, false, false);
    let mut console = Quiet::default();
    m.step(&mut cpu, &mut CoreInstructions, &mut CycleSum::default(), &mut NoInput, &mut NoDma, &mut console, &mut ram);
    assert_eq!(console.dumps, 1);
    assert_eq!(console.waits, 1);
    assert!(m.log);
}

#[test]
fn line_and_screen_pauses() {
    let mut ram = blank_ram();
    spin_at(&mut ram, 0x100);
    let mut cpu = Cpu::new(0x100, 0xFFFE);
    let mut m = Master::new(false, true, true, false);
    let mut console = Quiet::default();
    m.screen(&mut cpu, &mut CoreInstructions, &mut LineLog::default(), &mut CycleSum::default(), &mut NoInput, &mut NoDma, &mut console, &mut ram);
    assert_eq!(console.waits, 154 + 1);
}

#[test]
fn divider_counts_every_sixty_four_cycles() {
    let mut ram = blank_ram();
    ram[REG_DIV] = 0xFE;
    let mut d = Divider::new();
    d.update(100, &mut ram);
    assert_eq!(ram[REG_DIV], 0xFF);
    assert_eq!(d.sub_ticks, 36);
    d.update(28, &mut ram);
    assert_eq!(ram[REG_DIV], 0x00);
    assert_eq!(d.sub_ticks, 0);
    d.update(64 * 256 + 5, &mut ram);
    assert_eq!(ram[REG_DIV], 0x00);
    assert_eq!(d.sub_ticks, 5);
}

#[test]
fn divider_with_huge_advance() {
    let mut ram = blank_ram();
    let mut d = Divider::new();
    d.update(63, &mut ram);
    d.update(u64::MAX, &mut ram);
    // 63 + (2^64 - 1) = 2^64 + 62 cycles: 2^58 increments (0 mod 256), 62 left.
    assert_eq!(ram[REG_DIV], 0);
    assert_eq!(d.sub_ticks, 62);
}

#[test]
fn jump_is_relative_to_the_next_instruction() {
    let mut ram = blank_ram();
    ram[0x10] = OP_JR;
    ram[0x11] = 0x05;
    let mut cpu = Cpu::new(0x10, 0xFFFE);
    let mut m = Master::new(false, false, false, false);
    let (instruct, extra) = m.step(&mut cpu, &mut CoreInstructions, &mut CycleSum::default(), &mut NoInput, &mut NoDma, &mut Quiet::default(), &mut ram);
    assert_eq!(cpu.pc, 0x17);
    assert_eq!(m.tick, 3);
    assert_eq!(instruct, Instruct { opcode: OP_JR, operand: 0x05, ticks: 3 });
    assert_eq!(extra, 0);
}

#[test]
fn step_counter_wraps() {
    let mut ram = blank_ram();
    let mut cpu = Cpu::new(0, 0xFFFE);
    let mut m = Master::new(false, false, false, false);
    m.nb_steps = u64::MAX;
    m.step(&mut cpu, &mut CoreInstructions, &mut CycleSum::default(), &mut NoInput, &mut NoDma, &mut Quiet::default(), &mut ram);
    assert_eq!(m.nb_steps, 0);
}

#[test]
fn step_reports_the_served_instruction() {
    let mut ram = blank_ram();
    ram[0x200] = OP_NOP;
    ram[0x48] = OP_JR;
    ram[0x49] = 0x00;
    ram[REG_IE] = 0x02;
    ram[REG_IF] = 0x02;
    let mut cpu = Cpu::new(0x200, 0xFFFE);
    cpu.mie = true;
    let mut m = Master::new(false, false, false, false);
    let mut timer = CycleSum::default();
    let (instruct, extra) = m.step(&mut cpu, &mut CoreInstructions, &mut timer, &mut NoInput, &mut NoDma, &mut Quiet::default(), &mut ram);
    assert_eq!(instruct.opcode, OP_JR);
    assert_eq!(m.tick, instruct.ticks as u64 + extra as u64);
    assert_eq!(timer.total, 3);
    assert_eq!(cpu.pc, 0x4A);
}

#[test]
fn compare_line_in_vblank_tail() {
    let mut ram = blank_ram();
    spin_at(&mut ram, 0x100);
    ram[REG_STAT] = STAT_SELECT_LYC;
    ram[REG_LYC] = 144;
    let mut cpu = Cpu::new(0x100, 0xFFFE);
    let mut m = Master::new(false, false, false, false);
    let mut gpu = LineLog::default();
    m.screen(&mut cpu, &mut CoreInstructions, &mut gpu, &mut CycleSum::default(), &mut NoInput, &mut NoDma, &mut Quiet::default(), &mut ram);
    assert!(gpu.lines.iter().all(|(_, flags)| flags & 0x02 == 0));
    assert_eq!(ram[REG_IF] & 0x02, 0x02);
}

#[test]
fn headless_frame() {
    let mut ram = blank_ram();
    spin_at(&mut ram, 0x100);
    ram[REG_LY] = 154;
    let mut cpu = Cpu::new(0x100, 0xFFFE);
    let mut m = Master::new(false, false, false, false);
    m.tick = 500;
    let mut timer = Divider::new();
    m.screen(&mut cpu, &mut CoreInstructions, &mut HeadlessGpu::new(), &mut timer, &mut NoInput, &mut NoDma, &mut Quiet::default(), &mut ram);
    // 154 * 114 cycles = 17556 = 274 * 64 + 20.
    assert_eq!(ram[REG_DIV], (274 % 256) as u8);
    assert_eq!(timer.sub_ticks, 20);
    assert_eq!(ram[REG_LY], 154);
    assert_eq!(m.nb_steps, 154 * 38);
}

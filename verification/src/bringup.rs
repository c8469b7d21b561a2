//! The ordered hardware bring-up sequence: indicator pins, clock tree,
//! UART pins, UART bus reset and gating, UART line programming, and the
//! polling transmit primitive.
//!
//! Each phase is specified by the exact register state it leaves behind and
//! the exact sequence of register writes it appends to the trace, so the
//! intra-sequence ordering the hardware demands is itself a proved fact.

use vstd::arithmetic::div_mod::{
    lemma_div_is_ordered, lemma_div_multiples_vanish, lemma_div_pos_is_pos,
    lemma_fundamental_div_mod, lemma_mod_division_less_than_divisor,
};
use vstd::prelude::*;

use crate::rmw::{rmw, set_field};
use crate::soc::{
    RegWrite, Soc, SocView, APB0_CLK, APB1_CLK, CCU_UART_BGR, GPIO_PB_CFG0,
    GPIO_PB_CFG1, GPIO_PB_PULL, GPIO_PC_CFG0, GPIO_PC_DAT, LCR_DLAB, LSR_THRE, PLL_CPU_CTRL,
    RISCV_CLK, UART0_DLH, UART0_FCR, UART0_LCR, UART0_LSR, UART0_MCR, UART0_THR,
};

verus! {

/// Target baud rate of the serial line.
pub const UART_BAUD: u32 = 115200;

/// Frequency of the UART source clock, in hertz.
pub const UART_SRC_CLOCK_HZ: u32 = 24000000;

/// Frame format written to the line-control register once the divisor is
/// set: parity disabled, one stop bit, eight data bits.
pub const PARITY: u32 = 0;

pub const STOP: u32 = 0;

pub const DLEN: u32 = 3;

pub const UART_SET: u32 = ((PARITY & 0x03) << 3) | ((STOP & 0x01) << 2) | (DLEN & 0x03);

/// Modem-control value selecting plain UART mode.
pub const MCR_UART_MODE: u32 = 0x3;

/// FIFO-control value: enable and reset both FIFOs.
pub const FCR_INIT: u32 = 0x7;

/// Reset bit of the UART entry in the bus-gating/reset register.
pub const UART0_RST_BIT: u32 = 0x10000;

/// Gating bit of the UART entry in the bus-gating/reset register.
pub const UART0_GATING_BIT: u32 = 0x1;

/// Configuration-field mask and value for the indicator pin on port C
/// (pin 1 set to output mode).
pub const PC1_CFG_MASK: u32 = 0xF0;

pub const PC1_CFG_OUT: u32 = 0x10;

/// Data bit driving the port C indicator pin high.
pub const PC1_DAT_MASK: u32 = 0x2;

/// Configuration-field mask and value for the indicator pin on port B
/// (pin 5 set to output mode).
pub const PB5_CFG_MASK: u32 = 0x00F00000;

pub const PB5_CFG_OUT: u32 = 0x00100000;

/// Configuration fields of port B pins 0 and 1, selecting the UART
/// transmit and receive functions.
pub const PB_UART_CFG_MASK: u32 = 0xFF;

pub const PB_UART_CFG_VAL: u32 = 0x66;

/// Pull-configuration fields of port B pins 8 and 9, enabling pull-ups on
/// the UART signal pins.
pub const PB_UART_PULL_MASK: u32 = 0x000F0000;

pub const PB_UART_PULL_VAL: u32 = 0x00050000;

/// Core PLL control fields forced by the clock plan: PLL enable, LDO
/// enable, output gate, lock disabled, multiplier 42, divider 1.
pub const PLL_CPU_MASK: u32 = 0xE803FF03;

pub const PLL_CPU_VAL: u32 = 0xC8002900;

/// Peripheral-bus clock register value: source PLL_PERI(1x), divide by two
/// and by three.
pub const APB_CLK_VAL: u32 = 0x03000102;

/// Core clock register value: source PLL_CPU, divide by two.
pub const RISCV_CLK_VAL: u32 = 0x05000100;

/// Iterations of the short busy-wait between reset/gating phases.
pub const PULSE_DELAY_ROUNDS: u32 = 99;

/// The baud divisor: the source clock divided by sixteen times the baud
/// rate, with a rounding bias of half the divisor step.
pub open spec fn spec_baud_divisor(clock: int, baud: int) -> int {
    (clock + 8 * baud) / (16 * baud)
}

/// Compute the divisor for the UART divisor-latch registers.
pub fn baud_divisor(clock: u32, baud: u32) -> (r: u32)
    requires
        baud > 0,
        clock + 8 * baud <= u32::MAX,
        16 * baud <= u32::MAX,
    ensures
        r == spec_baud_divisor(clock as int, baud as int),
{
    proof {
        assert(16 * (baud as int) <= 2 * (clock as int + 8 * (baud as int))) by (nonlinear_arith)
            requires
                baud > 0,
        ;
        lemma_div_pos_is_pos((clock + 8 * baud) as int, 16 * baud as int);
        lemma_div_is_ordered(
            (clock + 8 * baud) as int,
            2 * (clock as int + 8 * baud),
            16 * baud as int,
        );
    }
    (clock + 8 * baud) / (16 * baud)
}

/// For a fixed source clock, the divisor never increases as the target
/// baud rate increases.
pub proof fn lemma_baud_divisor_monotonic(clock: int, baud_lo: int, baud_hi: int)
    requires
        clock >= 0,
        0 < baud_lo <= baud_hi,
    ensures
        spec_baud_divisor(clock, baud_hi) <= spec_baud_divisor(clock, baud_lo),
{
    let q = spec_baud_divisor(clock, baud_hi);
    lemma_div_pos_is_pos(clock + 8 * baud_hi, 16 * baud_hi);
    lemma_fundamental_div_mod(clock + 8 * baud_hi, 16 * baud_hi);
    lemma_mod_division_less_than_divisor(clock + 8 * baud_hi, 16 * baud_hi);
    assert(16 * baud_hi * q <= clock + 8 * baud_hi);
    assert(16 * baud_lo * q <= clock + 8 * baud_lo) by (nonlinear_arith)
        requires
            q >= 0,
            clock >= 0,
            0 < baud_lo <= baud_hi,
            16 * baud_hi * q <= clock + 8 * baud_hi,
    ;
    lemma_div_is_ordered(16 * baud_lo * q, clock + 8 * baud_lo, 16 * baud_lo);
    lemma_div_multiples_vanish(q, 16 * baud_lo);
    assert(16 * baud_lo * q == (16 * baud_lo) * q);
}

/// Writes of the indicator phase: port C pin 1 to output and driven high,
/// port B pin 5 to output.
pub open spec fn led_writes(s: SocView) -> Seq<RegWrite> {
    seq![
        RegWrite { addr: GPIO_PC_CFG0, val: rmw(s.gpio_pc_cfg0, PC1_CFG_MASK, PC1_CFG_OUT) },
        RegWrite { addr: GPIO_PC_DAT, val: rmw(s.gpio_pc_dat, PC1_DAT_MASK, PC1_DAT_MASK) },
        RegWrite { addr: GPIO_PB_CFG0, val: rmw(s.gpio_pb_cfg0, PB5_CFG_MASK, PB5_CFG_OUT) },
    ]
}

/// State after the indicator phase.
pub open spec fn led_state(s: SocView) -> SocView {
    SocView {
        gpio_pc_cfg0: rmw(s.gpio_pc_cfg0, PC1_CFG_MASK, PC1_CFG_OUT),
        gpio_pc_dat: rmw(s.gpio_pc_dat, PC1_DAT_MASK, PC1_DAT_MASK),
        gpio_pb_cfg0: rmw(s.gpio_pb_cfg0, PB5_CFG_MASK, PB5_CFG_OUT),
        writes: s.writes + led_writes(s),
        ..s
    }
}

/// Reconfigure the indicator pins of the two board variants: on each port
/// the pin's configuration field is set to output mode by read-modify-write
/// and the port C pin is driven high.
pub fn light_up_led(soc: &mut Soc)
    ensures
        final(soc)@ == led_state(old(soc)@),
{
    proof {
        assert(PC1_CFG_OUT & !PC1_CFG_MASK == 0) by (bit_vector);
        assert(PC1_DAT_MASK & !PC1_DAT_MASK == 0) by (bit_vector);
        assert(PB5_CFG_OUT & !PB5_CFG_MASK == 0) by (bit_vector);
    }
    let pc_cfg0 = soc.read_reg(GPIO_PC_CFG0);
    soc.write_reg(GPIO_PC_CFG0, set_field(pc_cfg0, PC1_CFG_MASK, PC1_CFG_OUT));
    let pc_dat = soc.read_reg(GPIO_PC_DAT);
    soc.write_reg(GPIO_PC_DAT, set_field(pc_dat, PC1_DAT_MASK, PC1_DAT_MASK));
    let pb_cfg0 = soc.read_reg(GPIO_PB_CFG0);
    soc.write_reg(GPIO_PB_CFG0, set_field(pb_cfg0, PB5_CFG_MASK, PB5_CFG_OUT));
    proof {
        assert(soc@ =~= led_state(old(soc)@));
    }
}

/// Writes of the clock phase: the core PLL fields by read-modify-write,
/// then the two peripheral-bus clock registers and the core clock register
/// with fixed pre-computed values.
pub open spec fn ccu_writes(s: SocView) -> Seq<RegWrite> {
    seq![
        RegWrite { addr: PLL_CPU_CTRL, val: rmw(s.pll_cpu_ctrl, PLL_CPU_MASK, PLL_CPU_VAL) },
        RegWrite { addr: APB0_CLK, val: APB_CLK_VAL },
        RegWrite { addr: APB1_CLK, val: APB_CLK_VAL },
        RegWrite { addr: RISCV_CLK, val: RISCV_CLK_VAL },
    ]
}

/// State after the clock phase.
pub open spec fn ccu_state(s: SocView) -> SocView {
    SocView {
        pll_cpu_ctrl: rmw(s.pll_cpu_ctrl, PLL_CPU_MASK, PLL_CPU_VAL),
        apb0_clk: APB_CLK_VAL,
        apb1_clk: APB_CLK_VAL,
        riscv_clk: RISCV_CLK_VAL,
        writes: s.writes + ccu_writes(s),
        ..s
    }
}

/// Program the clock tree: enable the core PLL with the fixed multiplier
/// and divider fields, then set the peripheral-bus and core clock
/// source/divider registers.
pub fn configure_ccu_clocks(soc: &mut Soc)
    ensures
        final(soc)@ == ccu_state(old(soc)@),
{
    proof {
        assert(PLL_CPU_VAL & !PLL_CPU_MASK == 0) by (bit_vector);
    }
    let pll = soc.read_reg(PLL_CPU_CTRL);
    soc.write_reg(PLL_CPU_CTRL, set_field(pll, PLL_CPU_MASK, PLL_CPU_VAL));
    soc.write_reg(APB0_CLK, APB_CLK_VAL);
    soc.write_reg(APB1_CLK, APB_CLK_VAL);
    soc.write_reg(RISCV_CLK, RISCV_CLK_VAL);
    proof {
        assert(soc@ =~= ccu_state(old(soc)@));
    }
}

/// Writes of the UART phase, in required order: signal pins, pull-ups, the
/// reset pulse and the gating pulse on the bus-gating register, modem
/// mode, divisor-latch access, the two divisor bytes, frame format, FIFO
/// setup.
pub open spec fn uart_config_writes(s: SocView) -> Seq<RegWrite> {
    let pins = rmw(s.gpio_pb_cfg1, PB_UART_CFG_MASK, PB_UART_CFG_VAL);
    let pull = rmw(s.gpio_pb_pull, PB_UART_PULL_MASK, PB_UART_PULL_VAL);
    let rst0 = rmw(s.ccu_uart_bgr, UART0_RST_BIT, 0);
    let rst1 = rmw(rst0, UART0_RST_BIT, UART0_RST_BIT);
    let gat0 = rmw(rst1, UART0_GATING_BIT, 0);
    let gat1 = rmw(gat0, UART0_GATING_BIT, UART0_GATING_BIT);
    let dlab = rmw(s.uart_lcr, LCR_DLAB, LCR_DLAB);
    let nodlab = rmw(dlab, LCR_DLAB, 0);
    seq![
        RegWrite { addr: GPIO_PB_CFG1, val: pins },
        RegWrite { addr: GPIO_PB_PULL, val: pull },
        RegWrite { addr: CCU_UART_BGR, val: rst0 },
        RegWrite { addr: CCU_UART_BGR, val: rst1 },
        RegWrite { addr: CCU_UART_BGR, val: gat0 },
        RegWrite { addr: CCU_UART_BGR, val: gat1 },
        RegWrite { addr: UART0_MCR, val: MCR_UART_MODE },
        RegWrite { addr: UART0_LCR, val: dlab },
        RegWrite { addr: UART0_THR, val: 0x0D },
        RegWrite { addr: UART0_DLH, val: 0x00 },
        RegWrite { addr: UART0_LCR, val: nodlab },
        RegWrite { addr: UART0_LCR, val: UART_SET },
        RegWrite { addr: UART0_FCR, val: FCR_INIT },
    ]
}

/// State after the UART phase: pins selected, pulls enabled, the UART
/// reset and gating bits both released, modem mode set, the divisor
/// latched at thirteen, frame format set, FIFOs enabled and reset.
pub open spec fn uart_state(s: SocView) -> SocView {
    SocView {
        gpio_pb_cfg1: rmw(s.gpio_pb_cfg1, PB_UART_CFG_MASK, PB_UART_CFG_VAL),
        gpio_pb_pull: rmw(s.gpio_pb_pull, PB_UART_PULL_MASK, PB_UART_PULL_VAL),
        ccu_uart_bgr: s.ccu_uart_bgr | UART0_RST_BIT | UART0_GATING_BIT,
        uart_mcr: MCR_UART_MODE,
        uart_dll: 0x0D,
        uart_dlh: 0x00,
        uart_lcr: UART_SET,
        uart_fcr: FCR_INIT,
        writes: s.writes + uart_config_writes(s),
        ..s
    }
}

/// A fixed-iteration busy-wait; it touches no modelled state and stands in
/// for the minimum settling time between reset and gating phases.
pub fn delay(rounds: u32) {
    let mut i: u32 = 0;
    while i < rounds
        invariant
            i <= rounds,
        decreases rounds - i,
    {
        i = i + 1;
    }
}

/// Program the UART: select the transmit/receive pin functions and
/// pull-ups, pulse the peripheral's reset and then its clock gate with a
/// settling delay between phases, then program the line: modem mode,
/// divisor-latch access on, divisor low and high bytes for 115200 baud
/// from a 24 MHz source, divisor-latch access off, frame format, FIFO
/// enable and reset.
pub fn configure_uart_peripheral(soc: &mut Soc)
    ensures
        final(soc)@ == uart_state(old(soc)@),
{
    proof {
        assert(PB_UART_CFG_VAL & !PB_UART_CFG_MASK == 0) by (bit_vector);
        assert(PB_UART_PULL_VAL & !PB_UART_PULL_MASK == 0) by (bit_vector);
        assert(0u32 & !UART0_RST_BIT == 0) by (bit_vector);
        assert(UART0_RST_BIT & !UART0_RST_BIT == 0) by (bit_vector);
        assert(0u32 & !UART0_GATING_BIT == 0) by (bit_vector);
        assert(UART0_GATING_BIT & !UART0_GATING_BIT == 0) by (bit_vector);
        assert(LCR_DLAB & !LCR_DLAB == 0) by (bit_vector);
        assert(0u32 & !LCR_DLAB == 0) by (bit_vector);
    }
    let pb_cfg1 = soc.read_reg(GPIO_PB_CFG1);
    soc.write_reg(GPIO_PB_CFG1, set_field(pb_cfg1, PB_UART_CFG_MASK, PB_UART_CFG_VAL));
    let pb_pull = soc.read_reg(GPIO_PB_PULL);
    soc.write_reg(GPIO_PB_PULL, set_field(pb_pull, PB_UART_PULL_MASK, PB_UART_PULL_VAL));

    let bgr = soc.read_reg(CCU_UART_BGR);
    soc.write_reg(CCU_UART_BGR, set_field(bgr, UART0_RST_BIT, 0));
    delay(PULSE_DELAY_ROUNDS);
    let bgr = soc.read_reg(CCU_UART_BGR);
    soc.write_reg(CCU_UART_BGR, set_field(bgr, UART0_RST_BIT, UART0_RST_BIT));
    let bgr = soc.read_reg(CCU_UART_BGR);
    soc.write_reg(CCU_UART_BGR, set_field(bgr, UART0_GATING_BIT, 0));
    delay(PULSE_DELAY_ROUNDS);
    let bgr = soc.read_reg(CCU_UART_BGR);
    soc.write_reg(CCU_UART_BGR, set_field(bgr, UART0_GATING_BIT, UART0_GATING_BIT));

    soc.write_reg(UART0_MCR, MCR_UART_MODE);

    let lcr = soc.read_reg(UART0_LCR);
    soc.write_reg(UART0_LCR, set_field(lcr, LCR_DLAB, LCR_DLAB));

    let divisor = baud_divisor(UART_SRC_CLOCK_HZ, UART_BAUD);
    proof {
        assert(spec_baud_divisor(UART_SRC_CLOCK_HZ as int, UART_BAUD as int) == 13);
        assert(13u32 & 0xff == 0x0D) by (bit_vector);
        assert(13u32 >> 8 == 0x00) by (bit_vector);
    }
    soc.write_reg(UART0_THR, divisor & 0xff);
    soc.write_reg(UART0_DLH, divisor >> 8);

    let lcr = soc.read_reg(UART0_LCR);
    soc.write_reg(UART0_LCR, set_field(lcr, LCR_DLAB, 0));
    soc.write_reg(UART0_LCR, UART_SET);
    soc.write_reg(UART0_FCR, FCR_INIT);
    proof {
        let s = old(soc)@;
        let b0 = s.ccu_uart_bgr;
        let l0 = s.uart_lcr;
        assert(rmw(
            rmw(rmw(rmw(b0, UART0_RST_BIT, 0), UART0_RST_BIT, UART0_RST_BIT), UART0_GATING_BIT, 0),
            UART0_GATING_BIT,
            UART0_GATING_BIT,
        ) == b0 | UART0_RST_BIT | UART0_GATING_BIT) by (bit_vector);
        assert(rmw(l0, LCR_DLAB, LCR_DLAB) & LCR_DLAB != 0) by (bit_vector);
        assert(soc@ =~= uart_state(s));
    }
}

/// The full bring-up trace: the indicator writes, then the clock writes,
/// then the UART writes.
pub open spec fn bringup_writes(s: SocView) -> Seq<RegWrite> {
    led_writes(s) + ccu_writes(led_state(s)) + uart_config_writes(ccu_state(led_state(s)))
}

/// State after the whole bring-up sequence.
pub open spec fn bringup_state(s: SocView) -> SocView {
    uart_state(ccu_state(led_state(s)))
}

/// Ordering of the bring-up trace: the two writes of the UART reset pulse
/// stand at positions nine and ten, the two writes of the gating pulse
/// strictly after them at eleven and twelve, no earlier write touches the
/// bus-gating register, and every write to the line-control, divisor-low
/// or divisor-high register comes strictly after both pulses.
pub proof fn lemma_bringup_ordering(s: SocView)
    ensures
        ({
            let w = bringup_writes(s);
            &&& w.len() == 20
            &&& w[9].addr == CCU_UART_BGR && w[9].val & UART0_RST_BIT == 0
            &&& w[10].addr == CCU_UART_BGR && w[10].val & UART0_RST_BIT != 0
            &&& w[11].addr == CCU_UART_BGR && w[11].val & UART0_GATING_BIT == 0
            &&& w[12].addr == CCU_UART_BGR && w[12].val & UART0_GATING_BIT != 0
            &&& forall|i: int|
                0 <= i < 9 ==> (#[trigger] w[i]).addr != CCU_UART_BGR
            &&& forall|i: int|
                0 <= i < w.len() && ((#[trigger] w[i]).addr == UART0_LCR || w[i].addr == UART0_THR
                    || w[i].addr == UART0_DLH) ==> 12 < i
        }),
{
    let w = bringup_writes(s);
    let b0 = s.ccu_uart_bgr;
    let rst0 = rmw(b0, UART0_RST_BIT, 0);
    let rst1 = rmw(rst0, UART0_RST_BIT, UART0_RST_BIT);
    let gat0 = rmw(rst1, UART0_GATING_BIT, 0);
    let gat1 = rmw(gat0, UART0_GATING_BIT, UART0_GATING_BIT);
    assert(rmw(b0, UART0_RST_BIT, 0) & UART0_RST_BIT == 0) by (bit_vector);
    assert(rmw(rst0, UART0_RST_BIT, UART0_RST_BIT) & UART0_RST_BIT != 0) by (bit_vector);
    assert(rmw(rst1, UART0_GATING_BIT, 0) & UART0_GATING_BIT == 0) by (bit_vector);
    assert(rmw(gat0, UART0_GATING_BIT, UART0_GATING_BIT) & UART0_GATING_BIT != 0) by (bit_vector);
    assert forall|i: int| 0 <= i < 9 implies (#[trigger] w[i]).addr != CCU_UART_BGR by {
        assert(w.len() == 20);
    }
    assert forall|i: int|
        0 <= i < w.len() && ((#[trigger] w[i]).addr == UART0_LCR || w[i].addr == UART0_THR
            || w[i].addr == UART0_DLH) implies 12 < i by {
        assert(w.len() == 20);
    }
}

/// Transmit one byte: poll the line-status register until the
/// transmit-holding-register-empty bit reads set, then write the byte to
/// the transmit-holding register. In the model the status bit must already
/// be set, which is exactly the condition under which the poll of the real
/// part comes back; a part that never reports ready blocks forever.
pub fn uart0_putchar(soc: &mut Soc, a: u8)
    requires
        old(soc)@.uart_lsr & LSR_THRE != 0,
        old(soc)@.uart_lcr & LCR_DLAB == 0,
    ensures
        final(soc)@ == (SocView {
            tx: old(soc)@.tx.push(a),
            writes: old(soc)@.writes.push(RegWrite { addr: UART0_THR, val: a as u32 }),
            ..old(soc)@
        }),
{
    while soc.read_reg(UART0_LSR) & LSR_THRE == 0
        invariant
            soc@ == old(soc)@,
            soc@.uart_lsr & LSR_THRE != 0,
        decreases 0int,
    {
    }
    soc.write_reg(UART0_THR, a as u32);
    proof {
        let b = a as u32;
        assert(b as u8 == a) by (bit_vector)
            requires
                b == a as u32,
        ;
        assert(soc@ =~= (SocView {
            tx: old(soc)@.tx.push(a),
            writes: old(soc)@.writes.push(RegWrite { addr: UART0_THR, val: a as u32 }),
            ..old(soc)@
        }));
    }
}

} // verus!

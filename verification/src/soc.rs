//! A register-accurate model of the hardware this stage programs.
//!
//! The physical registers live at fixed addresses; every access to them is
//! a volatile, ordering-significant side effect. The model keeps one field
//! per register the executed path touches, a trace of every register write
//! in program order, and the byte stream a simulated UART transmitter has
//! accepted. The bring-up contracts are stated over this model.

use vstd::prelude::*;

verus! {

pub const CCU_BASE: u32 = 0x0200_1000;

/// Core PLL control register.
pub const PLL_CPU_CTRL: u32 = CCU_BASE;

/// Peripheral-bus clock source/divider registers.
pub const APB0_CLK: u32 = CCU_BASE + 0x0520;

pub const APB1_CLK: u32 = CCU_BASE + 0x0524;

/// UART entry in the clock-control unit's bus-gating/reset register.
pub const CCU_UART_BGR: u32 = CCU_BASE + 0x090C;

/// Core clock source/divider register.
pub const RISCV_CLK: u32 = CCU_BASE + 0x0D00;

pub const GPIO_BASE_ADDR: u32 = 0x0200_0000;

pub const GPIO_PB_CFG0: u32 = GPIO_BASE_ADDR + 0x0030;

pub const GPIO_PB_CFG1: u32 = GPIO_BASE_ADDR + 0x0034;

pub const GPIO_PB_PULL: u32 = GPIO_BASE_ADDR + 0x0054;

pub const GPIO_PC_CFG0: u32 = GPIO_BASE_ADDR + 0x0060;

pub const GPIO_PC_DAT: u32 = GPIO_BASE_ADDR + 0x0070;

pub const UART0_BASE: u32 = 0x0250_0000;

/// Transmit-holding register; doubles as the divisor-low register while the
/// divisor-latch-access bit of the line-control register is set.
pub const UART0_THR: u32 = UART0_BASE;

/// Divisor-high register.
pub const UART0_DLH: u32 = UART0_BASE + 0x0004;

pub const UART0_FCR: u32 = UART0_BASE + 0x0008;

pub const UART0_LCR: u32 = UART0_BASE + 0x000C;

pub const UART0_MCR: u32 = UART0_BASE + 0x0010;

/// Line-status register; read-only, bit 6 is transmit-holding-register
/// empty.
pub const UART0_LSR: u32 = UART0_BASE + 0x0014;

/// Divisor-latch-access bit of the line-control register.
pub const LCR_DLAB: u32 = 0x80;

/// Transmit-holding-register-empty bit of the line-status register.
pub const LSR_THRE: u32 = 0x40;

/// One register write: the address it went to and the value written.
#[derive(Clone, Copy, PartialEq, Eq, Structural, Debug)]
pub struct RegWrite {
    pub addr: u32,
    pub val: u32,
}

/// The mathematical state of the modelled hardware: the register contents,
/// the write trace in program order, and the bytes the simulated UART
/// transmitter has accepted.
#[verifier::ext_equal]
pub ghost struct SocView {
    pub gpio_pb_cfg0: u32,
    pub gpio_pb_cfg1: u32,
    pub gpio_pb_pull: u32,
    pub gpio_pc_cfg0: u32,
    pub gpio_pc_dat: u32,
    pub pll_cpu_ctrl: u32,
    pub apb0_clk: u32,
    pub apb1_clk: u32,
    pub riscv_clk: u32,
    pub ccu_uart_bgr: u32,
    pub uart_dll: u32,
    pub uart_dlh: u32,
    pub uart_fcr: u32,
    pub uart_lcr: u32,
    pub uart_mcr: u32,
    pub uart_lsr: u32,
    pub writes: Seq<RegWrite>,
    pub tx: Seq<u8>,
}

/// The simulated system-on-chip.
pub struct Soc {
    pub gpio_pb_cfg0: u32,
    pub gpio_pb_cfg1: u32,
    pub gpio_pb_pull: u32,
    pub gpio_pc_cfg0: u32,
    pub gpio_pc_dat: u32,
    pub pll_cpu_ctrl: u32,
    pub apb0_clk: u32,
    pub apb1_clk: u32,
    pub riscv_clk: u32,
    pub ccu_uart_bgr: u32,
    pub uart_dll: u32,
    pub uart_dlh: u32,
    pub uart_fcr: u32,
    pub uart_lcr: u32,
    pub uart_mcr: u32,
    pub uart_lsr: u32,
    pub writes: Vec<RegWrite>,
    pub tx: Vec<u8>,
}

impl View for Soc {
    type V = SocView;

    open spec fn view(&self) -> SocView {
        SocView {
            gpio_pb_cfg0: self.gpio_pb_cfg0,
            gpio_pb_cfg1: self.gpio_pb_cfg1,
            gpio_pb_pull: self.gpio_pb_pull,
            gpio_pc_cfg0: self.gpio_pc_cfg0,
            gpio_pc_dat: self.gpio_pc_dat,
            pll_cpu_ctrl: self.pll_cpu_ctrl,
            apb0_clk: self.apb0_clk,
            apb1_clk: self.apb1_clk,
            riscv_clk: self.riscv_clk,
            ccu_uart_bgr: self.ccu_uart_bgr,
            uart_dll: self.uart_dll,
            uart_dlh: self.uart_dlh,
            uart_fcr: self.uart_fcr,
            uart_lcr: self.uart_lcr,
            uart_mcr: self.uart_mcr,
            uart_lsr: self.uart_lsr,
            writes: self.writes@,
            tx: self.tx@,
        }
    }
}

/// The register addresses the bring-up sequence reads.
pub open spec fn is_mmio_read_reg(addr: u32) -> bool {
    ||| addr == GPIO_PB_CFG0
    ||| addr == GPIO_PB_CFG1
    ||| addr == GPIO_PB_PULL
    ||| addr == GPIO_PC_CFG0
    ||| addr == GPIO_PC_DAT
    ||| addr == PLL_CPU_CTRL
    ||| addr == CCU_UART_BGR
    ||| addr == UART0_LCR
    ||| addr == UART0_LSR
}

/// The register addresses the bring-up sequence writes.
pub open spec fn is_mmio_write_reg(addr: u32) -> bool {
    ||| addr == GPIO_PB_CFG0
    ||| addr == GPIO_PB_CFG1
    ||| addr == GPIO_PB_PULL
    ||| addr == GPIO_PC_CFG0
    ||| addr == GPIO_PC_DAT
    ||| addr == PLL_CPU_CTRL
    ||| addr == APB0_CLK
    ||| addr == APB1_CLK
    ||| addr == RISCV_CLK
    ||| addr == CCU_UART_BGR
    ||| addr == UART0_THR
    ||| addr == UART0_DLH
    ||| addr == UART0_FCR
    ||| addr == UART0_LCR
    ||| addr == UART0_MCR
}

/// The value a volatile read of a mapped register returns.
pub open spec fn reg_at(s: SocView, addr: u32) -> u32 {
    if addr == GPIO_PB_CFG0 {
        s.gpio_pb_cfg0
    } else if addr == GPIO_PB_CFG1 {
        s.gpio_pb_cfg1
    } else if addr == GPIO_PB_PULL {
        s.gpio_pb_pull
    } else if addr == GPIO_PC_CFG0 {
        s.gpio_pc_cfg0
    } else if addr == GPIO_PC_DAT {
        s.gpio_pc_dat
    } else if addr == PLL_CPU_CTRL {
        s.pll_cpu_ctrl
    } else if addr == CCU_UART_BGR {
        s.ccu_uart_bgr
    } else if addr == UART0_LCR {
        s.uart_lcr
    } else {
        s.uart_lsr
    }
}

/// The state a volatile write of a mapped register leaves behind: the write
/// joins the trace, and the addressed register takes the value. A write to
/// the transmit-holding address goes to the divisor-low register while the
/// divisor-latch-access bit is set, and otherwise hands the low byte to the
/// transmitter.
pub open spec fn write_mapped(s: SocView, addr: u32, val: u32) -> SocView {
    let t = SocView { writes: s.writes.push(RegWrite { addr, val }), ..s };
    if addr == GPIO_PB_CFG0 {
        SocView { gpio_pb_cfg0: val, ..t }
    } else if addr == GPIO_PB_CFG1 {
        SocView { gpio_pb_cfg1: val, ..t }
    } else if addr == GPIO_PB_PULL {
        SocView { gpio_pb_pull: val, ..t }
    } else if addr == GPIO_PC_CFG0 {
        SocView { gpio_pc_cfg0: val, ..t }
    } else if addr == GPIO_PC_DAT {
        SocView { gpio_pc_dat: val, ..t }
    } else if addr == PLL_CPU_CTRL {
        SocView { pll_cpu_ctrl: val, ..t }
    } else if addr == APB0_CLK {
        SocView { apb0_clk: val, ..t }
    } else if addr == APB1_CLK {
        SocView { apb1_clk: val, ..t }
    } else if addr == RISCV_CLK {
        SocView { riscv_clk: val, ..t }
    } else if addr == CCU_UART_BGR {
        SocView { ccu_uart_bgr: val, ..t }
    } else if addr == UART0_THR {
        if s.uart_lcr & LCR_DLAB != 0 {
            SocView { uart_dll: val, ..t }
        } else {
            SocView { tx: s.tx.push(val as u8), ..t }
        }
    } else if addr == UART0_DLH {
        SocView { uart_dlh: val, ..t }
    } else if addr == UART0_FCR {
        SocView { uart_fcr: val, ..t }
    } else if addr == UART0_LCR {
        SocView { uart_lcr: val, ..t }
    } else {
        SocView { uart_mcr: val, ..t }
    }
}

impl Soc {
    /// A volatile read of the register at `addr`.
    pub fn read_reg(&self, addr: u32) -> (r: u32)
        requires
            is_mmio_read_reg(addr),
        ensures
            r == reg_at(self@, addr),
    {
        if addr == GPIO_PB_CFG0 {
            self.gpio_pb_cfg0
        } else if addr == GPIO_PB_CFG1 {
            self.gpio_pb_cfg1
        } else if addr == GPIO_PB_PULL {
            self.gpio_pb_pull
        } else if addr == GPIO_PC_CFG0 {
            self.gpio_pc_cfg0
        } else if addr == GPIO_PC_DAT {
            self.gpio_pc_dat
        } else if addr == PLL_CPU_CTRL {
            self.pll_cpu_ctrl
        } else if addr == CCU_UART_BGR {
            self.ccu_uart_bgr
        } else if addr == UART0_LCR {
            self.uart_lcr
        } else {
            self.uart_lsr
        }
    }

    /// A volatile write of `val` to the register at `addr`.
    pub fn write_reg(&mut self, addr: u32, val: u32)
        requires
            is_mmio_write_reg(addr),
        ensures
            final(self)@ == write_mapped(old(self)@, addr, val),
    {
        self.writes.push(RegWrite { addr, val });
        if addr == GPIO_PB_CFG0 {
            self.gpio_pb_cfg0 = val;
        } else if addr == GPIO_PB_CFG1 {
            self.gpio_pb_cfg1 = val;
        } else if addr == GPIO_PB_PULL {
            self.gpio_pb_pull = val;
        } else if addr == GPIO_PC_CFG0 {
            self.gpio_pc_cfg0 = val;
        } else if addr == GPIO_PC_DAT {
            self.gpio_pc_dat = val;
        } else if addr == PLL_CPU_CTRL {
            self.pll_cpu_ctrl = val;
        } else if addr == APB0_CLK {
            self.apb0_clk = val;
        } else if addr == APB1_CLK {
            self.apb1_clk = val;
        } else if addr == RISCV_CLK {
            self.riscv_clk = val;
        } else if addr == CCU_UART_BGR {
            self.ccu_uart_bgr = val;
        } else if addr == UART0_THR {
            if self.uart_lcr & LCR_DLAB != 0 {
                self.uart_dll = val;
            } else {
                self.tx.push(#[verifier::truncate] (val as u8));
            }
        } else if addr == UART0_DLH {
            self.uart_dlh = val;
        } else if addr == UART0_FCR {
            self.uart_fcr = val;
        } else if addr == UART0_LCR {
            self.uart_lcr = val;
        } else {
            self.uart_mcr = val;
        }
        proof {
            assert(self@ =~= write_mapped(old(self)@, addr, val));
        }
    }

    /// A simulated part at power-on: every modelled register zero, an empty
    /// write trace and transmit stream, and the line status showing the
    /// transmit-holding register empty.
    pub fn power_on() -> (soc: Soc)
        ensures
            soc@.gpio_pb_cfg0 == 0,
            soc@.gpio_pb_cfg1 == 0,
            soc@.gpio_pb_pull == 0,
            soc@.gpio_pc_cfg0 == 0,
            soc@.gpio_pc_dat == 0,
            soc@.pll_cpu_ctrl == 0,
            soc@.apb0_clk == 0,
            soc@.apb1_clk == 0,
            soc@.riscv_clk == 0,
            soc@.ccu_uart_bgr == 0,
            soc@.uart_dll == 0,
            soc@.uart_dlh == 0,
            soc@.uart_fcr == 0,
            soc@.uart_lcr == 0,
            soc@.uart_mcr == 0,
            soc@.uart_lsr == LSR_THRE,
            soc@.writes == Seq::<RegWrite>::empty(),
            soc@.tx == Seq::<u8>::empty(),
    {
        let soc = Soc {
            gpio_pb_cfg0: 0,
            gpio_pb_cfg1: 0,
            gpio_pb_pull: 0,
            gpio_pc_cfg0: 0,
            gpio_pc_dat: 0,
            pll_cpu_ctrl: 0,
            apb0_clk: 0,
            apb1_clk: 0,
            riscv_clk: 0,
            ccu_uart_bgr: 0,
            uart_dll: 0,
            uart_dlh: 0,
            uart_fcr: 0,
            uart_lcr: 0,
            uart_mcr: 0,
            uart_lsr: LSR_THRE,
            writes: Vec::new(),
            tx: Vec::new(),
        };
        proof {
            assert(soc@.writes =~= Seq::<RegWrite>::empty());
            assert(soc@.tx =~= Seq::<u8>::empty());
        }
        soc
    }
}

} // verus!

use d1_bt0::boot::{boot, boot_and_run, liveness_round, Machine};
use d1_bt0::bringup::{
    baud_divisor, configure_ccu_clocks, configure_uart_peripheral, light_up_led,
};
use d1_bt0::entry::{start, CpuState};
use d1_bt0::header::{head_jump, HeadData, HEAD_DATA_SIZE, STAMP_CHECKSUM};
use d1_bt0::image::{init_bss, init_data, zero_bss, ImageRegions};
use d1_bt0::rmw::set_field;
use d1_bt0::soc::{
    RegWrite, Soc, CCU_UART_BGR, GPIO_PB_CFG0, GPIO_PC_CFG0, GPIO_PC_DAT, UART0_DLH, UART0_LCR,
    UART0_LSR, UART0_THR,
};

fn le(x: u32) -> [u8; 4] {
    [
        (x & 0xff) as u8,
        ((x >> 8) & 0xff) as u8,
        ((x >> 16) & 0xff) as u8,
        ((x >> 24) & 0xff) as u8,
    ]
}

#[test]
fn header_layout_known_values() {
    let h = HeadData {
        magic: *b"eGON.BT0",
        checksum: 0x11223344,
        length: 0x0000C000,
        pub_head_size: 0x20,
        fel_script_address: 0x1000,
        fel_uenv_length: 0x30,
        dt_name_offset: 0x40,
        dram_size: 0x200,
        boot_media: 0x1,
        string_pool: [
            1, 2, 3, 4, 5, 6, 7, 8, 9, 10, 11, 12, 13,
        ],
    };
    let bytes = h.serialize();
    assert_eq!(bytes.len(), HEAD_DATA_SIZE);
    assert_eq!(bytes.len(), 92);
    assert_eq!(&bytes[0..8], b"eGON.BT0");
    assert_eq!(&bytes[8..12], &le(0x11223344));
    assert_eq!(&bytes[12..16], &le(0x0000C000));
    assert_eq!(&bytes[16..20], &le(0x20));
    assert_eq!(&bytes[20..24], &le(0x1000));
    assert_eq!(&bytes[24..28], &le(0x30));
    assert_eq!(&bytes[28..32], &le(0x40));
    assert_eq!(&bytes[32..36], &le(0x200));
    assert_eq!(&bytes[36..40], &le(0x1));
    for i in 0..13u32 {
        let at = 40 + 4 * i as usize;
        assert_eq!(&bytes[at..at + 4], &le(i + 1));
    }
}

#[test]
fn header_size_is_invariant() {
    let a = HeadData::build_time().serialize();
    let mut h = HeadData::build_time();
    h.length = 0xFFFF_FFFF;
    h.dram_size = 0x4000_0000;
    h.string_pool = [0xAA55AA55; 13];
    let b = h.serialize();
    assert_eq!(a.len(), 92);
    assert_eq!(b.len(), 92);
}

#[test]
fn build_time_header_content() {
    let bytes = HeadData::build_time().serialize();
    assert_eq!(&bytes[0..8], b"eGON.BT0");
    assert_eq!(&bytes[8..12], &le(STAMP_CHECKSUM));
    for b in &bytes[12..92] {
        assert_eq!(*b, 0);
    }
}

#[test]
fn head_jump_encoding() {
    let insn = head_jump();
    assert_eq!(insn, 0xA085);
    // compressed unconditional jump: funct3 101, opcode 01
    assert_eq!(insn & 0xE003, 0xA001);
    // forward jump: sign bit of the scattered immediate clear
    assert_eq!((insn >> 12) & 1, 0);
}

#[test]
fn baud_divisor_values() {
    assert_eq!(baud_divisor(24_000_000, 115200), 13);
    assert_eq!(baud_divisor(24_000_000, 9600), 156);
}

#[test]
fn baud_divisor_non_increasing() {
    let rates = [300u32, 9600, 19200, 38400, 57600, 115200, 230400, 460800];
    let mut prev = baud_divisor(24_000_000, rates[0]);
    for &r in &rates[1..] {
        let d = baud_divisor(24_000_000, r);
        assert!(d <= prev);
        prev = d;
    }
}

#[test]
fn set_field_keeps_outside_bits() {
    let old_value: u32 = 0xDEADBEEF;
    let mask: u32 = 0x0000F0F0;
    let value: u32 = 0x00003020;
    let new_value = set_field(old_value, mask, value);
    assert_eq!(new_value & !mask, old_value & !mask);
    assert_eq!(new_value & mask, value);
    assert_eq!(new_value, 0xDEAD3E2F);
}

#[test]
fn init_zeroes_garbage_and_copies_data() {
    let mut r = ImageRegions {
        bss: vec![0xDE, 0xAD, 0xBE, 0xEF, 0x42, 0x99, 0x01],
        data: vec![0; 5],
        data_load: vec![10, 20, 30, 40, 50],
    };
    init_bss(&mut r);
    assert_eq!(r.bss, vec![0; 7]);
    assert_eq!(r.data, vec![10, 20, 30, 40, 50]);
    assert_eq!(r.data_load, vec![10, 20, 30, 40, 50]);
}

#[test]
fn init_parts_work_alone() {
    let mut bss = vec![7u8; 16];
    zero_bss(&mut bss);
    assert_eq!(bss, vec![0u8; 16]);

    let mut data = vec![0u8; 3];
    let load = vec![9u8, 8, 7];
    init_data(&mut data, &load);
    assert_eq!(data, load);

    let mut empty: Vec<u8> = Vec::new();
    zero_bss(&mut empty);
    assert!(empty.is_empty());
}

#[test]
fn led_pins_read_modify_write() {
    let mut soc = Soc::power_on();
    soc.write_reg(GPIO_PC_CFG0, 0xFFFF_FF0F);
    light_up_led(&mut soc);
    // pin 1 configuration field set to output, all other fields untouched
    assert_eq!(soc.read_reg(GPIO_PC_CFG0), 0xFFFF_FF1F);
    assert_eq!(soc.gpio_pc_dat & 0x2, 0x2);
    assert_eq!(soc.gpio_pb_cfg0 & 0x00F0_0000, 0x0010_0000);
    // the trace records exactly the three writes, in order
    assert_eq!(
        soc.writes[1..],
        [
            RegWrite { addr: GPIO_PC_CFG0, val: 0xFFFF_FF1F },
            RegWrite { addr: GPIO_PC_DAT, val: 0x2 },
            RegWrite { addr: GPIO_PB_CFG0, val: 0x0010_0000 },
        ]
    );
}

#[test]
fn divisor_latch_shares_the_transmit_address() {
    let mut soc = Soc::power_on();
    // divisor latch open: the shared address reaches the divisor register
    soc.write_reg(UART0_LCR, 0x80);
    soc.write_reg(UART0_THR, 0x0D);
    assert_eq!(soc.uart_dll, 0x0D);
    assert!(soc.tx.is_empty());
    // divisor latch closed: the same address feeds the transmitter
    soc.write_reg(UART0_LCR, 0x3);
    soc.write_reg(UART0_THR, 0x41);
    assert_eq!(soc.uart_dll, 0x0D);
    assert_eq!(soc.tx, vec![0x41]);
}

#[test]
fn clock_tree_values() {
    let mut soc = Soc::power_on();
    configure_ccu_clocks(&mut soc);
    assert_eq!(soc.pll_cpu_ctrl, 0xC800_2900);
    assert_eq!(soc.apb0_clk, 0x0300_0102);
    assert_eq!(soc.apb1_clk, 0x0300_0102);
    assert_eq!(soc.riscv_clk, 0x0500_0100);
}

#[test]
fn uart_line_programming() {
    let mut soc = Soc::power_on();
    configure_uart_peripheral(&mut soc);
    // divisor 13 for 115200 baud from 24 MHz, split low/high
    assert_eq!(soc.uart_dll, 0x0D);
    assert_eq!(soc.uart_dlh, 0x00);
    // 8 data bits, 1 stop bit, no parity; divisor latch closed again
    assert_eq!(soc.uart_lcr, 0x3);
    assert_eq!(soc.uart_mcr, 0x3);
    assert_eq!(soc.uart_fcr, 0x7);
    // reset and gating both released
    assert_eq!(soc.ccu_uart_bgr, 0x10001);
    // the divisor byte went to the divisor latch, not to the transmitter
    assert!(soc.tx.is_empty());
}

#[test]
fn uart_bringup_write_ordering() {
    let mut soc = Soc::power_on();
    light_up_led(&mut soc);
    configure_ccu_clocks(&mut soc);
    configure_uart_peripheral(&mut soc);
    let w = &soc.writes;

    let reset_assert = w
        .iter()
        .position(|x| x.addr == CCU_UART_BGR && x.val & 0x10000 != 0)
        .expect("reset assert present");
    let reset_deassert = w
        .iter()
        .position(|x| x.addr == CCU_UART_BGR && x.val & 0x10000 == 0)
        .expect("reset deassert present");
    let gate_open = w
        .iter()
        .position(|x| x.addr == CCU_UART_BGR && x.val & 0x1 != 0)
        .expect("gate open present");
    let first_line = w
        .iter()
        .position(|x| x.addr == UART0_LCR || x.addr == UART0_THR || x.addr == UART0_DLH)
        .expect("line programming present");

    // reset pulse strictly before the gating pulse
    assert!(reset_deassert < reset_assert);
    assert!(reset_assert < gate_open);
    // both pulses strictly before any line-control or divisor write
    assert!(gate_open < first_line);
}

#[test]
fn transmit_only_when_holding_register_empty() {
    let mut soc = Soc::power_on();
    configure_uart_peripheral(&mut soc);
    // the line status reports the holding register empty at power-on
    assert_ne!(soc.read_reg(UART0_LSR) & 0x40, 0);
    liveness_round(&mut soc);
    assert_eq!(soc.tx, b"Rust\r\n".to_vec());
}

#[test]
fn entry_establishes_core_state() {
    let mut cpu = CpuState { mie: 0xFFFF, mcor: 0x4, sp: 0, a0: 0 };
    start(&mut cpu, 0x4000_0000, 0x2000_4400);
    assert_eq!(cpu.mie, 0);
    assert_eq!(cpu.mcor, 0x4 | 0x30013);
    assert_eq!(cpu.sp, 0x4000_0000 + 4 * 4096);
    assert_eq!(cpu.a0, 0x2000_4400);
}

#[test]
fn boot_transmits_intro() {
    let mut m = Machine {
        cpu: CpuState { mie: 0xFF, mcor: 0, sp: 0, a0: 0 },
        regions: ImageRegions {
            bss: vec![1, 2, 3, 4],
            data: vec![0, 0],
            data_load: vec![0xAB, 0xCD],
        },
        soc: Soc::power_on(),
    };
    boot(&mut m, 0x8000, 0x20000);
    assert_eq!(m.soc.tx, b"Test\r\n".to_vec());
    assert_eq!(m.regions.bss, vec![0; 4]);
    assert_eq!(m.regions.data, vec![0xAB, 0xCD]);
    assert_eq!(m.cpu.sp, 0x8000 + 16384);
    assert_eq!(m.cpu.a0, 0x20000);
    assert_eq!(m.cpu.mie, 0);
}

#[test]
fn end_to_end_byte_stream() {
    let mut m = Machine {
        cpu: CpuState { mie: 1, mcor: 0, sp: 0, a0: 0 },
        regions: ImageRegions {
            bss: vec![9; 3],
            data: vec![0],
            data_load: vec![5],
        },
        soc: Soc::power_on(),
    };
    boot_and_run(&mut m, 0x1000, 0x2000, 2);
    assert_eq!(m.soc.tx, b"Test\r\nRust\r\nRust\r\n".to_vec());
}

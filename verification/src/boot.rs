//! The control path from power-on entry to the steady liveness loop:
//! entry, runtime-image initialization, hardware bring-up, the one-time
//! introductory transmission, and the repeating liveness pattern.

use vstd::prelude::*;

use crate::bringup::{
    bringup_state, bringup_writes, configure_ccu_clocks, configure_uart_peripheral, delay,
    light_up_led, uart0_putchar, UART_SET,
};
use crate::entry::{start, CpuState, MCOR_INIT_BITS, SBI_STACK_SIZE};
use crate::image::{init_bss, ImageRegions};
use crate::soc::{RegWrite, Soc, SocView, LCR_DLAB, LSR_THRE, UART0_THR};

verus! {

/// Iterations of the busy-wait between liveness transmissions.
pub const LIVENESS_DELAY_ROUNDS: u32 = 50000000;

/// The bytes sent once after bring-up: `T`, `e`, `s`, `t`, CR, LF.
pub open spec fn intro_bytes() -> Seq<u8> {
    seq![0x54u8, 0x65u8, 0x73u8, 0x74u8, 0x0Du8, 0x0Au8]
}

/// The bytes of one liveness round: `R`, `u`, `s`, `t`, CR, LF.
pub open spec fn liveness_bytes() -> Seq<u8> {
    seq![0x52u8, 0x75u8, 0x73u8, 0x74u8, 0x0Du8, 0x0Au8]
}

/// The register writes that transmit the given bytes: one write of each
/// byte to the transmit-holding register.
pub open spec fn thr_writes(bs: Seq<u8>) -> Seq<RegWrite> {
    bs.map_values(|b: u8| RegWrite { addr: UART0_THR, val: b as u32 })
}

/// `pattern` repeated `k` times.
pub open spec fn repeated<T>(pattern: Seq<T>, k: nat) -> Seq<T>
    decreases k,
{
    if k == 0 {
        Seq::empty()
    } else {
        repeated(pattern, (k - 1) as nat) + pattern
    }
}

pub proof fn lemma_repeated_len<T>(pattern: Seq<T>, k: nat)
    ensures
        repeated(pattern, k).len() == k * pattern.len(),
    decreases k,
{
    if k > 0 {
        lemma_repeated_len(pattern, (k - 1) as nat);
        let l = pattern.len() as int;
        let ki = k as int;
        assert(repeated(pattern, k).len() == (ki - 1) * l + l);
        assert((ki - 1) * l + l == ki * l) by (nonlinear_arith);
        assert(repeated(pattern, k).len() == k * pattern.len());
    } else {
        assert(repeated(pattern, k).len() == 0);
        assert(k * pattern.len() == 0);
    }
}

/// A shorter run of the liveness loop transmits a prefix of what a longer
/// run transmits: the steady state is one unbounded repetition of the
/// pattern, revealed round by round, and no round count ever rewrites what
/// an earlier round sent.
pub proof fn lemma_repeated_prefix<T>(pattern: Seq<T>, j: nat, k: nat)
    requires
        j <= k,
    ensures
        repeated(pattern, j) == repeated(pattern, k).subrange(
            0,
            repeated(pattern, j).len() as int,
        ),
    decreases k - j,
{
    let endpoint = repeated(pattern, j).len() as int;
    if j == k {
        assert(repeated(pattern, j) =~= repeated(pattern, k).subrange(0, endpoint));
    } else {
        lemma_repeated_prefix(pattern, j, (k - 1) as nat);
        lemma_repeated_len(pattern, j);
        lemma_repeated_len(pattern, (k - 1) as nat);
        assert(j * pattern.len() <= (k - 1) * pattern.len()) by (nonlinear_arith)
            requires
                j <= k - 1,
        ;
        assert(repeated(pattern, k).subrange(0, endpoint) =~= repeated(
            pattern,
            (k - 1) as nat,
        ).subrange(0, endpoint));
    }
}

/// The whole machine this stage runs on: the core state the entry routine
/// touches, the runtime-image regions, and the peripherals.
pub struct Machine {
    pub cpu: CpuState,
    pub regions: ImageRegions,
    pub soc: Soc,
}

/// The one-time boot path: entry, runtime-image initialization, hardware
/// bring-up, and the introductory transmission.
///
/// Afterwards the core state is established, the zero-fill region reads as
/// zeros, the data region equals its load image, the write trace has grown
/// by exactly the bring-up writes followed by the introductory transmit
/// writes, and the transmitter has accepted exactly the introductory
/// bytes.
pub fn boot(m: &mut Machine, stack_base: u64, head_address: u64)
    requires
        stack_base + SBI_STACK_SIZE <= u64::MAX,
        old(m).regions.data@.len() == old(m).regions.data_load@.len(),
        old(m).soc@.uart_lsr & LSR_THRE != 0,
    ensures
        final(m).cpu.mie == 0,
        final(m).cpu.mcor == old(m).cpu.mcor | MCOR_INIT_BITS,
        final(m).cpu.sp == stack_base + SBI_STACK_SIZE,
        final(m).cpu.a0 == head_address,
        final(m).regions.bss@.len() == old(m).regions.bss@.len(),
        forall|i: int|
            0 <= i < final(m).regions.bss@.len() ==> final(m).regions.bss@[i] == 0u8,
        final(m).regions.data@ == old(m).regions.data_load@,
        final(m).regions.data_load@ == old(m).regions.data_load@,
        final(m).soc@ == (SocView {
            tx: old(m).soc@.tx + intro_bytes(),
            writes: old(m).soc@.writes + bringup_writes(old(m).soc@) + thr_writes(intro_bytes()),
            ..bringup_state(old(m).soc@)
        }),
{
    start(&mut m.cpu, stack_base, head_address);
    init_bss(&mut m.regions);
    light_up_led(&mut m.soc);
    configure_ccu_clocks(&mut m.soc);
    configure_uart_peripheral(&mut m.soc);
    proof {
        assert(UART_SET & LCR_DLAB == 0) by (bit_vector);
    }
    uart0_putchar(&mut m.soc, 0x54);
    uart0_putchar(&mut m.soc, 0x65);
    uart0_putchar(&mut m.soc, 0x73);
    uart0_putchar(&mut m.soc, 0x74);
    uart0_putchar(&mut m.soc, 0x0D);
    uart0_putchar(&mut m.soc, 0x0A);
    proof {
        assert(m.soc@ =~= (SocView {
            tx: old(m).soc@.tx + intro_bytes(),
            writes: old(m).soc@.writes + bringup_writes(old(m).soc@) + thr_writes(intro_bytes()),
            ..bringup_state(old(m).soc@)
        }));
    }
}

/// One round of the steady liveness loop: transmit the liveness pattern,
/// then busy-wait for the fixed delay. Only the transmit stream and the
/// write trace change.
pub fn liveness_round(soc: &mut Soc)
    requires
        old(soc)@.uart_lsr & LSR_THRE != 0,
        old(soc)@.uart_lcr & LCR_DLAB == 0,
    ensures
        final(soc)@ == (SocView {
            tx: old(soc)@.tx + liveness_bytes(),
            writes: old(soc)@.writes + thr_writes(liveness_bytes()),
            ..old(soc)@
        }),
{
    uart0_putchar(soc, 0x52);
    uart0_putchar(soc, 0x75);
    uart0_putchar(soc, 0x73);
    uart0_putchar(soc, 0x74);
    uart0_putchar(soc, 0x0D);
    uart0_putchar(soc, 0x0A);
    delay(LIVENESS_DELAY_ROUNDS);
    proof {
        assert(soc@ =~= (SocView {
            tx: old(soc)@.tx + liveness_bytes(),
            writes: old(soc)@.writes + thr_writes(liveness_bytes()),
            ..old(soc)@
        }));
    }
}

/// Run the liveness loop for a given number of rounds: the transmitter
/// accepts the liveness pattern exactly that many times, in order. On the
/// real part the loop never exits; every finite prefix of its output is
/// covered by a round count.
pub fn run_liveness(soc: &mut Soc, rounds: u32)
    requires
        old(soc)@.uart_lsr & LSR_THRE != 0,
        old(soc)@.uart_lcr & LCR_DLAB == 0,
    ensures
        final(soc)@ == (SocView {
            tx: old(soc)@.tx + repeated(liveness_bytes(), rounds as nat),
            writes: old(soc)@.writes + repeated(thr_writes(liveness_bytes()), rounds as nat),
            ..old(soc)@
        }),
{
    proof {
        assert(old(soc)@.tx + repeated(liveness_bytes(), 0) =~= old(soc)@.tx);
        assert(old(soc)@.writes + repeated(thr_writes(liveness_bytes()), 0) =~= old(soc)@.writes);
        assert(soc@ =~= (SocView {
            tx: old(soc)@.tx + repeated(liveness_bytes(), 0),
            writes: old(soc)@.writes + repeated(thr_writes(liveness_bytes()), 0),
            ..old(soc)@
        }));
    }
    let mut k: u32 = 0;
    while k < rounds
        invariant
            k <= rounds,
            soc@.uart_lsr & LSR_THRE != 0,
            soc@.uart_lcr & LCR_DLAB == 0,
            soc@ == (SocView {
                tx: old(soc)@.tx + repeated(liveness_bytes(), k as nat),
                writes: old(soc)@.writes + repeated(thr_writes(liveness_bytes()), k as nat),
                ..old(soc)@
            }),
        decreases rounds - k,
    {
        liveness_round(soc);
        k = k + 1;
        proof {
            assert(soc@ =~= (SocView {
                tx: old(soc)@.tx + repeated(liveness_bytes(), k as nat),
                writes: old(soc)@.writes + repeated(thr_writes(liveness_bytes()), k as nat),
                ..old(soc)@
            }));
        }
    }
}

/// The end-to-end scenario: entry, runtime init, bring-up, the
/// introductory bytes once, then the liveness pattern for the given number
/// of rounds. The transmitter accepts, in order, the introductory bytes
/// followed by that many repetitions of the liveness pattern.
pub fn boot_and_run(m: &mut Machine, stack_base: u64, head_address: u64, rounds: u32)
    requires
        stack_base + SBI_STACK_SIZE <= u64::MAX,
        old(m).regions.data@.len() == old(m).regions.data_load@.len(),
        old(m).soc@.uart_lsr & LSR_THRE != 0,
    ensures
        final(m).cpu.mie == 0,
        final(m).cpu.mcor == old(m).cpu.mcor | MCOR_INIT_BITS,
        final(m).cpu.sp == stack_base + SBI_STACK_SIZE,
        final(m).cpu.a0 == head_address,
        final(m).regions.bss@.len() == old(m).regions.bss@.len(),
        forall|i: int|
            0 <= i < final(m).regions.bss@.len() ==> final(m).regions.bss@[i] == 0u8,
        final(m).regions.data@ == old(m).regions.data_load@,
        final(m).soc@.tx == old(m).soc@.tx + intro_bytes() + repeated(
            liveness_bytes(),
            rounds as nat,
        ),
        final(m).soc@.writes == old(m).soc@.writes + bringup_writes(old(m).soc@) + thr_writes(
            intro_bytes(),
        ) + repeated(thr_writes(liveness_bytes()), rounds as nat),
{
    boot(m, stack_base, head_address);
    proof {
        assert(UART_SET & LCR_DLAB == 0) by (bit_vector);
    }
    run_liveness(&mut m.soc, rounds);
}

} // verus!

//! The divider and the programmable timer (registers $FF04-$FF07).

use vstd::prelude::*;
use crate::bitfield::{Bitfield, field_of, bit_of, lemma_field_bound};
use crate::interrupt::Interrupt;

verus! {

/// Number of clock cycles that one step of the CPU takes.
pub const CYCLES_PER_STEP: usize = 4;

/// How often the timer register counts, in units of 16 clock cycles.
#[derive(PartialEq, Eq, Structural, Debug, Clone, Copy)]
pub enum ClockSelect {
    /// Every 1024 clock cycles.
    C1024,
    /// Every 16 clock cycles.
    C16,
    /// Every 64 clock cycles.
    C64,
    /// Every 256 clock cycles.
    C256,
}

impl ClockSelect {
    pub open spec fn spec_value(self) -> u8 {
        match self {
            ClockSelect::C1024 => 0b00,
            ClockSelect::C16 => 0b01,
            ClockSelect::C64 => 0b10,
            ClockSelect::C256 => 0b11,
        }
    }

    pub fn from_u8(v: u8) -> (r: ClockSelect)
        requires
            v <= 0b11,
        ensures
            r.spec_value() == v,
    {
        match v {
            0b00 => ClockSelect::C1024,
            0b01 => ClockSelect::C16,
            0b10 => ClockSelect::C64,
            _ => ClockSelect::C256,
        }
    }

    pub fn to_u8(&self) -> (r: u8)
        ensures
            r == self.spec_value(),
    {
        match self {
            ClockSelect::C1024 => 0b00,
            ClockSelect::C16 => 0b01,
            ClockSelect::C64 => 0b10,
            ClockSelect::C256 => 0b11,
        }
    }

    /// Whether the timer counts on the given tick of the 16-cycle clock.
    pub open spec fn counts_at(self, clock: usize) -> bool {
        match self {
            ClockSelect::C16 => true,
            ClockSelect::C64 => clock % 4 == 0,
            ClockSelect::C256 => clock % 16 == 0,
            ClockSelect::C1024 => clock % 64 == 0,
        }
    }
}

/// The timer and divider unit.
pub struct TimerController {
    clock: usize,
    last_clock: usize,
    last_divider: usize,
    divider: u8,
    timer: u8,
    modulo: u8,
    control: Bitfield,
}

/// The registers of the timer unit, as plain values.
pub struct TimerState {
    /// Ticks of the 16-cycle clock counted so far, modulo the machine word.
    pub clock: usize,
    /// Clock cycles not yet turned into a tick.
    pub pending: usize,
    pub divider: u8,
    pub timer: u8,
    pub modulo: u8,
    pub control: u8,
}

/// What a read of the timer register at `address` ($FF04-$FF07) gives.
pub open spec fn read_spec(s: TimerState, address: u16) -> u8 {
    if address == 0xFF04 { s.divider } else if address == 0xFF05 { s.timer }
    else if address == 0xFF06 { s.modulo } else { s.control | 0b00000111 }
}

/// The registers after writing `v` at `address` ($FF04-$FF07): any write to the divider
/// resets it.
pub open spec fn write_spec(s: TimerState, address: u16, v: u8) -> TimerState {
    if address == 0xFF04 { TimerState { divider: 0, ..s } }
    else if address == 0xFF05 { TimerState { timer: v, ..s } }
    else if address == 0xFF06 { TimerState { modulo: v, ..s } }
    else { TimerState { control: v, ..s } }
}

/// The registers of a unit that has just been powered on.
pub open spec fn initial_timer_state() -> TimerState {
    TimerState { clock: 0, pending: 0, divider: 0, timer: 0, modulo: 0, control: 0 }
}

/// The clock source selected by a control byte.
pub open spec fn select_of(control: u8) -> ClockSelect {
    let v = field_of(control, 0, 0b11);
    if v == 0 {
        ClockSelect::C1024
    } else if v == 1 {
        ClockSelect::C16
    } else if v == 2 {
        ClockSelect::C64
    } else {
        ClockSelect::C256
    }
}

/// One tick of the 16-cycle clock: the clock advances, the timer counts when the selected
/// rate says so (reloading from the modulo when it passes $FF), and the divider counts
/// every 16 ticks. The flag tells whether the timer or the divider wrapped around.
pub open spec fn tick(s: TimerState) -> (TimerState, bool) {
    let clock = if s.clock == usize::MAX { 0usize } else { (s.clock + 1) as usize };
    let counts = select_of(s.control).counts_at(clock);
    let timer_wraps = counts && s.timer == 0xFF;
    let timer = if !counts { s.timer } else if s.timer == 0xFF { s.modulo } else { (s.timer + 1) as u8 };
    let div_counts = clock % 16 == 0;
    let divider = if !div_counts { s.divider } else if s.divider == 0xFF { 0u8 } else { (s.divider + 1) as u8 };
    let div_wraps = div_counts && divider == 0;
    (TimerState { clock, pending: s.pending, divider, timer, modulo: s.modulo, control: s.control },
     timer_wraps || div_wraps)
}

/// `n` ticks in a row, and whether any of them wrapped the timer or the divider.
pub open spec fn ticks(s: TimerState, n: nat) -> (TimerState, bool)
    decreases n,
{
    if n == 0 {
        (s, false)
    } else {
        let (mid, fired) = ticks(s, (n - 1) as nat);
        let (last, fired_last) = tick(mid);
        (last, fired || fired_last)
    }
}

/// Ticks never change the control or modulo registers.
proof fn lemma_ticks_keep(s: TimerState, n: nat)
    ensures
        ticks(s, n).0.control == s.control,
        ticks(s, n).0.modulo == s.modulo,
    decreases n,
{
    if n > 0 {
        lemma_ticks_keep(s, (n - 1) as nat);
    }
}

/// Runs the clock for `cycles` more clock cycles: the pending cycles and the new ones
/// give whole ticks of 16 cycles, and the remainder stays pending.
pub open spec fn run(s: TimerState, cycles: nat) -> (TimerState, bool) {
    let total = s.pending + cycles;
    let (t, fired) = ticks(s, (total / 16) as nat);
    (TimerState { pending: (total % 16) as usize, ..t }, fired)
}

/// Over `n` ticks that keep the clock below its maximum, a timer whose rate is every `m` ticks
/// of the clock counts once for each multiple of `m` that the clock reaches, while it does not
/// pass $FF.
proof fn lemma_ticks_count(s: TimerState, n: nat, m: int)
    requires
        m == 1 || m == 4 || m == 16 || m == 64,
        forall|j: usize| #[trigger] select_of(s.control).counts_at(j) == (j as int % m == 0),
        s.clock + n < usize::MAX,
        s.timer + (s.clock + n) as int / m - s.clock as int / m <= 255,
    ensures
        ticks(s, n).0.clock == s.clock + n,
        ticks(s, n).0.control == s.control,
        ticks(s, n).0.timer == s.timer + (s.clock + n) as int / m - s.clock as int / m,
    decreases n,
{
    if n > 0 {
        let k = (n - 1) as nat;
        assert((s.clock + k) as int / m <= (s.clock + n) as int / m) by {
            if m == 1 {} else if m == 4 {} else if m == 16 {} else {}
        }
        lemma_ticks_count(s, k, m);
        let mid = ticks(s, k).0;
        let c = (s.clock + n) as usize;
        assert(select_of(mid.control).counts_at(c) == (c as int % m == 0));
        assert((s.clock + n) as int / m - (s.clock + k) as int / m == (if c as int % m == 0 { 1int } else { 0int })) by {
            if m == 1 {} else if m == 4 {} else if m == 16 {} else {}
        }
    }
}

/// Counted over a run of clock cycles from a fresh clock (no ticks counted, no cycles pending),
/// TIMA goes up once per 1024 cycles with clock select 0b00 in TAC, once per 16 with 0b01,
/// once per 64 with 0b10 and once per 256 with 0b11, as long as it does not pass $FF.
pub proof fn law_timer_rates(s: TimerState, cycles: nat)
    requires
        s.clock == 0,
        s.pending == 0,
        cycles / 16 < usize::MAX,
    ensures
        s.control & 3u8 == 0 && s.timer + cycles / 1024 <= 255 ==> run(s, cycles).0.timer == s.timer + cycles / 1024,
        s.control & 3u8 == 1 && s.timer + cycles / 16 <= 255 ==> run(s, cycles).0.timer == s.timer + cycles / 16,
        s.control & 3u8 == 2 && s.timer + cycles / 64 <= 255 ==> run(s, cycles).0.timer == s.timer + cycles / 64,
        s.control & 3u8 == 3 && s.timer + cycles / 256 <= 255 ==> run(s, cycles).0.timer == s.timer + cycles / 256,
{
    let n: int = cycles as int / 16;
    let control = s.control;
    let sel = control & 3u8;
    assert(field_of(control, 0, 0b11) == sel && sel <= 3) by (bit_vector)
        requires sel == control & 3u8;
    let m: int = if sel == 0 { 64 } else if sel == 1 { 1 } else if sel == 2 { 4 } else { 16 };
    assert forall|j: usize| #[trigger] select_of(s.control).counts_at(j) == (j as int % m == 0) by {}
    assert(n / m == cycles as int / (16 * m)) by {
        if m == 1 {} else if m == 4 {} else if m == 16 {} else {}
    }
    if s.timer + n / m <= 255 {
        lemma_ticks_count(s, n as nat, m);
    }
}

impl TimerController {
    pub closed spec fn state(&self) -> TimerState {
        TimerState {
            clock: self.clock,
            pending: self.last_clock,
            divider: self.divider,
            timer: self.timer,
            modulo: self.modulo,
            control: self.control@,
        }
    }

    pub fn new() -> (r: TimerController)
        ensures
            r.state() == initial_timer_state(),
    {
        TimerController {
            clock: 0,
            last_clock: 0,
            last_divider: 0,
            divider: 0,
            timer: 0,
            modulo: 0,
            control: Bitfield::new(0),
        }
    }

    pub fn clock_select(&self) -> (r: ClockSelect)
        ensures
            r == select_of(self.state().control),
    {
        let v = self.control.get_01();
        proof { lemma_field_bound(); }
        ClockSelect::from_u8(v)
    }

    pub fn timer_enabled(&self) -> (r: u8)
        ensures
            r == bit_of(self.state().control, 2),
    {
        self.control.get_2()
    }

    /// Counts the timer if the selected rate says so at the current tick; tells whether
    /// it passed $FF (and was reloaded from the modulo).
    fn inc_clock(&mut self) -> (r: bool)
        ensures
            ({
                let counts = select_of(old(self).control@).counts_at(old(self).clock);
                &&& final(self).timer == (if !counts { old(self).timer } else if old(self).timer == 0xFF {
                    old(self).modulo } else { (old(self).timer + 1) as u8 })
                &&& r == (counts && old(self).timer == 0xFF)
            }),
            final(self).clock == old(self).clock,
            final(self).last_clock == old(self).last_clock,
            final(self).divider == old(self).divider,
            final(self).modulo == old(self).modulo,
            final(self).control == old(self).control,
    {
        let select = self.clock_select();
        let should_increment = match select {
            ClockSelect::C16 => true,
            ClockSelect::C64 => (self.clock % 4) == 0,
            ClockSelect::C256 => (self.clock % 16) == 0,
            ClockSelect::C1024 => (self.clock % 64) == 0,
        };

        if should_increment {
            if self.timer == 0xFF {
                self.timer = self.modulo;
                true
            } else {
                self.timer = self.timer + 1;
                false
            }
        } else {
            false
        }
    }

    /// Counts the divider on every 16th tick; tells whether it wrapped to zero.
    fn inc_divider(&mut self) -> (r: bool)
        ensures
            final(self).divider == (if old(self).clock % 16 != 0 { old(self).divider }
                else if old(self).divider == 0xFF { 0u8 } else { (old(self).divider + 1) as u8 }),
            r == (old(self).clock % 16 == 0 && final(self).divider == 0),
            final(self).clock == old(self).clock,
            final(self).last_clock == old(self).last_clock,
            final(self).timer == old(self).timer,
            final(self).modulo == old(self).modulo,
            final(self).control == old(self).control,
    {
        if self.clock % 16 == 0 {
            self.divider = self.divider.wrapping_add(1);
            self.divider == 0x00
        } else {
            false
        }
    }

    /// One tick of the 16-cycle clock.
    fn tick_once(&mut self) -> (r: bool)
        ensures
            (final(self).state(), r) == tick(old(self).state()),
            final(self).last_clock == old(self).last_clock,
    {
        self.clock = self.clock.wrapping_add(1);
        let clock = self.inc_clock();
        let divider = self.inc_divider();
        clock || divider
    }

    /// Runs the unit for `cycles` clock cycles; every 16 cycles make one tick. Gives
    /// `Some(Interrupt::Timer)` when a tick wrapped the timer or the divider and the timer is
    /// enabled (bit 2 of $FF07), `None` otherwise.
    pub fn add_cycles(&mut self, cycles: usize) -> (r: Option<Interrupt>)
        requires
            old(self).state().pending + cycles <= usize::MAX,
        ensures
            final(self).state() == run(old(self).state(), cycles as nat).0,
            r == (if run(old(self).state(), cycles as nat).1 && bit_of(old(self).state().control, 2) == 1 {
                Some(Interrupt::Timer) } else { None::<Interrupt> }),
    {
        let ghost start = self.state();
        self.last_clock = self.last_clock + cycles;
        self.last_divider = self.last_divider.wrapping_add(cycles);
        let ghost total = self.last_clock;
        let mut fired = false;
        let mut n: usize = 0;
        while self.last_clock >= 16
            invariant
                self.last_clock + 16 * n == total,
                total == start.pending + cycles,
                (TimerState { pending: start.pending, ..self.state() }, fired) == ticks(start, n as nat),
            decreases self.last_clock,
        {
            self.last_clock = self.last_clock - 16;
            let f = self.tick_once();
            if f {
                fired = true;
            }
            n = n + 1;
        }
        proof {
            vstd::arithmetic::div_mod::lemma_fundamental_div_mod_converse(total as int, 16, n as int,
                self.last_clock as int);
            lemma_ticks_keep(start, n as nat);
            assert(((start.pending + cycles as nat) / 16) as nat == n as nat);
            assert(run(start, cycles as nat).1 == ticks(start, n as nat).1);
            lemma_field_bound();
        }

        if self.timer_enabled() == 0 {
            return None;
        }

        if fired { Some(Interrupt::Timer) } else { None }
    }

    /// One step of the CPU: `CYCLES_PER_STEP` clock cycles.
    pub fn cpu_step(&mut self) -> (r: Option<Interrupt>)
        requires
            old(self).state().pending + CYCLES_PER_STEP <= usize::MAX,
        ensures
            final(self).state() == run(old(self).state(), CYCLES_PER_STEP as nat).0,
            r == (if run(old(self).state(), CYCLES_PER_STEP as nat).1 && bit_of(old(self).state().control, 2) == 1 {
                Some(Interrupt::Timer) } else { None::<Interrupt> }),
    {
        self.add_cycles(CYCLES_PER_STEP)
    }

    /// Reads one of the timer registers $FF04-$FF07.
    pub fn read(&self, address: u16) -> (r: u8)
        requires
            0xFF04 <= address <= 0xFF07,
        ensures
            r == read_spec(self.state(), address),
    {
        proof { lemma_field_bound(); }
        match address {
            0xFF04 => self.divider | 0b00000000,
            0xFF05 => self.timer | 0b00000000,
            0xFF06 => self.modulo | 0b00000000,
            _ => self.control.get() | 0b00000111,
        }
    }

    /// Writes one of the timer registers $FF04-$FF07; any write to the divider resets it.
    pub fn write(&mut self, address: u16, v: u8)
        requires
            0xFF04 <= address <= 0xFF07,
        ensures
            final(self).state() == write_spec(old(self).state(), address, v),
    {
        match address {
            0xFF04 => self.divider = v,
            0xFF05 => self.timer = v,
            0xFF06 => self.modulo = v,
            _ => self.control.set(v),
        }
        self.write_callback(address);
    }

    /// Follows up a register write: a write to the divider resets it to zero.
    pub fn write_callback(&mut self, address: u16)
        ensures
            final(self).state() == (if address == 0xFF04 { TimerState { divider: 0, ..old(self).state() } }
                else { old(self).state() }),
    {
        match address {
            0xFF04 => {
                self.divider = 0
            },
            _ => {},
        }
    }
}

} // verus!

use vstd::prelude::*;

use crate::cpu::CPU6502;
use crate::instruction::instruction_of;
use crate::io::IO;

verus! {

/// A request from a frontend to the executor.
pub enum CpuMessage {
    Pause,
}

/// Paces emulation by frames: `cycles_per_frame` emulated cycles should
/// take `frame_time` nanoseconds of host time.
///
/// Host time is a count of nanoseconds on a monotonic clock that the caller
/// reads; the timer only computes with it.
#[derive(Debug)]
pub struct FrameTimer {
    /// When the current frame started, in host nanoseconds
    pub start_time: u64,
    /// Cycles run in the current frame
    pub current_cycles: u64,
    pub cycles_per_frame: u64,
    /// Nominal length of a frame, in nanoseconds
    pub frame_time: u64,
    /// How much the last sleep overran what was asked, in nanoseconds
    pub last_context_switch_error: u64,
}

impl FrameTimer {
    /// A timer for `target_fps` frames a second at `clock_speed` hertz,
    /// whose first frame starts at `now`.
    pub fn new(target_fps: u64, clock_speed: u64, now: u64) -> (r: Self)
        requires
            target_fps > 0,
        ensures
            r.cycles_per_frame == clock_speed / target_fps,
            r.frame_time == 1_000_000_000int / target_fps as int,
            r.start_time == now,
            r.current_cycles == 0,
            r.last_context_switch_error == 0,
    {
        FrameTimer {
            start_time: now,
            current_cycles: 0,
            cycles_per_frame: clock_speed / target_fps,
            frame_time: 1_000_000_000 / target_fps,
            last_context_switch_error: 0,
        }
    }

    /// Whether the frame has run all its cycles.
    pub fn computed(&self) -> (r: bool)
        ensures
            r == (self.current_cycles >= self.cycles_per_frame),
    {
        self.current_cycles >= self.cycles_per_frame
    }

    pub open spec fn remaining_at(&self, now: u64) -> nat {
        let elapsed = if now >= self.start_time {
            now - self.start_time
        } else {
            0
        };
        if elapsed >= self.frame_time {
            0
        } else {
            (self.frame_time - elapsed) as nat
        }
    }

    /// Nanoseconds left in the frame at `now`; zero once the frame overran.
    pub fn time_remaining(&self, now: u64) -> (r: u64)
        ensures
            r == self.remaining_at(now),
    {
        let elapsed = if now >= self.start_time {
            now - self.start_time
        } else {
            0
        };
        if elapsed >= self.frame_time {
            0
        } else {
            self.frame_time - elapsed
        }
    }

    /// How long to sleep at `now`: what is left of the frame less the last
    /// sleep's overrun, or nothing where that is not positive.
    pub fn sleep_request(&self, now: u64) -> (r: Option<u64>)
        ensures
            self.remaining_at(now) <= self.last_context_switch_error ==> r is None,
            self.remaining_at(now) > self.last_context_switch_error ==> r == Some(
                (self.remaining_at(now) - self.last_context_switch_error) as u64,
            ),
    {
        let time_remaining = self.time_remaining(now);
        if time_remaining <= self.last_context_switch_error {
            None
        } else {
            Some(time_remaining - self.last_context_switch_error)
        }
    }

    /// Records how long a sleep of `requested` nanoseconds took.
    pub fn record_sleep(&mut self, requested: u64, actual: u64)
        ensures
            final(self).last_context_switch_error == if actual >= requested {
                actual - requested
            } else {
                0
            },
            final(self).start_time == old(self).start_time,
            final(self).current_cycles == old(self).current_cycles,
            final(self).cycles_per_frame == old(self).cycles_per_frame,
            final(self).frame_time == old(self).frame_time,
    {
        self.last_context_switch_error = actual.saturating_sub(requested);
    }

    /// Counts one cycle.
    pub fn clock(&mut self)
        ensures
            final(self).current_cycles == if old(self).current_cycles < u64::MAX {
                old(self).current_cycles + 1
            } else {
                old(self).current_cycles as int
            },
            final(self).start_time == old(self).start_time,
            final(self).cycles_per_frame == old(self).cycles_per_frame,
            final(self).frame_time == old(self).frame_time,
            final(self).last_context_switch_error == old(self).last_context_switch_error,
    {
        self.current_cycles = self.current_cycles.saturating_add(1);
    }

    /// Starts a new frame at `now`.
    pub fn reset(&mut self, now: u64)
        ensures
            final(self).current_cycles == 0,
            final(self).start_time == now,
            final(self).cycles_per_frame == old(self).cycles_per_frame,
            final(self).frame_time == old(self).frame_time,
            final(self).last_context_switch_error == old(self).last_context_switch_error,
    {
        self.current_cycles = 0;
        self.start_time = now;
    }
}

/// A 64-bit counter after `k` wrapping increments.
pub open spec fn counted(c: u64, k: nat) -> u64
    decreases k,
{
    if k == 0 {
        c
    } else {
        counted(c, (k - 1) as nat).wrapping_add(1)
    }
}

/// Counting one first and then `k` more is counting `k + 1`.
pub proof fn lemma_counted_shift(c: u64, k: nat)
    ensures
        counted(c.wrapping_add(1), k) == counted(c, k + 1),
    decreases k,
{
    reveal_with_fuel(counted, 2);
    if k > 0 {
        lemma_counted_shift(c, (k - 1) as nat);
    }
}

/// The processor once the cycles left have counted down to zero.
pub open spec fn drained<T: IO>(s: CPU6502<T>) -> CPU6502<T> {
    CPU6502 { cycles: counted(s.cycles, s.cycles_left as nat), cycles_left: 0, ..s }
}

/// The result of ticking until an instruction boundary: a started
/// instruction is finished; otherwise the next one runs whole.
pub open spec fn to_boundary<T: IO>(s: CPU6502<T>) -> CPU6502<T> {
    if s.cycles_left > 0 {
        drained(s)
    } else {
        drained(s.clock_spec())
    }
}

/// Where the debugger's single step stops: at once where B was set, else
/// at the instruction boundary.
pub open spec fn stepped<T: IO>(s1: CPU6502<T>) -> CPU6502<T> {
    if s1.p.b {
        s1
    } else {
        drained(s1)
    }
}

/// `a + k`, held at `u64::MAX`.
pub open spec fn sat_add(a: u64, k: int) -> u64 {
    if a + k > u64::MAX {
        u64::MAX
    } else {
        (a + k) as u64
    }
}

/// How many ticks reach the next instruction boundary.
pub open spec fn ticks_to_boundary<T: IO>(s: CPU6502<T>) -> int {
    if s.cycles_left > 0 {
        s.cycles_left as int
    } else {
        1 + s.clock_spec().cycles_left
    }
}

/// Ticks the clock once, then on while the instruction has cycles left and
/// B is clear: one debugger step.
pub fn step<T: IO>(cpu: &mut CPU6502<T>)
    ensures
        old(cpu).cycles_left > 0 || old(cpu).quiet() ==> *final(cpu)
            == stepped(old(cpu).clock_spec()),
        old(cpu).cycles_left == 0 && old(cpu).control_quiet() ==> final(cpu).same_control(
            stepped(old(cpu).clock_spec()),
        ),
        old(cpu).cycles_left == 0 && old(cpu).quiet_at(old(cpu).pc) ==> {
            &&& final(cpu).instruction == Some((old(cpu).pc, instruction_of(old(cpu).rd(old(cpu).pc))))
            &&& final(cpu).instructions == old(cpu).instructions.wrapping_add(1)
        },
        final(cpu).p.b || final(cpu).cycles_left == 0,
{
    cpu.clock();
    let ghost s1 = *cpu;
    while !cpu.halted() && cpu.cycles_left > 0
        invariant
            *cpu == (CPU6502 {
                cycles: counted(s1.cycles, (s1.cycles_left - cpu.cycles_left) as nat),
                cycles_left: cpu.cycles_left,
                ..s1
            }),
            cpu.cycles_left <= s1.cycles_left,
            s1.p.b ==> cpu.cycles_left == s1.cycles_left,
        decreases cpu.cycles_left,
    {
        cpu.clock();
    }
    proof {
        assert(counted(s1.cycles, 0) == s1.cycles);
        if s1.p.b {
            assert(*cpu == s1);
        } else {
            assert(cpu.cycles_left == 0);
            assert(*cpu == drained(s1));
        }
        if old(cpu).cycles_left == 0 && old(cpu).control_quiet() {
            let sp = old(cpu).clock_spec();
            assert(s1.same_control(sp));
            assert(cpu.same_control(stepped(sp)));
        }
    }
}

/// What the executor is to do after an instruction.
pub struct Outcome {
    /// Stop running: a breakpoint was reached, or `BRK` ran in a
    /// non-interactive run.
    pub halt: bool,
    /// The frame has run its cycles: sleep out the rest of it, then start
    /// the next.
    pub pace: bool,
}

/// One round of the executor: ticks the clock to the next instruction
/// boundary, counting each tick on the frame timer, then decides whether to
/// halt and whether to pace.
pub fn run_step<T: IO>(
    cpu: &mut CPU6502<T>,
    timer: &mut FrameTimer,
    breakpoints: &Vec<u16>,
    non_interactive: bool,
    max_speed: bool,
) -> (r: Outcome)
    ensures
        old(cpu).cycles_left > 0 || old(cpu).quiet() ==> {
            &&& *final(cpu) == to_boundary(*old(cpu))
            &&& final(timer).current_cycles == sat_add(
                old(timer).current_cycles,
                ticks_to_boundary(*old(cpu)),
            )
        },
        old(cpu).cycles_left == 0 && old(cpu).control_quiet() ==> {
            &&& final(cpu).same_control(to_boundary(*old(cpu)))
            &&& final(timer).current_cycles == sat_add(
                old(timer).current_cycles,
                ticks_to_boundary(*old(cpu)),
            )
        },
        old(cpu).cycles_left == 0 && old(cpu).quiet_at(old(cpu).pc) ==> {
            &&& final(cpu).instruction == Some((old(cpu).pc, instruction_of(old(cpu).rd(old(cpu).pc))))
            &&& final(cpu).instructions == old(cpu).instructions.wrapping_add(1)
        },
        final(cpu).cycles_left == 0,
        r.halt == (breakpoints@.contains(final(cpu).pc) || (non_interactive && final(cpu).p.b)),
        r.pace == (!max_speed && final(timer).current_cycles >= final(timer).cycles_per_frame),
        final(timer).start_time == old(timer).start_time,
        final(timer).cycles_per_frame == old(timer).cycles_per_frame,
        final(timer).frame_time == old(timer).frame_time,
        final(timer).last_context_switch_error == old(timer).last_context_switch_error,
{
    let ghost c0 = *cpu;
    let ghost t0 = *timer;
    cpu.clock();
    timer.clock();
    let ghost s1 = *cpu;
    let ghost k: int = if c0.cycles_left > 0 { 1 } else { 1 + s1.cycles_left };
    while cpu.cycles_left > 0
        invariant
            *cpu == (CPU6502 {
                cycles: counted(s1.cycles, (s1.cycles_left - cpu.cycles_left) as nat),
                cycles_left: cpu.cycles_left,
                ..s1
            }),
            cpu.cycles_left <= s1.cycles_left,
            timer.current_cycles == sat_add(t0.current_cycles, 1 + s1.cycles_left - cpu.cycles_left),
            timer.start_time == t0.start_time,
            timer.cycles_per_frame == t0.cycles_per_frame,
            timer.frame_time == t0.frame_time,
            timer.last_context_switch_error == t0.last_context_switch_error,
        decreases cpu.cycles_left,
    {
        cpu.clock();
        timer.clock();
    }
    proof {
        assert(counted(s1.cycles, 0) == s1.cycles);
        if c0.cycles_left > 0 {
            lemma_counted_shift(c0.cycles, s1.cycles_left as nat);
        }
        assert(*cpu == drained(s1));
        if c0.cycles_left == 0 && c0.control_quiet() {
            let sp = c0.clock_spec();
            assert(s1.same_control(sp));
            assert(cpu.same_control(drained(sp)));
        }
    }
    let pc = cpu.pc;
    let mut hit = false;
    let mut i: usize = 0;
    while i < breakpoints.len()
        invariant
            0 <= i <= breakpoints@.len(),
            hit == exists|j: int| 0 <= j < i && breakpoints@[j] == pc,
        decreases breakpoints@.len() - i,
    {
        if breakpoints[i] == pc {
            hit = true;
        }
        i = i + 1;
    }
    let halt = hit || (non_interactive && cpu.halted());
    let pace = !max_speed && timer.computed();
    Outcome { halt, pace }
}

} // verus!

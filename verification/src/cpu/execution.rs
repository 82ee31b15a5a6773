//! Running a [CPU](super::CPU): fetching, decoding and executing instructions, and the
//! passage of frames.

use super::instruction::{word_of, Insn};
use super::state::{is_executable, word_at, CpuState, SUBFRAMES};
use super::{duration_nanos, duration_since, instant_now, random_byte, CPU};
use crate::error::any_range::AnyRange;
use crate::error::{Error, Result};
use crate::screen::Screen;
use vstd::prelude::*;

verus! {

/// Whether the CPU executes `insn` (rather than only decoding it).
fn executable(insn: &Insn) -> (r: bool)
    ensures
        r == is_executable(*insn),
{
    !(matches!(insn, Insn::scd { .. }) || matches!(insn, Insn::scr) || matches!(insn, Insn::scl)
        || matches!(insn, Insn::halt) || matches!(insn, Insn::lores) || matches!(insn, Insn::hires)
        || matches!(insn, Insn::hfont { .. }) || matches!(insn, Insn::flgo { .. }) || matches!(
        insn,
        Insn::flgi { .. }
    ) || matches!(insn, Insn::scu { .. }) || matches!(insn, Insn::dmaro { .. }) || matches!(
        insn,
        Insn::dmari { .. }
    ) || matches!(insn, Insn::long { .. }))
}

/// The sub-frames in `nanos` nanoseconds (a frame is a sixtieth of a second), saturating at
/// `u64::MAX`.
pub open spec fn subframes_of(nanos: u128) -> int {
    if nanos * 60 > u64::MAX {
        u64::MAX as int
    } else {
        nanos * 60
    }
}

/// The sub-frames in `nanos` nanoseconds (a frame is a sixtieth of a second), saturating.
fn subframes_in(nanos: u128) -> (r: u64)
    ensures
        r == subframes_of(nanos),
{
    if nanos > (u64::MAX / 60) as u128 {
        u64::MAX
    } else {
        (nanos * 60) as u64
    }
}

/// Rounds past `k` do not change what the first `k` rounds give.
proof fn lemma_run_prefix(
    st: CpuState,
    screen: Seq<u8>,
    k: nat,
    randoms: Seq<u8>,
    elapsed: Seq<u64>,
    randoms2: Seq<u8>,
    elapsed2: Seq<u64>,
)
    requires
        randoms.len() >= k,
        elapsed.len() >= k,
        randoms2.len() >= k,
        elapsed2.len() >= k,
        randoms.take(k as int) == randoms2.take(k as int),
        elapsed.take(k as int) == elapsed2.take(k as int),
    ensures
        st.run(screen, k, randoms, elapsed) == st.run(screen, k, randoms2, elapsed2),
    decreases k,
{
    if k > 0 {
        assert(randoms.take(k - 1) == randoms.take(k as int).take(k - 1));
        assert(randoms2.take(k - 1) == randoms2.take(k as int).take(k - 1));
        assert(elapsed.take(k - 1) == elapsed.take(k as int).take(k - 1));
        assert(elapsed2.take(k - 1) == elapsed2.take(k as int).take(k - 1));
        assert(randoms[k - 1] == randoms.take(k as int)[k - 1]);
        assert(randoms2[k - 1] == randoms2.take(k as int)[k - 1]);
        assert(elapsed[k - 1] == elapsed.take(k as int)[k - 1]);
        assert(elapsed2[k - 1] == elapsed2.take(k as int)[k - 1]);
        lemma_run_prefix(st, screen, (k - 1) as nat, randoms, elapsed, randoms2, elapsed2);
    }
}

/// Once a round fails, later rounds change nothing.
proof fn lemma_run_stops(
    st: CpuState,
    screen: Seq<u8>,
    k: nat,
    steps: nat,
    randoms: Seq<u8>,
    elapsed: Seq<u64>,
)
    requires
        k <= steps,
        st.run(screen, k, randoms, elapsed).2 is Err,
    ensures
        st.run(screen, steps, randoms, elapsed) == st.run(screen, k, randoms, elapsed),
    decreases steps - k,
{
    if k < steps {
        lemma_run_stops(st, screen, k, (steps - 1) as nat, randoms, elapsed);
    }
}

impl CPU {
    /// Whether there is a breakpoint at `addr`.
    fn breaks_at(&self, addr: u16) -> (r: bool)
        ensures
            r == self@.breakpoints.contains(addr),
    {
        let mut k: usize = 0;
        while k < self.breakpoints.len()
            invariant
                k <= self.breakpoints@.len(),
                forall|j: int| 0 <= j < k ==> self.breakpoints@[j] != addr,
            decreases self.breakpoints@.len() - k,
        {
            if self.breakpoints[k] == addr {
                return true;
            }
            k = k + 1;
        }
        false
    }

    /// The big-endian word at `addr`, or 0 when it does not lie wholly in memory.
    fn word_at(&self, addr: u16) -> (r: u16)
        ensures
            r == word_at(self@.mem, addr as int),
    {
        let a = addr as usize;
        if a + 2 <= self.mem.len() {
            (self.mem.read_byte(a) as u16) * 256 + self.mem.read_byte(a + 1) as u16
        } else {
            0
        }
    }

    /// Executes a decoded instruction; `random` is the byte that `Cxbb` draws.
    fn execute(&mut self, insn: Insn, screen: &mut Screen, random: u8)
        requires
            insn.wf(),
        ensures
            (final(self)@, final(screen).bytes()) == old(self)@.execute(insn, old(screen).bytes(), random),
            final(self)@.cycle == old(self)@.cycle,
            final(self)@.flags.monotonic == old(self)@.flags.monotonic,
    {
        reveal(CpuState::execute);
        match insn {
            Insn::cls => self.clear_screen(screen),
            Insn::ret => self.ret(),
            Insn::jmp { A } => self.jump(A),
            Insn::call { A } => self.call(A),
            Insn::seb { B, x } => self.skip_equals_immediate(x, B),
            Insn::sneb { B, x } => self.skip_not_equals_immediate(x, B),
            Insn::se { y, x } => self.skip_equals(x, y),
            Insn::movb { B, x } => self.load_immediate(x, B),
            Insn::addb { B, x } => self.add_immediate(x, B),
            Insn::mov { x, y } => self.load(x, y),
            Insn::or { y, x } => self.or(x, y),
            Insn::and { y, x } => self.and(x, y),
            Insn::xor { y, x } => self.xor(x, y),
            Insn::add { y, x } => self.add(x, y),
            Insn::sub { y, x } => self.sub(x, y),
            Insn::shr { y, x } => self.shift_right(x, y),
            Insn::bsub { y, x } => self.backwards_sub(x, y),
            Insn::shl { y, x } => self.shift_left(x, y),
            Insn::sne { y, x } => self.skip_not_equals(x, y),
            Insn::movI { A } => self.load_i_immediate(A),
            Insn::jmpr { A } => self.jump_indexed(A),
            Insn::rand { B, x } => self.rand_with(x, B, random),
            Insn::draw { y, x, n } => self.draw(x, y, n, screen),
            Insn::sek { x } => self.skip_key_equals(x),
            Insn::snek { x } => self.skip_key_not_equals(x),
            Insn::getdt { x } => self.load_delay_timer(x),
            Insn::waitk { x } => self.wait_for_key(x),
            Insn::setdt { x } => self.store_delay_timer(x),
            Insn::movst { x } => self.store_sound_timer(x),
            Insn::addI { x } => self.add_i(x),
            Insn::font { x } => self.load_sprite(x),
            Insn::bcd { x } => self.bcd_convert(x),
            Insn::dmao { x } => self.store_dma(x),
            Insn::dmai { x } => self.load_dma(x),
            _ => {},
        }
    }

    /// Runs `insn`, just fetched.
    fn run_fetched(&mut self, insn: Insn, screen: &mut Screen, random: u8) -> (r: Result<()>)
        requires
            insn.wf(),
        ensures
            final(self)@ == old(self)@.run_fetched(insn, old(screen).bytes(), random).0,
            final(screen).bytes() == old(self)@.run_fetched(insn, old(screen).bytes(), random).1,
            r == old(self)@.run_fetched(insn, old(screen).bytes(), random).2,
            final(self)@.cycle == old(self)@.cycle,
            final(self)@.flags.monotonic == old(self)@.flags.monotonic,
    {
        self.pc = self.pc.wrapping_add(2);
        self.execute(insn, screen, random);
        let pc = self.pc;
        if self.breaks_at(pc) {
            self.flags.pause = true;
            let next = self.word_at(pc);
            return Err(Error::BreakpointHit { addr: pc, next });
        }
        Ok(())
    }

    /// One tick, with `random` as the byte that a `Cxbb` instruction draws.
    fn step(&mut self, screen: &mut Screen, random: u8) -> (r: Result<()>)
        requires
            old(self)@.cycle < usize::MAX,
        ensures
            final(self)@ == old(self)@.tick(old(screen).bytes(), random).0,
            final(screen).bytes() == old(self)@.tick(old(screen).bytes(), random).1,
            r == old(self)@.tick(old(screen).bytes(), random).2,
            final(self)@.cycle <= old(self)@.cycle + 1,
            final(self)@.flags.monotonic == old(self)@.flags.monotonic,
    {
        if self.flags.is_paused() {
            if self.flags.monotonic.is_some() {
                self.cycle = self.cycle + 1;
            }
            return Ok(());
        }
        self.cycle = self.cycle + 1;
        let pc = self.pc as usize;
        if pc + 2 > self.mem.len() {
            return Err(Error::InvalidAddressRange { range: AnyRange::Range(pc..pc + 2) });
        }
        let hi = self.mem.read_byte(pc);
        let lo = self.mem.read_byte(pc + 1);
        let opcode: [u8; 2] = [hi, lo];
        let word: u16 = (hi as u16) * 256 + lo as u16;
        let ghost fetched = opcode@;
        proof {
            assert(fetched =~= seq![hi, lo]);
            assert(word == word_of(hi, lo));
        }
        match Insn::decode(opcode.as_slice()) {
            Ok((_, insn)) => {
                proof {
                    super::instruction::lemma_decoded_word_wf(word);
                }
                if !executable(&insn) {
                    return Err(Error::UnimplementedInstruction { word });
                }
                self.run_fetched(insn, screen, random)
            },
            Err(_) => Err(Error::UnimplementedInstruction { word }),
        }
    }

    /// Executes a single instruction, as [CPU::tick] does, with `random` as the byte that a
    /// `Cxbb` instruction draws.
    pub fn tick_with(&mut self, screen: &mut Screen, random: u8) -> (r: Result<&mut Self>)
        requires
            old(self)@.cycle < usize::MAX,
        ensures
            ({
                let (st, scr, res) = old(self)@.tick(old(screen).bytes(), random);
                &&& final(screen).bytes() == scr
                &&& res is Ok ==> (r matches Ok(cpu) && *final(cpu) == *final(self) && cpu@ == st)
                &&& res is Err ==> (r matches Err(e) && res == Err::<(), Error>(e) && final(self)@ == st)
            }),
    {
        match self.step(screen, random) {
            Ok(()) => Ok(self),
            Err(e) => Err(e),
        }
    }

    /// Executes a single instruction
    ///
    /// Returns [Error::BreakpointHit] if a breakpoint was hit after the instruction executed.
    /// This result contains information about the breakpoint, but can be safely ignored.
    ///
    /// Returns [Error::UnimplementedInstruction] if the instruction at `pc` is unimplemented,
    /// and [Error::InvalidAddressRange] if it lies outside memory.
    pub fn tick(&mut self, screen: &mut Screen) -> (r: Result<&mut Self>)
        requires
            old(self)@.cycle < usize::MAX,
        ensures
            exists|random: u8|
                {
                    let (st, scr, res) = #[trigger] old(self)@.tick(old(screen).bytes(), random);
                    &&& final(screen).bytes() == scr
                    &&& res is Ok ==> (r matches Ok(cpu) && *final(cpu) == *final(self) && cpu@ == st)
                    &&& res is Err ==> (r matches Err(e) && res == Err::<(), Error>(e)
                        && final(self)@ == st)
                },
    {
        let random = random_byte();
        self.tick_with(screen, random)
    }

    /// Unpauses the emulator for a single tick, even if cpu.flags.pause is set; the CPU is
    /// paused again afterwards.
    ///
    /// Like with [CPU::tick], this returns [Error::UnimplementedInstruction]
    /// if the instruction is unimplemented.
    ///
    /// NOTE: does not synchronize with delay timers
    pub fn singlestep(&mut self, screen: &mut Screen) -> (r: Result<&mut Self>)
        requires
            old(self)@.cycle < usize::MAX,
        ensures
            exists|random: u8|
                {
                    let (st, scr, res) = #[trigger] old(self)@.singlestep(old(screen).bytes(), random);
                    &&& final(screen).bytes() == scr
                    &&& res is Ok ==> (r matches Ok(cpu) && *final(cpu) == *final(self) && cpu@ == st)
                    &&& res is Err ==> (r matches Err(e) && res == Err::<(), Error>(e)
                        && final(self)@ == st)
                },
    {
        self.flags.pause = false;
        let random = random_byte();
        match self.step(screen, random) {
            Ok(()) => {},
            Err(e) => {
                assert(old(self)@.singlestep(old(screen).bytes(), random).2 == Err::<(), Error>(e));
                return Err(e);
            },
        }
        self.flags.draw_wait = false;
        self.flags.pause = true;
        assert(old(self)@.singlestep(old(screen).bytes(), random).0 == self@);
        Ok(self)
    }

    /// Simulates vertical blanking, given that `elapsed` sub-frames passed since the last one
    /// (with real-time timing; monotonic timing counts cycles instead).
    pub fn vertical_blank_after(&mut self, elapsed: u64) -> (r: &mut Self)
        ensures
            *final(r) == *final(self),
            r@ == old(self)@.vblank(elapsed),
    {
        if self.flags.pause {
            return self;
        }
        match self.flags.monotonic {
            Some(speed) => {
                self.flags.draw_wait = false;
                let step: u64 = if speed == 0 {
                    u64::MAX
                } else {
                    SUBFRAMES / (speed as u64)
                };
                self.delay = self.delay.saturating_sub(step);
                self.sound = self.sound.saturating_sub(step);
            },
            None => {
                if elapsed > SUBFRAMES {
                    self.flags.draw_wait = false;
                }
                self.delay = self.delay.saturating_sub(elapsed);
                self.sound = self.sound.saturating_sub(elapsed);
            },
        }
        self
    }

    /// The sub-frames that passed since the last vertical blank (measured only with real-time
    /// timing while not paused; 0 otherwise). The clock reading is kept for the next one.
    fn frame_time(&mut self) -> (e: u64)
        ensures
            final(self)@ == old(self)@,
            old(self)@.flags.pause || old(self)@.flags.monotonic is Some ==> e == 0,
            !(old(self)@.flags.pause || old(self)@.flags.monotonic is Some) ==> exists|nanos: u128|
                e == #[trigger] subframes_of(nanos),
    {
        if self.flags.pause || self.flags.monotonic.is_some() {
            return 0;
        }
        let now = instant_now();
        let nanos = duration_nanos(&duration_since(&now, &self.frame));
        self.frame = now;
        subframes_in(nanos)
    }

    /// Simulates vertical blanking
    ///
    /// If monotonic timing is `enabled`:
    /// - Ticks the sound and delay timers according to CPU cycle count
    /// - Disables framepause
    /// If monotonic timing is `disabled`:
    /// - Subtracts the elapsed time in fractions of a frame
    ///   from st/dt
    /// - Disables framepause if the duration exceeds that of a frame
    pub fn vertical_blank(&mut self) -> (r: &mut Self)
        ensures
            *final(r) == *final(self),
            exists|elapsed: u64| r@ == #[trigger] old(self)@.vblank(elapsed),
            old(self)@.flags.pause || old(self)@.flags.monotonic is Some ==> r@ == old(self)@.vblank(0),
    {
        let elapsed = self.frame_time();
        self.vertical_blank_after(elapsed)
    }

    /// Unpauses the emulator for `steps` ticks, blanking the screen after each
    ///
    /// Stops at the first tick that fails, and returns its error.
    pub fn multistep(&mut self, screen: &mut Screen, steps: usize) -> (r: Result<&mut Self>)
        requires
            old(self)@.cycle + steps <= usize::MAX,
        ensures
            exists|randoms: Seq<u8>, elapsed: Seq<u64>|
                {
                    let (st, scr, res) = #[trigger] old(self)@.run(
                        old(screen).bytes(),
                        steps as nat,
                        randoms,
                        elapsed,
                    );
                    &&& randoms.len() == steps
                    &&& elapsed.len() == steps
                    &&& final(screen).bytes() == scr
                    &&& res is Ok ==> (r matches Ok(cpu) && *final(cpu) == *final(self) && cpu@ == st)
                    &&& res is Err ==> (r matches Err(e) && res == Err::<(), Error>(e)
                        && final(self)@ == st)
                },
    {
        let ghost mut randoms: Seq<u8> = Seq::empty();
        let ghost mut elapsed: Seq<u64> = Seq::empty();
        let mut k: usize = 0;
        while k < steps
            invariant
                k <= steps,
                old(self)@.cycle + steps <= usize::MAX,
                randoms.len() == k,
                elapsed.len() == k,
                self@.cycle <= old(self)@.cycle + k,
                self@.flags.monotonic == old(self)@.flags.monotonic,
                    old(self)@.run(old(screen).bytes(), k as nat, randoms, elapsed) == (
                    self@,
                    screen.bytes(),
                    Ok::<(), Error>(()),
                ),
            decreases steps - k,
        {
            let ghost st0 = self@;
            let ghost scr0 = screen.bytes();
            let random = random_byte();
            match self.step(screen, random) {
                Ok(()) => {},
                Err(e) => {
                    proof {
                        let rs = randoms.push(random) + Seq::new((steps - k - 1) as nat, |i: int| 0u8);
                        let es = elapsed.push(0u64) + Seq::new((steps - k - 1) as nat, |i: int| 0u64);
                        assert(rs.take(k as int) =~= randoms.take(k as int));
                        assert(es.take(k as int) =~= elapsed.take(k as int));
                        lemma_run_prefix(old(self)@, old(screen).bytes(), k as nat, randoms, elapsed, rs, es);
                        assert(rs[k as int] == random);
                        assert(old(self)@.run(old(screen).bytes(), (k + 1) as nat, rs, es) == (self@, screen.bytes(), Err::<(), Error>(e)));
                        lemma_run_stops(old(self)@, old(screen).bytes(), (k + 1) as nat, steps as nat, rs, es);
                        assert(old(self)@.run(old(screen).bytes(), steps as nat, rs, es) == (self@, screen.bytes(), Err::<(), Error>(e)));
                    }
                    return Err(e);
                },
            }
            let e = self.frame_time();
            self.vertical_blank_after(e);
            proof {
                let rs = randoms.push(random);
                let es = elapsed.push(e);
                assert(rs.take(k as int) =~= randoms.take(k as int));
                assert(es.take(k as int) =~= elapsed.take(k as int));
                lemma_run_prefix(old(self)@, old(screen).bytes(), k as nat, randoms, elapsed, rs, es);
                randoms = rs;
                elapsed = es;
            }
            k = k + 1;
        }
        Ok(self)
    }
}

} // verus!

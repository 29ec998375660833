//! The whole machine: CPU, bus (memory, timer, joypad, sound), PPU, the
//! double-buffered screen and camera view, audio samples and counters.
//!
//! [`GameBoyCore::step_frame`] runs one video frame. A Pocket Camera capture
//! started by the game stops the run: the caller turns the sensor image into
//! processed pixels, stores them with [`GameBoyCore::store_camera_capture`]
//! and calls `step_frame` again, which continues the same frame.

use vstd::prelude::*;
use crate::apu::{Apu, mix_side};
use crate::apu::channel1::Channel1;
use crate::apu::channel2::Channel2;
use crate::apu::channel3::Channel3;
use crate::apu::channel4::Channel4;
use crate::bus::{MemoryBus, BusView};
use crate::cpu::{Cpu, lemma_step_cycles};
use crate::frame::DoubleBuffer;
use crate::interrupts::{Interrupt, InterruptController, requested};
use crate::joypad::{Button, Joypad, button_at};
use crate::memory::{Memory, MemView, power_on};
use crate::memory::cartridge::{MbcType, CartridgeView, mbc_type_of, ram_size_spec, fresh_cartridge};
use crate::memory::cartridge::none::NoMbcView;
use crate::memory::camera::{CameraView, photo_rgba};
use crate::ppu::{Ppu, PpuView, PpuMode, lemma_tick_cycles_bound};
use crate::timer::Timer;

verus! {

/// T-cycles in one video frame.
pub const CYCLES_PER_FRAME: u32 = 70224;
/// T-cycles the CPU runs per video frame at double speed.
pub const CYCLES_PER_FRAME_DOUBLE: u32 = 140448;
/// Bytes of the RGBA screen (160x144).
pub const FRAME_BUFFER_SIZE: usize = 92160;
/// Bytes of the RGBA camera view (128x112).
pub const CAMERA_BUFFER_SIZE: usize = 57344;
/// Audio samples per second.
pub const SAMPLE_RATE: u64 = 44100;
/// T-cycles per second.
pub const CPU_CLOCK: u64 = 4194304;

/// Why [`GameBoyCore::step_frame`] returned.
#[derive(Debug, Clone, Copy, PartialEq, Eq, Structural)]
pub enum FrameEvent {
    /// The frame is complete; the number of instructions it ran.
    Done(u32),
    /// The game started a camera capture (the flag: output inverted); the
    /// frame goes on at the next call.
    Capture(bool),
    /// The CPU reached an undefined opcode (or its instruction counter is
    /// exhausted) and cannot go on.
    Locked,
}

/// What [`GameBoyCore::step_single`] did.
#[derive(Debug, Clone, Copy, PartialEq, Eq, Structural)]
pub enum StepEvent {
    /// One step ran, taking this many T-cycles.
    Ran(u32),
    /// One step ran (T-cycles) and started a camera capture (inverted or not).
    Capture(u32, bool),
    /// Nothing ran: the CPU is at an undefined opcode (or its instruction
    /// counter is exhausted).
    Locked,
}

/// Why [`GameBoyCore::step_samples`] returned; each carries the number of
/// stereo pairs produced.
#[derive(Debug, Clone, Copy, PartialEq, Eq, Structural)]
pub enum SampleEvent {
    Done(usize),
    Capture(usize, bool),
    Locked(usize),
}

/// The machine as values.
pub struct CoreView {
    pub cpu: Cpu,
    pub bus: BusView,
    pub ppu: PpuView,
    /// The screen shown (front buffer) and the one to be filled next.
    pub frame: Seq<u8>,
    pub frame_back: Seq<u8>,
    /// The camera view shown, and the one to be filled next.
    pub camera: Seq<u8>,
    pub camera_back: Seq<u8>,
    pub frame_count: u32,
    pub total_cycles: u64,
    pub instruction_count: u64,
    /// Fractional sample position: each T-cycle adds [`SAMPLE_RATE`], each
    /// sample takes [`CPU_CLOCK`].
    pub sample_accum: u64,
    /// Interleaved left/right sample levels (0-480 for full scale).
    pub samples: Seq<u32>,
    /// Cycles and instructions of the frame in progress, and its cycle
    /// budget (0 when no frame is in progress).
    pub frame_cycles: u32,
    pub frame_instructions: u32,
    pub frame_budget: u32,
}

/// Sample position and samples after an APU tick of `cycles` that produced
/// `out` (nothing while the APU is off): one stereo sample is mixed each
/// time the position passes a whole sample.
pub open spec fn sampled(acc: u64, samples: Seq<u32>, apu: Apu, out: Option<(u8, u8, u8, u8)>, cycles: u32) -> (u64, Seq<u32>) {
    match out {
        None => (acc, samples),
        Some((c1, c2, c3, c4)) => {
            let a = acc + cycles * SAMPLE_RATE;
            if a >= CPU_CLOCK {
                ((a - CPU_CLOCK) as u64, samples
                    .push(mix_side(apu.nr51 >> 4, (apu.nr50 >> 4) & 0x07, c1, c2, c3, c4) as u32)
                    .push(mix_side(apu.nr51 & 0x0F, apu.nr50 & 0x07, c1, c2, c3, c4) as u32))
            } else {
                (a as u64, samples)
            }
        },
    }
}

impl CoreView {
    pub open spec fn wf(self) -> bool {
        &&& self.bus.wf()
        &&& self.ppu.wf()
        &&& self.ppu.cycles < 456
        &&& self.frame.len() == FRAME_BUFFER_SIZE
        &&& self.frame_back.len() == FRAME_BUFFER_SIZE
        &&& self.camera.len() == CAMERA_BUFFER_SIZE
        &&& self.camera_back.len() == CAMERA_BUFFER_SIZE
        &&& self.sample_accum < CPU_CLOCK
        &&& self.frame_budget <= CYCLES_PER_FRAME_DOUBLE
        &&& self.frame_cycles <= self.frame_budget + 24
        &&& 4 * self.frame_instructions <= self.frame_cycles
    }

    /// Whether the CPU can take its next step.
    pub open spec fn can_step(self) -> bool {
        self.cpu.can_step_spec(self.bus)
    }

    /// The timer (and its interrupt), the PPU, and an H-blank HDMA block
    /// when the PPU has just entered H-blank, clocked for `cyc` T-cycles.
    pub open spec fn video_clocked(self, cyc: u32) -> CoreView {
        let (t2, irq) = self.bus.timer.steps(cyc as nat);
        let m2 = if irq { requested(self.bus.mem, 0x04) } else { self.bus.mem };
        let (p3, m3) = self.ppu.tick_spec(m2, cyc);
        let m4 = if self.ppu.mode == PpuMode::Drawing && p3.mode == PpuMode::HBlank { m3.hblank_step() } else { m3 };
        CoreView { bus: BusView { mem: m4, timer: t2, ..self.bus }, ppu: p3, ..self }
    }

    /// The APU clocked for `cyc` CPU T-cycles (half of them in double
    /// speed, with the divider halved to keep the 512 Hz sequencer), and the
    /// samples it produced.
    pub open spec fn audio_clocked(self, cyc: u32) -> CoreView {
        let ds = self.bus.mem.cgb.double_speed;
        let apu_cycles: u32 = if ds { cyc / 2 } else { cyc };
        let apu_div: u16 = if ds { self.bus.timer.div_counter >> 1 } else { self.bus.timer.div_counter };
        let (a5, out) = self.bus.apu.tick_spec(apu_cycles, apu_div);
        let (acc, samples) = sampled(self.sample_accum, self.samples, a5, out, apu_cycles);
        CoreView { bus: BusView { apu: a5, ..self.bus }, sample_accum: acc, samples, ..self }
    }

    /// One CPU step and what it clocks; the T-cycles taken.
    pub open spec fn hw_step(self) -> (CoreView, u32) {
        let (c1, b1, cyc) = self.cpu.step_spec(self.bus);
        let v1 = CoreView { cpu: c1, bus: b1, instruction_count: (self.instruction_count + 1) as u64, ..self };
        (v1.video_clocked(cyc).audio_clocked(cyc), cyc)
    }

    /// The machine with its components at power-on around memory `mem` and
    /// APU `apu` (GBC colour mode `cgb_mode`): counters cleared, samples
    /// dropped, no frame in progress; the buffers shown stay.
    pub open spec fn powered_on(self, mem: MemView, apu: Apu, cgb_mode: bool) -> CoreView {
        CoreView {
            cpu: Cpu::initial(),
            bus: BusView { mem, timer: Timer::initial(), joypad: Joypad::initial(), apu },
            ppu: PpuView::initial(cgb_mode),
            frame_count: 0,
            total_cycles: 0,
            instruction_count: 0,
            sample_accum: 0,
            samples: Seq::empty(),
            frame_cycles: 0,
            frame_instructions: 0,
            frame_budget: 0,
            ..self
        }
    }

    /// The capture a camera register write has started, if any.
    pub open spec fn capture_pending(self) -> Option<bool> {
        match self.bus.mem.camera() {
            Some(c) => c.pending_capture,
            None => None,
        }
    }

    /// The machine with the pending capture taken.
    pub open spec fn capture_taken(self) -> CoreView {
        match self.bus.mem.camera() {
            Some(c) => CoreView {
                bus: BusView { mem: self.bus.mem.with_camera(CameraView { pending_capture: None, ..c }), ..self.bus },
                ..self
            },
            None => self,
        }
    }

    /// The machine with wall-clock second `now` recorded in an MBC3 clock.
    pub open spec fn clock_set(self, now: u64) -> CoreView {
        CoreView { bus: BusView { mem: MemView { cart: self.bus.mem.cart.rtc_clock_set(now), ..self.bus.mem }, ..self.bus }, ..self }
    }

    /// A frame in progress, or a new one whose budget follows the CPU speed.
    pub open spec fn frame_started(self) -> CoreView {
        if self.frame_budget == 0 {
            CoreView {
                frame_budget: if self.bus.mem.cgb.double_speed { CYCLES_PER_FRAME_DOUBLE } else { CYCLES_PER_FRAME },
                frame_cycles: 0,
                frame_instructions: 0,
                ..self
            }
        } else {
            self
        }
    }

    /// The rest of the frame in progress: steps run until the budget is
    /// used; a step that starts a capture stops the run (capture taken), and
    /// so does a CPU that cannot step.
    pub open spec fn frame_run(self) -> (CoreView, FrameEvent)
        decreases (if self.frame_cycles < self.frame_budget { self.frame_budget - self.frame_cycles } else { 0 })
            when self.frame_budget <= CYCLES_PER_FRAME_DOUBLE
    {
        if self.frame_cycles >= self.frame_budget {
            (self, FrameEvent::Done(self.frame_instructions))
        } else if !self.can_step() {
            (self, FrameEvent::Locked)
        } else {
            let (w, cyc) = self.hw_step();
            let w2 = CoreView {
                frame_cycles: (self.frame_cycles + cyc) as u32,
                frame_instructions: (self.frame_instructions + 1) as u32,
                ..w
            };
            proof { lemma_step_cycles(self.cpu, self.bus); }
            match w2.capture_pending() {
                Some(inv) => (w2.capture_taken(), FrameEvent::Capture(inv)),
                None => w2.frame_run(),
            }
        }
    }

    /// The machine after a completed frame: counters advance, an MBC3 clock
    /// catches up with wall-clock second `now`, the PPU's picture becomes
    /// the front buffer, and no frame is in progress.
    pub open spec fn frame_finished(self, now: u64) -> CoreView {
        CoreView {
            total_cycles: (self.total_cycles + self.frame_cycles) as u64,
            frame_count: (self.frame_count + 1) as u32,
            bus: BusView { mem: MemView { cart: self.bus.mem.cart.rtc_ticked(now), ..self.bus.mem }, ..self.bus },
            frame: self.ppu.buffer,
            frame_back: self.frame,
            frame_budget: 0,
            frame_cycles: 0,
            frame_instructions: 0,
            ..self
        }
    }

    /// The machine after the PPU's finished picture is shown.
    pub open spec fn frame_shown(self) -> CoreView {
        CoreView {
            frame_count: (self.frame_count + 1) as u32,
            ppu: PpuView { frame_ready: false, ..self.ppu },
            frame: self.ppu.buffer,
            frame_back: self.frame,
            ..self
        }
    }

    /// One single step as [`GameBoyCore::step_single`] takes it.
    #[verifier::opaque]
    pub open spec fn single_step(self) -> (CoreView, StepEvent) {
        if !self.can_step() {
            (self, StepEvent::Locked)
        } else {
            let (w, cyc) = self.hw_step();
            let w1 = CoreView { total_cycles: (self.total_cycles + cyc) as u64, ..w };
            let w2 = w1.capture_taken();
            let w3 = if w1.ppu.frame_ready { w2.frame_shown() } else { w2 };
            (w3, match w1.capture_pending() {
                Some(inv) => StepEvent::Capture(cyc, inv),
                None => StepEvent::Ran(cyc),
            })
        }
    }
}

/// Stereo pairs produced since there were `before`.
pub open spec fn pairs_since(v: CoreView, before: int) -> int {
    v.samples.len() / 2 - before
}

impl CoreView {
    /// Single steps until `target` stereo pairs have been produced since
    /// there were `before`, or the total cycle count reaches `max_cycles`;
    /// a capture or a locked CPU stops early. The event carries the pairs
    /// produced.
    pub open spec fn samples_run(self, before: int, target: int, max_cycles: int) -> (CoreView, SampleEvent)
        decreases (if self.total_cycles < max_cycles { max_cycles - self.total_cycles } else { 0 })
            when max_cycles <= u64::MAX - 24
    {
        let n = pairs_since(self, before);
        if n >= target || self.total_cycles >= max_cycles {
            (self, SampleEvent::Done(n as usize))
        } else {
            let (w, e) = self.single_step();
            proof { lemma_single_step_cycles(self); }
            match e {
                StepEvent::Locked => (w, SampleEvent::Locked(n as usize)),
                StepEvent::Capture(_, inv) => (w, SampleEvent::Capture(pairs_since(w, before) as usize, inv)),
                StepEvent::Ran(_) => w.samples_run(before, target, max_cycles),
            }
        }
    }
}

/// The machine: all components, the screen and camera view, audio output
/// and counters.
pub struct GameBoyCore {
    pub cpu: Cpu,
    pub bus: MemoryBus,
    pub ppu: Ppu,
    pub interrupts: InterruptController,
    pub frame_buffer: DoubleBuffer<FRAME_BUFFER_SIZE>,
    pub camera_live_buffer: DoubleBuffer<CAMERA_BUFFER_SIZE>,
    pub frame_count: u32,
    pub total_cycles: u64,
    pub instruction_count: u64,
    pub sample_accum: u64,
    pub samples: Vec<u32>,
    pub frame_cycles: u32,
    pub frame_instructions: u32,
    pub frame_budget: u32,
}

impl GameBoyCore {
    pub open spec fn view(&self) -> CoreView {
        CoreView {
            cpu: self.cpu,
            bus: self.bus.view(),
            ppu: self.ppu.view(),
            frame: self.frame_buffer.front_spec(),
            frame_back: self.frame_buffer.back_spec(),
            camera: self.camera_live_buffer.front_spec(),
            camera_back: self.camera_live_buffer.back_spec(),
            frame_count: self.frame_count,
            total_cycles: self.total_cycles,
            instruction_count: self.instruction_count,
            sample_accum: self.sample_accum,
            samples: self.samples@,
            frame_cycles: self.frame_cycles,
            frame_instructions: self.frame_instructions,
            frame_budget: self.frame_budget,
        }
    }

    pub open spec fn wf(&self) -> bool {
        &&& self.view().wf()
        &&& self.frame_buffer.wf()
        &&& self.camera_live_buffer.wf()
    }
}

impl GameBoyCore {
    /// One CPU step and what it clocks (see [`CoreView::hw_step`]).
    fn run_step(&mut self) -> (r: u32)
        requires
            old(self).wf(),
            old(self).view().can_step(),
            old(self).instruction_count < u64::MAX,
        ensures
            final(self).wf(),
            (final(self).view(), r) == old(self).view().hw_step(),
            4 <= r <= 24,
    {
        let ghost v = self.view();
        proof { lemma_step_cycles(v.cpu, v.bus); }
        let cycles = self.cpu.step(&mut self.bus, &mut self.interrupts);
        self.instruction_count = self.instruction_count + 1;
        self.clock_video(cycles);
        self.clock_audio(cycles);
        cycles
    }

    #[verifier::rlimit(40)]
    fn clock_video(&mut self, cycles: u32)
        requires old(self).wf(), cycles <= 24,
        ensures final(self).wf(), final(self).view() == old(self).view().video_clocked(cycles),
    {
        let ghost v = self.view();
        self.bus.timer.tick(cycles, &mut self.bus.memory, &self.interrupts);
        let ghost m2 = self.bus.memory.view();
        let ghost (t2, irq) = v.bus.timer.steps(cycles as nat);
        assert(m2 == if irq { requested(v.bus.mem, 0x04) } else { v.bus.mem });
        let was_drawing = self.ppu.mode == PpuMode::Drawing;
        proof { lemma_tick_cycles_bound(v.ppu, m2, cycles); }
        self.ppu.tick(cycles, &mut self.bus.memory, &self.interrupts);
        let ghost pm = v.ppu.tick_spec(m2, cycles);
        assert(self.ppu.view() == pm.0 && self.bus.memory.view() == pm.1);
        if was_drawing && self.ppu.mode == PpuMode::HBlank {
            self.bus.memory.tick_hdma_hblank();
        }
    }

    fn clock_audio(&mut self, cycles: u32)
        requires old(self).wf(), cycles <= 24,
        ensures final(self).wf(), final(self).view() == old(self).view().audio_clocked(cycles),
    {
        let ds = self.bus.memory.is_double_speed();
        let apu_cycles: u32 = if ds { cycles / 2 } else { cycles };
        let apu_div: u16 = if ds { self.bus.timer.div_counter >> 1 } else { self.bus.timer.div_counter };
        let out = self.bus.apu.tick(apu_cycles, apu_div);
        match out {
            Some((c1, c2, c3, c4)) => {
                let a = self.sample_accum + apu_cycles as u64 * SAMPLE_RATE;
                if a >= CPU_CLOCK {
                    self.sample_accum = a - CPU_CLOCK;
                    let (l, r) = self.bus.apu.mix_levels(c1, c2, c3, c4);
                    self.samples.push(l);
                    self.samples.push(r);
                } else {
                    self.sample_accum = a;
                }
            },
            None => {},
        }
    }
}

/// The APU in its power-on state.
pub open spec fn apu_powered_on(a: Apu) -> bool {
    &&& a == Apu::initial(Channel1::initial(), Channel2::initial(), Channel3::initial(a.ch3.wave_ram), Channel4::initial())
    &&& a.ch3.wave_ram@ == Seq::new(16, |i: int| 0u8)
}

impl GameBoyCore {
    /// A machine with no cartridge, every component at power-on and blank
    /// buffers.
    pub fn new() -> (r: Self)
        ensures
            r.wf(),
            r.view().cpu == Cpu::initial(),
            r.view().bus.mem == power_on(CartridgeView::NoMbc(NoMbcView { rom: Seq::empty() }), false),
            r.view().bus.timer == Timer::initial(),
            r.view().bus.joypad == Joypad::initial(),
            apu_powered_on(r.view().bus.apu),
            r.view().ppu == PpuView::initial(false),
            r.view().frame == Seq::new(FRAME_BUFFER_SIZE as nat, |i: int| 0u8),
            r.view().camera == Seq::new(CAMERA_BUFFER_SIZE as nat, |i: int| 0u8),
            r.view().frame_count == 0,
            r.view().total_cycles == 0,
            r.view().instruction_count == 0,
            r.view().sample_accum == 0,
            r.view().samples == Seq::<u32>::empty(),
            r.view().frame_budget == 0,
            r.view().frame_cycles == 0,
            r.view().frame_instructions == 0,
    {
        GameBoyCore {
            cpu: Cpu::new(),
            bus: MemoryBus::new(Memory::new(), Timer::new(), Joypad::new()),
            ppu: Ppu::new(),
            interrupts: InterruptController::new(),
            frame_buffer: DoubleBuffer::new(),
            camera_live_buffer: DoubleBuffer::new(),
            frame_count: 0,
            total_cycles: 0,
            instruction_count: 0,
            sample_accum: 0,
            samples: Vec::new(),
            frame_cycles: 0,
            frame_instructions: 0,
            frame_budget: 0,
        }
    }

    /// Every component but the memory back to power-on (GBC mode `cgb_mode`).
    fn reset_components(&mut self, cgb_mode: bool)
        requires old(self).wf(),
        ensures
            final(self).wf(),
            final(self).view() == old(self).view().powered_on(old(self).view().bus.mem, final(self).bus.apu, cgb_mode),
            apu_powered_on(final(self).bus.apu),
    {
        self.cpu = Cpu::new();
        self.ppu.reset(cgb_mode);
        self.bus.timer = Timer::new();
        self.bus.apu = Apu::new();
        self.bus.joypad = Joypad::new();
        self.frame_count = 0;
        self.total_cycles = 0;
        self.instruction_count = 0;
        self.sample_accum = 0;
        self.samples = Vec::new();
        self.frame_cycles = 0;
        self.frame_instructions = 0;
        self.frame_budget = 0;
    }

    /// Load a ROM (see [`Memory::load_rom`]) and power-cycle every
    /// component; a ROM shorter than its header is refused and nothing
    /// changes. `now` is the wall-clock second an MBC3 clock starts from.
    pub fn load_rom(&mut self, rom_data: &[u8], cgb_mode: bool, now: u64) -> (r: Result<(), &'static str>)
        requires old(self).wf(),
        ensures
            final(self).wf(),
            r is Err <==> rom_data@.len() < 0x150,
            r is Err ==> final(self).view() == old(self).view(),
            r is Ok ==> {
                &&& final(self).view() == old(self).view().powered_on(
                        MemView { serial: old(self).view().bus.mem.serial, ..power_on(final(self).bus.memory.cartridge.view(), cgb_mode) },
                        final(self).bus.apu, cgb_mode)
                &&& apu_powered_on(final(self).bus.apu)
                &&& final(self).bus.memory.cartridge.mbc_type_spec() == mbc_type_of(rom_data@[0x147])
                &&& final(self).bus.memory.cartridge.rom_spec() == rom_data@
                &&& final(self).bus.memory.cartridge.view() == fresh_cartridge(rom_data@, rom_data@[0x147],
                        (if rom_data@[0x147] == 0xFC { 0x20000 } else { ram_size_spec(rom_data@[0x149]) }) as nat, now)
            },
    {
        let r = self.bus.memory.load_rom(rom_data, cgb_mode, now);
        match r {
            Ok(()) => {
                self.reset_components(cgb_mode);
                Ok(())
            },
            Err(e) => Err(e),
        }
    }

    /// Power-cycle: the memory is reset (see [`Memory::reset_hardware`]:
    /// the ROM reloads and save RAM clears) and every component returns to
    /// power-on; call `load_cartridge_ram` afterwards to restore a save.
    pub fn reset(&mut self, now: u64)
        requires old(self).wf(),
        ensures
            final(self).wf(),
            final(self).view() == old(self).view().powered_on(final(self).view().bus.mem, final(self).bus.apu, old(self).bus.memory.cgb.mode),
            apu_powered_on(final(self).bus.apu),
            old(self).bus.memory.cartridge.rom_spec().len() >= 0x150 ==> {
                let rom = old(self).bus.memory.cartridge.rom_spec();
                &&& final(self).view().bus.mem == (MemView {
                        serial: old(self).view().bus.mem.serial,
                        ..power_on(final(self).bus.memory.cartridge.view(), old(self).bus.memory.cgb.mode)
                    })
                &&& final(self).bus.memory.cartridge.view() == fresh_cartridge(rom, rom[0x147],
                        (if rom[0x147] == 0xFC { 0x20000 } else { ram_size_spec(rom[0x149]) }) as nat, now)
                &&& final(self).bus.memory.cartridge.rom_spec() == rom
            },
            old(self).bus.memory.cartridge.rom_spec().len() < 0x150 ==> final(self).view().bus.mem == (MemView {
                serial: old(self).view().bus.mem.serial,
                ..power_on(CartridgeView::NoMbc(NoMbcView { rom: Seq::empty() }), false)
            }),
    {
        let cgb_mode = self.bus.memory.is_cgb_mode();
        self.bus.memory.reset_hardware(now);
        self.reset_components(cgb_mode);
    }
}

impl GameBoyCore {
    /// Run the frame in progress, or a new one, until its cycle budget is
    /// used (see [`CoreView::frame_run`]). Wall-clock second `now` is first
    /// recorded as the current time of an MBC3 clock, so that a clock
    /// register written during the frame restarts from it. When it completes, the counters
    /// advance, an MBC3 clock catches up with wall-clock second `now` and
    /// the picture becomes the front buffer (see
    /// [`CoreView::frame_finished`]); a capture or a locked CPU stops it
    /// early, and it resumes at the next call.
    pub fn step_frame(&mut self, now: u64) -> (r: FrameEvent)
        requires
            old(self).wf(),
            old(self).frame_count < u32::MAX,
            old(self).total_cycles <= u64::MAX - 0x40000,
            old(self).instruction_count <= u64::MAX - 0x40000,
            now <= u64::MAX - 0x4000000,
        ensures
            final(self).wf(),
            ({
                let (v, e) = old(self).view().clock_set(now).frame_started().frame_run();
                &&& r == e
                &&& final(self).view() == (if e is Done { v.frame_finished(now) } else { v })
            }),
    {
        self.set_rtc_clock(now);
        let ghost v0 = self.view();
        if self.frame_budget == 0 {
            self.frame_budget = if self.bus.memory.is_double_speed() { CYCLES_PER_FRAME_DOUBLE } else { CYCLES_PER_FRAME };
            self.frame_cycles = 0;
            self.frame_instructions = 0;
        }
        assert(self.view() == v0.frame_started());
        let ghost target = self.view().frame_run();
        let ghost ic0 = self.instruction_count;
        let ghost fc0 = self.frame_cycles;
        loop
            invariant
                self.wf(),
                self.view().frame_run() == target,
                target == old(self).view().clock_set(now).frame_started().frame_run(),
                self.frame_count == old(self).frame_count,
                self.total_cycles == old(self).total_cycles,
                old(self).frame_count < u32::MAX,
                old(self).total_cycles <= u64::MAX - 0x40000,
                ic0 <= u64::MAX - 0x40000,
                fc0 <= self.frame_cycles,
                ic0 <= self.instruction_count,
                4 * (self.instruction_count - ic0) <= self.frame_cycles - fc0,
            ensures
                self.frame_cycles >= self.frame_budget,
            decreases (if self.frame_cycles < self.frame_budget { self.frame_budget - self.frame_cycles } else { 0 }),
        {
            if self.frame_cycles >= self.frame_budget {
                break;
            }
            match self.frame_step() {
                Some(e) => {
                    return e;
                },
                None => {},
            }
        }
        assert(self.view().frame_run() == (self.view(), FrameEvent::Done(self.frame_instructions)));
        let instructions = self.frame_instructions;
        self.finish_frame(now);
        FrameEvent::Done(instructions)
    }

    /// Record wall-clock second `now` as the time an MBC3 clock register
    /// write restarts from, without advancing the clock.
    pub fn set_rtc_clock(&mut self, now: u64)
        requires old(self).wf(),
        ensures
            final(self).wf(),
            final(self).view() == old(self).view().clock_set(now),
    {
        self.bus.memory.set_rtc_clock(now);
    }

    /// Close a completed frame (see [`CoreView::frame_finished`]).
    fn finish_frame(&mut self, now: u64)
        requires
            old(self).wf(),
            old(self).frame_count < u32::MAX,
            old(self).total_cycles <= u64::MAX - 0x40000,
            now <= u64::MAX - 0x4000000,
        ensures
            final(self).wf(),
            final(self).view() == old(self).view().frame_finished(now),
    {
        self.total_cycles = self.total_cycles + self.frame_cycles as u64;
        self.frame_count = self.frame_count + 1;
        proof { self.bus.memory.cartridge.lemma_rtc_can_tick(now); }
        self.bus.memory.tick_rtc(now);
        self.show_frame();
        self.frame_budget = 0;
        self.frame_cycles = 0;
        self.frame_instructions = 0;
    }

    /// One step of the frame in progress: `None` when the frame goes on,
    /// else why it stops (see [`CoreView::frame_run`]).
    fn frame_step(&mut self) -> (r: Option<FrameEvent>)
        requires
            old(self).wf(),
            old(self).frame_cycles < old(self).frame_budget,
            old(self).instruction_count < u64::MAX,
        ensures
            final(self).wf(),
            r is None ==> {
                &&& final(self).view().frame_run() == old(self).view().frame_run()
                &&& final(self).frame_cycles >= old(self).frame_cycles + 4
                &&& final(self).instruction_count == old(self).instruction_count + 1
                &&& final(self).frame_budget == old(self).frame_budget
                &&& final(self).frame_count == old(self).frame_count
                &&& final(self).total_cycles == old(self).total_cycles
            },
            r matches Some(e) ==> (final(self).view(), e) == old(self).view().frame_run() && !(e is Done),
    {
        if !self.cpu.can_step(&self.bus) {
            return Some(FrameEvent::Locked);
        }
        let cycles = self.run_step();
        self.frame_cycles = self.frame_cycles + cycles;
        self.frame_instructions = self.frame_instructions + 1;
        let ghost w2 = self.view();
        let taken = self.bus.memory.take_pending_capture();
        match taken {
            Some(inv) => Some(FrameEvent::Capture(inv)),
            None => {
                assert(self.view() == w2);
                None
            },
        }
    }

    /// Copy the PPU's picture into the back buffer and swap it to the front.
    fn show_frame(&mut self)
        requires old(self).wf(),
        ensures
            final(self).wf(),
            final(self).view() == (CoreView { frame: old(self).view().ppu.buffer, frame_back: old(self).view().frame, ..old(self).view() }),
    {
        self.frame_buffer.fill_back(self.ppu.get_buffer());
        assert(crate::memory::cartridge::ram_loaded(old(self).frame_buffer.back_spec(), self.ppu.buffer@) =~= self.ppu.buffer@);
        self.frame_buffer.swap();
    }
}

impl GameBoyCore {
    /// Execute a single step (see [`CoreView::single_step`]): the timer,
    /// PPU and APU follow; a picture the PPU finished is shown.
    pub fn step_single(&mut self) -> (r: StepEvent)
        requires
            old(self).wf(),
            old(self).frame_count < u32::MAX,
            old(self).total_cycles <= u64::MAX - 24,
            old(self).instruction_count < u64::MAX,
        ensures
            final(self).wf(),
            (final(self).view(), r) == old(self).view().single_step(),
    {
        reveal(CoreView::single_step);
        if !self.cpu.can_step(&self.bus) {
            return StepEvent::Locked;
        }
        let cycles = self.run_step();
        self.total_cycles = self.total_cycles + cycles as u64;
        let taken = self.bus.memory.take_pending_capture();
        if self.ppu.frame_ready() {
            self.frame_count = self.frame_count + 1;
            self.show_frame();
        }
        match taken {
            Some(inv) => StepEvent::Capture(cycles, inv),
            None => StepEvent::Ran(cycles),
        }
    }
}

/// A single step never drops samples, and one that runs adds its cycles
/// (4 to 24) and one instruction.
pub proof fn lemma_single_step_progress(v: CoreView)
    requires
        v.total_cycles <= u64::MAX - 24,
        v.instruction_count < u64::MAX,
        v.frame_count < u32::MAX,
    ensures
        v.single_step().0.samples.len() >= v.samples.len(),
        v.single_step().1 is Ran ==> {
            &&& v.single_step().0.total_cycles == v.total_cycles + v.cpu.step_spec(v.bus).2
            &&& 4 <= v.cpu.step_spec(v.bus).2 <= 24
            &&& v.single_step().0.instruction_count == v.instruction_count + 1
            &&& v.frame_count <= v.single_step().0.frame_count <= v.frame_count + 1
        },
{
    reveal(CoreView::single_step);
    if v.can_step() {
        lemma_step_cycles(v.cpu, v.bus);
    }
}

/// A single step that runs adds its 4 to 24 cycles to the total.
pub proof fn lemma_single_step_cycles(v: CoreView)
    requires v.total_cycles <= u64::MAX - 24,
    ensures
        v.single_step().1 is Ran ==> v.total_cycles + 4 <= v.single_step().0.total_cycles <= v.total_cycles + 24,
{
    reveal(CoreView::single_step);
    if v.can_step() {
        lemma_step_cycles(v.cpu, v.bus);
    }
}

impl GameBoyCore {
    /// Single steps until `target` more stereo pairs are produced, or a
    /// budget of 200 T-cycles per pair is used (an APU that is off or a
    /// CPU halted for good then cannot hang the caller); see
    /// [`CoreView::samples_run`].
    pub fn step_samples(&mut self, target: usize) -> (r: SampleEvent)
        requires
            old(self).wf(),
            old(self).total_cycles + target * 200 <= u64::MAX - 24,
            old(self).instruction_count + target * 50 < u64::MAX,
            old(self).frame_count + target * 50 < u32::MAX,
        ensures
            final(self).wf(),
            (final(self).view(), r) == old(self).view().samples_run(
                (old(self).samples@.len() / 2) as int, target as int, old(self).total_cycles + target * 200),
    {
        let before = self.samples.len() / 2;
        let max_cycles = self.total_cycles + target as u64 * 200;
        let ghost goal = self.view().samples_run(before as int, target as int, max_cycles as int);
        let ghost t0 = self.total_cycles;
        let ghost ic0 = self.instruction_count;
        let ghost fc0 = self.frame_count;
        loop
            invariant
                self.wf(),
                self.view().samples_run(before as int, target as int, max_cycles as int) == goal,
                goal == old(self).view().samples_run((old(self).samples@.len() / 2) as int, target as int, old(self).total_cycles + target * 200),
                before == old(self).samples@.len() / 2,
                max_cycles == t0 + target * 200,
                max_cycles <= u64::MAX - 24,
                self.samples@.len() / 2 >= before,
                t0 <= self.total_cycles,
                ic0 <= self.instruction_count,
                fc0 <= self.frame_count,
                4 * (self.instruction_count - ic0) <= self.total_cycles - t0,
                self.frame_count - fc0 <= self.instruction_count - ic0,
                ic0 + target * 50 < u64::MAX,
                fc0 + target * 50 < u32::MAX,
            decreases (if self.total_cycles < max_cycles { max_cycles - self.total_cycles } else { 0 }),
        {
            let n = self.samples.len() / 2 - before;
            if n >= target || self.total_cycles >= max_cycles {
                return SampleEvent::Done(n);
            }
            proof { lemma_single_step_progress(self.view()); }
            let e = self.step_single();
            match e {
                StepEvent::Locked => {
                    return SampleEvent::Locked(n);
                },
                StepEvent::Capture(_, inv) => {
                    return SampleEvent::Capture(self.samples.len() / 2 - before, inv);
                },
                StepEvent::Ran(_) => {},
            }
        }
    }
}

impl CoreView {
    /// The machine with memory `mem`.
    pub open spec fn with_mem(self, mem: MemView) -> CoreView {
        CoreView { bus: BusView { mem, ..self.bus }, ..self }
    }
}

impl GameBoyCore {
    /// Press or release button `button` (0-7, see [`Button::from_u8`]); a
    /// press requests the joypad interrupt. Another index does nothing.
    pub fn set_button(&mut self, button: u8, pressed: bool)
        requires old(self).wf(),
        ensures
            final(self).wf(),
            button > 7 ==> final(self).view() == old(self).view(),
            button <= 7 ==> final(self).view() == (CoreView {
                bus: BusView {
                    joypad: old(self).view().bus.joypad.with_button(button_at(button), pressed),
                    mem: if pressed { requested(old(self).view().bus.mem, 0x10) } else { old(self).view().bus.mem },
                    ..old(self).view().bus
                },
                ..old(self).view()
            }),
    {
        match Button::from_u8(button) {
            Some(btn) => {
                self.bus.joypad.set_button(btn, pressed);
                if pressed {
                    self.interrupts.request(Interrupt::Joypad, &mut self.bus.memory);
                }
            },
            None => {},
        }
    }

    /// Give the camera its webcam image (see [`Memory::set_camera_image`]).
    pub fn set_camera_image(&mut self, data: &[u8])
        requires
            old(self).wf(),
            old(self).view().bus.mem.camera() is Some ==> data@.len() >= 14336,
        ensures
            final(self).wf(),
            final(self).view() == old(self).view().with_mem(match old(self).view().bus.mem.camera() {
                Some(c) => old(self).view().bus.mem.with_camera(CameraView { image: data@.subrange(0, 14336), image_ready: true, ..c }),
                None => old(self).view().bus.mem,
            }),
    {
        self.bus.memory.set_camera_image(data);
    }

    /// Whether the cartridge is a Pocket Camera.
    pub fn is_camera_cartridge(&self) -> (r: bool)
        ensures r == (self.bus.memory.cartridge.mbc_type_spec() == MbcType::PocketCamera),
    {
        match self.bus.memory.get_mbc_type() {
            MbcType::PocketCamera => true,
            _ => false,
        }
    }

    /// Whether the camera has a webcam image.
    pub fn is_camera_ready(&self) -> (r: bool)
        ensures r == match self.view().bus.mem.camera() { Some(c) => c.image_ready, None => false },
    {
        self.bus.memory.is_camera_image_ready()
    }

    /// After a new capture, decode it into the back camera buffer and swap
    /// it to the front; false (nothing changes) without a new capture.
    pub fn update_camera_live(&mut self) -> (r: bool)
        requires old(self).wf(),
        ensures
            final(self).wf(),
            r == match old(self).view().bus.mem.camera() { Some(c) => c.capture_dirty, None => false },
            !r ==> final(self).view() == old(self).view(),
            r ==> final(self).view() == (CoreView {
                camera: photo_rgba(old(self).view().bus.mem.camera().unwrap().ram, 0x100),
                camera_back: old(self).view().camera,
                ..old(self).view().with_mem(old(self).view().bus.mem.with_camera(
                    CameraView { capture_dirty: false, ..old(self).view().bus.mem.camera().unwrap() }))
            }),
    {
        if !self.bus.memory.is_camera_capture_dirty() {
            return false;
        }
        self.bus.memory.clear_camera_capture_dirty();
        let rgba = self.bus.memory.decode_camera_photo(0);
        self.camera_live_buffer.fill_back(rgba.as_slice());
        assert(crate::memory::cartridge::ram_loaded(old(self).camera_live_buffer.back_spec(), rgba@) =~= rgba@);
        self.camera_live_buffer.swap();
        true
    }

    /// Decode camera photo `slot` to RGBA (see [`Memory::decode_camera_photo`]).
    pub fn decode_camera_photo(&self, slot: u8) -> (r: Vec<u8>)
        ensures
            r@ == match self.view().bus.mem.camera() {
                Some(c) => crate::memory::camera::decoded_photo(c.ram, slot),
                None => Seq::empty(),
            },
    {
        self.bus.memory.decode_camera_photo(slot)
    }

    /// Encode RGBA pixels into camera photo `slot` (see
    /// [`Memory::encode_camera_photo`]).
    pub fn encode_camera_photo(&mut self, slot: u8, rgba: &[u8]) -> (r: bool)
        requires old(self).wf(),
        ensures
            final(self).wf(),
            r == (old(self).view().bus.mem.camera() is Some && 1 <= slot <= 30 && rgba@.len() == 57344),
            r ==> final(self).view() == old(self).view().with_mem(old(self).view().bus.mem.with_camera(CameraView {
                ram: crate::memory::camera::state_entry_set(
                    crate::memory::camera::tiles_stored(old(self).view().bus.mem.camera().unwrap().ram,
                        crate::memory::camera::slot_offset(slot), crate::memory::camera::rgba_colors(rgba@)),
                    slot, (slot - 1) as u8),
                ..old(self).view().bus.mem.camera().unwrap()
            })),
            !r ==> final(self).view() == old(self).view(),
    {
        self.bus.memory.encode_camera_photo(slot, rgba)
    }

    /// Erase camera photo `slot` (see [`Memory::clear_camera_photo_slot`]).
    pub fn clear_camera_photo_slot(&mut self, slot: u8)
        requires old(self).wf(),
        ensures
            final(self).wf(),
            final(self).view() == old(self).view().with_mem(match old(self).view().bus.mem.camera() {
                Some(c) => if 1 <= slot <= 30 {
                    old(self).view().bus.mem.with_camera(CameraView {
                        ram: crate::memory::camera::state_entry_set(
                            crate::memory::camera::tiles_cleared(c.ram, crate::memory::camera::slot_offset(slot)), slot, 0xFF),
                        ..c
                    })
                } else {
                    old(self).view().bus.mem
                },
                None => old(self).view().bus.mem,
            }),
    {
        self.bus.memory.clear_camera_photo_slot(slot)
    }

    /// Occupied camera photo slots; 0 without a camera.
    pub fn camera_photo_count(&self) -> (r: u8)
        requires self.wf(),
        ensures
            r == match self.view().bus.mem.camera() {
                Some(c) => crate::memory::camera::occupied_count(c.ram, 30),
                None => 0,
            },
    {
        self.bus.memory.camera_photo_count()
    }

    /// Store the processed sensor image of the capture that stopped the
    /// last run (see [`Memory::store_camera_capture`]).
    pub fn store_camera_capture(&mut self, processed: &[u8], invert: bool)
        requires
            old(self).wf(),
            processed@.len() == 14336,
        ensures
            final(self).wf(),
            final(self).view() == old(self).view().with_mem(match old(self).view().bus.mem.camera() {
                Some(c) => old(self).view().bus.mem.with_camera(CameraView {
                    ram: crate::memory::camera::captured_ram(c.ram, c.regs, processed@, invert),
                    ..c
                }),
                None => old(self).view().bus.mem,
            }),
    {
        self.bus.memory.store_camera_capture(processed, invert)
    }

    /// The memory (for the camera's sensor settings and debugging).
    pub fn memory(&self) -> (r: &Memory)
        ensures *r == self.bus.memory,
    {
        &self.bus.memory
    }

    /// The picture shown (RGBA, 160x144).
    pub fn frame(&self) -> (r: &[u8])
        ensures r@ == self.view().frame,
    {
        self.frame_buffer.front()
    }

    /// The camera view shown (RGBA, 128x112).
    pub fn camera_live(&self) -> (r: &[u8])
        ensures r@ == self.view().camera,
    {
        self.camera_live_buffer.front()
    }

    /// Byte at `addr` as the memory maps it (the timer, joypad and sound
    /// registers as the memory stores them).
    pub fn read_byte(&self, addr: u16) -> (r: u8)
        requires self.wf(),
        ensures r == self.view().bus.mem.read(addr),
    {
        self.bus.memory.read(addr)
    }

    /// Write `value` at `addr` in the memory (see [`MemView::write`]).
    pub fn write_byte(&mut self, addr: u16, value: u8)
        requires old(self).wf(),
        ensures
            final(self).wf(),
            final(self).view() == old(self).view().with_mem(old(self).view().bus.mem.write(addr, value)),
    {
        self.bus.memory.write(addr, value);
    }

    /// I/O register 0xFF00 + `offset` as stored.
    pub fn read_io(&self, offset: u8) -> (r: u8)
        requires self.wf(), offset < 0x80,
        ensures r == self.view().bus.mem.io[offset as int],
    {
        self.bus.memory.read_io_direct(offset)
    }

    /// Store I/O register 0xFF00 + `offset` directly.
    pub fn write_io(&mut self, offset: u8, value: u8)
        requires old(self).wf(), offset < 0x80,
        ensures
            final(self).wf(),
            final(self).view() == old(self).view().with_mem(
                MemView { io: old(self).view().bus.mem.io.update(offset as int, value), ..old(self).view().bus.mem }),
    {
        self.bus.memory.write_io_direct(offset, value);
    }

    /// The cartridge save RAM.
    pub fn get_cartridge_ram(&self) -> (r: &[u8])
        ensures r@ == self.bus.memory.cartridge.ram_spec(),
    {
        self.bus.memory.get_cartridge_ram()
    }

    /// Load save data into the cartridge RAM (see
    /// [`Memory::load_cartridge_ram`]).
    pub fn load_cartridge_ram(&mut self, data: &[u8])
        requires old(self).wf(),
        ensures
            final(self).wf(),
            final(self).bus.memory.cartridge.ram_spec() == (match old(self).bus.memory.cartridge {
                crate::memory::cartridge::Cartridge::NoMbc(_) => Seq::empty(),
                crate::memory::cartridge::Cartridge::Mbc7(_) => Seq::new(256, |i: int| if i < data@.len() { data@[i] } else { old(self).bus.memory.cartridge.ram_spec()[i] }),
                _ => crate::memory::cartridge::ram_loaded(old(self).bus.memory.cartridge.ram_spec(), data@),
            }),
            final(self).view() == old(self).view().with_mem(MemView { cart: final(self).view().bus.mem.cart, ..old(self).view().bus.mem }),
            final(self).bus.memory.cartridge.rom_spec() == old(self).bus.memory.cartridge.rom_spec(),
    {
        self.bus.memory.load_cartridge_ram(data);
    }

    /// A byte from an external serial device: it goes to SB, SC switches to
    /// the external clock (bits 7 and 0 clear) and the serial interrupt is
    /// requested.
    pub fn serial_inject(&mut self, byte: u8)
        requires old(self).wf(),
        ensures
            final(self).wf(),
            final(self).view() == old(self).view().with_mem(requested(MemView {
                io: old(self).view().bus.mem.io.update(0x01, byte).update(0x02, old(self).view().bus.mem.io[0x02] & 0x7E),
                ..old(self).view().bus.mem
            }, 0x08)),
    {
        self.bus.memory.write_io_direct(0x01, byte);
        let sc = self.bus.memory.read_io_direct(0x02) & 0x7E;
        self.bus.memory.write_io_direct(0x02, sc);
        self.interrupts.request(Interrupt::Serial, &mut self.bus.memory);
    }

    /// Remove and return the oldest byte the game sent on the serial port.
    pub fn serial_take_output(&mut self) -> (r: Option<u8>)
        requires old(self).wf(),
        ensures
            final(self).wf(),
            old(self).view().bus.mem.serial.len() == 0 ==> r is None && final(self).view() == old(self).view(),
            old(self).view().bus.mem.serial.len() > 0 ==> r == Some(old(self).view().bus.mem.serial[0])
                && final(self).view() == old(self).view().with_mem(
                    MemView { serial: old(self).view().bus.mem.serial.drop_first(), ..old(self).view().bus.mem }),
    {
        self.bus.memory.serial_take_output()
    }

    /// Whether the sound unit is powered.
    pub fn apu_powered(&self) -> (r: bool)
        ensures r == self.bus.apu.powered_spec(),
    {
        self.bus.apu.powered()
    }

    /// Number of sample values (left and right interleaved) waiting.
    pub fn apu_sample_len(&self) -> (r: usize)
        ensures r == self.samples@.len(),
    {
        self.samples.len()
    }

    /// The waiting sample levels, left and right interleaved; a level of
    /// 480 is full scale.
    pub fn apu_sample_levels(&self) -> (r: &[u32])
        ensures r@ == self.samples@,
    {
        self.samples.as_slice()
    }

    /// Take the waiting sample levels (left and right interleaved), leaving
    /// none.
    pub fn drain_samples(&mut self) -> (r: Vec<u32>)
        requires old(self).wf(),
        ensures
            final(self).wf(),
            r@ == old(self).samples@,
            final(self).view() == (CoreView { samples: Seq::empty(), ..old(self).view() }),
    {
        let mut out: Vec<u32> = Vec::new();
        std::mem::swap(&mut self.samples, &mut out);
        out
    }

    /// Drop the waiting samples.
    pub fn apu_clear_samples(&mut self)
        requires old(self).wf(),
        ensures
            final(self).wf(),
            final(self).view() == (CoreView { samples: Seq::empty(), ..old(self).view() }),
    {
        self.samples.clear();
    }

    pub fn apu_ch1_enabled(&self) -> (r: bool)
        ensures r == self.bus.apu.ch1.enabled,
    {
        self.bus.apu.ch1.enabled
    }

    pub fn apu_ch2_enabled(&self) -> (r: bool)
        ensures r == self.bus.apu.ch2.enabled,
    {
        self.bus.apu.ch2.enabled
    }

    pub fn apu_ch3_enabled(&self) -> (r: bool)
        ensures r == self.bus.apu.ch3.enabled,
    {
        self.bus.apu.ch3.enabled
    }

    pub fn apu_ch4_enabled(&self) -> (r: bool)
        ensures r == self.bus.apu.ch4.enabled,
    {
        self.bus.apu.ch4.enabled
    }

    pub fn total_cycles(&self) -> (r: u64)
        ensures r == self.total_cycles,
    {
        self.total_cycles
    }

    pub fn frame_count(&self) -> (r: u32)
        ensures r == self.frame_count,
    {
        self.frame_count
    }
}

/// A frame run that completes has used at least its whole cycle budget,
/// keeps that budget, and reports the instructions it counted.
pub proof fn law_completed_frame_uses_budget(v: CoreView)
    requires v.frame_budget <= CYCLES_PER_FRAME_DOUBLE,
    ensures
        v.frame_run().1 is Done ==> {
            &&& v.frame_run().0.frame_cycles >= v.frame_run().0.frame_budget
            &&& v.frame_run().0.frame_budget == v.frame_budget
            &&& v.frame_run().1 == FrameEvent::Done(v.frame_run().0.frame_instructions)
        },
    decreases (if v.frame_cycles < v.frame_budget { v.frame_budget - v.frame_cycles } else { 0 }),
{
    if v.frame_cycles < v.frame_budget && v.can_step() {
        let (w, cyc) = v.hw_step();
        let w2 = CoreView {
            frame_cycles: (v.frame_cycles + cyc) as u32,
            frame_instructions: (v.frame_instructions + 1) as u32,
            ..w
        };
        lemma_step_cycles(v.cpu, v.bus);
        if w2.capture_pending() is None {
            law_completed_frame_uses_budget(w2);
        }
    }
}

/// A sample run that ends normally has produced its target number of
/// stereo pairs or used its cycle budget.
pub proof fn law_sample_run_reaches_target(v: CoreView, before: int, target: int, max_cycles: int)
    requires max_cycles <= u64::MAX - 24,
    ensures
        v.samples_run(before, target, max_cycles).1 is Done ==>
            pairs_since(v.samples_run(before, target, max_cycles).0, before) >= target
                || v.samples_run(before, target, max_cycles).0.total_cycles >= max_cycles,
    decreases (if v.total_cycles < max_cycles { max_cycles - v.total_cycles } else { 0 }),
{
    let n = pairs_since(v, before);
    if !(n >= target || v.total_cycles >= max_cycles) {
        let (w, e) = v.single_step();
        lemma_single_step_cycles(v);
        if e is Ran {
            law_sample_run_reaches_target(w, before, target, max_cycles);
        }
    }
}

} // verus!

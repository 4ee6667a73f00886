//! The Space Invaders cabinet: its I/O ports with the shift register, and
//! the frame scheduler that drives the processor.
use vstd::prelude::*;
use crate::cpu::{
    EmuError, PortDir, State8080, lemma_step_cycles, loaded_memory, reset_state, step_spec,
};
use crate::machine::{MEMORY_SIZE, Machine};
use crate::registers::{RegisterPair, hi, word};

verus! {

/// What `IN` gets from a port that `port_in` describes.
pub open spec fn input_result(port: u8, v: Option<u8>) -> Result<u8, EmuError> {
    match v {
        Some(b) => Ok(b),
        None => Err(EmuError::UnsupportedPort { port, dir: PortDir::In }),
    }
}

/// The I/O ports that the processor reads with `IN` and writes with `OUT`.
pub trait IOState: Sized {
    /// The state is usable.
    spec fn wf(&self) -> bool;

    /// The byte that `input(port)` gives, or `None` where the port cannot
    /// be read.
    spec fn port_in(&self, port: u8) -> Option<u8>;

    /// The state after `output(port, value)`, or `None` where the port
    /// cannot be written.
    spec fn port_out(&self, port: u8, value: u8) -> Option<Self>;

    fn input(&self, port: u8) -> (r: Result<u8, EmuError>)
        requires
            self.wf(),
        ensures
            r == input_result(port, self.port_in(port)),
    ;

    fn output(&mut self, port: u8, value: u8) -> (r: Result<(), EmuError>)
        requires
            old(self).wf(),
        ensures
            final(self).wf(),
            match old(self).port_out(port, value) {
                Some(s) => r == Ok::<(), EmuError>(()) && *final(self) == s,
                None => r == Err::<(), EmuError>(EmuError::UnsupportedPort { port, dir: PortDir::Out })
                    && *final(self) == *old(self),
            },
    ;
}

/// The 8-bit window of the shift register that port 3 shows: bits
/// `15 - offset` down to `8 - offset`.
pub open spec fn shift_window(reg: u16, offset: u8) -> u8 {
    ((reg >> ((8 - offset) as u16)) & 0xff) as u8
}

/// The cabinet's ports: three input latches (the DIP switches on port 0,
/// the controls on ports 1 and 2) and the shift register with its offset.
#[derive(Clone, Copy, Debug, PartialEq, Eq, Structural)]
pub struct SpaceInvaderIO {
    pub port0: u8,
    pub port1: u8,
    pub port2: u8,
    pub shift_register: RegisterPair,
    pub shift_offset: u8,
}

impl IOState for SpaceInvaderIO {
    open spec fn wf(&self) -> bool {
        self.shift_offset < 8
    }

    open spec fn port_in(&self, port: u8) -> Option<u8> {
        if port == 0 {
            Some(self.port0)
        } else if port == 1 {
            Some(self.port1)
        } else if port == 2 {
            Some(self.port2)
        } else if port == 3 {
            Some(shift_window(self.shift_register.word, self.shift_offset))
        } else {
            None
        }
    }

    /// Port 2 sets the offset, port 4 shifts a byte in from the top; ports
    /// 3 and 5 (sound) and 6 (watchdog) are accepted and change nothing.
    open spec fn port_out(&self, port: u8, value: u8) -> Option<Self> {
        if port == 2 {
            Some(SpaceInvaderIO { shift_offset: value & 0b111, ..*self })
        } else if port == 4 {
            Some(
                SpaceInvaderIO {
                    shift_register: RegisterPair { word: word(value, hi(self.shift_register.word)) },
                    ..*self
                },
            )
        } else if port == 3 || port == 5 || port == 6 {
            Some(*self)
        } else {
            None
        }
    }

    fn input(&self, port: u8) -> (r: Result<u8, EmuError>) {
        match port {
            0 => Ok(self.port0),
            1 => Ok(self.port1),
            2 => Ok(self.port2),
            3 => Ok(((self.shift_register.both() >> (8 - self.shift_offset) as u16) & 0xff) as u8),
            _ => Err(EmuError::UnsupportedPort { port, dir: PortDir::In }),
        }
    }

    fn output(&mut self, port: u8, value: u8) -> (r: Result<(), EmuError>) {
        match port {
            2 => {
                self.shift_offset = value & 0b111;
                proof {
                    assert(value & 0b111 < 8) by (bit_vector);
                }
                Ok(())
            },
            4 => {
                let high = self.shift_register.msb();
                self.shift_register.set_lsb(high);
                self.shift_register.set_msb(value);
                Ok(())
            },
            3 | 5 | 6 => Ok(()),
            _ => Err(EmuError::UnsupportedPort { port, dir: PortDir::Out }),
        }
    }
}

impl SpaceInvaderIO {
    /// The ports at power-on.
    pub open spec fn new_spec() -> SpaceInvaderIO {
        SpaceInvaderIO {
            port0: 0b0111_0000,
            port1: 0b0001_0000,
            port2: 0,
            shift_register: RegisterPair { word: 0 },
            shift_offset: 0,
        }
    }

    pub fn new() -> (r: SpaceInvaderIO)
        ensures
            r.wf(),
            r == Self::new_spec(),
    {
        SpaceInvaderIO {
            port0: 0b0111_0000,
            port1: 0b0001_0000,
            port2: 0,
            shift_register: RegisterPair::new(),
            shift_offset: 0,
        }
    }
}

/// Width of the display, rotated upright.
pub const SCREEN_WIDTH: usize = 224;

/// Height of the display, rotated upright.
pub const SCREEN_HEIGHT: usize = 256;

/// Pixels in a frame.
pub const FRAME_PIXELS: usize = SCREEN_WIDTH * SCREEN_HEIGHT;

/// First byte of video memory.
pub const VIDEO_START: usize = 0x2400;

/// Bytes of video memory.
pub const VIDEO_SIZE: usize = 0x1C00;

/// Colour of a set pixel; a clear one is black.
pub const FOREGROUND: u32 = 0x00FF_FFFF;

/// Machine cycles in a 1/60 s frame at 4 MHz.
pub const CYCLES_PER_FRAME: u64 = 66_667;

/// Machine cycles up to the mid-screen interrupt.
pub const CYCLES_PER_HALF_FRAME: u64 = 33_333;

/// Whether bit `j` of `b` is set.
pub open spec fn bit_set(b: u8, j: u8) -> bool {
    (b >> j) & 1 == 1
}

/// The video bit that the pixel at `(x, y)` of the upright screen shows:
/// the screen is the video memory turned 90 degrees counter-clockwise.
pub open spec fn video_bit(x: int, y: int) -> int {
    256 * x + 255 - y
}

/// The colour of pixel `idx` (row-major, 224 to a row) for memory `mem`.
pub open spec fn pixel(mem: Seq<u8>, idx: int) -> u32 {
    let k = video_bit(idx % 224, idx / 224);
    if bit_set(mem[VIDEO_START + k / 8], (k % 8) as u8) {
        FOREGROUND
    } else {
        0
    }
}

/// The frame that the video memory of `mem` shows.
pub open spec fn raster(mem: Seq<u8>) -> Seq<u32> {
    Seq::new(FRAME_PIXELS as nat, |idx: int| pixel(mem, idx))
}

/// Runs instructions from `m` while fewer than `target` cycles are spent,
/// starting from `spent`: the state reached, and the cycles spent or the
/// failure that stopped the run.
pub open spec fn run_spec<IO: IOState>(m: Machine, io: IO, spent: int, target: int) -> (
    Machine,
    IO,
    Result<int, EmuError>,
)
    decreases target + 18 - spent,
    via run_spec_decreases::<IO>
{
    if spent >= target {
        (m, io, Ok(spent))
    } else {
        let s = step_spec(m, io);
        match s.2 {
            Ok(c) => run_spec(s.0, s.1, spent + c, target),
            Err(e) => (s.0, s.1, Err(e)),
        }
    }
}

#[via_fn]
proof fn run_spec_decreases<IO: IOState>(m: Machine, io: IO, spent: int, target: int) {
    lemma_step_cycles(m, io);
}

/// One frame from `m` with `surplus` cycles carried over: run to the
/// half-frame, interrupt 1, run to the full frame, interrupt 2. The state
/// reached, and the cycles over the frame or the failure.
pub open spec fn frame_spec(m: Machine, io: SpaceInvaderIO, surplus: int) -> (
    Machine,
    SpaceInvaderIO,
    Result<int, EmuError>,
) {
    let first = run_spec(m, io, surplus, CYCLES_PER_HALF_FRAME as int);
    match first.2 {
        Err(e) => (first.0, first.1, Err(e)),
        Ok(s1) => {
            let second = run_spec(first.0.interrupted(1), first.1, s1, CYCLES_PER_FRAME as int);
            match second.2 {
                Err(e) => (second.0, second.1, Err(e)),
                Ok(s2) => (second.0.interrupted(2), second.1, Ok(s2 - CYCLES_PER_FRAME)),
            }
        },
    }
}

/// A cycle count as an integer, failures unchanged.
pub open spec fn widen(r: Result<u64, EmuError>) -> Result<int, EmuError> {
    match r {
        Ok(v) => Ok(v as int),
        Err(e) => Err(e),
    }
}

/// The state of the cabinet's controls.
#[derive(Clone, Copy, Debug, PartialEq, Eq, Structural)]
pub struct Controls {
    pub coin: bool,
    pub start1: bool,
    pub start2: bool,
    pub p1_left: bool,
    pub p1_right: bool,
    pub p1_fire: bool,
    pub p2_left: bool,
    pub p2_right: bool,
    pub p2_fire: bool,
}

pub open spec fn flag_bit(b: bool, mask: u8) -> u8 {
    if b {
        mask
    } else {
        0
    }
}

/// Port 1: coin (bit 0), 2P start (bit 1), 1P start (bit 2), fire (bit 4),
/// left (bit 5), right (bit 6).
pub open spec fn port1_of(c: Controls) -> u8 {
    flag_bit(c.coin, 0x01) | flag_bit(c.start2, 0x02) | flag_bit(c.start1, 0x04) | flag_bit(
        c.p1_fire,
        0x10,
    ) | flag_bit(c.p1_left, 0x20) | flag_bit(c.p1_right, 0x40)
}

/// Port 2: the DIP switch bits (0 to 3 and 7) of `dip`, and player 2's
/// fire (bit 4), left (bit 5) and right (bit 6).
pub open spec fn port2_of(c: Controls, dip: u8) -> u8 {
    (dip & 0x8F) | flag_bit(c.p2_fire, 0x10) | flag_bit(c.p2_left, 0x20) | flag_bit(
        c.p2_right,
        0x40,
    )
}

fn flag_mask(b: bool, mask: u8) -> (r: u8)
    ensures
        r == flag_bit(b, mask),
{
    if b {
        mask
    } else {
        0
    }
}

/// A running game: the processor, the cabinet's ports, the cycles that the
/// last frame ran over, and the frame shown.
pub struct GameState {
    cpu: State8080,
    io_state: SpaceInvaderIO,
    cycle_surplus: u64,
    window_state: Vec<u32>,
}

impl GameState {
    pub closed spec fn machine(&self) -> Machine {
        self.cpu@
    }

    pub closed spec fn io(&self) -> SpaceInvaderIO {
        self.io_state
    }

    pub closed spec fn surplus(&self) -> u64 {
        self.cycle_surplus
    }

    pub closed spec fn frame(&self) -> Seq<u32> {
        self.window_state@
    }

    pub closed spec fn wf(&self) -> bool {
        &&& self.cpu.wf()
        &&& self.io_state.wf()
        &&& self.window_state@.len() == FRAME_PIXELS
    }

    /// A game with `rom` loaded at address 0 and started there; fails when
    /// the image is over 64 KiB.
    pub fn new_game(rom: &[u8]) -> (r: Result<GameState, EmuError>)
        ensures
            match r {
                Ok(g) => rom@.len() <= MEMORY_SIZE && g.wf() && g.machine() == reset_state(
                    loaded_memory(rom@, 0),
                    0,
                ) && g.io() == SpaceInvaderIO::new_spec() && g.surplus() == 0 && g.frame()
                    == Seq::new(FRAME_PIXELS as nat, |i: int| 0u32),
                Err(e) => rom@.len() > MEMORY_SIZE && e == EmuError::RomTooLarge {
                    offset: 0,
                    len: rom@.len() as usize,
                },
            },
    {
        let cpu = match State8080::load_from_rom(rom, 0, 0) {
            Ok(cpu) => cpu,
            Err(e) => return Err(e),
        };
        let window_state = vec![0u32; FRAME_PIXELS];
        let g = GameState { cpu, io_state: SpaceInvaderIO::new(), cycle_surplus: 0, window_state };
        assert(g.frame() =~= Seq::new(FRAME_PIXELS as nat, |i: int| 0u32));
        Ok(g)
    }

    /// The processor.
    pub fn cpu(&self) -> (r: &State8080)
        ensures
            r@ == self.machine(),
    {
        &self.cpu
    }

    /// The cabinet's ports.
    pub fn io_state(&self) -> (r: &SpaceInvaderIO)
        ensures
            *r == self.io(),
    {
        &self.io_state
    }

    /// The last frame drawn, 224 pixels to a row, 256 rows.
    pub fn frame_buffer(&self) -> (r: &[u32])
        ensures
            r@ == self.frame(),
    {
        self.window_state.as_slice()
    }

    /// Steps the processor from `spent` cycles while fewer than `target`
    /// are spent.
    fn run_until(&mut self, start: u64, target: u64) -> (r: Result<u64, EmuError>)
        requires
            old(self).wf(),
            target <= CYCLES_PER_FRAME,
        ensures
            final(self).wf(),
            (final(self).machine(), final(self).io(), widen(r)) == run_spec(
                old(self).machine(),
                old(self).io(),
                start as int,
                target as int,
            ),
            r is Ok ==> r->Ok_0 >= target,
            final(self).surplus() == old(self).surplus(),
            final(self).frame() == old(self).frame(),
    {
        let mut spent = start;
        while spent < target
            invariant
                self.wf(),
                target <= CYCLES_PER_FRAME,
                run_spec(self.machine(), self.io(), spent as int, target as int) == run_spec(
                    old(self).machine(),
                    old(self).io(),
                    start as int,
                    target as int,
                ),
                self.surplus() == old(self).surplus(),
                self.frame() == old(self).frame(),
            decreases target + 18 - spent,
        {
            proof {
                lemma_step_cycles(self.machine(), self.io());
            }
            match self.cpu.emulate(&mut self.io_state) {
                Ok(c) => spent = spent + c,
                Err(e) => return Err(e),
            }
        }
        Ok(spent)
    }

    /// Draws the video memory into the frame.
    fn render(&mut self)
        requires
            old(self).wf(),
        ensures
            final(self).wf(),
            final(self).frame() == raster(old(self).machine().mem),
            final(self).machine() == old(self).machine(),
            final(self).io() == old(self).io(),
            final(self).surplus() == old(self).surplus(),
    {
        let mem = self.cpu.memory();
        let mut idx: usize = 0;
        while idx < FRAME_PIXELS
            invariant
                idx <= FRAME_PIXELS,
                mem@ == self.cpu@.mem,
                self.wf(),
                self.machine() == old(self).machine(),
                self.io() == old(self).io(),
                self.surplus() == old(self).surplus(),
                forall|j: int| 0 <= j < idx ==> self.window_state@[j] == pixel(mem@, j),
            decreases FRAME_PIXELS - idx,
        {
            let x = idx % SCREEN_WIDTH;
            let y = idx / SCREEN_WIDTH;
            let k = 256 * x + 255 - y;
            let byte = mem[VIDEO_START + k / 8];
            let color = if (byte >> (k % 8) as u8) & 1 == 1 {
                FOREGROUND
            } else {
                0
            };
            self.window_state.set(idx, color);
            idx = idx + 1;
        }
        assert(self.frame() =~= raster(old(self).machine().mem));
    }

    /// Runs one frame: the first half, the mid-screen interrupt (RST 1),
    /// the second half, the end-of-frame interrupt (RST 2); then draws the
    /// frame. The cycles that a half runs over count towards the next.
    pub fn next_frame(&mut self) -> (r: Result<(), EmuError>)
        requires
            old(self).wf(),
        ensures
            final(self).wf(),
            ({
                let f = frame_spec(old(self).machine(), old(self).io(), old(self).surplus() as int);
                &&& final(self).machine() == f.0
                &&& final(self).io() == f.1
                &&& match f.2 {
                    Ok(s) => r is Ok && final(self).surplus() == s && final(self).frame() == raster(
                        f.0.mem,
                    ),
                    Err(e) => r == Err::<(), EmuError>(e),
                }
            }),
    {
        let spent = match self.run_until(self.cycle_surplus, CYCLES_PER_HALF_FRAME) {
            Ok(s) => s,
            Err(e) => return Err(e),
        };
        self.cpu.interrupt(1);
        let spent = match self.run_until(spent, CYCLES_PER_FRAME) {
            Ok(s) => s,
            Err(e) => return Err(e),
        };
        self.cpu.interrupt(2);
        self.cycle_surplus = spent - CYCLES_PER_FRAME;
        self.render();
        Ok(())
    }

    /// Writes the controls into the input ports.
    pub fn handle_input(&mut self, controls: Controls)
        requires
            old(self).wf(),
        ensures
            final(self).wf(),
            final(self).io() == (SpaceInvaderIO {
                port1: port1_of(controls),
                port2: port2_of(controls, old(self).io().port2),
                ..old(self).io()
            }),
            final(self).machine() == old(self).machine(),
            final(self).surplus() == old(self).surplus(),
            final(self).frame() == old(self).frame(),
    {
        self.io_state.port1 = flag_mask(controls.coin, 0x01) | flag_mask(controls.start2, 0x02)
            | flag_mask(controls.start1, 0x04) | flag_mask(controls.p1_fire, 0x10) | flag_mask(
            controls.p1_left,
            0x20,
        ) | flag_mask(controls.p1_right, 0x40);
        self.io_state.port2 = (self.io_state.port2 & 0x8F) | flag_mask(controls.p2_fire, 0x10)
            | flag_mask(controls.p2_left, 0x20) | flag_mask(controls.p2_right, 0x40);
    }
}

/// Bit `j` of video byte `i` is shown at `x = (8i + j) / 256`,
/// `y = 255 - (8i + j) % 256` of the upright screen, white when set and
/// black when clear.
pub proof fn lemma_raster_mapping(mem: Seq<u8>, i: int, j: int)
    requires
        mem.len() == MEMORY_SIZE,
        0 <= i < VIDEO_SIZE,
        0 <= j < 8,
    ensures
        ({
            let k = 8 * i + j;
            let x = k / 256;
            let y = 255 - k % 256;
            &&& 0 <= x < SCREEN_WIDTH
            &&& 0 <= y < SCREEN_HEIGHT
            &&& raster(mem)[x + SCREEN_WIDTH * y] == if bit_set(mem[VIDEO_START + i], j as u8) {
                FOREGROUND
            } else {
                0
            }
        }),
{
    let k = 8 * i + j;
    let x = k / 256;
    let y = 255 - k % 256;
    let idx = x + 224 * y;
    assert(0 <= x < 224);
    assert(0 <= idx < FRAME_PIXELS) by (nonlinear_arith)
        requires
            0 <= x < 224,
            0 <= y < 256,
            idx == x + 224 * y,
    ;
    assert(idx % 224 == x && idx / 224 == y) by (nonlinear_arith)
        requires
            0 <= x < 224,
            0 <= y < 256,
            idx == x + 224 * y,
    ;
    assert(video_bit(x, y) == k);
    assert(k / 8 == i && k % 8 == j);
}

} // verus!

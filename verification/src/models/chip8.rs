use vstd::prelude::*;

use crate::font;
use crate::input::keyboard::Keyboard;
use crate::input::keyboard::pressed_key;
use crate::models::errors::ChipErrors;
use crate::models::opcode::Opcode;
use crate::models::opcode::decode;
use crate::models::opcode::lemma_decode_fields_bounded;
use crate::models::opcode::op_fields_bounded;

verus! {

/// Width of the framebuffer in cells.
pub const CHIP8_WIDTH: usize = 64;

/// Height of the framebuffer in cells.
pub const CHIP8_HEIGHT: usize = 32;

/// The machine state as mathematics: what every contract of the execution
/// engine speaks about. The framebuffer is a row-major sequence of
/// 64 x 32 = 2048 one-bit cells; cell (x, y) sits at index `y * 64 + x`.
#[verifier::ext_equal]
pub ghost struct ChipView {
    /// Program counter.
    pub pc: u16,
    /// The last instruction word fetched.
    pub opcode: u16,
    /// Address register `I`.
    pub i: u16,
    /// Stack pointer: the index of the next free stack slot.
    pub sp: u16,
    /// The 4096 bytes of memory.
    pub mem: Seq<u8>,
    /// Delay timer.
    pub delay: u8,
    /// Sound timer.
    pub sound: u8,
    /// The framebuffer, row-major, each cell 0 or 1.
    pub gfx: Seq<u8>,
    /// The 16 return-address slots.
    pub stack: Seq<u16>,
    /// The 16 general-purpose registers.
    pub v: Seq<u8>,
    /// The register a pending key-wait will fill.
    pub wait_reg: u8,
    /// Whether a key-wait is pending; while it is, no fetch happens.
    pub waiting: bool,
}

impl ChipView {
    /// Well-formedness: the sizes are those of the target machine, the
    /// stack pointer stays within its 16 slots, the wait target names a
    /// register, and every framebuffer cell is one bit.
    pub open spec fn wf(self) -> bool {
        &&& self.mem.len() == 4096
        &&& self.v.len() == 16
        &&& self.stack.len() == 16
        &&& self.gfx.len() == 2048
        &&& self.sp <= 16
        &&& self.wait_reg < 16
        &&& forall|j: int| 0 <= j < 2048 ==> self.gfx[j] <= 1
    }
}

/// The machine right after construction: the glyph table at the bottom of
/// memory, the program from offset 512, everything else zero, and the
/// program counter at 512.
pub open spec fn initial_state(program: Seq<u8>) -> ChipView {
    ChipView {
        pc: 512,
        opcode: 0,
        i: 0,
        sp: 0,
        mem: Seq::new(
            4096,
            |j: int|
                if 0 <= j < 80 {
                    font::font_spec()[j]
                } else if 512 <= j < 512 + program.len() {
                    program[j - 512]
                } else {
                    0u8
                },
        ),
        delay: 0,
        sound: 0,
        gfx: Seq::new(2048, |j: int| 0u8),
        stack: Seq::new(16, |j: int| 0u16),
        v: Seq::new(16, |j: int| 0u8),
        wait_reg: 0,
        waiting: false,
    }
}

/// The register file, memory, stack, timers, framebuffer and input-wait
/// latch of one machine, owned and mutated exclusively by the execution
/// engine.
pub struct Chip8 {
    pc: u16,
    opcode: u16,
    i: u16,
    sp: u16,
    memory: Vec<u8>,
    delay_timer: u8,
    sound_timer: u8,
    gfx: Vec<u8>,
    stack: Vec<u16>,
    v: Vec<u8>,
    keyboard_register: u8,
    keyboard_waiting: bool,
}

impl View for Chip8 {
    type V = ChipView;

    closed spec fn view(&self) -> ChipView {
        ChipView {
            pc: self.pc,
            opcode: self.opcode,
            i: self.i,
            sp: self.sp,
            mem: self.memory@,
            delay: self.delay_timer,
            sound: self.sound_timer,
            gfx: self.gfx@,
            stack: self.stack@,
            v: self.v@,
            wait_reg: self.keyboard_register,
            waiting: self.keyboard_waiting,
        }
    }
}

impl Chip8 {
    /// The machine invariant, stated over the view.
    pub open spec fn wf(&self) -> bool {
        self@.wf()
    }

    /// Builds a machine holding `program` from offset 512. A program
    /// longer than the 3584 bytes of memory above that offset cannot be
    /// loaded; `try_new` rejects such a program instead of requiring the
    /// caller to know its length.
    pub fn new(program: Vec<u8>) -> (r: Self)
        requires
            program@.len() <= 4096 - 512,
        ensures
            r.wf(),
            r@ == initial_state(program@),
    {
        let mut memory: Vec<u8> = Vec::new();
        let mut j: usize = 0;
        while j < 4096
            invariant
                memory@.len() == j,
                j <= 4096,
                forall|t: int| 0 <= t < j ==> memory@[t] == 0u8,
            decreases 4096 - j,
        {
            memory.push(0);
            j = j + 1;
        }

        let f = font::font_bytes();
        let mut j: usize = 0;
        while j < 80
            invariant
                memory@.len() == 4096,
                f@ == font::font_spec(),
                j <= 80,
                forall|t: int| 0 <= t < j ==> memory@[t] == font::font_spec()[t],
                forall|t: int| j <= t < 4096 ==> memory@[t] == 0u8,
            decreases 80 - j,
        {
            memory[j] = f[j];
            j = j + 1;
        }

        let mut j: usize = 0;
        while j < program.len()
            invariant
                memory@.len() == 4096,
                program@.len() <= 4096 - 512,
                j <= program@.len(),
                forall|t: int| 0 <= t < 80 ==> memory@[t] == font::font_spec()[t],
                forall|t: int| 512 <= t < 512 + j ==> memory@[t] == program@[t - 512],
                forall|t: int|
                    80 <= t < 4096 && !(512 <= t < 512 + j) ==> memory@[t] == 0u8,
            decreases program@.len() - j,
        {
            memory[512 + j] = program[j];
            j = j + 1;
        }

        let mut gfx: Vec<u8> = Vec::new();
        let mut j: usize = 0;
        while j < 2048
            invariant
                gfx@.len() == j,
                j <= 2048,
                forall|t: int| 0 <= t < j ==> gfx@[t] == 0u8,
            decreases 2048 - j,
        {
            gfx.push(0);
            j = j + 1;
        }

        let mut stack: Vec<u16> = Vec::new();
        let mut j: usize = 0;
        while j < 16
            invariant
                stack@.len() == j,
                j <= 16,
                forall|t: int| 0 <= t < j ==> stack@[t] == 0u16,
            decreases 16 - j,
        {
            stack.push(0);
            j = j + 1;
        }

        let mut v: Vec<u8> = Vec::new();
        let mut j: usize = 0;
        while j < 16
            invariant
                v@.len() == j,
                j <= 16,
                forall|t: int| 0 <= t < j ==> v@[t] == 0u8,
            decreases 16 - j,
        {
            v.push(0);
            j = j + 1;
        }

        let r = Chip8 {
            pc: 0x200,
            opcode: 0,
            i: 0,
            sp: 0,
            memory,
            delay_timer: 0,
            sound_timer: 0,
            gfx,
            stack,
            v,
            keyboard_register: 0,
            keyboard_waiting: false,
        };
        proof {
            assert(r@.mem =~= initial_state(program@).mem);
            assert(r@.gfx =~= initial_state(program@).gfx);
            assert(r@.stack =~= initial_state(program@).stack);
            assert(r@.v =~= initial_state(program@).v);
            assert(r@ =~= initial_state(program@));
        }
        r
    }

    /// Builds a machine from `program`, or reports that the program does
    /// not fit in the 3584 bytes of memory above offset 512.
    pub fn try_new(program: Vec<u8>) -> (r: Result<Self, ChipErrors>)
        ensures
            program@.len() <= 4096 - 512 ==> (r matches Ok(c) && c.wf() && c@ == initial_state(
                program@,
            )),
            program@.len() > 4096 - 512 ==> (r matches Err(e) && e == ChipErrors::OutOfBounds),
    {
        if program.len() > 4096 - 512 {
            return Err(ChipErrors::OutOfBounds);
        }
        Ok(Chip8::new(program))
    }

    /// The program counter.
    pub fn get_pc(&self) -> (r: u16)
        ensures
            r == self@.pc,
    {
        self.pc
    }

    /// The address register `I`.
    pub fn get_i(&self) -> (r: u16)
        ensures
            r == self@.i,
    {
        self.i
    }

    /// The stack pointer.
    pub fn get_sp(&self) -> (r: u16)
        ensures
            r == self@.sp,
    {
        self.sp
    }

    /// General-purpose register `x`.
    pub fn get_v(&self, x: u8) -> (r: u8)
        requires
            self.wf(),
            x < 16,
        ensures
            r == self@.v[x as int],
    {
        self.v[x as usize]
    }

    /// The memory byte at `addr`.
    pub fn get_mem(&self, addr: u16) -> (r: u8)
        requires
            self.wf(),
            addr < 4096,
        ensures
            r == self@.mem[addr as int],
    {
        self.memory[addr as usize]
    }

    /// The delay timer.
    pub fn get_delay(&self) -> (r: u8)
        ensures
            r == self@.delay,
    {
        self.delay_timer
    }

    /// The sound timer. Its transition from 1 to 0 during a cycle is the
    /// tone-stop event; the caller observes it through this value.
    pub fn get_sound(&self) -> (r: u8)
        ensures
            r == self@.sound,
    {
        self.sound_timer
    }

    /// The framebuffer cell at column `x`, row `y`.
    pub fn get_gfx(&self, x: usize, y: usize) -> (r: u8)
        requires
            self.wf(),
            x < 64,
            y < 32,
        ensures
            r == self@.gfx[y * 64 + x],
    {
        self.gfx[y * 64 + x]
    }

    /// Whether a key-wait is pending.
    pub fn is_waiting(&self) -> (r: bool)
        ensures
            r == self@.waiting,
    {
        self.keyboard_waiting
    }
}

/// The 16-bit instruction word at the program counter: the high byte at
/// `pc`, the low byte at `pc + 1`.
pub open spec fn fetch_word(s: ChipView) -> u16 {
    ((s.mem[s.pc as int] as u16) << 8) | (s.mem[s.pc as int + 1] as u16)
}

/// Each nonzero timer counts down by one in every executed cycle; the
/// sound timer reaching zero this way is the tone-stop event.
pub open spec fn tick_timers(s: ChipView) -> ChipView {
    ChipView {
        delay: if s.delay > 0 {
            (s.delay - 1) as u8
        } else {
            s.delay
        },
        sound: if s.sound > 0 {
            (s.sound - 1) as u8
        } else {
            s.sound
        },
        ..s
    }
}

/// Whether bit `c` of a sprite row is set, counting from the leftmost bit.
pub open spec fn sprite_bit(byte: u8, c: u8) -> bool {
    byte & (0x80u8 >> c) != 0
}

/// Every access a draw of `n` sprite rows from address `i` at point
/// (`vx`, `vy`) would make stays inside memory and the framebuffer:
/// the row bytes are in memory, and every set bit lands on the grid.
/// Coordinates are not wrapped; a sprite that would leave the grid is
/// rejected instead.
pub open spec fn draw_ok(mem: Seq<u8>, i: int, vx: int, vy: int, n: int) -> bool {
    &&& (n > 0 ==> i + n <= 4096)
    &&& forall|l: int, c: u8|
        0 <= l < n && c < 8 && #[trigger] sprite_bit(mem[i + l], c) ==> vy + l < 32 && vx + c < 64
}

/// One sprite row XORed into the framebuffer, from column bit `c` on: the
/// new framebuffer, and whether some set cell was turned off.
pub open spec fn draw_row_from(gfx: Seq<u8>, byte: u8, vx: int, y: int, c: u8) -> (Seq<u8>, bool)
    decreases 8 - c,
{
    if c >= 8 {
        (gfx, false)
    } else {
        let idx = y * 64 + vx + c;
        let hit = sprite_bit(byte, c);
        let g1 = if hit {
            gfx.update(idx, gfx[idx] ^ 1)
        } else {
            gfx
        };
        let rest = draw_row_from(g1, byte, vx, y, (c + 1) as u8);
        (rest.0, (hit && gfx[idx] == 1) || rest.1)
    }
}

/// Sprite rows `l` through `n - 1` XORed into the framebuffer: the new
/// framebuffer, and whether any row collided.
pub open spec fn draw_from(
    gfx: Seq<u8>,
    mem: Seq<u8>,
    i: int,
    vx: int,
    vy: int,
    l: u8,
    n: u8,
) -> (Seq<u8>, bool)
    decreases n - l,
{
    if l >= n {
        (gfx, false)
    } else {
        let row = draw_row_from(gfx, mem[i + l], vx, vy + l, 0);
        let rest = draw_from(row.0, mem, i, vx, vy, (l + 1) as u8, n);
        (rest.0, row.1 || rest.1)
    }
}

/// The transition of one decoded operation, taken after the fetch and the
/// timer tick: the next machine state, and either "did the framebuffer
/// change" or a fatal error. On an error the state is left as it was.
pub open spec fn apply_op(s: ChipView, op: Opcode, key: Option<u8>, rnd: u8) -> (
    ChipView,
    Result<bool, ChipErrors>,
) {
    let pc2 = (s.pc + 2) as u16;
    let pc4 = (s.pc + 4) as u16;
    match op {
        Opcode::SetI(a) => (ChipView { i: a, pc: pc2, ..s }, Ok(false)),
        Opcode::SetVConstant(x, n) => (
            ChipView { v: s.v.update(x as int, n), pc: pc2, ..s },
            Ok(false),
        ),
        Opcode::SetV(x, y) => (
            ChipView { v: s.v.update(x as int, s.v[y as int]), pc: pc2, ..s },
            Ok(false),
        ),
        Opcode::Or(x, y) => (
            ChipView { v: s.v.update(x as int, s.v[x as int] | s.v[y as int]), pc: pc2, ..s },
            Ok(false),
        ),
        Opcode::And(x, y) => (
            ChipView { v: s.v.update(x as int, s.v[x as int] & s.v[y as int]), pc: pc2, ..s },
            Ok(false),
        ),
        Opcode::Xor(x, y) => (
            ChipView { v: s.v.update(x as int, s.v[x as int] ^ s.v[y as int]), pc: pc2, ..s },
            Ok(false),
        ),
        Opcode::ShiftLeft(x) => {
            let v1 = s.v.update(15, (s.v[x as int] & 0x80) >> 7);
            (
                ChipView { v: v1.update(x as int, v1[x as int].wrapping_shl(1)), pc: pc2, ..s },
                Ok(false),
            )
        },
        Opcode::ShiftRight(x) => {
            let v1 = s.v.update(15, s.v[x as int] & 0x1);
            (
                ChipView { v: v1.update(x as int, v1[x as int].wrapping_shr(1)), pc: pc2, ..s },
                Ok(false),
            )
        },
        Opcode::SetDelayTimer(x) => (ChipView { delay: s.v[x as int], pc: pc2, ..s }, Ok(false)),
        Opcode::Dump(x) => if s.i + x < 4096 {
            (
                ChipView {
                    mem: Seq::new(
                        4096,
                        |t: int|
                            if s.i <= t <= s.i + x {
                                s.v[t - s.i]
                            } else {
                                s.mem[t]
                            },
                    ),
                    pc: pc2,
                    ..s
                },
                Ok(false),
            )
        } else {
            (s, Err(ChipErrors::OutOfBounds))
        },
        Opcode::Load(x) => if s.i + x < 4096 {
            (
                ChipView {
                    v: Seq::new(
                        16,
                        |t: int|
                            if t <= x {
                                s.mem[s.i + t]
                            } else {
                                s.v[t]
                            },
                    ),
                    pc: pc2,
                    ..s
                },
                Ok(false),
            )
        } else {
            (s, Err(ChipErrors::OutOfBounds))
        },
        Opcode::SpriteAddress(x) => (
            ChipView { i: (s.v[x as int] * 5) as u16, pc: pc2, ..s },
            Ok(false),
        ),
        Opcode::GetKey(x) => (
            ChipView { waiting: true, wait_reg: x, pc: pc2, ..s },
            Ok(false),
        ),
        Opcode::Subtract(x, y) => {
            let flag: u8 = if s.v[x as int] > s.v[y as int] {
                1
            } else {
                0
            };
            let v1 = s.v.update(15, flag);
            (
                ChipView {
                    v: v1.update(x as int, v1[x as int].wrapping_sub(v1[y as int])),
                    pc: pc2,
                    ..s
                },
                Ok(false),
            )
        },
        Opcode::SubtractOpposite(x, y) => {
            let flag: u8 = if s.v[x as int] < s.v[y as int] {
                1
            } else {
                0
            };
            let v1 = s.v.update(15, flag);
            (
                ChipView {
                    v: v1.update(x as int, v1[y as int].wrapping_sub(v1[x as int])),
                    pc: pc2,
                    ..s
                },
                Ok(false),
            )
        },
        Opcode::ClearScreen => (
            ChipView { gfx: Seq::new(2048, |t: int| 0u8), pc: pc2, ..s },
            Ok(true),
        ),
        Opcode::ReturnFromSubroutine => if s.sp >= 1 {
            (ChipView { pc: s.stack[s.sp - 1], sp: (s.sp - 1) as u16, ..s }, Ok(false))
        } else {
            (s, Err(ChipErrors::OutOfBounds))
        },
        Opcode::CallSubroutine(a) => if s.sp < 16 {
            (
                ChipView {
                    stack: s.stack.update(s.sp as int, pc2),
                    sp: (s.sp + 1) as u16,
                    pc: a,
                    ..s
                },
                Ok(false),
            )
        } else {
            (s, Err(ChipErrors::OutOfBounds))
        },
        Opcode::Add(x, y) => {
            let sum = (s.v[x as int] + s.v[y as int]) as u16;
            let flag: u8 = if sum > 0xFF {
                1
            } else {
                0
            };
            (
                ChipView {
                    v: s.v.update(15, flag).update(x as int, (sum & 0xFF) as u8),
                    pc: pc2,
                    ..s
                },
                Ok(false),
            )
        },
        Opcode::AddConstant(x, n) => {
            let total = (s.v[x as int] + n) as u16;
            (
                ChipView { v: s.v.update(x as int, (total & 0xFF) as u8), pc: pc2, ..s },
                Ok(false),
            )
        },
        Opcode::RandAnd(x, n) => (
            ChipView { v: s.v.update(x as int, rnd & n), pc: pc2, ..s },
            Ok(false),
        ),
        Opcode::GetDelayTimer(x) => (
            ChipView { v: s.v.update(x as int, s.delay), pc: pc2, ..s },
            Ok(false),
        ),
        Opcode::AddMemory(x) => if s.i + s.v[x as int] <= 0xFFFF {
            (ChipView { i: (s.i + s.v[x as int]) as u16, pc: pc2, ..s }, Ok(false))
        } else {
            (s, Err(ChipErrors::OutOfBounds))
        },
        Opcode::Jump(a) => (ChipView { pc: a, ..s }, Ok(false)),
        Opcode::JumpPlus(a) => if a + s.v[0] <= 0xFFFF {
            (ChipView { pc: (a + s.v[0]) as u16, ..s }, Ok(false))
        } else {
            (s, Err(ChipErrors::OutOfBounds))
        },
        Opcode::BinaryCodedDecimal(x) => if s.i + 2 < 4096 {
            let val = s.v[x as int];
            (
                ChipView {
                    mem: s.mem.update(s.i as int, val / 100).update(
                        s.i + 1,
                        (val / 10) % 10,
                    ).update(s.i + 2, val % 10),
                    pc: pc2,
                    ..s
                },
                Ok(false),
            )
        } else {
            (s, Err(ChipErrors::OutOfBounds))
        },
        Opcode::SkipRegistersEqual(x, y) => (
            ChipView {
                pc: if s.v[x as int] == s.v[y as int] {
                    pc4
                } else {
                    pc2
                },
                ..s
            },
            Ok(false),
        ),
        Opcode::SkipRegistersNonEqual(x, y) => (
            ChipView {
                pc: if s.v[x as int] != s.v[y as int] {
                    pc4
                } else {
                    pc2
                },
                ..s
            },
            Ok(false),
        ),
        Opcode::SkipEqual(x, n) => (
            ChipView {
                pc: if s.v[x as int] == n {
                    pc4
                } else {
                    pc2
                },
                ..s
            },
            Ok(false),
        ),
        Opcode::SkipNonEqual(x, n) => (
            ChipView {
                pc: if s.v[x as int] != n {
                    pc4
                } else {
                    pc2
                },
                ..s
            },
            Ok(false),
        ),
        Opcode::SkipKeyEqual(x) => (
            ChipView {
                pc: if key == Some(s.v[x as int]) {
                    pc4
                } else {
                    pc2
                },
                ..s
            },
            Ok(false),
        ),
        Opcode::SkipKeyNonEqual(x) => (
            ChipView {
                pc: if key != Some(s.v[x as int]) {
                    pc4
                } else {
                    pc2
                },
                ..s
            },
            Ok(false),
        ),
        Opcode::Draw(x, y, n) => {
            let v1 = s.v.update(15, 0u8);
            let vx = v1[x as int];
            let vy = v1[y as int];
            if draw_ok(s.mem, s.i as int, vx as int, vy as int, n as int) {
                let d = draw_from(s.gfx, s.mem, s.i as int, vx as int, vy as int, 0, n);
                (
                    ChipView {
                        gfx: d.0,
                        v: v1.update(
                            15,
                            if d.1 {
                                1u8
                            } else {
                                0u8
                            },
                        ),
                        pc: pc2,
                        ..s
                    },
                    Ok(true),
                )
            } else {
                (s, Err(ChipErrors::OutOfBounds))
            }
        },
    }
}

/// One call of the execution engine. While the input-wait latch is set,
/// the cycle only checks the supplied key and never fetches; otherwise it
/// fetches the word at the program counter, decodes it, ticks the timers
/// and applies the operation. Yields the next machine state, and either
/// "did the framebuffer change" or the fatal error.
pub open spec fn cycle_spec(s: ChipView, key: Option<u8>, rnd: u8) -> (
    ChipView,
    Result<bool, ChipErrors>,
) {
    if s.waiting {
        (
            match key {
                Some(k) => ChipView { waiting: false, v: s.v.update(s.wait_reg as int, k), ..s },
                None => s,
            },
            Ok(false),
        )
    } else if s.pc + 1 >= 4096 {
        (s, Err(ChipErrors::OutOfBounds))
    } else {
        let word = fetch_word(s);
        let s1 = ChipView { opcode: word, ..s };
        match decode(word) {
            Err(e) => (s1, Err(e)),
            Ok(op) => apply_op(tick_timers(s1), op, key, rnd),
        }
    }
}

/// Whether state `post` and outcome `r` are what one cycle from `pre`
/// yields under the pressed key `key` and the random byte `rnd`.
pub open spec fn cycle_matches(
    pre: ChipView,
    post: ChipView,
    key: Option<u8>,
    rnd: u8,
    r: Result<bool, ChipErrors>,
) -> bool {
    (post, r) == cycle_spec(pre, key, rnd)
}

/// What one cycle yields: whether the framebuffer changed this cycle, and
/// a copy of its 2048 cells, row-major.
pub struct CycleResult {
    /// The framebuffer cells after the cycle, row-major, each 0 or 1.
    pub gfx: Vec<u8>,
    /// Whether the cycle changed the framebuffer.
    pub draw_update: bool,
}

/// The cycle outcome a `CycleResult` reports, with the framebuffer copy
/// dropped.
pub open spec fn cycle_flag(r: Result<CycleResult, ChipErrors>) -> Result<bool, ChipErrors> {
    match r {
        Ok(cr) => Ok(cr.draw_update),
        Err(e) => Err(e),
    }
}

/// Relies on rand::random: a uniformly distributed byte from the
/// thread-local generator. Nothing is assumed about the value.
#[verifier::external_body]
fn random_byte() -> u8 {
    rand::random::<u8>()
}

impl Chip8 {
    /// Advances the machine by one cycle, with `key` the pressed key the
    /// caller's input snapshot reports and `rnd` the random byte this
    /// cycle may consume. The whole transition is `cycle_spec`.
    pub fn step(&mut self, key: Option<u8>, rnd: u8) -> (r: Result<bool, ChipErrors>)
        requires
            old(self).wf(),
        ensures
            final(self).wf(),
            (final(self)@, r) == cycle_spec(old(self)@, key, rnd),
    {
        if self.keyboard_waiting {
            if let Some(k) = key {
                self.keyboard_waiting = false;
                self.v[self.keyboard_register as usize] = k;
            }
            proof {
                assert(self@ =~= cycle_spec(old(self)@, key, rnd).0);
            }
            return Ok(false);
        }
        if self.pc >= 4095 {
            return Err(ChipErrors::OutOfBounds);
        }

        let word = ((self.memory[self.pc as usize] as u16) << 8) | (self.memory[self.pc as usize
            + 1] as u16);
        self.opcode = word;
        let ghost s1 = ChipView { opcode: word, ..old(self)@ };
        let operation = match Opcode::parse(word) {
            Ok(op) => op,
            Err(e) => {
                proof {
                    assert(self@ =~= s1);
                }
                return Err(e);
            },
        };
        proof {
            lemma_decode_fields_bounded(word);
            assert(op_fields_bounded(operation));
        }

        if self.delay_timer > 0 {
            self.delay_timer = self.delay_timer - 1;
        }
        if self.sound_timer > 0 {
            self.sound_timer = self.sound_timer - 1;
        }
        proof {
            assert(self@ =~= tick_timers(s1));
        }
        self.apply(operation, key, rnd)
    }

    /// Applies one decoded operation whose fields are in range, with the
    /// fetch done and the timers already ticked.
    fn apply(&mut self, op: Opcode, key: Option<u8>, rnd: u8) -> (r: Result<bool, ChipErrors>)
        requires
            old(self).wf(),
            op_fields_bounded(op),
            old(self)@.pc <= 4094,
        ensures
            final(self).wf(),
            (final(self)@, r) == apply_op(old(self)@, op, key, rnd),
    {
        match op {
            Opcode::SetI(value) => {
                self.i = value;
                self.pc = self.pc + 2;
                proof {
                    assert(self@ =~= apply_op(old(self)@, op, key, rnd).0);
                }
                Ok(false)
            },
            Opcode::SetVConstant(x, n) => {
                self.v[x as usize] = n;
                self.pc = self.pc + 2;
                proof {
                    assert(self@ =~= apply_op(old(self)@, op, key, rnd).0);
                }
                Ok(false)
            },
            Opcode::SetV(x, y) => {
                let val = self.v[y as usize];
                self.v[x as usize] = val;
                self.pc = self.pc + 2;
                proof {
                    assert(self@ =~= apply_op(old(self)@, op, key, rnd).0);
                }
                Ok(false)
            },
            Opcode::Or(x, y) => {
                let val = self.v[x as usize] | self.v[y as usize];
                self.v[x as usize] = val;
                self.pc = self.pc + 2;
                proof {
                    assert(self@ =~= apply_op(old(self)@, op, key, rnd).0);
                }
                Ok(false)
            },
            Opcode::And(x, y) => {
                let val = self.v[x as usize] & self.v[y as usize];
                self.v[x as usize] = val;
                self.pc = self.pc + 2;
                proof {
                    assert(self@ =~= apply_op(old(self)@, op, key, rnd).0);
                }
                Ok(false)
            },
            Opcode::Xor(x, y) => {
                let val = self.v[x as usize] ^ self.v[y as usize];
                self.v[x as usize] = val;
                self.pc = self.pc + 2;
                proof {
                    assert(self@ =~= apply_op(old(self)@, op, key, rnd).0);
                }
                Ok(false)
            },
            Opcode::ShiftLeft(x) => {
                self.v[15] = (self.v[x as usize] & 0x80) >> 7;
                let val = self.v[x as usize].wrapping_shl(1);
                self.v[x as usize] = val;
                self.pc = self.pc + 2;
                proof {
                    assert(self@ =~= apply_op(old(self)@, op, key, rnd).0);
                }
                Ok(false)
            },
            Opcode::ShiftRight(x) => {
                self.v[15] = self.v[x as usize] & 0x1;
                let val = self.v[x as usize].wrapping_shr(1);
                self.v[x as usize] = val;
                self.pc = self.pc + 2;
                proof {
                    assert(self@ =~= apply_op(old(self)@, op, key, rnd).0);
                }
                Ok(false)
            },
            Opcode::SetDelayTimer(x) => {
                self.delay_timer = self.v[x as usize];
                self.pc = self.pc + 2;
                proof {
                    assert(self@ =~= apply_op(old(self)@, op, key, rnd).0);
                }
                Ok(false)
            },
            Opcode::Dump(x) => {
                if (self.i as usize) + (x as usize) >= 4096 {
                    return Err(ChipErrors::OutOfBounds);
                }
                Self::dump_regs(&mut self.memory, &self.v, self.i, x);
                self.pc = self.pc + 2;
                proof {
                    let out = apply_op(old(self)@, op, key, rnd);
                    assert(self.memory@ =~= out.0.mem);
                    assert(self@ =~= out.0);
                }
                Ok(false)
            },
            Opcode::Load(x) => {
                if (self.i as usize) + (x as usize) >= 4096 {
                    return Err(ChipErrors::OutOfBounds);
                }
                Self::load_regs(&mut self.v, &self.memory, self.i, x);
                self.pc = self.pc + 2;
                proof {
                    let out = apply_op(old(self)@, op, key, rnd);
                    assert(self.v@ =~= out.0.v);
                    assert(self@ =~= out.0);
                }
                Ok(false)
            },
            Opcode::SpriteAddress(x) => {
                self.i = self.v[x as usize] as u16 * 5;
                self.pc = self.pc + 2;
                proof {
                    assert(self@ =~= apply_op(old(self)@, op, key, rnd).0);
                }
                Ok(false)
            },
            Opcode::GetKey(x) => {
                self.keyboard_waiting = true;
                self.keyboard_register = x;
                self.pc = self.pc + 2;
                proof {
                    assert(self@ =~= apply_op(old(self)@, op, key, rnd).0);
                }
                Ok(false)
            },
            Opcode::Subtract(x, y) => {
                self.v[15] = if self.v[x as usize] > self.v[y as usize] {
                    1
                } else {
                    0
                };
                let val = self.v[x as usize].wrapping_sub(self.v[y as usize]);
                self.v[x as usize] = val;
                self.pc = self.pc + 2;
                proof {
                    assert(self@ =~= apply_op(old(self)@, op, key, rnd).0);
                }
                Ok(false)
            },
            Opcode::SubtractOpposite(x, y) => {
                self.v[15] = if self.v[x as usize] < self.v[y as usize] {
                    1
                } else {
                    0
                };
                let val = self.v[y as usize].wrapping_sub(self.v[x as usize]);
                self.v[x as usize] = val;
                self.pc = self.pc + 2;
                proof {
                    assert(self@ =~= apply_op(old(self)@, op, key, rnd).0);
                }
                Ok(false)
            },
            Opcode::ClearScreen => {
                self.pc = self.pc + 2;
                Self::clear_gfx(&mut self.gfx);
                proof {
                    let out = apply_op(old(self)@, op, key, rnd);
                    assert(self.gfx@ =~= out.0.gfx);
                    assert(self@ =~= out.0);
                }
                Ok(true)
            },
            Opcode::ReturnFromSubroutine => {
                if self.sp == 0 {
                    return Err(ChipErrors::OutOfBounds);
                }
                self.sp = self.sp - 1;
                self.pc = self.stack[self.sp as usize];
                proof {
                    assert(self@ =~= apply_op(old(self)@, op, key, rnd).0);
                }
                Ok(false)
            },
            Opcode::CallSubroutine(addr) => {
                if self.sp >= 16 {
                    return Err(ChipErrors::OutOfBounds);
                }
                self.stack[self.sp as usize] = self.pc + 2;
                self.sp = self.sp + 1;
                self.pc = addr;
                proof {
                    assert(self@ =~= apply_op(old(self)@, op, key, rnd).0);
                }
                Ok(false)
            },
            Opcode::Add(x, y) => {
                let sum = self.v[x as usize] as u16 + self.v[y as usize] as u16;
                if sum > 0xFF {
                    self.v[15] = 1;
                } else {
                    self.v[15] = 0;
                }
                self.v[x as usize] = (sum & 0xFF) as u8;
                self.pc = self.pc + 2;
                proof {
                    assert(self@ =~= apply_op(old(self)@, op, key, rnd).0);
                }
                Ok(false)
            },
            Opcode::AddConstant(x, n) => {
                let total = self.v[x as usize] as u16 + n as u16;
                self.v[x as usize] = (total & 0xFF) as u8;
                self.pc = self.pc + 2;
                proof {
                    assert(self@ =~= apply_op(old(self)@, op, key, rnd).0);
                }
                Ok(false)
            },
            Opcode::RandAnd(x, n) => {
                self.v[x as usize] = rnd & n;
                self.pc = self.pc + 2;
                proof {
                    assert(self@ =~= apply_op(old(self)@, op, key, rnd).0);
                }
                Ok(false)
            },
            Opcode::GetDelayTimer(x) => {
                self.v[x as usize] = self.delay_timer;
                self.pc = self.pc + 2;
                proof {
                    assert(self@ =~= apply_op(old(self)@, op, key, rnd).0);
                }
                Ok(false)
            },
            Opcode::AddMemory(x) => {
                let vx = self.v[x as usize] as u16;
                if self.i > 0xFFFF - vx {
                    return Err(ChipErrors::OutOfBounds);
                }
                self.i = self.i + vx;
                self.pc = self.pc + 2;
                proof {
                    assert(self@ =~= apply_op(old(self)@, op, key, rnd).0);
                }
                Ok(false)
            },
            Opcode::Jump(addr) => {
                self.pc = addr;
                proof {
                    assert(self@ =~= apply_op(old(self)@, op, key, rnd).0);
                }
                Ok(false)
            },
            Opcode::JumpPlus(addr) => {
                let v0 = self.v[0] as u16;
                if addr > 0xFFFF - v0 {
                    return Err(ChipErrors::OutOfBounds);
                }
                self.pc = addr + v0;
                proof {
                    assert(self@ =~= apply_op(old(self)@, op, key, rnd).0);
                }
                Ok(false)
            },
            Opcode::BinaryCodedDecimal(x) => {
                if (self.i as usize) + 2 >= 4096 {
                    return Err(ChipErrors::OutOfBounds);
                }
                let value = self.v[x as usize];
                self.memory[self.i as usize] = value / 100;
                self.memory[self.i as usize + 1] = value / 10 % 10;
                self.memory[self.i as usize + 2] = value % 10;
                self.pc = self.pc + 2;
                proof {
                    assert(self@ =~= apply_op(old(self)@, op, key, rnd).0);
                }
                Ok(false)
            },
            Opcode::SkipRegistersEqual(x, y) => {
                if self.v[x as usize] == self.v[y as usize] {
                    self.pc = self.pc + 2;
                }
                self.pc = self.pc + 2;
                proof {
                    assert(self@ =~= apply_op(old(self)@, op, key, rnd).0);
                }
                Ok(false)
            },
            Opcode::SkipRegistersNonEqual(x, y) => {
                if self.v[x as usize] != self.v[y as usize] {
                    self.pc = self.pc + 2;
                }
                self.pc = self.pc + 2;
                proof {
                    assert(self@ =~= apply_op(old(self)@, op, key, rnd).0);
                }
                Ok(false)
            },
            Opcode::SkipEqual(x, n) => {
                if self.v[x as usize] == n {
                    self.pc = self.pc + 2;
                }
                self.pc = self.pc + 2;
                proof {
                    assert(self@ =~= apply_op(old(self)@, op, key, rnd).0);
                }
                Ok(false)
            },
            Opcode::SkipNonEqual(x, n) => {
                if self.v[x as usize] != n {
                    self.pc = self.pc + 2;
                }
                self.pc = self.pc + 2;
                proof {
                    assert(self@ =~= apply_op(old(self)@, op, key, rnd).0);
                }
                Ok(false)
            },
            Opcode::SkipKeyEqual(x) => {
                let pressed = match key {
                    Some(k) => k == self.v[x as usize],
                    None => false,
                };
                if pressed {
                    self.pc = self.pc + 2;
                }
                self.pc = self.pc + 2;
                proof {
                    assert(self@ =~= apply_op(old(self)@, op, key, rnd).0);
                }
                Ok(false)
            },
            Opcode::SkipKeyNonEqual(x) => {
                let pressed = match key {
                    Some(k) => k == self.v[x as usize],
                    None => false,
                };
                if !pressed {
                    self.pc = self.pc + 2;
                }
                self.pc = self.pc + 2;
                proof {
                    assert(self@ =~= apply_op(old(self)@, op, key, rnd).0);
                }
                Ok(false)
            },
            Opcode::Draw(x, y, n) => {
                let vx = if x == 15 {
                    0
                } else {
                    self.v[x as usize]
                };
                let vy = if y == 15 {
                    0
                } else {
                    self.v[y as usize]
                };
                proof {
                    assert(vx == old(self)@.v.update(15, 0u8)[x as int]);
                    assert(vy == old(self)@.v.update(15, 0u8)[y as int]);
                }
                if !Self::draw_bounds_ok(&self.memory, self.i, vx, vy, n) {
                    return Err(ChipErrors::OutOfBounds);
                }
                self.v[15] = 0;
                let collision = Self::draw_sprite(&mut self.gfx, &self.memory, self.i, vx, vy, n);
                if collision {
                    self.v[15] = 1;
                }
                self.pc = self.pc + 2;
                proof {
                    let out = apply_op(old(self)@, op, key, rnd);
                    assert(self.v@ =~= out.0.v);
                    assert(self@ =~= out.0);
                }
                Ok(true)
            },
        }
    }

    /// Copies registers 0 through x into memory from address `i` on.
    fn dump_regs(mem: &mut Vec<u8>, v: &Vec<u8>, i: u16, x: u8)
        requires
            old(mem)@.len() == 4096,
            v@.len() == 16,
            x < 16,
            i + x < 4096,
        ensures
            final(mem)@ == Seq::new(
                4096,
                |t: int|
                    if i <= t <= i + x {
                        v@[t - i]
                    } else {
                        old(mem)@[t]
                    },
            ),
    {
        let mut t: usize = 0;
        while t <= x as usize
            invariant
                t <= x as usize + 1,
                x < 16,
                i + x < 4096,
                mem@.len() == 4096,
                v@.len() == 16,
                forall|j: int| 0 <= j < 4096 && !(i <= j < i + t) ==> mem@[j] == old(mem)@[j],
                forall|j: int| i <= j < i + t ==> mem@[j] == v@[j - i],
            decreases x as usize + 1 - t,
        {
            let val = v[t];
            mem[i as usize + t] = val;
            t = t + 1;
        }
        proof {
            assert(mem@ =~= Seq::new(
                4096,
                |t: int|
                    if i <= t <= i + x {
                        v@[t - i]
                    } else {
                        old(mem)@[t]
                    },
            ));
        }
    }

    /// Fills registers 0 through x from memory from address `i` on.
    fn load_regs(v: &mut Vec<u8>, mem: &Vec<u8>, i: u16, x: u8)
        requires
            old(v)@.len() == 16,
            mem@.len() == 4096,
            x < 16,
            i + x < 4096,
        ensures
            final(v)@ == Seq::new(
                16,
                |t: int|
                    if t <= x {
                        mem@[i + t]
                    } else {
                        old(v)@[t]
                    },
            ),
    {
        let mut t: usize = 0;
        while t <= x as usize
            invariant
                t <= x as usize + 1,
                x < 16,
                i + x < 4096,
                v@.len() == 16,
                mem@.len() == 4096,
                forall|j: int| t <= j < 16 ==> v@[j] == old(v)@[j],
                forall|j: int| 0 <= j < t ==> v@[j] == mem@[i + j],
            decreases x as usize + 1 - t,
        {
            let val = mem[i as usize + t];
            v[t] = val;
            t = t + 1;
        }
        proof {
            assert(v@ =~= Seq::new(
                16,
                |t: int|
                    if t <= x {
                        mem@[i + t]
                    } else {
                        old(v)@[t]
                    },
            ));
        }
    }

    /// Zeroes every framebuffer cell.
    fn clear_gfx(gfx: &mut Vec<u8>)
        requires
            old(gfx)@.len() == 2048,
        ensures
            final(gfx)@ == Seq::new(2048, |t: int| 0u8),
    {
        let mut j: usize = 0;
        while j < 2048
            invariant
                j <= 2048,
                gfx@.len() == 2048,
                forall|t: int| 0 <= t < j ==> gfx@[t] == 0u8,
            decreases 2048 - j,
        {
            gfx[j] = 0;
            j = j + 1;
        }
        proof {
            assert(gfx@ =~= Seq::new(2048, |t: int| 0u8));
        }
    }

    /// Checks every access a draw would make, before anything is written.
    fn draw_bounds_ok(mem: &Vec<u8>, i: u16, vx: u8, vy: u8, n: u8) -> (ok: bool)
        requires
            mem@.len() == 4096,
        ensures
            ok == draw_ok(mem@, i as int, vx as int, vy as int, n as int),
    {
        if n > 0 && (i as usize) + (n as usize) > 4096 {
            return false;
        }
        let mut l: u8 = 0;
        while l < n
            invariant
                l <= n,
                n > 0 ==> i + n <= 4096,
                mem@.len() == 4096,
                forall|li: int, c: u8|
                    0 <= li < l && c < 8 && #[trigger] sprite_bit(mem@[i + li], c) ==> vy + li
                        < 32 && vx + c < 64,
            decreases n - l,
        {
            let byte = mem[i as usize + l as usize];
            let mut c: u8 = 0;
            while c < 8
                invariant
                    c <= 8,
                    l < n,
                    i + n <= 4096,
                    mem@.len() == 4096,
                    byte == mem@[i + l],
                    forall|cc: u8|
                        cc < c && #[trigger] sprite_bit(byte, cc) ==> vy + l < 32 && vx + cc < 64,
                decreases 8 - c,
            {
                if byte & (0x80u8 >> c) != 0 {
                    if (vy as usize) + (l as usize) >= 32 || (vx as usize) + (c as usize) >= 64 {
                        proof {
                            assert(sprite_bit(mem@[i + l as int], c));
                        }
                        return false;
                    }
                }
                c = c + 1;
            }
            l = l + 1;
        }
        true
    }

    /// XORs an n-row sprite into the framebuffer; yields whether any set
    /// cell was turned off. Every access was checked beforehand.
    fn draw_sprite(gfx: &mut Vec<u8>, mem: &Vec<u8>, i: u16, vx: u8, vy: u8, n: u8) -> (collision:
        bool)
        requires
            old(gfx)@.len() == 2048,
            forall|t: int| 0 <= t < 2048 ==> old(gfx)@[t] <= 1,
            mem@.len() == 4096,
            draw_ok(mem@, i as int, vx as int, vy as int, n as int),
        ensures
            (final(gfx)@, collision) == draw_from(
                old(gfx)@,
                mem@,
                i as int,
                vx as int,
                vy as int,
                0,
                n,
            ),
            final(gfx)@.len() == 2048,
            forall|t: int| 0 <= t < 2048 ==> final(gfx)@[t] <= 1,
    {
        let mut collision = false;
        let mut l: u8 = 0;
        while l < n
            invariant
                l <= n,
                n > 0 ==> i + n <= 4096,
                mem@.len() == 4096,
                gfx@.len() == 2048,
                forall|t: int| 0 <= t < 2048 ==> gfx@[t] <= 1,
                draw_ok(mem@, i as int, vx as int, vy as int, n as int),
                draw_from(old(gfx)@, mem@, i as int, vx as int, vy as int, 0, n) == ({
                    let rest = draw_from(gfx@, mem@, i as int, vx as int, vy as int, l, n);
                    (rest.0, collision || rest.1)
                }),
            decreases n - l,
        {
            let byte = mem[i as usize + l as usize];
            let row_y = (vy as usize) + (l as usize);
            let mut c: u8 = 0;
            while c < 8
                invariant
                    c <= 8,
                    l < n,
                    i + n <= 4096,
                    mem@.len() == 4096,
                    gfx@.len() == 2048,
                    forall|t: int| 0 <= t < 2048 ==> gfx@[t] <= 1,
                    row_y == vy + l,
                    byte == mem@[i + l],
                    draw_ok(mem@, i as int, vx as int, vy as int, n as int),
                    draw_from(old(gfx)@, mem@, i as int, vx as int, vy as int, 0, n) == ({
                        let row_rest = draw_row_from(gfx@, byte, vx as int, vy + l, c);
                        let rest = draw_from(
                            row_rest.0,
                            mem@,
                            i as int,
                            vx as int,
                            vy as int,
                            (l + 1) as u8,
                            n,
                        );
                        (rest.0, collision || row_rest.1 || rest.1)
                    }),
                decreases 8 - c,
            {
                if byte & (0x80u8 >> c) != 0 {
                    proof {
                        assert(sprite_bit(mem@[i + l], c));
                        assert(vy + l < 32 && vx + c < 64);
                    }
                    let idx = row_y * 64 + (vx as usize) + (c as usize);
                    let cell = gfx[idx];
                    if cell == 1 {
                        collision = true;
                    }
                    proof {
                        assert(cell <= 1 ==> (cell ^ 1) <= 1) by (bit_vector);
                    }
                    gfx[idx] = cell ^ 1;
                }
                c = c + 1;
            }
            l = l + 1;
        }
        collision
    }

    /// A copy of the framebuffer cells, row-major.
    fn copy_gfx(&self) -> (r: Vec<u8>)
        requires
            self.wf(),
        ensures
            r@ == self@.gfx,
    {
        let mut r: Vec<u8> = Vec::new();
        let mut j: usize = 0;
        while j < self.gfx.len()
            invariant
                self.wf(),
                r@.len() == j,
                j <= self@.gfx.len(),
                forall|t: int| 0 <= t < j ==> r@[t] == self@.gfx[t],
            decreases self@.gfx.len() - j,
        {
            r.push(self.gfx[j]);
            j = j + 1;
        }
        proof {
            assert(r@ =~= self@.gfx);
        }
        r
    }

    /// Advances the machine by one cycle against a keypad snapshot, as the
    /// caller's event loop does once per frame slice: the snapshot's
    /// pressed key and one random byte feed the transition `cycle_spec`.
    #[allow(non_snake_case)]
    pub fn emulateCycle(&mut self, keyboard: &Keyboard) -> (r: Result<CycleResult, ChipErrors>)
        requires
            old(self).wf(),
            keyboard.wf(),
        ensures
            final(self).wf(),
            exists|rnd: u8| #[trigger] cycle_matches(
                old(self)@,
                final(self)@,
                pressed_key(keyboard@),
                rnd,
                cycle_flag(r),
            ),
            r matches Ok(cr) ==> cr.gfx@ == final(self)@.gfx,
    {
        let key = keyboard.get_pressed_key();
        let rnd = random_byte();
        match self.step(key, rnd) {
            Ok(du) => {
                let g = self.copy_gfx();
                let res = Ok(CycleResult { gfx: g, draw_update: du });
                proof {
                    assert(cycle_matches(
                        old(self)@,
                        self@,
                        pressed_key(keyboard@),
                        rnd,
                        cycle_flag(res),
                    ));
                }
                res
            },
            Err(e) => {
                let res = Err(e);
                proof {
                    assert(cycle_matches(
                        old(self)@,
                        self@,
                        pressed_key(keyboard@),
                        rnd,
                        cycle_flag(res),
                    ));
                }
                res
            },
        }
    }
}

} // verus!

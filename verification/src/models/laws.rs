use vstd::prelude::*;

use crate::models::chip8::ChipView;
use crate::models::chip8::apply_op;
use crate::models::chip8::cycle_spec;
use crate::models::chip8::fetch_word;
use crate::models::errors::ChipErrors;
use crate::models::opcode::Opcode;
use crate::models::opcode::decode;

verus! {

/// Adding registers x and y sets the carry register 15 to 1 exactly when
/// the true sum exceeds 255, and leaves the sum modulo 256 in register x.
/// Register 15 itself cannot serve as an operand here: the carry write
/// would overlap it.
pub proof fn lemma_add_carry(s: ChipView, x: u8, y: u8, key: Option<u8>, rnd: u8)
    requires
        s.wf(),
        x < 15,
        y < 15,
    ensures
        ({
            let out = apply_op(s, Opcode::Add(x, y), key, rnd);
            &&& out.1 == Ok::<bool, ChipErrors>(false)
            &&& out.0.v[15] == (if s.v[x as int] + s.v[y as int] > 255 {
                1u8
            } else {
                0u8
            })
            &&& out.0.v[x as int] == (s.v[x as int] + s.v[y as int]) % 256
        }),
{
    let sum = (s.v[x as int] + s.v[y as int]) as u16;
    assert(sum <= 510 ==> (sum & 0xFF) == sum % 256) by (bit_vector);
}

/// Subtracting register y from register x sets the flag register 15 to 1
/// exactly when `x > y` (the machine's chosen borrow convention: the flag
/// is 0 when the values are equal or the difference wraps), and leaves the
/// difference modulo 256 in register x. As for addition, register 15
/// cannot serve as an operand.
pub proof fn lemma_subtract_borrow(s: ChipView, x: u8, y: u8, key: Option<u8>, rnd: u8)
    requires
        s.wf(),
        x < 15,
        y < 15,
    ensures
        ({
            let out = apply_op(s, Opcode::Subtract(x, y), key, rnd);
            &&& out.1 == Ok::<bool, ChipErrors>(false)
            &&& out.0.v[15] == (if s.v[x as int] > s.v[y as int] {
                1u8
            } else {
                0u8
            })
            &&& out.0.v[x as int] == (s.v[x as int] - s.v[y as int]) % 256
        }),
{
    let a = s.v[x as int];
    let b = s.v[y as int];
    if a >= b {
        assert((a - b) % 256 == a - b);
    } else {
        assert((a - b) % 256 == a - b + 256);
    }
}

/// Clear-screen zeroes every framebuffer cell and reports a framebuffer
/// change.
pub proof fn lemma_clear_screen(s: ChipView, key: Option<u8>, rnd: u8)
    ensures
        ({
            let out = apply_op(s, Opcode::ClearScreen, key, rnd);
            &&& out.1 == Ok::<bool, ChipErrors>(true)
            &&& out.0.gfx.len() == 2048
            &&& forall|j: int| 0 <= j < 2048 ==> out.0.gfx[j] == 0
        }),
{
}

/// Every operation other than clear-screen and draw leaves the
/// framebuffer cells as they were and never reports a change.
#[verifier::rlimit(50)]
pub proof fn lemma_no_draw_no_update(s: ChipView, op: Opcode, key: Option<u8>, rnd: u8)
    requires
        !(op is ClearScreen),
        !(op is Draw),
    ensures
        apply_op(s, op, key, rnd).1 != Ok::<bool, ChipErrors>(true),
        apply_op(s, op, key, rnd).0.gfx == s.gfx,
{
}

/// A cycle that reports a framebuffer change fetched and executed a
/// clear-screen or a draw instruction; in particular no waiting cycle and
/// no failing cycle reports one.
pub proof fn lemma_update_means_gfx_op(s: ChipView, key: Option<u8>, rnd: u8)
    requires
        cycle_spec(s, key, rnd).1 == Ok::<bool, ChipErrors>(true),
    ensures
        !s.waiting,
        decode(fetch_word(s)) matches Ok(op) && (op is ClearScreen || op is Draw),
{
}

/// Register-dump followed by register-load, both over registers 0 through
/// x and from the same address register, restores the register file.
pub proof fn lemma_dump_load_round_trip(s: ChipView, x: u8, key: Option<u8>, rnd: u8)
    requires
        s.wf(),
        x < 16,
        s.i + x < 4096,
    ensures
        ({
            let first = apply_op(s, Opcode::Dump(x), key, rnd);
            let second = apply_op(first.0, Opcode::Load(x), key, rnd);
            &&& first.1 == Ok::<bool, ChipErrors>(false)
            &&& second.1 == Ok::<bool, ChipErrors>(false)
            &&& second.0.v == s.v
        }),
{
    let first = apply_op(s, Opcode::Dump(x), key, rnd);
    let second = apply_op(first.0, Opcode::Load(x), key, rnd);
    assert(second.0.v =~= s.v);
}

} // verus!

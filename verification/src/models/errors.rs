use vstd::prelude::*;

verus! {

/// The fatal failures of the machine core. Each one ends the current run:
/// the engine neither retries nor skips.
#[derive(Clone, Copy, Debug, PartialEq, Eq, Structural)]
pub enum ChipErrors {
    /// The decoder matched no instruction pattern; carries the raw
    /// 16-bit instruction word.
    UnknownOpcode(u16),
    /// A host key value could not be mapped to one of the 16 logical key
    /// codes. Produced by the caller's input layer, never by the core.
    UnknownKeycode(i32),
    /// A stack, memory or framebuffer access would fall outside the
    /// machine: stack overflow or underflow, a memory address past the
    /// 4096-byte space, or a sprite pixel outside the 64x32 grid.
    OutOfBounds,
}

} // verus!

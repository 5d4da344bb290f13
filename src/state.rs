use vstd::prelude::*;

verus! {

/// Bytes of addressable memory.
pub const MEMORY_SIZE: usize = 4096;

/// Framebuffer width in pixels.
pub const SCREEN_WIDTH: usize = 64;

/// Framebuffer height in pixels.
pub const SCREEN_HEIGHT: usize = 32;

/// Number of pixels in the framebuffer.
pub const SCREEN_PIXELS: usize = 2048;

/// Where programs are loaded and execution starts.
pub const PROGRAM_START: u16 = 0x200;

/// Where the glyph table is stored.
pub const FONT_OFFSET: u16 = 0x50;

/// Bytes per glyph in the font table.
pub const GLYPH_BYTES: u16 = 5;

/// Deepest subroutine nesting the machine holds; a deeper call faults.
pub const STACK_LIMIT: usize = 16;

/// Index of the flag register VF.
pub const VF: usize = 15;

/// Conditions that stop an instruction; the machine state is left as it was.
#[derive(Clone, Copy, Debug, PartialEq, Eq, Structural)]
pub enum Fault {
    /// The program counter does not leave room for a two-byte fetch.
    PcOutOfBounds,
    /// An indexed instruction would touch memory past its end.
    MemoryOutOfBounds,
    /// A return with no subroutine call outstanding.
    StackUnderflow,
    /// A call nested deeper than the stack holds.
    StackOverflow,
    /// A program that does not fit between its load address and the end of memory.
    ProgramTooLarge,
}

/// The mathematical model of a machine.
pub struct MachineState {
    pub memory: Seq<u8>,
    pub pc: u16,
    pub index: u16,
    pub stack: Seq<u16>,
    pub v: Seq<u8>,
    pub delay_timer: u8,
    pub sound_timer: u8,
    pub screen: Seq<u8>,
    /// Whether adding to the index register reports overflow past 0xFFF in VF.
    pub index_overflow_sets_vf: bool,
}

impl MachineState {
    /// Sizes are fixed, every pixel is 0 or 1 and the stack is within its bound.
    pub open spec fn wf(self) -> bool {
        &&& self.memory.len() == MEMORY_SIZE
        &&& self.v.len() == 16
        &&& self.screen.len() == SCREEN_PIXELS
        &&& forall|i: int| 0 <= i < SCREEN_PIXELS ==> #[trigger] self.screen[i] <= 1
        &&& self.stack.len() <= STACK_LIMIT
    }
}

/// The sixteen glyphs 0..F, five rows each.
pub open spec fn font_spec() -> Seq<u8> {
    seq![
        0xF0u8, 0x90, 0x90, 0x90, 0xF0,
        0x20, 0x60, 0x20, 0x20, 0x70,
        0xF0, 0x10, 0xF0, 0x80, 0xF0,
        0xF0, 0x10, 0xF0, 0x10, 0xF0,
        0x90, 0x90, 0xF0, 0x10, 0x10,
        0xF0, 0x80, 0xF0, 0x10, 0xF0,
        0xF0, 0x80, 0xF0, 0x90, 0xF0,
        0xF0, 0x10, 0x20, 0x40, 0x40,
        0xF0, 0x90, 0xF0, 0x90, 0xF0,
        0xF0, 0x90, 0xF0, 0x10, 0xF0,
        0xF0, 0x90, 0xF0, 0x90, 0x90,
        0xE0, 0x90, 0xE0, 0x90, 0xE0,
        0xF0, 0x80, 0x80, 0x80, 0xF0,
        0xE0, 0x90, 0x90, 0x90, 0xE0,
        0xF0, 0x80, 0xF0, 0x80, 0xF0,
        0xF0, 0x80, 0xF0, 0x80, 0x80
    ]
}

/// The glyph table as bytes.
pub fn font() -> (r: Vec<u8>)
    ensures
        r@ == font_spec(),
{
    let r = vec![
        0xF0u8, 0x90, 0x90, 0x90, 0xF0,
        0x20, 0x60, 0x20, 0x20, 0x70,
        0xF0, 0x10, 0xF0, 0x80, 0xF0,
        0xF0, 0x10, 0xF0, 0x10, 0xF0,
        0x90, 0x90, 0xF0, 0x10, 0x10,
        0xF0, 0x80, 0xF0, 0x10, 0xF0,
        0xF0, 0x80, 0xF0, 0x90, 0xF0,
        0xF0, 0x10, 0x20, 0x40, 0x40,
        0xF0, 0x90, 0xF0, 0x90, 0xF0,
        0xF0, 0x90, 0xF0, 0x10, 0xF0,
        0xF0, 0x90, 0xF0, 0x90, 0x90,
        0xE0, 0x90, 0xE0, 0x90, 0xE0,
        0xF0, 0x80, 0x80, 0x80, 0xF0,
        0xE0, 0x90, 0x90, 0x90, 0xE0,
        0xF0, 0x80, 0xF0, 0x80, 0xF0,
        0xF0, 0x80, 0xF0, 0x80, 0x80
    ];
    assert(r@ =~= font_spec());
    r
}

} // verus!

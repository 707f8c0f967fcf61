//! Syscall hook records and the MIPS jump-word arithmetic around them.
//!
//! Patching kernel functions happens through platform calls outside this
//! library; the record keeps the saved instructions and the original
//! address as plain values. Encoding and decoding the `j` jump words that
//! the patches write is plain 32-bit logic and is verified here.

use vstd::prelude::*;

verus! {

/// An installed hook: the saved trampoline words, the original function's
/// address and whether the hook patches inline.
#[derive(Debug, Clone, Copy)]
pub struct SyscallHook {
    /// Saved instruction words for the inline trampoline.
    pub trampoline: [u32; 4],
    /// The original function's address.
    pub original: u32,
    /// Whether this hook uses inline patching.
    pub is_inline: bool,
}

/// The `j target` instruction word: opcode 2 over bits 27..2 of the
/// target. The upper 4 address bits come from the program counter at
/// execution time.
pub open spec fn spec_encode_j(target: u32) -> u32 {
    0x0800_0000u32 | ((target >> 2u32) & 0x03FF_FFFF)
}

/// Encode a MIPS `j target` instruction.
pub fn encode_j(target: u32) -> (r: u32)
    ensures
        r == spec_encode_j(target),
        r >> 26u32 == 2,
{
    let r = 0x0800_0000 | ((target >> 2) & 0x03FF_FFFF);
    proof {
        assert((0x0800_0000u32 | ((target >> 2u32) & 0x03FF_FFFF)) >> 26u32 == 2u32)
            by (bit_vector);
    }
    r
}

/// The absolute target a `j` instruction at `pc` names: the instruction's
/// 26-bit field shifted up, under the program counter's top 4 bits; None
/// for any other opcode.
pub open spec fn spec_extract_j_target(instruction: u32, pc: u32) -> Option<u32> {
    if instruction >> 26u32 != 2 {
        None
    } else {
        Some((pc & 0xF000_0000) | ((instruction & 0x03FF_FFFF) << 2u32))
    }
}

/// Extract the absolute target address from a MIPS `j` instruction at
/// `pc`. Returns None if the word is not a `j` (opcode 2).
pub fn extract_j_target(instruction: u32, pc: u32) -> (r: Option<u32>)
    ensures
        r == spec_extract_j_target(instruction, pc),
{
    if (instruction >> 26) != 2 {
        return None;
    }
    let offset = (instruction & 0x03FF_FFFF) << 2;
    Some((pc & 0xF000_0000) | offset)
}

/// Encoding a word-aligned target and reading it back from the same
/// 256 MiB segment returns the target: the jump encoding loses nothing
/// but the bits the program counter supplies.
pub proof fn lemma_jump_round_trip(target: u32, pc: u32)
    requires
        target & 3 == 0,
        target & 0xF000_0000 == pc & 0xF000_0000,
    ensures
        spec_extract_j_target(spec_encode_j(target), pc) == Some(target),
{
    assert((0x0800_0000u32 | ((target >> 2u32) & 0x03FF_FFFF)) >> 26u32 == 2u32) by (bit_vector);
    assert((pc & 0xF000_0000) | (((0x0800_0000u32 | ((target >> 2u32) & 0x03FF_FFFF))
        & 0x03FF_FFFF) << 2u32) == target) by (bit_vector)
        requires
            target & 3 == 0u32,
            target & 0xF000_0000 == pc & 0xF000_0000,
    ;
}

/// Whether a MIPS instruction is a branch or jump that cannot be moved
/// into a trampoline: opcodes 1 (regimm branches), 2 (`j`), 3 (`jal`) and
/// 4 through 7 (the compare branches) are all program-counter-relative or
/// segment-absolute.
pub open spec fn spec_is_branch_or_jump(instr: u32) -> bool {
    1 <= instr >> 26u32 <= 7
}

/// Whether an instruction word is a branch or jump that cannot be
/// relocated.
pub fn is_branch_or_jump(instr: u32) -> (r: bool)
    ensures
        r == spec_is_branch_or_jump(instr),
{
    let op = instr >> 26;
    op >= 1 && op <= 7
}

} // verus!

//! The published size and timing tables of the instruction set, written out
//! row by row, and the proof that the decoder agrees with them on every byte.
use vstd::prelude::*;
use crate::opcode::{cycles_of, cycles_taken_of, decode, size_of};

verus! {

/// The entry of a sixteen-entry table row at column `i`.
pub open spec fn column(
    i: int,
    c0: int,
    c1: int,
    c2: int,
    c3: int,
    c4: int,
    c5: int,
    c6: int,
    c7: int,
    c8: int,
    c9: int,
    ca: int,
    cb: int,
    cc: int,
    cd: int,
    ce: int,
    cf: int,
) -> int {
    if i == 0 {
        c0
    } else if i == 1 {
        c1
    } else if i == 2 {
        c2
    } else if i == 3 {
        c3
    } else if i == 4 {
        c4
    } else if i == 5 {
        c5
    } else if i == 6 {
        c6
    } else if i == 7 {
        c7
    } else if i == 8 {
        c8
    } else if i == 9 {
        c9
    } else if i == 10 {
        ca
    } else if i == 11 {
        cb
    } else if i == 12 {
        cc
    } else if i == 13 {
        cd
    } else if i == 14 {
        ce
    } else {
        cf
    }
}

/// Instruction length in bytes, by opcode: the row is the high nibble, the
/// column the low nibble.
pub open spec fn reference_size(code: u8) -> int {
    let i = code as int % 16;
    let row = code as int / 16;
    if row <= 1 {
        column(i, 1, 3, 1, 1, 1, 1, 2, 1, 1, 1, 1, 1, 1, 1, 2, 1)
    } else if row <= 3 {
        column(i, 1, 3, 3, 1, 1, 1, 2, 1, 1, 1, 3, 1, 1, 1, 2, 1)
    } else if row <= 11 {
        1
    } else if row == 12 {
        column(i, 1, 1, 3, 3, 3, 1, 2, 1, 1, 1, 3, 3, 3, 3, 2, 1)
    } else if row == 13 {
        column(i, 1, 1, 3, 2, 3, 1, 2, 1, 1, 1, 3, 2, 3, 3, 2, 1)
    } else {
        column(i, 1, 1, 3, 1, 3, 1, 2, 1, 1, 1, 3, 1, 3, 3, 2, 1)
    }
}

/// Cycle cost by opcode, for a conditional transfer the cost when its
/// condition is not met.
pub open spec fn reference_cycles(code: u8) -> int {
    let i = code as int % 16;
    let row = code as int / 16;
    if row <= 1 {
        column(i, 4, 10, 7, 5, 5, 5, 7, 4, 4, 10, 7, 5, 5, 5, 7, 4)
    } else if row == 2 {
        column(i, 4, 10, 16, 5, 5, 5, 7, 4, 4, 10, 16, 5, 5, 5, 7, 4)
    } else if row == 3 {
        column(i, 4, 10, 13, 5, 10, 10, 10, 4, 4, 10, 13, 5, 5, 5, 7, 4)
    } else if row <= 6 {
        column(i, 5, 5, 5, 5, 5, 5, 7, 5, 5, 5, 5, 5, 5, 5, 7, 5)
    } else if row == 7 {
        column(i, 7, 7, 7, 7, 7, 7, 7, 7, 5, 5, 5, 5, 5, 5, 7, 5)
    } else if row <= 11 {
        column(i, 4, 4, 4, 4, 4, 4, 7, 4, 4, 4, 4, 4, 4, 4, 7, 4)
    } else if row <= 13 {
        column(i, 5, 10, 10, 10, 11, 11, 7, 11, 5, 10, 10, 10, 11, 17, 7, 11)
    } else if row == 14 {
        column(i, 5, 10, 10, 18, 11, 11, 7, 11, 5, 5, 10, 4, 11, 17, 7, 11)
    } else {
        column(i, 5, 10, 10, 4, 11, 11, 7, 11, 5, 5, 10, 4, 11, 17, 7, 11)
    }
}

/// Cycle cost by opcode when the instruction's condition is met. It differs
/// from [`reference_cycles`] on the conditional returns and calls only.
pub open spec fn reference_cycles_taken(code: u8) -> int {
    let i = code as int % 16;
    if code >= 0xc0 && (i == 0 || i == 8) {
        11
    } else if code >= 0xc0 && (i == 4 || i == 12) {
        17
    } else {
        reference_cycles(code)
    }
}

/// On every opcode byte the decoded operation has the size and the two cycle
/// costs that the published tables give.
pub proof fn lemma_decoder_matches_reference(code: u8)
    ensures
        size_of(decode(code)) == reference_size(code),
        cycles_of(decode(code)) == reference_cycles(code),
        cycles_taken_of(decode(code)) == reference_cycles_taken(code),
{
    reveal(decode);
    let row = code as int / 16;
    let i = code as int % 16;
    assert(code as int / 64 == row / 4);
    assert((code as int / 8) % 8 == (row % 4) * 2 + i / 8);
    assert(code as int % 8 == i % 8);
    if row < 4 {
        lemma_first_quadrant(code);
    } else if row < 8 {
    } else if row < 12 {
    } else {
        lemma_last_quadrant(code);
    }
}

proof fn lemma_first_quadrant(code: u8)
    requires
        code < 0x40,
    ensures
        size_of(decode(code)) == reference_size(code),
        cycles_of(decode(code)) == reference_cycles(code),
        cycles_taken_of(decode(code)) == reference_cycles_taken(code),
{
    reveal(decode);
    let row = code as int / 16;
    let i = code as int % 16;
    assert((code as int / 8) % 8 == row * 2 + i / 8);
    assert(code as int % 8 == i % 8);
}

proof fn lemma_last_quadrant(code: u8)
    requires
        code >= 0xc0,
    ensures
        size_of(decode(code)) == reference_size(code),
        cycles_of(decode(code)) == reference_cycles(code),
        cycles_taken_of(decode(code)) == reference_cycles_taken(code),
{
    reveal(decode);
    let row = code as int / 16;
    let i = code as int % 16;
    assert((code as int / 8) % 8 == (row - 12) * 2 + i / 8);
    assert(code as int % 8 == i % 8);
}

} // verus!

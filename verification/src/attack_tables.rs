use vstd::prelude::*;
use crate::bits::{bit_at, has_bit};
use crate::position::{file_of, rank_of};

verus! {

/// For each square, the squares that a knight standing on it attacks.
pub const KNIGHT_ATTACK: [u64; 64] = [
    0x0000000000020400, 0x0000000000050800, 0x00000000000a1100, 0x0000000000142200,
    0x0000000000284400, 0x0000000000508800, 0x0000000000a01000, 0x0000000000402000,
    0x0000000002040004, 0x0000000005080008, 0x000000000a110011, 0x0000000014220022,
    0x0000000028440044, 0x0000000050880088, 0x00000000a0100010, 0x0000000040200020,
    0x0000000204000402, 0x0000000508000805, 0x0000000a1100110a, 0x0000001422002214,
    0x0000002844004428, 0x0000005088008850, 0x000000a0100010a0, 0x0000004020002040,
    0x0000020400040200, 0x0000050800080500, 0x00000a1100110a00, 0x0000142200221400,
    0x0000284400442800, 0x0000508800885000, 0x0000a0100010a000, 0x0000402000204000,
    0x0002040004020000, 0x0005080008050000, 0x000a1100110a0000, 0x0014220022140000,
    0x0028440044280000, 0x0050880088500000, 0x00a0100010a00000, 0x0040200020400000,
    0x0204000402000000, 0x0508000805000000, 0x0a1100110a000000, 0x1422002214000000,
    0x2844004428000000, 0x5088008850000000, 0xa0100010a0000000, 0x4020002040000000,
    0x0400040200000000, 0x0800080500000000, 0x1100110a00000000, 0x2200221400000000,
    0x4400442800000000, 0x8800885000000000, 0x100010a000000000, 0x2000204000000000,
    0x0004020000000000, 0x0008050000000000, 0x00110a0000000000, 0x0022140000000000,
    0x0044280000000000, 0x0088500000000000, 0x0010a00000000000, 0x0020400000000000,
];

/// For each square, the squares that a king standing on it attacks.
pub const KING_ATTACK: [u64; 64] = [
    0x0000000000000302, 0x0000000000000705, 0x0000000000000e0a, 0x0000000000001c14,
    0x0000000000003828, 0x0000000000007050, 0x000000000000e0a0, 0x000000000000c040,
    0x0000000000030203, 0x0000000000070507, 0x00000000000e0a0e, 0x00000000001c141c,
    0x0000000000382838, 0x0000000000705070, 0x0000000000e0a0e0, 0x0000000000c040c0,
    0x0000000003020300, 0x0000000007050700, 0x000000000e0a0e00, 0x000000001c141c00,
    0x0000000038283800, 0x0000000070507000, 0x00000000e0a0e000, 0x00000000c040c000,
    0x0000000302030000, 0x0000000705070000, 0x0000000e0a0e0000, 0x0000001c141c0000,
    0x0000003828380000, 0x0000007050700000, 0x000000e0a0e00000, 0x000000c040c00000,
    0x0000030203000000, 0x0000070507000000, 0x00000e0a0e000000, 0x00001c141c000000,
    0x0000382838000000, 0x0000705070000000, 0x0000e0a0e0000000, 0x0000c040c0000000,
    0x0003020300000000, 0x0007050700000000, 0x000e0a0e00000000, 0x001c141c00000000,
    0x0038283800000000, 0x0070507000000000, 0x00e0a0e000000000, 0x00c040c000000000,
    0x0302030000000000, 0x0705070000000000, 0x0e0a0e0000000000, 0x1c141c0000000000,
    0x3828380000000000, 0x7050700000000000, 0xe0a0e00000000000, 0xc040c00000000000,
    0x0203000000000000, 0x0507000000000000, 0x0a0e000000000000, 0x141c000000000000,
    0x2838000000000000, 0x5070000000000000, 0xa0e0000000000000, 0x40c0000000000000,
];

/// Whether a knight goes from `a` to `b` in one move: two squares along
/// a rank or file and one square across.
pub open spec fn knight_step(a: int, b: int) -> bool {
    let dr = rank_of(a) - rank_of(b);
    let df = file_of(a) - file_of(b);
    ||| (dr == 1 || dr == -1) && (df == 2 || df == -2)
    ||| (dr == 2 || dr == -2) && (df == 1 || df == -1)
}

/// Whether a king goes from `a` to `b` in one move: to a neighbouring
/// square.
pub open spec fn king_step(a: int, b: int) -> bool {
    let dr = rank_of(a) - rank_of(b);
    let df = file_of(a) - file_of(b);
    a != b && -1 <= dr <= 1 && -1 <= df <= 1
}

/// The entries of `KNIGHT_ATTACK`, as a function of the square.
spec fn knight_mask(s: u64) -> u64 {
    if s == 0 {
        0x0000000000020400
    }     else if s == 1 {
        0x0000000000050800
    }     else if s == 2 {
        0x00000000000a1100
    }     else if s == 3 {
        0x0000000000142200
    }     else if s == 4 {
        0x0000000000284400
    }     else if s == 5 {
        0x0000000000508800
    }     else if s == 6 {
        0x0000000000a01000
    }     else if s == 7 {
        0x0000000000402000
    }     else if s == 8 {
        0x0000000002040004
    }     else if s == 9 {
        0x0000000005080008
    }     else if s == 10 {
        0x000000000a110011
    }     else if s == 11 {
        0x0000000014220022
    }     else if s == 12 {
        0x0000000028440044
    }     else if s == 13 {
        0x0000000050880088
    }     else if s == 14 {
        0x00000000a0100010
    }     else if s == 15 {
        0x0000000040200020
    }     else if s == 16 {
        0x0000000204000402
    }     else if s == 17 {
        0x0000000508000805
    }     else if s == 18 {
        0x0000000a1100110a
    }     else if s == 19 {
        0x0000001422002214
    }     else if s == 20 {
        0x0000002844004428
    }     else if s == 21 {
        0x0000005088008850
    }     else if s == 22 {
        0x000000a0100010a0
    }     else if s == 23 {
        0x0000004020002040
    }     else if s == 24 {
        0x0000020400040200
    }     else if s == 25 {
        0x0000050800080500
    }     else if s == 26 {
        0x00000a1100110a00
    }     else if s == 27 {
        0x0000142200221400
    }     else if s == 28 {
        0x0000284400442800
    }     else if s == 29 {
        0x0000508800885000
    }     else if s == 30 {
        0x0000a0100010a000
    }     else if s == 31 {
        0x0000402000204000
    }     else if s == 32 {
        0x0002040004020000
    }     else if s == 33 {
        0x0005080008050000
    }     else if s == 34 {
        0x000a1100110a0000
    }     else if s == 35 {
        0x0014220022140000
    }     else if s == 36 {
        0x0028440044280000
    }     else if s == 37 {
        0x0050880088500000
    }     else if s == 38 {
        0x00a0100010a00000
    }     else if s == 39 {
        0x0040200020400000
    }     else if s == 40 {
        0x0204000402000000
    }     else if s == 41 {
        0x0508000805000000
    }     else if s == 42 {
        0x0a1100110a000000
    }     else if s == 43 {
        0x1422002214000000
    }     else if s == 44 {
        0x2844004428000000
    }     else if s == 45 {
        0x5088008850000000
    }     else if s == 46 {
        0xa0100010a0000000
    }     else if s == 47 {
        0x4020002040000000
    }     else if s == 48 {
        0x0400040200000000
    }     else if s == 49 {
        0x0800080500000000
    }     else if s == 50 {
        0x1100110a00000000
    }     else if s == 51 {
        0x2200221400000000
    }     else if s == 52 {
        0x4400442800000000
    }     else if s == 53 {
        0x8800885000000000
    }     else if s == 54 {
        0x100010a000000000
    }     else if s == 55 {
        0x2000204000000000
    }     else if s == 56 {
        0x0004020000000000
    }     else if s == 57 {
        0x0008050000000000
    }     else if s == 58 {
        0x00110a0000000000
    }     else if s == 59 {
        0x0022140000000000
    }     else if s == 60 {
        0x0044280000000000
    }     else if s == 61 {
        0x0088500000000000
    }     else if s == 62 {
        0x0010a00000000000
    } else {
        0x0020400000000000
    }
}

/// The entries of `KING_ATTACK`, as a function of the square.
spec fn king_mask(s: u64) -> u64 {
    if s == 0 {
        0x0000000000000302
    }     else if s == 1 {
        0x0000000000000705
    }     else if s == 2 {
        0x0000000000000e0a
    }     else if s == 3 {
        0x0000000000001c14
    }     else if s == 4 {
        0x0000000000003828
    }     else if s == 5 {
        0x0000000000007050
    }     else if s == 6 {
        0x000000000000e0a0
    }     else if s == 7 {
        0x000000000000c040
    }     else if s == 8 {
        0x0000000000030203
    }     else if s == 9 {
        0x0000000000070507
    }     else if s == 10 {
        0x00000000000e0a0e
    }     else if s == 11 {
        0x00000000001c141c
    }     else if s == 12 {
        0x0000000000382838
    }     else if s == 13 {
        0x0000000000705070
    }     else if s == 14 {
        0x0000000000e0a0e0
    }     else if s == 15 {
        0x0000000000c040c0
    }     else if s == 16 {
        0x0000000003020300
    }     else if s == 17 {
        0x0000000007050700
    }     else if s == 18 {
        0x000000000e0a0e00
    }     else if s == 19 {
        0x000000001c141c00
    }     else if s == 20 {
        0x0000000038283800
    }     else if s == 21 {
        0x0000000070507000
    }     else if s == 22 {
        0x00000000e0a0e000
    }     else if s == 23 {
        0x00000000c040c000
    }     else if s == 24 {
        0x0000000302030000
    }     else if s == 25 {
        0x0000000705070000
    }     else if s == 26 {
        0x0000000e0a0e0000
    }     else if s == 27 {
        0x0000001c141c0000
    }     else if s == 28 {
        0x0000003828380000
    }     else if s == 29 {
        0x0000007050700000
    }     else if s == 30 {
        0x000000e0a0e00000
    }     else if s == 31 {
        0x000000c040c00000
    }     else if s == 32 {
        0x0000030203000000
    }     else if s == 33 {
        0x0000070507000000
    }     else if s == 34 {
        0x00000e0a0e000000
    }     else if s == 35 {
        0x00001c141c000000
    }     else if s == 36 {
        0x0000382838000000
    }     else if s == 37 {
        0x0000705070000000
    }     else if s == 38 {
        0x0000e0a0e0000000
    }     else if s == 39 {
        0x0000c040c0000000
    }     else if s == 40 {
        0x0003020300000000
    }     else if s == 41 {
        0x0007050700000000
    }     else if s == 42 {
        0x000e0a0e00000000
    }     else if s == 43 {
        0x001c141c00000000
    }     else if s == 44 {
        0x0038283800000000
    }     else if s == 45 {
        0x0070507000000000
    }     else if s == 46 {
        0x00e0a0e000000000
    }     else if s == 47 {
        0x00c040c000000000
    }     else if s == 48 {
        0x0302030000000000
    }     else if s == 49 {
        0x0705070000000000
    }     else if s == 50 {
        0x0e0a0e0000000000
    }     else if s == 51 {
        0x1c141c0000000000
    }     else if s == 52 {
        0x3828380000000000
    }     else if s == 53 {
        0x7050700000000000
    }     else if s == 54 {
        0xe0a0e00000000000
    }     else if s == 55 {
        0xc040c00000000000
    }     else if s == 56 {
        0x0203000000000000
    }     else if s == 57 {
        0x0507000000000000
    }     else if s == 58 {
        0x0a0e000000000000
    }     else if s == 59 {
        0x141c000000000000
    }     else if s == 60 {
        0x2838000000000000
    }     else if s == 61 {
        0x5070000000000000
    }     else if s == 62 {
        0xa0e0000000000000
    } else {
        0x40c0000000000000
    }
}

spec fn bv_rank_gap(s: u64, t: u64) -> u64 {
    if s >> 3 > t >> 3 {
        ((s >> 3) - (t >> 3)) as u64
    } else {
        ((t >> 3) - (s >> 3)) as u64
    }
}

spec fn bv_file_gap(s: u64, t: u64) -> u64 {
    if s & 7 > t & 7 {
        ((s & 7) - (t & 7)) as u64
    } else {
        ((t & 7) - (s & 7)) as u64
    }
}

proof fn bv_knight_table(s: u64, t: u64)
    by (bit_vector)
    requires
        s < 64,
        t < 64,
    ensures
        has_bit(knight_mask(s), t) == ((bv_rank_gap(s, t) == 1 && bv_file_gap(s, t) == 2) || (
            bv_rank_gap(s, t) == 2 && bv_file_gap(s, t) == 1)),
{
}

proof fn bv_king_table(s: u64, t: u64)
    by (bit_vector)
    requires
        s < 64,
        t < 64,
    ensures
        has_bit(king_mask(s), t) == (s != t && bv_rank_gap(s, t) <= 1 && bv_file_gap(s, t) <= 1),
{
}

proof fn bv_rank_file(s: u64)
    by (bit_vector)
    ensures
        s >> 3 == s / 8,
        s & 7 == s % 8,
{
}

/// `KNIGHT_ATTACK` holds the knight's moves: the entry of `a` holds `b`
/// exactly if a knight goes from `a` to `b`.
pub proof fn lemma_knight_table(a: int, b: int)
    requires
        0 <= a < 64,
        0 <= b < 64,
    ensures
        bit_at(KNIGHT_ATTACK[a], b) == knight_step(a, b),
{
    assert(KNIGHT_ATTACK[a] == knight_mask(a as u64));
    bv_knight_table(a as u64, b as u64);
    bv_rank_file(a as u64);
    bv_rank_file(b as u64);
}

/// `KING_ATTACK` holds the king's moves: the entry of `a` holds `b`
/// exactly if a king goes from `a` to `b`.
pub proof fn lemma_king_table(a: int, b: int)
    requires
        0 <= a < 64,
        0 <= b < 64,
    ensures
        bit_at(KING_ATTACK[a], b) == king_step(a, b),
{
    assert(KING_ATTACK[a] == king_mask(a as u64));
    bv_king_table(a as u64, b as u64);
    bv_rank_file(a as u64);
    bv_rank_file(b as u64);
}

} // verus!

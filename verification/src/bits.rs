use vstd::prelude::*;

verus! {

/// Whether bit `i` of `x` is set.
pub open spec fn has_bit(x: u64, i: u64) -> bool {
    (x >> i) & 1 == 1
}

/// Whether the bitboard `x` holds the square `sq`. No bitboard holds a
/// square off the board.
pub open spec fn bit_at(x: u64, sq: int) -> bool {
    0 <= sq < 64 && has_bit(x, sq as u64)
}

proof fn bv_bit_ops(a: u64, b: u64, i: u64)
    by (bit_vector)
    requires
        i < 64,
    ensures
        has_bit(a | b, i) == (has_bit(a, i) || has_bit(b, i)),
        has_bit(a & b, i) == (has_bit(a, i) && has_bit(b, i)),
        has_bit(a ^ b, i) == (has_bit(a, i) != has_bit(b, i)),
        has_bit(!a, i) == !has_bit(a, i),
        !has_bit(0, i),
{
}

proof fn bv_single(idx: u64, i: u64, x: u64)
    by (bit_vector)
    requires
        idx < 64,
        i < 64,
    ensures
        has_bit(1u64 << idx, i) == (i == idx),
        (x & (1u64 << idx) != 0) == has_bit(x, idx),
        (x & (1u64 << idx) == 0) == !has_bit(x, idx),
{
}

proof fn bv_shl(x: u64, k: u64, i: u64)
    by (bit_vector)
    requires
        k < 64,
        i < 64,
    ensures
        has_bit(x << k, i) == (i >= k && has_bit(x, (i - k) as u64)),
{
}

proof fn bv_shr(x: u64, k: u64, i: u64)
    by (bit_vector)
    requires
        k < 64,
        i < 64,
    ensures
        has_bit(x >> k, i) == (i + k < 64 && has_bit(x, (i + k) as u64)),
{
}

proof fn bv_pop_lowest(x: u64, t: u64, i: u64)
    by (bit_vector)
    requires
        t < 64,
        i < 64,
        has_bit(x, t),
        t == 0 || x << ((64 - t) as u64) == 0,
    ensures
        x != 0,
        has_bit(x & ((x - 1) as u64), i) == (has_bit(x, i) && i != t),
        x & ((x - 1) as u64) < x,
{
}

proof fn bv_differ(x: u64, y: u64, t: u64)
    by (bit_vector)
    requires
        t < 64,
        has_bit(x ^ y, t),
    ensures
        has_bit(x, t) != has_bit(y, t),
{
}

proof fn bv_xor_zero(x: u64, y: u64)
    by (bit_vector)
    requires
        x ^ y == 0,
    ensures
        x == y,
{
}

/// The bits of `a | b`, `a & b`, `a ^ b` and `!a`, square by square.
pub proof fn lemma_bit_ops(a: u64, b: u64, sq: int)
    requires
        0 <= sq < 64,
    ensures
        bit_at(a | b, sq) == (bit_at(a, sq) || bit_at(b, sq)),
        bit_at(a & b, sq) == (bit_at(a, sq) && bit_at(b, sq)),
        bit_at(a ^ b, sq) == (bit_at(a, sq) != bit_at(b, sq)),
        bit_at(!a, sq) == !bit_at(a, sq),
        !bit_at(0, sq),
{
    bv_bit_ops(a, b, sq as u64);
}

/// The mask `1 << idx` holds the square `idx` and no other; testing a
/// bitboard against it reads the bitboard's own bit.
pub proof fn lemma_single_bit(x: u64, idx: int, sq: int)
    requires
        0 <= idx < 64,
        0 <= sq < 64,
    ensures
        bit_at(1u64 << (idx as u64), sq) == (sq == idx),
        (x & (1u64 << (idx as u64)) != 0) == bit_at(x, idx),
        (x & (1u64 << (idx as u64)) == 0) == !bit_at(x, idx),
        bit_at(x ^ (1u64 << (idx as u64)), sq) == (bit_at(x, sq) != (sq == idx)),
{
    bv_single(idx as u64, sq as u64, x);
    bv_bit_ops(x, 1u64 << (idx as u64), sq as u64);
}

/// Shifting a bitboard left by `k` moves every square up by `k`.
pub proof fn lemma_shl(x: u64, k: int, sq: int)
    requires
        0 <= k < 64,
        0 <= sq < 64,
    ensures
        bit_at(x << (k as u64), sq) == bit_at(x, sq - k),
{
    bv_shl(x, k as u64, sq as u64);
}

/// Shifting a bitboard right by `k` moves every square down by `k`.
pub proof fn lemma_shr(x: u64, k: int, sq: int)
    requires
        0 <= k < 64,
        0 <= sq < 64,
    ensures
        bit_at(x >> (k as u64), sq) == bit_at(x, sq + k),
{
    bv_shr(x, k as u64, sq as u64);
}

/// The lowest square of a bitboard that is not empty.
pub open spec fn lowest(x: u64) -> int {
    vstd::std_specs::bits::u64_trailing_zeros(x) as int
}

/// `lowest(x)` is a square of `x`, and no square below it is.
pub proof fn lemma_lowest(x: u64)
    requires
        x != 0,
    ensures
        0 <= lowest(x) < 64,
        bit_at(x, lowest(x)),
        forall|sq: int| 0 <= sq < lowest(x) ==> !bit_at(x, sq),
{
    vstd::std_specs::bits::axiom_u64_trailing_zeros(x);
    let t = vstd::std_specs::bits::u64_trailing_zeros(x);
    assert forall|sq: int| 0 <= sq < lowest(x) implies !bit_at(x, sq) by {
        let j = sq as u64;
        assert((x >> j) & 1u64 == 0u64);
    }
}

/// `x & (x - 1)` is `x` without its lowest square.
pub proof fn lemma_pop_lowest(x: u64, sq: int)
    requires
        x != 0,
        0 <= sq < 64,
    ensures
        bit_at(x & ((x - 1) as u64), sq) == (bit_at(x, sq) && sq != lowest(x)),
        x & ((x - 1) as u64) < x,
{
    vstd::std_specs::bits::axiom_u64_trailing_zeros(x);
    let t = vstd::std_specs::bits::u64_trailing_zeros(x) as u64;
    bv_pop_lowest(x, t, sq as u64);
}

/// Two bitboards that hold the same squares are equal.
pub proof fn lemma_bits_equal(x: u64, y: u64)
    requires
        forall|sq: int| 0 <= sq < 64 ==> bit_at(x, sq) == bit_at(y, sq),
    ensures
        x == y,
{
    let d = x ^ y;
    if d != 0 {
        lemma_lowest(d);
        let t = lowest(d);
        bv_differ(x, y, t as u64);
        assert(bit_at(x, t) != bit_at(y, t));
    }
    bv_xor_zero(x, y);
}

/// The laws of `^` that the position signature rests on: `0` is neutral,
/// every value is its own inverse, and the order of the operands is free.
pub proof fn lemma_xor_laws(a: u64, b: u64, c: u64)
    by (bit_vector)
    ensures
        a ^ 0 == a,
        0 ^ a == a,
        a ^ a == 0,
        a ^ b == b ^ a,
        (a ^ b) ^ c == a ^ (b ^ c),
        (a ^ b) ^ b == a,
        (a ^ b) ^ c == (a ^ c) ^ b,
{
}

/// Masking never adds a castling right.
pub proof fn lemma_mask_rights(rights: u8, mask: u8)
    by (bit_vector)
    ensures
        rights & mask <= rights,
{
}

/// Setting or clearing one key `k` in a running signature `h` and in the
/// placement signature `p` alike leaves `h ^ p` as it was.
pub proof fn lemma_xor_toggle(h: u64, p: u64, k: u64)
    by (bit_vector)
    ensures
        (h ^ k) ^ ((p ^ 0) ^ k) == h ^ p,
        (h ^ k) ^ ((p ^ k) ^ 0) == h ^ p,
{
}

/// The signature after a move. Before it the signature `h` is made of the
/// placement part `p`, the rights key `c`, the en-passant key `e` and the
/// side key `s`. The move takes `e` and `c` out and changes the placement
/// part along with the squares: the running signature becomes
/// `rest_after` as the placement part becomes `placed_after`. Then the
/// move puts in the new rights key `rights_after`, the new en-passant
/// key `target_after` and the side key `k`.
pub proof fn lemma_signature_after_move(
    h: u64,
    p: u64,
    c: u64,
    e: u64,
    s: u64,
    rest_after: u64,
    placed_after: u64,
    rights_after: u64,
    target_after: u64,
    k: u64,
)
    by (bit_vector)
    requires
        h == ((p ^ c) ^ e) ^ s,
        rest_after ^ placed_after == ((h ^ e) ^ c) ^ p,
    ensures
        ((rest_after ^ rights_after) ^ target_after) ^ k == ((placed_after ^ rights_after)
            ^ target_after) ^ (s ^ k),
{
}

/// The signature after a move is taken back: as
/// `lemma_signature_after_move`, with the side key changed first.
pub proof fn lemma_signature_after_undo(
    h: u64,
    p: u64,
    c: u64,
    e: u64,
    s: u64,
    rest_after: u64,
    placed_after: u64,
    rights_after: u64,
    target_after: u64,
    k: u64,
)
    by (bit_vector)
    requires
        h == ((p ^ c) ^ e) ^ s,
        rest_after ^ placed_after == (((h ^ k) ^ e) ^ c) ^ p,
    ensures
        (rest_after ^ rights_after) ^ target_after == ((placed_after ^ rights_after)
            ^ target_after) ^ (s ^ k),
{
}

/// The squares that each bitboard of the starting position holds.
pub proof fn lemma_start_bitboards(sq: int)
    requires
        0 <= sq < 64,
    ensures
        bit_at(0x0000_0000_0000_ff00, sq) == (8 <= sq < 16),
        bit_at(0x00ff_0000_0000_0000, sq) == (48 <= sq < 56),
        bit_at(0x0000_0000_0000_0042, sq) == (sq == 1 || sq == 6),
        bit_at(0x4200_0000_0000_0000, sq) == (sq == 57 || sq == 62),
        bit_at(0x0000_0000_0000_0024, sq) == (sq == 2 || sq == 5),
        bit_at(0x2400_0000_0000_0000, sq) == (sq == 58 || sq == 61),
        bit_at(0x0000_0000_0000_0081, sq) == (sq == 0 || sq == 7),
        bit_at(0x8100_0000_0000_0000, sq) == (sq == 56 || sq == 63),
        bit_at(0x0000_0000_0000_0008, sq) == (sq == 3),
        bit_at(0x0800_0000_0000_0000, sq) == (sq == 59),
        bit_at(0x0000_0000_0000_0010, sq) == (sq == 4),
        bit_at(0x1000_0000_0000_0000, sq) == (sq == 60),
        bit_at(0x0000_0000_0000_ffff, sq) == (sq < 16),
        bit_at(0xffff_0000_0000_0000, sq) == (48 <= sq),
{
    bv_start_bitboards(sq as u64);
}

proof fn bv_start_bitboards(i: u64)
    by (bit_vector)
    requires
        i < 64,
    ensures
        has_bit(0x0000_0000_0000_ff00, i) == (8 <= i && i < 16),
        has_bit(0x00ff_0000_0000_0000, i) == (48 <= i && i < 56),
        has_bit(0x0000_0000_0000_0042, i) == (i == 1 || i == 6),
        has_bit(0x4200_0000_0000_0000, i) == (i == 57 || i == 62),
        has_bit(0x0000_0000_0000_0024, i) == (i == 2 || i == 5),
        has_bit(0x2400_0000_0000_0000, i) == (i == 58 || i == 61),
        has_bit(0x0000_0000_0000_0081, i) == (i == 0 || i == 7),
        has_bit(0x8100_0000_0000_0000, i) == (i == 56 || i == 63),
        has_bit(0x0000_0000_0000_0008, i) == (i == 3),
        has_bit(0x0800_0000_0000_0000, i) == (i == 59),
        has_bit(0x0000_0000_0000_0010, i) == (i == 4),
        has_bit(0x1000_0000_0000_0000, i) == (i == 60),
        has_bit(0x0000_0000_0000_ffff, i) == (i < 16),
        has_bit(0xffff_0000_0000_0000, i) == (48 <= i),
{
}

/// Two bitboards with a square in common have a lowest such square.
pub proof fn lemma_common_square(x: u64, y: u64)
    requires
        x & y != 0,
    ensures
        0 <= lowest(x & y) < 64,
        bit_at(x, lowest(x & y)),
        bit_at(y, lowest(x & y)),
{
    lemma_lowest(x & y);
    lemma_bit_ops(x, y, lowest(x & y));
}

/// Two bitboards that both hold `sq` have a square in common.
pub proof fn lemma_shared_square(x: u64, y: u64, sq: int)
    requires
        bit_at(x, sq),
        bit_at(y, sq),
    ensures
        x & y != 0,
{
    lemma_bit_ops(x, y, sq);
}

/// A bitboard that holds a square is not `0`.
pub proof fn lemma_not_empty(x: u64, sq: int)
    requires
        bit_at(x, sq),
    ensures
        x != 0,
{
    lemma_bit_ops(x, x, sq);
}

/// The empty bitboard holds no square.
pub proof fn lemma_no_bits()
    ensures
        forall|sq: int| !#[trigger] bit_at(0, sq),
{
    assert forall|sq: int| !#[trigger] bit_at(0, sq) by {
        if 0 <= sq < 64 {
            lemma_bit_ops(0, 0, sq);
        }
    }
}

proof fn bv_file_masks(i: u64)
    by (bit_vector)
    requires
        i < 64,
    ensures
        has_bit(0xfefe_fefe_fefe_fefe, i) == (i % 8 != 0),
        has_bit(0x7f7f_7f7f_7f7f_7f7f, i) == (i % 8 != 7),
{
}

/// The squares of the two file masks: all but the a-file, and all but
/// the h-file.
pub proof fn lemma_file_masks(sq: int)
    requires
        0 <= sq < 64,
    ensures
        bit_at(0xfefe_fefe_fefe_fefe, sq) == (sq % 8 != 0),
        bit_at(0x7f7f_7f7f_7f7f_7f7f, sq) == (sq % 8 != 7),
{
    bv_file_masks(sq as u64);
}

} // verus!

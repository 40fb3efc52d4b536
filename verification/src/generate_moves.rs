use vstd::prelude::*;
use crate::bits::{bit_at, lemma_bit_ops, lemma_lowest, lemma_no_bits, lemma_pop_lowest};
use crate::board::Board;
use crate::piece::{Color, PieceColor};
use crate::piece_move::{MoveFlag, PieceMove};
use crate::position::{file_of, rank_of};
use crate::move_lists::{
    gather, landing_pick, lemma_gather_same, lemma_gather_skip, ray_list, slide_list, step_list,
    target_pick,
};
use crate::rules::{lands, passed, ray_reaches, ray_room, slide_move};

pub mod bishop;
pub mod king;
pub mod knight;
pub mod pawn;
pub mod queen;
pub mod rook;

verus! {

/// A list with one more move holds that move and what it held before.
pub proof fn lemma_push_contains(list: Seq<PieceMove>, added: PieceMove)
    ensures
        forall|m: PieceMove| #[trigger]
            list.push(added).contains(m) <==> (list.contains(m) || m == added),
{
    let longer = list.push(added);
    assert forall|m: PieceMove| #[trigger] longer.contains(m) <==> (list.contains(m) || m
        == added) by {
        if list.contains(m) {
            let i = choose|i: int| 0 <= i < list.len() && list[i] == m;
            assert(longer[i] == m);
        }
        if m == added {
            assert(longer[list.len() as int] == m);
        }
    }
}

/// A list without a move twice that gets a move that it does not hold
/// still has no move twice.
pub proof fn lemma_push_no_duplicates(list: Seq<PieceMove>, added: PieceMove)
    requires
        list.no_duplicates(),
        !list.contains(added),
    ensures
        list.push(added).no_duplicates(),
{
    let longer = list.push(added);
    assert forall|i: int, j: int| 0 <= i < longer.len() && 0 <= j < longer.len() && i
        != j implies longer[i] != longer[j] by {
        if i < list.len() && j < list.len() {
            assert(list[i] != list[j]);
        } else if i < list.len() {
            assert(list.contains(list[i]));
        } else {
            assert(list.contains(list[j]));
        }
    }
}

/// Two lists without a move twice and without a move in common, joined,
/// have no move twice.
pub proof fn lemma_append_no_duplicates(first: Seq<PieceMove>, second: Seq<PieceMove>)
    requires
        first.no_duplicates(),
        second.no_duplicates(),
        forall|m: PieceMove| first.contains(m) ==> !second.contains(m),
    ensures
        (first + second).no_duplicates(),
{
    let joined = first + second;
    assert forall|i: int, j: int| 0 <= i < joined.len() && 0 <= j < joined.len() && i
        != j implies joined[i] != joined[j] by {
        if i < first.len() && j < first.len() {
            assert(first[i] != first[j]);
        } else if i >= first.len() && j >= first.len() {
            assert(second[i - first.len()] != second[j - first.len()]);
        } else if i < first.len() {
            assert(first.contains(first[i]));
            assert(second.contains(second[j - first.len()]));
        } else {
            assert(first.contains(first[j]));
            assert(second.contains(second[i - first.len()]));
        }
    }
}

/// Two lists joined hold what either of them holds.
pub proof fn lemma_append_contains(first: Seq<PieceMove>, second: Seq<PieceMove>)
    ensures
        forall|m: PieceMove| #[trigger]
            (first + second).contains(m) <==> (first.contains(m) || second.contains(m)),
{
    let joined = first + second;
    assert forall|m: PieceMove| #[trigger] joined.contains(m) <==> (first.contains(m)
        || second.contains(m)) by {
        if first.contains(m) {
            let i = choose|i: int| 0 <= i < first.len() && first[i] == m;
            assert(joined[i] == m);
        }
        if second.contains(m) {
            let i = choose|i: int| 0 <= i < second.len() && second[i] == m;
            assert(joined[first.len() + i] == m);
        }
    }
}

/// Appends the move `from`-`to` with the flag `flag`, which the list
/// does not hold yet.
pub fn push_move(moves: &mut Vec<PieceMove>, from: u8, to: u8, flag: MoveFlag)
    requires
        old(moves)@.no_duplicates(),
        !old(moves)@.contains(PieceMove { from, to, flag }),
    ensures
        final(moves)@ == old(moves)@.push(PieceMove { from, to, flag }),
        final(moves)@.no_duplicates(),
        forall|m: PieceMove| #[trigger]
            final(moves)@.contains(m) <==> (old(moves)@.contains(m) || m == (PieceMove {
                from,
                to,
                flag,
            })),
{
    proof {
        lemma_push_contains(moves@, PieceMove { from, to, flag });
        lemma_push_no_duplicates(moves@, PieceMove { from, to, flag });
    }
    moves.push(PieceMove { from, to, flag });
}

/// Appends a move from `from` with the flag `flag` to each square of
/// `targets`, lowest square first.
pub fn push_targets(moves: &mut Vec<PieceMove>, from: u8, targets: u64, flag: MoveFlag)
    requires
        old(moves)@.no_duplicates(),
        forall|m: PieceMove| #[trigger]
            old(moves)@.contains(m) ==> !(m.from == from && bit_at(targets, m.to as int) && m.flag
                == flag),
    ensures
        final(moves)@ == old(moves)@ + gather(64, target_pick(from, targets, flag)),
        final(moves)@.no_duplicates(),
        forall|m: PieceMove| #[trigger]
            final(moves)@.contains(m) <==> (old(moves)@.contains(m) || (m.from == from && bit_at(
                targets,
                m.to as int,
            ) && m.flag == flag)),
{
    let mut left = targets;
    let ghost mut done: int = 0;
    let ghost pick = target_pick(from, targets, flag);
    assert(moves@ =~= old(moves)@ + gather(0, pick));
    while left != 0
        invariant
            0 <= done <= 64,
            pick == target_pick(from, targets, flag),
            forall|sq: int| bit_at(left, sq) <==> (bit_at(targets, sq) && sq >= done),
            moves@ == old(moves)@ + gather(done, pick),
            moves@.no_duplicates(),
            forall|m: PieceMove| #[trigger]
                old(moves)@.contains(m) ==> !(m.from == from && bit_at(targets, m.to as int)
                    && m.flag == flag),
            forall|sq: int| bit_at(left, sq) ==> bit_at(targets, sq),
            forall|m: PieceMove| #[trigger]
                moves@.contains(m) <==> (old(moves)@.contains(m) || (m.from == from && bit_at(
                    targets,
                    m.to as int,
                ) && !bit_at(left, m.to as int) && m.flag == flag)),
        decreases left,
    {
        proof {
            lemma_lowest(left);
        }
        let to = left.trailing_zeros() as u8;
        let ghost before = moves@;
        let ghost left_before = left;
        push_move(moves, from, to, flag);
        left &= left - 1;
        proof {
            lemma_gather_skip(done, to as int, pick);
            assert(pick(to as int) == seq![PieceMove { from, to, flag }]);
            assert(moves@ =~= old(moves)@ + gather(to + 1, pick));
            assert forall|sq: int| bit_at(left, sq) <==> (bit_at(targets, sq) && sq >= to + 1) by {
                if 0 <= sq < 64 {
                    lemma_pop_lowest(left_before, sq);
                }
            }
            done = to + 1;
            assert forall|sq: int| bit_at(left, sq) implies bit_at(targets, sq) by {
                lemma_pop_lowest(left_before, sq);
            }
            assert forall|m: PieceMove| #[trigger]
                moves@.contains(m) <==> (old(moves)@.contains(m) || (m.from == from && bit_at(
                    targets,
                    m.to as int,
                ) && !bit_at(left, m.to as int) && m.flag == flag)) by {
                if 0 <= m.to < 64 {
                    lemma_pop_lowest(left_before, m.to as int);
                }
            }
            lemma_pop_lowest(left_before, 0);
        }
    }
    proof {
        lemma_no_bits();
        lemma_gather_skip(done, 64, pick);
    }
}

impl Board {
    /// The bitboard of the squares on which nothing stands.
    pub fn empty_squares(&self) -> (empty: u64)
        requires
            self.placement_wf(),
        ensures
            forall|sq: int|
                0 <= sq < 64 ==> (#[trigger] bit_at(empty, sq) <==> self.pieces[sq]
                    == PieceColor::Empty),
    {
        let white = self.occupied[0];
        let black = self.occupied[1];
        proof {
            assert forall|sq: int| 0 <= sq < 64 implies (#[trigger] bit_at(!(white | black), sq)
                <==> self.pieces[sq] == PieceColor::Empty) by {
                lemma_bit_ops(white, black, sq);
                lemma_bit_ops(white | black, 0, sq);
                assert(bit_at(self.occ(Color::White), sq) <==> self.pieces[sq].color() == Some(
                    Color::White,
                ));
                assert(bit_at(self.occ(Color::Black), sq) <==> self.pieces[sq].color() == Some(
                    Color::Black,
                ));
            }
        }
        !(white | black)
    }

    /// The bitboard of the squares on which the pieces of `color` stand.
    pub fn occupancy(&self, color: Color) -> (bits: u64)
        requires
            self.placement_wf(),
        ensures
            bits == self.occ(color),
            forall|sq: int|
                0 <= sq < 64 ==> (#[trigger] bit_at(bits, sq) <==> self.pieces[sq].color() == Some(
                    color,
                )),
    {
        let bits = self.occupied[color.idx()];
        proof {
            assert forall|sq: int| 0 <= sq < 64 implies (#[trigger] bit_at(bits, sq)
                <==> self.pieces[sq].color() == Some(color)) by {
                assert(bit_at(self.occ(color), sq) <==> self.pieces[sq].color() == Some(color));
            }
        }
        bits
    }

    /// Appends, for a piece of `us` on `from` that steps to the squares
    /// of `reach`, a capture for each of them on which a piece of the
    /// other player stands, then a quiet move for each that is empty.
    pub(crate) fn push_steps(&self, moves: &mut Vec<PieceMove>, from: u8, reach: u64, us: Color)
        requires
            self.placement_wf(),
            old(moves)@.no_duplicates(),
            forall|m: PieceMove| #[trigger] old(moves)@.contains(m) ==> m.from != from,
        ensures
            final(moves)@ == old(moves)@ + step_list(self.pieces@, us, from, reach),
            final(moves)@.no_duplicates(),
            forall|m: PieceMove| #[trigger]
                final(moves)@.contains(m) <==> (old(moves)@.contains(m) || (m.from == from && bit_at(
                    reach,
                    m.to as int,
                ) && lands(self.pieces@, us, m))),
    {
        let empty = self.empty_squares();
        let enemy = self.occupancy(us.get_opposite());
        push_targets(moves, from, reach & enemy, MoveFlag::Capture);
        push_targets(moves, from, reach & empty, MoveFlag::Normal);
        proof {
            let squares = self.pieces@;
            let takes = target_pick(from, reach & enemy, MoveFlag::Capture);
            let goes = target_pick(from, reach & empty, MoveFlag::Normal);
            assert forall|sq: int| 0 <= sq < 64 implies #[trigger] takes(sq) == landing_pick(
                squares,
                us,
                from,
                reach,
                MoveFlag::Capture,
            )(sq) by {
                lemma_bit_ops(reach, enemy, sq);
            }
            assert forall|sq: int| 0 <= sq < 64 implies #[trigger] goes(sq) == landing_pick(
                squares,
                us,
                from,
                reach,
                MoveFlag::Normal,
            )(sq) by {
                lemma_bit_ops(reach, empty, sq);
            }
            lemma_gather_same(64, takes, landing_pick(squares, us, from, reach, MoveFlag::Capture));
            lemma_gather_same(64, goes, landing_pick(squares, us, from, reach, MoveFlag::Normal));
            assert(moves@ =~= old(moves)@ + step_list(squares, us, from, reach));
        }
        proof {
            assert forall|m: PieceMove| #[trigger]
                moves@.contains(m) <==> (old(moves)@.contains(m) || (m.from == from && bit_at(
                    reach,
                    m.to as int,
                ) && lands(self.pieces@, us, m))) by {
                if 0 <= m.to < 64 {
                    lemma_bit_ops(reach, enemy, m.to as int);
                    lemma_bit_ops(reach, empty, m.to as int);
                }
            }
        }
    }

    /// Appends the moves of a bishop, rook or queen of `us` that slides
    /// from `from` in the direction `(dr, df)`: a quiet move to each
    /// empty square up to the first piece, and a capture of that piece
    /// if it is the other player's.
    pub(crate) fn push_slides(
        &self,
        moves: &mut Vec<PieceMove>,
        from: u8,
        dr: i32,
        df: i32,
        us: Color,
    )
        requires
            from < 64,
            -1 <= dr <= 1,
            -1 <= df <= 1,
            old(moves)@.no_duplicates(),
            forall|m: PieceMove| #[trigger]
                old(moves)@.contains(m) ==> !(m.from == from && slide_move(
                    self.pieces@,
                    us,
                    dr as int,
                    df as int,
                    m,
                )),
        ensures
            final(moves)@ == old(moves)@ + slide_list(self.pieces@, us, from, dr as int, df as int),
            final(moves)@.no_duplicates(),
            forall|m: PieceMove| #[trigger]
                final(moves)@.contains(m) <==> (old(moves)@.contains(m) || (m.from == from
                    && slide_move(self.pieces@, us, dr as int, df as int, m))),
    {
        let x = (from / 8) as i32;
        let y = (from % 8) as i32;
        let mut rank: i32 = x + dr;
        let mut file: i32 = y + df;
        let mut blocked = dr == 0 && df == 0;
        let ghost mut seen: Set<int> = Set::empty();
        let ghost whole = old(moves)@ + slide_list(self.pieces@, us, from, dr as int, df as int);
        assert(whole =~= moves@ + ray_list(
            self.pieces@,
            us,
            from,
            rank as int,
            file as int,
            dr as int,
            df as int,
        ));
        while !blocked && 0 <= rank && rank < 8 && 0 <= file && file < 8
            invariant
                from < 64,
                x == rank_of(from as int),
                y == file_of(from as int),
                -1 <= rank <= 8,
                -1 <= file <= 8,
                -1 <= dr <= 1,
                -1 <= df <= 1,
                dr == 0 && df == 0 ==> blocked,
                whole == old(moves)@ + slide_list(
                    self.pieces@,
                    us,
                    from,
                    dr as int,
                    df as int,
                ),
                whole == moves@ + if blocked {
                    Seq::<PieceMove>::empty()
                } else {
                    ray_list(self.pieces@, us, from, rank as int, file as int, dr as int, df as int)
                },
                moves@.no_duplicates(),
                forall|m: PieceMove| #[trigger]
                    old(moves)@.contains(m) ==> !(m.from == from && slide_move(
                        self.pieces@,
                        us,
                        dr as int,
                        df as int,
                        m,
                    )),
                !blocked ==> forall|to: int|
                    seen.contains(to) ==> passed(dr as int, df as int, to, rank as int, file as int),
                forall|to: int|
                    #![trigger ray_reaches(self.pieces@, x + dr, y + df, dr as int, df as int, to)]
                    ray_reaches(self.pieces@, x + dr, y + df, dr as int, df as int, to) <==> (
                    seen.contains(to) || (!blocked && ray_reaches(
                        self.pieces@,
                        rank as int,
                        file as int,
                        dr as int,
                        df as int,
                        to,
                    ))),
                forall|to: int| seen.contains(to) ==> 0 <= to < 64,
                forall|m: PieceMove| #[trigger]
                    moves@.contains(m) <==> (old(moves)@.contains(m) || (m.from == from
                        && seen.contains(m.to as int) && lands(self.pieces@, us, m))),
            decreases
                    if blocked {
                        0
                    } else {
                        ray_room(rank as int, file as int, dr as int, df as int)
                    },
        {
            let to = (rank * 8 + file) as u8;
            let found = self.pieces[to as usize];
            proof {
                assert forall|t: int|
                    ray_reaches(
                        self.pieces@,
                        rank as int,
                        file as int,
                        dr as int,
                        df as int,
                        t,
                    ) == (t == to || (found == PieceColor::Empty && ray_reaches(
                        self.pieces@,
                        rank + dr,
                        file + df,
                        dr as int,
                        df as int,
                        t,
                    ))) by {}
                assert(ray_reaches(self.pieces@, x + dr, y + df, dr as int, df as int, to as int));
                assert(!seen.contains(to as int));
                seen = seen.insert(to as int);
            }
            let ghost listed = moves@;
            let ghost ahead = ray_list(
                self.pieces@,
                us,
                from,
                rank as int,
                file as int,
                dr as int,
                df as int,
            );
            match found.owner() {
                None => {
                    push_move(moves, from, to, MoveFlag::Normal);
                    rank += dr;
                    file += df;
                },
                Some(owner) => {
                    if owner != us {
                        push_move(moves, from, to, MoveFlag::Capture);
                    }
                    blocked = true;
                },
            }
            proof {
                let rest = if blocked {
                    Seq::<PieceMove>::empty()
                } else {
                    ray_list(self.pieces@, us, from, rank as int, file as int, dr as int, df as int)
                };
                assert(listed + ahead =~= moves@ + rest);
            }
        }
        proof {
            assert(whole =~= moves@);
        }
    }
}

} // verus!

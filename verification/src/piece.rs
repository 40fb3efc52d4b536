use vstd::prelude::*;

verus! {

/// The two players.
#[derive(Clone, Copy, Debug, PartialEq, Eq, Structural)]
pub enum Color {
    White,
    Black,
}

/// The six kinds of chessmen.
#[derive(Clone, Copy, Debug, PartialEq, Eq, Structural)]
pub enum Piece {
    Pawn,
    Knight,
    Bishop,
    Rook,
    Queen,
    King,
}

/// What stands on a square: nothing, or a piece of one colour.
#[derive(Clone, Copy, Debug, PartialEq, Eq, Structural)]
pub enum PieceColor {
    Empty,
    WhitePawn,
    WhiteKnight,
    WhiteBishop,
    WhiteRook,
    WhiteQueen,
    WhiteKing,
    BlackPawn,
    BlackKnight,
    BlackBishop,
    BlackRook,
    BlackQueen,
    BlackKing,
}

impl Color {
    /// The other player.
    pub open spec fn other(self) -> Color {
        match self {
            Color::White => Color::Black,
            Color::Black => Color::White,
        }
    }

    /// The colour's place in a table indexed by colour.
    pub open spec fn index(self) -> int {
        match self {
            Color::White => 0,
            Color::Black => 1,
        }
    }

    pub fn get_opposite(self) -> (r: Color)
        ensures
            r == self.other(),
    {
        match self {
            Color::White => Color::Black,
            Color::Black => Color::White,
        }
    }

    pub fn idx(self) -> (r: usize)
        ensures
            r == self.index(),
    {
        match self {
            Color::White => 0,
            Color::Black => 1,
        }
    }
}

impl Piece {
    /// The piece's place in a table indexed by piece.
    pub open spec fn index(self) -> int {
        match self {
            Piece::Pawn => 0,
            Piece::Knight => 1,
            Piece::Bishop => 2,
            Piece::Rook => 3,
            Piece::Queen => 4,
            Piece::King => 5,
        }
    }

    pub fn idx(self) -> (r: usize)
        ensures
            r == self.index(),
    {
        match self {
            Piece::Pawn => 0,
            Piece::Knight => 1,
            Piece::Bishop => 2,
            Piece::Rook => 3,
            Piece::Queen => 4,
            Piece::King => 5,
        }
    }
}

impl PieceColor {
    /// The piece `piece` in the colour `color`.
    pub open spec fn of(piece: Piece, color: Color) -> PieceColor {
        match (color, piece) {
            (Color::White, Piece::Pawn) => PieceColor::WhitePawn,
            (Color::White, Piece::Knight) => PieceColor::WhiteKnight,
            (Color::White, Piece::Bishop) => PieceColor::WhiteBishop,
            (Color::White, Piece::Rook) => PieceColor::WhiteRook,
            (Color::White, Piece::Queen) => PieceColor::WhiteQueen,
            (Color::White, Piece::King) => PieceColor::WhiteKing,
            (Color::Black, Piece::Pawn) => PieceColor::BlackPawn,
            (Color::Black, Piece::Knight) => PieceColor::BlackKnight,
            (Color::Black, Piece::Bishop) => PieceColor::BlackBishop,
            (Color::Black, Piece::Rook) => PieceColor::BlackRook,
            (Color::Black, Piece::Queen) => PieceColor::BlackQueen,
            (Color::Black, Piece::King) => PieceColor::BlackKing,
        }
    }

    /// The kind of piece, if the square is not empty.
    pub open spec fn piece(self) -> Option<Piece> {
        match self {
            PieceColor::Empty => None,
            PieceColor::WhitePawn | PieceColor::BlackPawn => Some(Piece::Pawn),
            PieceColor::WhiteKnight | PieceColor::BlackKnight => Some(Piece::Knight),
            PieceColor::WhiteBishop | PieceColor::BlackBishop => Some(Piece::Bishop),
            PieceColor::WhiteRook | PieceColor::BlackRook => Some(Piece::Rook),
            PieceColor::WhiteQueen | PieceColor::BlackQueen => Some(Piece::Queen),
            PieceColor::WhiteKing | PieceColor::BlackKing => Some(Piece::King),
        }
    }

    /// The owner of the piece, if the square is not empty.
    pub open spec fn color(self) -> Option<Color> {
        match self {
            PieceColor::Empty => None,
            PieceColor::WhitePawn
            | PieceColor::WhiteKnight
            | PieceColor::WhiteBishop
            | PieceColor::WhiteRook
            | PieceColor::WhiteQueen
            | PieceColor::WhiteKing => Some(Color::White),
            _ => Some(Color::Black),
        }
    }

    /// The row of the piece-square key table that belongs to this value.
    pub open spec fn index(self) -> int {
        match self {
            PieceColor::Empty => 0,
            PieceColor::WhitePawn => 1,
            PieceColor::WhiteKnight => 2,
            PieceColor::WhiteBishop => 3,
            PieceColor::WhiteRook => 4,
            PieceColor::WhiteQueen => 5,
            PieceColor::WhiteKing => 6,
            PieceColor::BlackPawn => 7,
            PieceColor::BlackKnight => 8,
            PieceColor::BlackBishop => 9,
            PieceColor::BlackRook => 10,
            PieceColor::BlackQueen => 11,
            PieceColor::BlackKing => 12,
        }
    }

    pub fn new(piece: Piece, color: Color) -> (r: PieceColor)
        ensures
            r == PieceColor::of(piece, color),
    {
        match (color, piece) {
            (Color::White, Piece::Pawn) => PieceColor::WhitePawn,
            (Color::White, Piece::Knight) => PieceColor::WhiteKnight,
            (Color::White, Piece::Bishop) => PieceColor::WhiteBishop,
            (Color::White, Piece::Rook) => PieceColor::WhiteRook,
            (Color::White, Piece::Queen) => PieceColor::WhiteQueen,
            (Color::White, Piece::King) => PieceColor::WhiteKing,
            (Color::Black, Piece::Pawn) => PieceColor::BlackPawn,
            (Color::Black, Piece::Knight) => PieceColor::BlackKnight,
            (Color::Black, Piece::Bishop) => PieceColor::BlackBishop,
            (Color::Black, Piece::Rook) => PieceColor::BlackRook,
            (Color::Black, Piece::Queen) => PieceColor::BlackQueen,
            (Color::Black, Piece::King) => PieceColor::BlackKing,
        }
    }

    /// The kind of piece on a square that is known not to be empty.
    pub fn extract_piece(self) -> (r: Piece)
        requires
            self != PieceColor::Empty,
        ensures
            self.piece() == Some(r),
    {
        match self {
            PieceColor::WhitePawn | PieceColor::BlackPawn => Piece::Pawn,
            PieceColor::WhiteKnight | PieceColor::BlackKnight => Piece::Knight,
            PieceColor::WhiteBishop | PieceColor::BlackBishop => Piece::Bishop,
            PieceColor::WhiteRook | PieceColor::BlackRook => Piece::Rook,
            PieceColor::WhiteQueen | PieceColor::BlackQueen => Piece::Queen,
            _ => Piece::King,
        }
    }

    pub fn try_extract_piece(self) -> (r: Option<Piece>)
        ensures
            r == self.piece(),
    {
        match self {
            PieceColor::Empty => None,
            PieceColor::WhitePawn | PieceColor::BlackPawn => Some(Piece::Pawn),
            PieceColor::WhiteKnight | PieceColor::BlackKnight => Some(Piece::Knight),
            PieceColor::WhiteBishop | PieceColor::BlackBishop => Some(Piece::Bishop),
            PieceColor::WhiteRook | PieceColor::BlackRook => Some(Piece::Rook),
            PieceColor::WhiteQueen | PieceColor::BlackQueen => Some(Piece::Queen),
            PieceColor::WhiteKing | PieceColor::BlackKing => Some(Piece::King),
        }
    }

    /// The owner of the piece, if the square is not empty.
    pub fn owner(self) -> (r: Option<Color>)
        ensures
            r == self.color(),
    {
        match self {
            PieceColor::Empty => None,
            PieceColor::WhitePawn
            | PieceColor::WhiteKnight
            | PieceColor::WhiteBishop
            | PieceColor::WhiteRook
            | PieceColor::WhiteQueen
            | PieceColor::WhiteKing => Some(Color::White),
            _ => Some(Color::Black),
        }
    }

    pub fn idx(self) -> (r: usize)
        ensures
            r == self.index(),
    {
        match self {
            PieceColor::Empty => 0,
            PieceColor::WhitePawn => 1,
            PieceColor::WhiteKnight => 2,
            PieceColor::WhiteBishop => 3,
            PieceColor::WhiteRook => 4,
            PieceColor::WhiteQueen => 5,
            PieceColor::WhiteKing => 6,
            PieceColor::BlackPawn => 7,
            PieceColor::BlackKnight => 8,
            PieceColor::BlackBishop => 9,
            PieceColor::BlackRook => 10,
            PieceColor::BlackQueen => 11,
            PieceColor::BlackKing => 12,
        }
    }
}

/// A piece of a colour is that piece and that colour, and nothing else is.
pub proof fn lemma_piece_color(pc: PieceColor, piece: Piece, color: Color)
    ensures
        (pc == PieceColor::of(piece, color)) <==> (pc.piece() == Some(piece) && pc.color() == Some(
            color,
        )),
        PieceColor::of(piece, color) != PieceColor::Empty,
        (pc == PieceColor::Empty) <==> (pc.piece() is None),
        (pc == PieceColor::Empty) <==> (pc.color() is None),
{
}

} // verus!

//! Plain values for what the session logic reads from a position: sides,
//! piece kinds, pieces, squares and move specifications.
use vstd::prelude::*;

verus! {

/// The two sides. Black moves first.
#[derive(Clone, Copy, Debug, PartialEq, Eq, Hash, Structural)]
pub enum Color {
    Black,
    White,
}

/// The fourteen kinds of piece, unpromoted ones first.
#[derive(Clone, Copy, Debug, PartialEq, Eq, Hash, Structural)]
pub enum PieceType {
    King,
    Rook,
    Bishop,
    Gold,
    Silver,
    Knight,
    Lance,
    Pawn,
    ProRook,
    ProBishop,
    ProSilver,
    ProKnight,
    ProLance,
    ProPawn,
}

/// A piece of a given kind belonging to a given side.
#[derive(Clone, Copy, Debug, PartialEq, Eq, Hash, Structural)]
pub struct Piece {
    pub piece_type: PieceType,
    pub color: Color,
}

/// One of the 81 squares, numbered `file * 9 + rank` with file and rank in `0..9`.
#[derive(Clone, Copy, Debug, PartialEq, Eq, Hash, Structural)]
pub struct Square {
    pub index: u8,
}

/// A fully specified move: a board move with its promotion choice, or a drop
/// from the hand of the side to move.
#[derive(Clone, Copy, Debug, PartialEq, Eq, Structural)]
pub enum Move {
    Normal { from: Square, to: Square, promote: bool },
    Drop { piece_type: PieceType, to: Square },
}

pub const BOARD_SQUARES: u8 = 81;

pub const PIECE_TYPES: u8 = 14;

impl Color {
    pub open spec fn spec_index(self) -> nat {
        match self {
            Color::Black => 0,
            Color::White => 1,
        }
    }

    /// Position of the side in the engine's own ordering (black, white).
    pub fn index(self) -> (r: u8)
        ensures
            r as nat == self.spec_index(),
    {
        match self {
            Color::Black => 0,
            Color::White => 1,
        }
    }

    pub open spec fn spec_from_index(i: nat) -> Color {
        if i == 0 {
            Color::Black
        } else {
            Color::White
        }
    }

    /// The side at the given place of the engine's ordering.
    pub fn from_index(i: u8) -> (r: Color)
        requires
            i < 2,
        ensures
            r == Color::spec_from_index(i as nat),
            r.spec_index() == i,
    {
        if i == 0 {
            Color::Black
        } else {
            Color::White
        }
    }

    /// The other side.
    pub fn flip(self) -> (r: Color)
        ensures
            r != self,
    {
        match self {
            Color::Black => Color::White,
            Color::White => Color::Black,
        }
    }
}

impl PieceType {
    pub open spec fn spec_index(self) -> nat {
        match self {
            PieceType::King => 0,
            PieceType::Rook => 1,
            PieceType::Bishop => 2,
            PieceType::Gold => 3,
            PieceType::Silver => 4,
            PieceType::Knight => 5,
            PieceType::Lance => 6,
            PieceType::Pawn => 7,
            PieceType::ProRook => 8,
            PieceType::ProBishop => 9,
            PieceType::ProSilver => 10,
            PieceType::ProKnight => 11,
            PieceType::ProLance => 12,
            PieceType::ProPawn => 13,
        }
    }

    /// Position of the kind in the engine's own ordering.
    pub fn index(self) -> (r: u8)
        ensures
            r as nat == self.spec_index(),
            r < PIECE_TYPES,
    {
        match self {
            PieceType::King => 0,
            PieceType::Rook => 1,
            PieceType::Bishop => 2,
            PieceType::Gold => 3,
            PieceType::Silver => 4,
            PieceType::Knight => 5,
            PieceType::Lance => 6,
            PieceType::Pawn => 7,
            PieceType::ProRook => 8,
            PieceType::ProBishop => 9,
            PieceType::ProSilver => 10,
            PieceType::ProKnight => 11,
            PieceType::ProLance => 12,
            PieceType::ProPawn => 13,
        }
    }

    pub open spec fn spec_from_index(i: nat) -> PieceType {
        if i == 0 { PieceType::King }
        else if i == 1 { PieceType::Rook }
        else if i == 2 { PieceType::Bishop }
        else if i == 3 { PieceType::Gold }
        else if i == 4 { PieceType::Silver }
        else if i == 5 { PieceType::Knight }
        else if i == 6 { PieceType::Lance }
        else if i == 7 { PieceType::Pawn }
        else if i == 8 { PieceType::ProRook }
        else if i == 9 { PieceType::ProBishop }
        else if i == 10 { PieceType::ProSilver }
        else if i == 11 { PieceType::ProKnight }
        else if i == 12 { PieceType::ProLance }
        else { PieceType::ProPawn }
    }

    /// The kind at the given place of the engine's ordering.
    pub fn from_index(i: u8) -> (r: PieceType)
        requires
            i < PIECE_TYPES,
        ensures
            r == PieceType::spec_from_index(i as nat),
            r.spec_index() == i,
    {
        match i {
            0 => PieceType::King,
            1 => PieceType::Rook,
            2 => PieceType::Bishop,
            3 => PieceType::Gold,
            4 => PieceType::Silver,
            5 => PieceType::Knight,
            6 => PieceType::Lance,
            7 => PieceType::Pawn,
            8 => PieceType::ProRook,
            9 => PieceType::ProBishop,
            10 => PieceType::ProSilver,
            11 => PieceType::ProKnight,
            12 => PieceType::ProLance,
            _ => PieceType::ProPawn,
        }
    }

    /// Whether a piece of this kind can sit in a hand (an unpromoted kind other than the king).
    pub open spec fn spec_is_hand_piece(self) -> bool {
        1 <= self.spec_index() <= 7
    }

    pub fn is_hand_piece(self) -> (r: bool)
        ensures
            r == self.spec_is_hand_piece(),
    {
        let i = self.index();
        1 <= i && i <= 7
    }
}

impl Square {
    /// The square lies on the board.
    pub open spec fn wf(self) -> bool {
        self.index < BOARD_SQUARES
    }

    pub open spec fn spec_file(self) -> nat {
        (self.index / 9) as nat
    }

    pub open spec fn spec_rank(self) -> nat {
        (self.index % 9) as nat
    }

    /// The square at the given file and rank, if both are in `0..9`.
    pub fn new(file: u8, rank: u8) -> (r: Option<Square>)
        ensures
            r is Some <==> file < 9 && rank < 9,
            r matches Some(s) ==> s.wf() && s.spec_file() == file && s.spec_rank() == rank,
    {
        if file < 9 && rank < 9 {
            Some(Square { index: file * 9 + rank })
        } else {
            None
        }
    }

    /// The square with the given index, if it is below 81.
    pub fn from_index(index: u8) -> (r: Option<Square>)
        ensures
            r is Some <==> index < BOARD_SQUARES,
            r matches Some(s) ==> s.index == index,
    {
        if index < BOARD_SQUARES {
            Some(Square { index })
        } else {
            None
        }
    }

    pub fn file(self) -> (r: u8)
        requires
            self.wf(),
        ensures
            r == self.spec_file(),
            r < 9,
    {
        self.index / 9
    }

    pub fn rank(self) -> (r: u8)
        requires
            self.wf(),
        ensures
            r == self.spec_rank(),
            r < 9,
    {
        self.index % 9
    }
}

/// The squares of the board in the engine's order of indices.
pub open spec fn all_squares() -> Seq<Square> {
    Seq::new(BOARD_SQUARES as nat, |i: int| Square { index: i as u8 })
}

impl Move {
    /// Every square named by the move is on the board.
    pub open spec fn wf(self) -> bool {
        match self {
            Move::Normal { from, to, .. } => from.wf() && to.wf(),
            Move::Drop { to, .. } => to.wf(),
        }
    }
}

} // verus!

//! Plain-value chess vocabulary: colours, pieces, squares and moves.
//!
//! Squares are numbered `0..64` with `a1 = 0`, `b1 = 1`, ..., `h8 = 63`
//! (file in the low three bits, rank in the next three). Roles are numbered
//! `1..=6`: pawn, knight, bishop, rook, queen, king.
use vstd::prelude::*;

verus! {

/// Number of the pawn role.
pub const PAWN: u8 = 1;

/// Number of the king role.
pub const KING: u8 = 6;

/// File A, counted from zero.
pub const FILE_A: u8 = 0;

/// File D, counted from zero.
pub const FILE_D: u8 = 3;

/// File F, counted from zero.
pub const FILE_F: u8 = 5;

/// File H, counted from zero.
pub const FILE_H: u8 = 7;

/// `White` or `Black`.
#[derive(Clone, Copy, Debug, PartialEq, Eq, Structural)]
pub enum Color {
    White,
    Black,
}

/// A role number names one of the six piece types.
pub open spec fn valid_role(role: u8) -> bool {
    1 <= role <= 6
}

/// A piece: its colour and its role number.
#[derive(Clone, Copy, Debug, PartialEq, Eq, Structural)]
pub struct Piece {
    pub color: Color,
    pub role: u8,
}

impl Piece {
    pub open spec fn wf(self) -> bool {
        valid_role(self.role)
    }
}

/// The file (column) of a square, counted from zero.
pub open spec fn file_of(square: int) -> int {
    square % 8
}

/// The rank (row) of a square, counted from zero.
pub open spec fn rank_of(square: int) -> int {
    square / 8
}

/// The square on `file` and `rank`.
pub open spec fn square_at(file: int, rank: int) -> int {
    file + 8 * rank
}

/// Gets the file of `square`.
pub fn square_file(square: u8) -> (file: u8)
    ensures
        file == file_of(square as int),
        file < 8,
{
    square % 8
}

/// Gets the rank of `square`.
pub fn square_rank(square: u8) -> (rank: u8)
    requires
        square < 64,
    ensures
        rank == rank_of(square as int),
        rank < 8,
{
    square / 8
}

/// Gets the square on `file` and `rank`.
pub fn square_from_coords(file: u8, rank: u8) -> (square: u8)
    requires
        file < 8,
        rank < 8,
    ensures
        square == square_at(file as int, rank as int),
        square < 64,
        file_of(square as int) == file,
        rank_of(square as int) == rank,
{
    file + 8 * rank
}

/// `KingSide` (O-O) or `QueenSide` (O-O-O).
#[derive(Clone, Copy, Debug, PartialEq, Eq, Structural)]
pub enum CastlingSide {
    KingSide,
    QueenSide,
}

impl CastlingSide {
    #[verifier::allow_in_spec]
    pub fn is_king_side(self) -> bool
        returns
            self is KingSide,
    {
        match self {
            CastlingSide::KingSide => true,
            CastlingSide::QueenSide => false,
        }
    }

    /// The file the rook ends on after castling to this side.
    #[verifier::allow_in_spec]
    pub fn rook_to_file(self) -> u8
        returns
            (match self {
                CastlingSide::KingSide => FILE_F,
                CastlingSide::QueenSide => FILE_D,
            }),
    {
        match self {
            CastlingSide::KingSide => FILE_F,
            CastlingSide::QueenSide => FILE_D,
        }
    }
}

/// A move, as the move generator describes it. A castling move is given by
/// the king's square and the square of the rook it castles with.
#[derive(Clone, Copy, Debug, PartialEq, Eq, Structural)]
pub enum Move {
    Normal { role: u8, from: u8, capture: Option<u8>, to: u8, promotion: Option<u8> },
    EnPassant { from: u8, to: u8 },
    Castle { king: u8, rook: u8 },
    Put { role: u8, to: u8 },
}

impl Move {
    /// Every square of the move is on the board and every role number names a role.
    pub open spec fn wf(self) -> bool {
        match self {
            Move::Normal { role, from, capture, to, promotion } => {
                &&& valid_role(role)
                &&& from < 64
                &&& to < 64
                &&& (capture matches Some(r) ==> valid_role(r))
                &&& (promotion matches Some(r) ==> valid_role(r))
            },
            Move::EnPassant { from, to } => from < 64 && to < 64,
            Move::Castle { king, rook } => king < 64 && rook < 64,
            Move::Put { role, to } => valid_role(role) && to < 64,
        }
    }

    /// The origin square, or `None` for a drop.
    #[verifier::allow_in_spec]
    pub fn from(&self) -> Option<u8>
        returns
            (match *self {
                Move::Normal { from, .. } => Some(from),
                Move::EnPassant { from, .. } => Some(from),
                Move::Castle { king, .. } => Some(king),
                Move::Put { .. } => None,
            }),
    {
        match *self {
            Move::Normal { from, .. } => Some(from),
            Move::EnPassant { from, .. } => Some(from),
            Move::Castle { king, .. } => Some(king),
            Move::Put { .. } => None,
        }
    }

    /// The target square; for a castling move, the rook's square.
    #[verifier::allow_in_spec]
    pub fn to(&self) -> u8
        returns
            (match *self {
                Move::Normal { to, .. } => to,
                Move::EnPassant { to, .. } => to,
                Move::Castle { rook, .. } => rook,
                Move::Put { to, .. } => to,
            }),
    {
        match *self {
            Move::Normal { to, .. } => to,
            Move::EnPassant { to, .. } => to,
            Move::Castle { rook, .. } => rook,
            Move::Put { to, .. } => to,
        }
    }

    /// The role of the captured piece, if any; an en passant capture takes a pawn.
    #[verifier::allow_in_spec]
    pub fn capture(&self) -> Option<u8>
        returns
            (match *self {
                Move::Normal { capture, .. } => capture,
                Move::EnPassant { .. } => Some(PAWN),
                _ => None,
            }),
    {
        match *self {
            Move::Normal { capture, .. } => capture,
            Move::EnPassant { .. } => Some(PAWN),
            _ => None,
        }
    }

    /// The role a pawn is promoted to, if any.
    #[verifier::allow_in_spec]
    pub fn promotion(&self) -> Option<u8>
        returns
            (match *self {
                Move::Normal { promotion, .. } => promotion,
                _ => None,
            }),
    {
        match *self {
            Move::Normal { promotion, .. } => promotion,
            _ => None,
        }
    }

    /// The side of a castling move.
    #[verifier::allow_in_spec]
    pub fn castling_side(&self) -> Option<CastlingSide>
        returns
            (match *self {
                Move::Castle { king, rook } => Some(
                    if king < rook {
                        CastlingSide::KingSide
                    } else {
                        CastlingSide::QueenSide
                    },
                ),
                _ => None,
            }),
    {
        match *self {
            Move::Castle { king, rook } => {
                if king < rook {
                    Some(CastlingSide::KingSide)
                } else {
                    Some(CastlingSide::QueenSide)
                }
            },
            _ => None,
        }
    }
}

} // verus!

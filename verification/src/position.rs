//! Queries on a chess position, answered by the `shakmaty` move generator.
//!
//! A position is held as its FEN text. Each query reads the FEN with
//! `shakmaty` (standard castling rules); when the text does not describe a
//! valid standard chess position the query answers as for a position with
//! no pieces and no moves.
use crate::chess::{Color, Move, Piece};
use shakmaty::fen::Fen;
use shakmaty::uci::Uci;
use shakmaty::CastlingMode::Standard;
use shakmaty::{Chess, EnPassantMode, Position};
use shakmaty::{Move as ChessMove, Role as ChessRole, Square as ChessSquare};
use vstd::prelude::*;

verus! {

/// The legal moves of the position `fen` describes, in the generator's order.
pub uninterp spec fn legal_moves_of(fen: Seq<char>) -> Seq<Move>;

/// The FEN of the position after the move from square `from` to square `to`
/// (promoting to role `promotion`) is played in the position `fen` describes,
/// or `None` when no such move is legal there.
pub uninterp spec fn position_after(fen: Seq<char>, from: u8, to: u8, promotion: Option<u8>) -> Option<Seq<char>>;

/// The occupied squares of the position `fen` describes, each with its piece.
pub uninterp spec fn pieces_of(fen: Seq<char>) -> Seq<(u8, Piece)>;

/// The piece on `square` in the position `fen` describes.
pub uninterp spec fn piece_at_of(fen: Seq<char>, square: u8) -> Option<Piece>;

/// The side to move in the position `fen` describes.
pub uninterp spec fn turn_of(fen: Seq<char>) -> Option<Color>;

/// The move with `m`'s origin, target and promotion can be played in the
/// position `fen` describes.
pub open spec fn playable(fen: Seq<char>, m: Move) -> bool {
    m.from() is Some && position_after(fen, m.from().unwrap(), m.to(), m.promotion()) is Some
}

/// Calls `Position::legal_moves` of `shakmaty::Chess` on the position read
/// from `fen`, and converts each move field by field (squares and roles to
/// their numbers). Claimed: the result is the named `legal_moves_of(fen)`
/// (empty when `fen` is not a valid position), and every converted move has
/// squares below 64 and role numbers in `1..=6`, which holds of every
/// `shakmaty` square and role; and each move can be played with `play`:
/// a standard chess position generates no drops, and `Uci::to_move` reads
/// the origin, target and promotion of a legal move back as that same move
/// (a castling move as the king onto its rook, which it reads as castling
/// while the rook's castling right stands).
#[verifier::external_body]
pub(crate) fn legal_moves(fen: &str) -> (moves: Vec<Move>)
    ensures
        moves@ == legal_moves_of(fen@),
        forall|i: int| 0 <= i < moves@.len() ==> (#[trigger] moves@[i]).wf(),
        forall|i: int| 0 <= i < moves@.len() ==> playable(fen@, #[trigger] moves@[i]),
{
    fen.parse::<Fen>().ok().and_then(|f| f.into_position::<Chess>(Standard).ok()).iter().flat_map(Position::legal_moves).map(|m| match m {
        ChessMove::Normal { role, from, capture, to, promotion } => Move::Normal { role: role as u8, from: from as u8, capture: capture.map(u8::from), to: to as u8, promotion: promotion.map(u8::from) },
        ChessMove::EnPassant { from, to } => Move::EnPassant { from: from as u8, to: to as u8 },
        ChessMove::Castle { king, rook } => Move::Castle { king: king as u8, rook: rook as u8 },
        ChessMove::Put { role, to } => Move::Put { role: role as u8, to: to as u8 },
    }).collect()
}

/// Reads the move with origin `from`, target `to` and `promotion` as UCI in
/// the position read from `fen` (`Uci::to_move`, which also reads a king
/// moving onto its own rook as castling), plays it with `Position::play` of
/// `shakmaty::Chess`, and writes the resulting position as FEN
/// (`EnPassantMode::Legal`). Claimed: the result is the named
/// `position_after(fen, from, to, promotion)`. `None` comes when `fen` is not
/// a valid position, when a number names no square or role, or when the move
/// is not legal there.
#[verifier::external_body]
pub(crate) fn play(fen: &str, from: u8, to: u8, promotion: Option<u8>) -> (after: Option<String>)
    ensures
        match after {
            Some(s) => position_after(fen@, from, to, promotion) == Some(s@),
            None => position_after(fen@, from, to, promotion) is None,
        },
{
    let pos: Chess = fen.parse::<Fen>().ok()?.into_position(Standard).ok()?;
    let uci = Uci::Normal { from: ChessSquare::try_from(from).ok()?, to: ChessSquare::try_from(to).ok()?, promotion: promotion.map(ChessRole::try_from).transpose().ok()? };
    let m = uci.to_move(&pos).ok()?;
    Some(Fen::from_position(pos.play(&m).ok()?, EnPassantMode::Legal).to_string())
}

/// Iterates the `shakmaty::Board` of the position read from `fen` and
/// converts each `(square, piece)` to numbers. Claimed: the result is the
/// named `pieces_of(fen)` (empty when `fen` is not a valid position), with
/// every square below 64 and every role number in `1..=6`. The iterator
/// takes the lowest occupied square first (`Board::pop_front`) and gives
/// the piece `Board::piece_at` gives there, until no square is occupied;
/// so the squares ascend, each entry agrees with `piece_at`, and every
/// occupied square is listed.
#[verifier::external_body]
pub(crate) fn board_pieces(fen: &str) -> (pieces: Vec<(u8, Piece)>)
    ensures
        pieces@ == pieces_of(fen@),
        forall|i: int| 0 <= i < pieces@.len() ==> (#[trigger] pieces@[i]).0 < 64 && pieces@[i].1.wf(),
        forall|i: int, j: int| 0 <= i < j < pieces@.len() ==> (#[trigger] pieces@[i]).0 < (#[trigger] pieces@[j]).0,
        forall|i: int| 0 <= i < pieces@.len() ==> piece_at_of(fen@, (#[trigger] pieces@[i]).0) == Some(pieces@[i].1),
        forall|square: u8| (#[trigger] piece_at_of(fen@, square)) is Some ==> exists|i: int| 0 <= i < pieces@.len() && (#[trigger] pieces@[i]).0 == square,
{
    let Some(pos) = fen.parse::<Fen>().ok().and_then(|f| f.into_position::<Chess>(Standard).ok()) else { return Vec::new() };
    pos.board().clone().into_iter().map(|(sq, p)| (sq as u8, Piece { color: p.color.fold_wb(Color::White, Color::Black), role: p.role as u8 })).collect()
}

/// Calls `Board::piece_at` on the board of the position read from `fen`.
/// Claimed: the result is the named `piece_at_of(fen, square)` (`None` when
/// `fen` is not a valid position or `square` is not below 64), and its role
/// number is in `1..=6`.
#[verifier::external_body]
pub(crate) fn piece_at(fen: &str, square: u8) -> (piece: Option<Piece>)
    ensures
        piece == piece_at_of(fen@, square),
        piece matches Some(p) ==> p.wf(),
{
    let pos: Chess = fen.parse::<Fen>().ok()?.into_position(Standard).ok()?;
    pos.board().piece_at(ChessSquare::try_from(square).ok()?).map(|p| Piece { color: p.color.fold_wb(Color::White, Color::Black), role: p.role as u8 })
}

/// Calls `Position::turn` on the position read from `fen`. Claimed: the
/// result is the named `turn_of(fen)` (`None` when `fen` is not a valid
/// position).
#[verifier::external_body]
pub(crate) fn turn(fen: &str) -> (color: Option<Color>)
    ensures
        color == turn_of(fen@),
{
    let pos: Chess = fen.parse::<Fen>().ok()?.into_position(Standard).ok()?;
    Some(pos.turn().fold_wb(Color::White, Color::Black))
}

} // verus!

//! The board: the current position and the queries the controller makes on it.
use crate::chess::{Color, Move, Piece};
use crate::position::{
    board_pieces, legal_moves, legal_moves_of, piece_at, piece_at_of, pieces_of, play, playable,
    position_after, turn, turn_of,
};
use vstd::prelude::*;

verus! {

/// A piece together with the square it stands on.
#[derive(Clone, Copy, Debug, PartialEq, Eq, Structural)]
pub struct PieceAtSquare {
    pub square: u8,
    pub piece: Piece,
}

/// The id of a piece image: `0..=5` for the white pawn .. king, `10..=15`
/// for the black pawn .. king.
pub open spec fn piece_id_of(piece: Piece) -> u8 {
    if piece.color == Color::White {
        (piece.role - 1) as u8
    } else {
        (piece.role + 9) as u8
    }
}

impl PieceAtSquare {
    pub open spec fn wf(self) -> bool {
        self.square < 64 && self.piece.wf()
    }

    /// The id of the image of this piece.
    pub fn piece_id(&self) -> (id: u8)
        requires
            self.piece.wf(),
        ensures
            id == piece_id_of(self.piece),
    {
        match self.piece.color {
            Color::White => self.piece.role - 1,
            Color::Black => self.piece.role + 9,
        }
    }
}

/// Pairs a square with the piece on it.
pub open spec fn at_square(entry: (u8, Piece)) -> PieceAtSquare {
    PieceAtSquare { square: entry.0, piece: entry.1 }
}

/// The moves of `moves` that start on `src`, in order.
pub open spec fn moves_from(moves: Seq<Move>, src: u8) -> Seq<Move> {
    moves.filter(|m: Move| m.from() == Some(src))
}

/// The position `fen` after the move `m`: the move with `m`'s origin,
/// target and promotion is played when it is legal; otherwise, and for a
/// drop, the position stays as it is.
pub open spec fn after_move(fen: Seq<char>, m: Move) -> Seq<char> {
    match m.from() {
        Some(from) => match position_after(fen, from, m.to(), m.promotion()) {
            Some(next) => next,
            None => fen,
        },
        None => fen,
    }
}

/// The FEN of the initial position of a game.
pub open spec fn start_fen() -> Seq<char> {
    "rnbqkbnr/pppppppp/8/8/8/8/PPPPPPPP/RNBQKBNR w KQkq - 0 1"@
}

/// The current position of the game, held as its FEN.
pub struct BoardImpl {
    fen: String,
}

impl View for BoardImpl {
    type V = Seq<char>;

    closed spec fn view(&self) -> Seq<char> {
        self.fen@
    }
}

impl Default for BoardImpl {
    fn default() -> (board: BoardImpl)
        ensures
            board@ == start_fen(),
    {
        BoardImpl { fen: "rnbqkbnr/pppppppp/8/8/8/8/PPPPPPPP/RNBQKBNR w KQkq - 0 1".to_owned() }
    }
}

impl BoardImpl {
    /// A board in the position given by `fen`.
    pub fn from_fen(fen: &str) -> (board: BoardImpl)
        ensures
            board@ == fen@,
    {
        BoardImpl { fen: fen.to_owned() }
    }

    /// The FEN of the current position.
    pub fn fen(&self) -> (fen: &str)
        ensures
            fen@ == self@,
    {
        self.fen.as_str()
    }

    /// The side to move.
    pub fn turn(&self) -> (color: Option<Color>)
        ensures
            color == turn_of(self@),
    {
        turn(self.fen.as_str())
    }

    /// Every piece on the board with its square, by ascending square: each
    /// occupied square once, with the piece `piece_on` finds there.
    pub fn pieces(&self) -> (piece_vec: Vec<PieceAtSquare>)
        ensures
            piece_vec@ == pieces_of(self@).map_values(|e: (u8, Piece)| at_square(e)),
            forall|i: int| 0 <= i < piece_vec@.len() ==> (#[trigger] piece_vec@[i]).wf(),
            forall|i: int, j: int|
                0 <= i < j < piece_vec@.len() ==> (#[trigger] piece_vec@[i]).square < (
                #[trigger] piece_vec@[j]).square,
            forall|i: int|
                0 <= i < piece_vec@.len() ==> piece_at_of(self@, (#[trigger] piece_vec@[i]).square)
                    == Some(piece_vec@[i].piece),
            forall|square: u8|
                (#[trigger] piece_at_of(self@, square)) is Some ==> exists|i: int|
                    0 <= i < piece_vec@.len() && (#[trigger] piece_vec@[i]).square == square,
    {
        let bb = board_pieces(self.fen.as_str());
        let mut piece_vec: Vec<PieceAtSquare> = Vec::new();
        let mut i: usize = 0;
        while i < bb.len()
            invariant
                i <= bb.len(),
                bb@ == pieces_of(self@),
                forall|j: int| 0 <= j < bb@.len() ==> (#[trigger] bb@[j]).0 < 64 && bb@[j].1.wf(),
                piece_vec@ == bb@.take(i as int).map_values(|e: (u8, Piece)| at_square(e)),
            decreases bb.len() - i,
        {
            let (square, piece) = bb[i];
            piece_vec.push(PieceAtSquare { square, piece });
            assert(bb@.take(i + 1) =~= bb@.take(i as int).push(bb@[i as int]));
            i = i + 1;
        }
        assert(bb@.take(i as int) =~= bb@);
        assert forall|square: u8| (#[trigger] piece_at_of(self@, square)) is Some implies exists|k: int|
            0 <= k < piece_vec@.len() && (#[trigger] piece_vec@[k]).square == square by {
            let k = choose|k: int| 0 <= k < bb@.len() && (#[trigger] bb@[k]).0 == square;
            assert(piece_vec@[k] == at_square(bb@[k]));
        }
        piece_vec
    }

    /// The piece on `square`, if any.
    pub fn piece_on(&self, square: u8) -> (found: Option<PieceAtSquare>)
        ensures
            found == (match piece_at_of(self@, square) {
                Some(piece) => Some(PieceAtSquare { square, piece }),
                None => None,
            }),
            found matches Some(p) ==> p.piece.wf(),
    {
        let piece = piece_at(self.fen.as_str(), square)?;
        Some(PieceAtSquare { square, piece })
    }

    /// The legal moves that start on `src`, in the generator's order; each
    /// of them can be played.
    pub fn moves_of(&self, src: u8) -> (move_vec: Vec<Move>)
        ensures
            move_vec@ == moves_from(legal_moves_of(self@), src),
            forall|i: int|
                0 <= i < move_vec@.len() ==> (#[trigger] move_vec@[i]).wf() && move_vec@[i].from()
                    == Some(src) && playable(self@, move_vec@[i]),
    {
        let all = legal_moves(self.fen.as_str());
        let mut move_vec: Vec<Move> = Vec::new();
        let mut i: usize = 0;
        while i < all.len()
            invariant
                i <= all.len(),
                all@ == legal_moves_of(self@),
                forall|j: int| 0 <= j < all@.len() ==> (#[trigger] all@[j]).wf() && playable(self@, all@[j]),
                move_vec@ == moves_from(all@.take(i as int), src),
                forall|j: int|
                    0 <= j < move_vec@.len() ==> (#[trigger] move_vec@[j]).wf() && move_vec@[j].from()
                        == Some(src) && playable(self@, move_vec@[j]),
            decreases all.len() - i,
        {
            let m = all[i];
            proof {
                reveal_with_fuel(Seq::<Move>::filter, 1);
                assert(all@.take(i + 1).drop_last() =~= all@.take(i as int));
            }
            if m.from() == Some(src) {
                move_vec.push(m);
            }
            i = i + 1;
        }
        assert(all@.take(i as int) =~= all@);
        move_vec
    }

    /// Plays `m` when the move with its origin, target and promotion is
    /// legal; otherwise the position stays as it is. Tells whether `m` was
    /// played.
    pub fn apply_move(&mut self, m: Move) -> (applied: bool)
        ensures
            final(self)@ == after_move(old(self)@, m),
            applied == playable(old(self)@, m),
    {
        if let Some(from) = m.from() {
            if let Some(next) = play(self.fen.as_str(), from, m.to(), m.promotion()) {
                self.fen = next;
                return true;
            }
        }
        false
    }
}

} // verus!

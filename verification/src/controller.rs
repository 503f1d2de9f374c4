//! The board controller: it keeps the game and the selection state, and
//! turns each slot (mouse event, promotion choice, resync request) into a
//! new state and the signals the user interface must show.
//!
//! Each operation appends the signals it emits to `out`, in order.
use crate::board::{
    after_move, at_square, moves_from, piece_id_of, start_fen, BoardImpl, PieceAtSquare,
};
use crate::chess::{
    file_of, rank_of, square_file, square_from_coords, square_rank, Color, Move, Piece,
    FILE_A, FILE_H, PAWN,
};
use crate::position::{legal_moves_of, piece_at_of, pieces_of, playable, position_after, turn_of};
use crate::signals::{lemma_views_push, views, PieceSignals, Signals, SignalsView};
use crate::laws::{image_id, lemma_resync_places_each_piece};
use crate::slots::{DragSlots, MouseEventSlots, Slots};
use vstd::prelude::*;

verus! {

/// The state of the controller, as mathematical values.
pub struct BoardConState {
    /// The current position, as FEN.
    pub fen: Seq<char>,
    /// The piece being dragged, taken from its square.
    pub dragged_piece: Option<PieceAtSquare>,
    /// The selected square.
    pub highlighted_square: Option<u8>,
    /// A pawn move to the last rank that waits for the choice of a piece.
    pub promotion: Option<Move>,
}

impl BoardConState {
    /// The dragged piece is a piece on the board, and a waiting promotion is
    /// an ordinary move without its promotion role.
    pub open spec fn wf(self) -> bool {
        &&& (self.dragged_piece matches Some(p) ==> p.wf())
        &&& (self.promotion matches Some(m) ==> m is Normal && m.wf())
    }
}

// ---------------------------------------------------------------------------
// Coordinates
/// A point lies on the board: the squares have a width, and the point is
/// within the eight files and the eight ranks.
pub open spec fn on_board(x: u32, y: u32, piece_size: u32) -> bool {
    &&& piece_size > 0
    &&& x / piece_size < 8
    &&& y / piece_size < 8
}

/// The square under the point `(x, y)`, `y` growing downwards from rank 8.
pub open spec fn coord_square(x: u32, y: u32, piece_size: u32) -> u8 {
    (x / piece_size + 8 * (7 - y / piece_size)) as u8
}

// ---------------------------------------------------------------------------
// Signals
pub open spec fn place(id: u8, square: u8) -> SignalsView {
    SignalsView::Piece(PieceSignals::Place { id, square })
}

pub open spec fn move_piece(src_square: u8, dest_square: u8) -> SignalsView {
    SignalsView::Piece(PieceSignals::Move { src_square, dest_square })
}

pub open spec fn remove(square: u8) -> SignalsView {
    SignalsView::Piece(PieceSignals::Remove { square })
}

/// The signals that clear the dragged image, the hints and the selection.
pub open spec fn reset_highlights_signals() -> Seq<SignalsView> {
    seq![
        SignalsView::Phantom { id: None },
        SignalsView::Hint { squares: Seq::empty() },
        SignalsView::Capture { squares: Seq::empty() },
        SignalsView::Highlight { square: None },
    ]
}

/// The targets of the moves that capture nothing.
pub open spec fn quiet_targets(moves: Seq<Move>) -> Seq<u8> {
    moves.filter(|m: Move| m.capture() is None).map_values(|m: Move| m.to())
}

/// The targets of the moves that capture.
pub open spec fn capture_targets(moves: Seq<Move>) -> Seq<u8> {
    moves.filter(|m: Move| m.capture() is Some).map_values(|m: Move| m.to())
}

/// The hints for the piece on `square`: where it moves, and where it captures.
pub open spec fn hint_signals(fen: Seq<char>, square: u8) -> Seq<SignalsView> {
    let moves = moves_from(legal_moves_of(fen), square);
    seq![
        SignalsView::Hint { squares: quiet_targets(moves) },
        SignalsView::Capture { squares: capture_targets(moves) },
    ]
}

/// The first of `moves` that ends on `dest`.
pub open spec fn first_to(moves: Seq<Move>, dest: u8) -> Option<Move>
    decreases moves.len(),
{
    if moves.len() == 0 {
        None
    } else if moves[0].to() == dest {
        Some(moves[0])
    } else {
        first_to(moves.drop_first(), dest)
    }
}

/// The legal move from `src` to `dest`, the first the generator lists.
pub open spec fn legal_move_between(fen: Seq<char>, src: u8, dest: u8) -> Option<Move> {
    first_to(moves_from(legal_moves_of(fen), src), dest)
}

// ---------------------------------------------------------------------------
// Steps
/// A waiting promotion is abandoned: the pawn goes back, and a captured
/// piece comes back. The flag tells whether there was one.
pub open spec fn check_promoting_step(s: BoardConState) -> (BoardConState, Seq<SignalsView>, bool) {
    match s.promotion {
        Some(pm) => {
            let to = pm.to();
            let restore = match piece_at_of(s.fen, to) {
                Some(p) => seq![place(piece_id_of(p), to)],
                None => Seq::empty(),
            };
            (
                BoardConState { promotion: None, ..s },
                seq![SignalsView::Promoting { file: None }, move_piece(to, pm.from().unwrap())]
                    + restore,
                true,
            )
        },
        None => (s, Seq::empty(), false),
    }
}

/// The signal that moves the rook of a castling move.
pub open spec fn castle_signals(lm: Move) -> Seq<SignalsView> {
    match lm.castling_side() {
        Some(side) => {
            let rank = rank_of(lm.from().unwrap() as int);
            let from_file = if side.is_king_side() {
                FILE_H
            } else {
                FILE_A
            };
            seq![move_piece((from_file + 8 * rank) as u8, (side.rook_to_file() + 8 * rank) as u8)]
        },
        None => Seq::empty(),
    }
}

/// The signal that removes the pawn taken en passant.
pub open spec fn en_passant_signals(lm: Move) -> Seq<SignalsView> {
    match lm {
        Move::EnPassant { from, to } => seq![remove((file_of(to as int) + 8 * rank_of(from as int)) as u8)],
        _ => Seq::empty(),
    }
}

/// The file on which the promotion choice is shown: the target file, plus 10
/// when Black moves.
pub open spec fn promotion_file(fen: Seq<char>, to: u8) -> u8 {
    if turn_of(fen) == Some(Color::Black) {
        (file_of(to as int) + 10) as u8
    } else {
        file_of(to as int) as u8
    }
}

/// A legal move is made: a promotion waits for the choice of a piece;
/// any other move is shown as the last move, with the side effects of en
/// passant and castling, and is played.
pub open spec fn try_apply_step(s: BoardConState, lm: Move) -> (BoardConState, Seq<SignalsView>) {
    if lm.promotion() is Some {
        let pending = Move::Normal {
            role: PAWN,
            from: lm.from().unwrap(),
            capture: lm.capture(),
            to: lm.to(),
            promotion: None,
        };
        (
            BoardConState { promotion: Some(pending), ..s },
            seq![SignalsView::Promoting { file: Some(promotion_file(s.fen, lm.to())) }],
        )
    } else {
        (
            BoardConState { fen: after_move(s.fen, lm), ..s },
            seq![
                SignalsView::LastMove {
                    src_square: Some(lm.from().unwrap()),
                    dest_square: Some(lm.to()),
                },
            ] + en_passant_signals(lm) + castle_signals(lm),
        )
    }
}

/// A click at `(x, y)`: a click on a target of the selected piece makes the
/// move; a click on a piece selects it and shows its hints.
pub open spec fn clicked_step(s: BoardConState, x: u32, y: u32, piece_size: u32) -> (
    BoardConState,
    Seq<SignalsView>,
) {
    let highlighted = s.highlighted_square;
    let (s1, restore, promoting) = check_promoting_step(
        BoardConState { highlighted_square: None, ..s },
    );
    let pre = reset_highlights_signals() + restore;
    if promoting {
        (s1, pre)
    } else {
        let sq = coord_square(x, y, piece_size);
        if highlighted == Some(sq) {
            (s1, pre)
        } else if highlighted is Some && legal_move_between(s1.fen, highlighted.unwrap(), sq) is Some {
            let lm = legal_move_between(s1.fen, highlighted.unwrap(), sq).unwrap();
            let (s2, applied) = try_apply_step(s1, lm);
            (s2, pre + seq![move_piece(highlighted.unwrap(), sq)] + applied)
        } else if piece_at_of(s1.fen, sq) is None {
            (s1, pre)
        } else {
            (
                BoardConState { highlighted_square: Some(sq), ..s1 },
                pre + seq![SignalsView::Highlight { square: Some(sq) }] + hint_signals(s1.fen, sq),
            )
        }
    }
}

/// The start of a drag at `(x, y)`: a piece there is picked up, selected and
/// shown as dragged, with its hints.
pub open spec fn drag_started_step(s: BoardConState, x: u32, y: u32, piece_size: u32) -> (
    BoardConState,
    Seq<SignalsView>,
) {
    let (s1, restore, promoting) = check_promoting_step(
        BoardConState { highlighted_square: None, ..s },
    );
    let pre = reset_highlights_signals() + restore;
    if promoting {
        (s1, pre)
    } else {
        let sq = coord_square(x, y, piece_size);
        match piece_at_of(s1.fen, sq) {
            None => (s1, pre),
            Some(piece) => (
                BoardConState {
                    highlighted_square: Some(sq),
                    dragged_piece: Some(PieceAtSquare { square: sq, piece }),
                    ..s1
                },
                pre + seq![
                    remove(sq),
                    SignalsView::Highlight { square: Some(sq) },
                    SignalsView::Phantom { id: Some(piece_id_of(piece)) },
                ] + hint_signals(s1.fen, sq),
            ),
        }
    }
}

/// The end of a drag at `(x, y)`: the dragged piece makes the move there if
/// it is legal, and goes back to its square otherwise.
pub open spec fn drag_ended_step(s: BoardConState, x: u32, y: u32, piece_size: u32) -> (
    BoardConState,
    Seq<SignalsView>,
) {
    let pre = seq![SignalsView::Phantom { id: None }];
    match s.dragged_piece {
        None => (s, pre),
        Some(piece) => {
            let s1 = BoardConState { dragged_piece: None, ..s };
            let dest = coord_square(x, y, piece_size);
            let id = piece_id_of(piece.piece);
            match legal_move_between(s.fen, piece.square, dest) {
                None => (s1, pre + seq![place(id, piece.square)]),
                Some(lm) => {
                    let (s2, applied) = try_apply_step(
                        BoardConState { highlighted_square: None, ..s1 },
                        lm,
                    );
                    (
                        s2,
                        pre + seq![
                            SignalsView::Hint { squares: Seq::empty() },
                            SignalsView::Capture { squares: Seq::empty() },
                            SignalsView::Highlight { square: None },
                            place(id, dest),
                        ] + applied,
                    )
                },
            }
        },
    }
}

/// The move that completes the waiting promotion `pm` with role number
/// `id + 1` (0 pawn .. 5 king).
pub open spec fn promotion_move(pm: Move, id: u8) -> Move {
    Move::Normal {
        role: PAWN,
        from: pm.from().unwrap(),
        capture: pm.capture(),
        to: pm.to(),
        promotion: Some((id + 1) as u8),
    }
}

/// The choice `id` (0 pawn .. 5 king) for the waiting promotion: the pawn is
/// replaced by the chosen piece and the move is played.
pub open spec fn finalize_promotion_step(s: BoardConState, id: u8) -> (
    BoardConState,
    Seq<SignalsView>,
) {
    match s.promotion {
        None => (s, Seq::empty()),
        Some(pm) => {
            let piece_id = if turn_of(s.fen) == Some(Color::Black) {
                (id + 10) as u8
            } else {
                id
            };
            (
                BoardConState { fen: after_move(s.fen, promotion_move(pm, id)), promotion: None, ..s },
                seq![
                    remove(pm.to()),
                    place(piece_id, pm.to()),
                    SignalsView::Promoting { file: None },
                ],
            )
        },
    }
}

/// The whole board, sent again: a reset, then every piece.
pub open spec fn resync_signals(fen: Seq<char>) -> Seq<SignalsView> {
    seq![SignalsView::Reset] + pieces_of(fen).map_values(
        |e: (u8, Piece)| place(piece_id_of(e.1), e.0),
    )
}

/// The effect of a slot.
pub open spec fn slot_step(s: BoardConState, slot: Slots) -> (BoardConState, Seq<SignalsView>) {
    match slot {
        Slots::Resync => (s, resync_signals(s.fen)),
        Slots::MouseEvent { slot, piece_size } => match slot {
            MouseEventSlots::Clicked { x, y } => clicked_step(s, x, y, piece_size),
            MouseEventSlots::Drag(DragSlots::Started { src_x, src_y }) => drag_started_step(
                s,
                src_x,
                src_y,
                piece_size,
            ),
            MouseEventSlots::Drag(DragSlots::Ended { dest_x, dest_y }) => drag_ended_step(
                s,
                dest_x,
                dest_y,
                piece_size,
            ),
        },
        Slots::Promote { id } => finalize_promotion_step(s, id),
    }
}

/// The legal move a click makes and plays at once (a promotion waits for
/// the choice of a piece), if any.
pub open spec fn clicked_move(s: BoardConState, x: u32, y: u32, piece_size: u32) -> Option<Move> {
    let sq = coord_square(x, y, piece_size);
    if s.promotion is None && s.highlighted_square is Some && s.highlighted_square != Some(sq) {
        match legal_move_between(s.fen, s.highlighted_square.unwrap(), sq) {
            Some(m) => if m.promotion() is None {
                Some(m)
            } else {
                None
            },
            None => None,
        }
    } else {
        None
    }
}

/// The legal move the end of a drag makes and plays at once, if any.
pub open spec fn drag_ended_move(s: BoardConState, x: u32, y: u32, piece_size: u32) -> Option<Move> {
    match s.dragged_piece {
        Some(p) => match legal_move_between(s.fen, p.square, coord_square(x, y, piece_size)) {
            Some(m) => if m.promotion() is None {
                Some(m)
            } else {
                None
            },
            None => None,
        },
        None => None,
    }
}

/// The legal move a slot makes and plays at once, if any.
pub open spec fn slot_move(s: BoardConState, slot: Slots) -> Option<Move> {
    match slot {
        Slots::MouseEvent { slot: MouseEventSlots::Clicked { x, y }, piece_size } => clicked_move(
            s,
            x,
            y,
            piece_size,
        ),
        Slots::MouseEvent {
            slot: MouseEventSlots::Drag(DragSlots::Ended { dest_x, dest_y }),
            piece_size,
        } => drag_ended_move(s, dest_x, dest_y, piece_size),
        _ => None,
    }
}

/// Something the controller could not do.
#[derive(Clone, Copy, Debug, PartialEq, Eq, Structural)]
pub enum Notice {
    /// A promotion choice came while no promotion was waiting.
    NothingToPromote,
    /// The board refused the move it was given.
    MoveRefused,
}

/// What a promotion choice `id` could not do, if anything.
pub open spec fn finalize_notice(s: BoardConState, id: u8) -> Option<Notice> {
    match s.promotion {
        None => Some(Notice::NothingToPromote),
        Some(pm) => if playable(s.fen, promotion_move(pm, id)) {
            None
        } else {
            Some(Notice::MoveRefused)
        },
    }
}

/// What a slot could not do, if anything. The moves a click or a drag makes
/// are legal, and the board plays them.
pub open spec fn slot_notice(s: BoardConState, slot: Slots) -> Option<Notice> {
    match slot {
        Slots::Promote { id } => finalize_notice(s, id),
        _ => None,
    }
}

/// The slots on which the controller does its work: mouse positions it
/// turns into squares lie on the board, and a promotion choice names a role.
pub open spec fn accepts(s: BoardConState, slot: Slots) -> bool {
    match slot {
        Slots::MouseEvent { slot, piece_size } => match slot {
            MouseEventSlots::Clicked { x, y } => s.promotion is None ==> on_board(x, y, piece_size),
            MouseEventSlots::Drag(DragSlots::Started { src_x, src_y }) => s.promotion is None
                ==> on_board(src_x, src_y, piece_size),
            MouseEventSlots::Drag(DragSlots::Ended { dest_x, dest_y }) => s.dragged_piece is Some
                ==> on_board(dest_x, dest_y, piece_size),
        },
        Slots::Promote { id } => s.promotion is Some ==> id < 6,
        Slots::Resync => true,
    }
}

// ---------------------------------------------------------------------------
/// The board controller.
pub struct BoardConImpl {
    board: BoardImpl,
    dragged_piece: Option<PieceAtSquare>,
    highlighted_square: Option<u8>,
    promotion: Option<Move>,
}

impl View for BoardConImpl {
    type V = BoardConState;

    closed spec fn view(&self) -> BoardConState {
        BoardConState {
            fen: self.board@,
            dragged_piece: self.dragged_piece,
            highlighted_square: self.highlighted_square,
            promotion: self.promotion,
        }
    }
}

impl BoardConImpl {
    /// A controller on the initial position, with nothing selected.
    pub fn new() -> (con: BoardConImpl)
        ensures
            con@ == (BoardConState {
                fen: start_fen(),
                dragged_piece: None,
                highlighted_square: None,
                promotion: None,
            }),
            con@.wf(),
    {
        BoardConImpl::with_board(BoardImpl::default())
    }

    /// A controller on the position of `board`, with nothing selected.
    pub fn with_board(board: BoardImpl) -> (con: BoardConImpl)
        ensures
            con@ == (BoardConState {
                fen: board@,
                dragged_piece: None,
                highlighted_square: None,
                promotion: None,
            }),
            con@.wf(),
    {
        BoardConImpl { board, dragged_piece: None, highlighted_square: None, promotion: None }
    }

    /// Appends `signal` to `out`.
    pub fn emit(&self, out: &mut Vec<Signals>, signal: Signals)
        ensures
            views(final(out)@) == views(old(out)@).push(signal@),
    {
        proof {
            lemma_views_push(out@, signal);
        }
        out.push(signal);
    }

    /// Whether the controller does its work on `slot` (see `accepts`).
    pub fn accepts(&self, slot: &Slots) -> (ok: bool)
        ensures
            ok == accepts(self@, *slot),
    {
        match *slot {
            Slots::MouseEvent { slot, piece_size } => match slot {
                MouseEventSlots::Clicked { x, y } => self.promotion.is_some() || on_board_exec(
                    x,
                    y,
                    piece_size,
                ),
                MouseEventSlots::Drag(DragSlots::Started { src_x, src_y }) => self.promotion.is_some()
                    || on_board_exec(src_x, src_y, piece_size),
                MouseEventSlots::Drag(DragSlots::Ended { dest_x, dest_y }) => self.dragged_piece.is_none()
                    || on_board_exec(dest_x, dest_y, piece_size),
            },
            Slots::Promote { id } => self.promotion.is_none() || id < 6,
            Slots::Resync => true,
        }
    }
}

impl BoardConImpl {
    /// The square under the point `(x, y)` of a board whose squares are
    /// `piece_size` pixels wide.
    pub fn coord_to_square(x: u32, y: u32, piece_size: u32) -> (square: u8)
        requires
            on_board(x, y, piece_size),
        ensures
            square == coord_square(x, y, piece_size),
            square < 64,
            file_of(square as int) == x / piece_size,
            rank_of(square as int) == 7 - y / piece_size,
    {
        let file: u32 = x / piece_size;
        let rank: u32 = 7 - (y / piece_size);
        square_from_coords(file as u8, rank as u8)
    }

    /// Clears the dragged image, the hints and the selection.
    fn reset_highlights(&self, out: &mut Vec<Signals>)
        ensures
            views(final(out)@) == views(old(out)@) + reset_highlights_signals(),
    {
        self.emit(out, Signals::Phantom { id: None });
        self.emit(out, Signals::Hint { squares: Vec::new() });
        self.emit(out, Signals::Capture { squares: Vec::new() });
        self.emit(out, Signals::Highlight { square: None });
    }

    /// Shows where the piece on `sq` can move and where it can capture.
    fn show_hints(&self, sq: u8, out: &mut Vec<Signals>)
        ensures
            views(final(out)@) == views(old(out)@) + hint_signals(self@.fen, sq),
    {
        let moves = self.board.moves_of(sq);
        let mut legal_move_vec: Vec<u8> = Vec::new();
        let mut legal_capture_vec: Vec<u8> = Vec::new();
        let mut i: usize = 0;
        while i < moves.len()
            invariant
                i <= moves.len(),
                moves@ == moves_from(legal_moves_of(self@.fen), sq),
                legal_move_vec@ == quiet_targets(moves@.take(i as int)),
                legal_capture_vec@ == capture_targets(moves@.take(i as int)),
            decreases moves.len() - i,
        {
            let m = moves[i];
            proof {
                reveal_with_fuel(Seq::<Move>::filter, 1);
                assert(moves@.take(i + 1).drop_last() =~= moves@.take(i as int));
            }
            if m.capture().is_some() {
                legal_capture_vec.push(m.to());
                proof {
                    assert(capture_targets(moves@.take(i + 1)) =~= capture_targets(moves@.take(i as int)).push(m.to()));
                    assert(quiet_targets(moves@.take(i + 1)) =~= quiet_targets(moves@.take(i as int)));
                }
            } else {
                legal_move_vec.push(m.to());
                proof {
                    assert(quiet_targets(moves@.take(i + 1)) =~= quiet_targets(moves@.take(i as int)).push(m.to()));
                    assert(capture_targets(moves@.take(i + 1)) =~= capture_targets(moves@.take(i as int)));
                }
            }
            i = i + 1;
        }
        assert(moves@.take(i as int) =~= moves@);
        self.emit(out, Signals::Hint { squares: legal_move_vec });
        self.emit(out, Signals::Capture { squares: legal_capture_vec });
    }

    /// The legal move from `src_sq` to `dest_sq`, if there is one.
    fn legal_move(&self, src_sq: u8, dest_sq: u8) -> (found: Option<Move>)
        ensures
            found == legal_move_between(self@.fen, src_sq, dest_sq),
            found matches Some(m) ==> m.wf() && m.from() == Some(src_sq) && playable(
                self@.fen,
                m,
            ),
    {
        let legal_move_vec = self.board.moves_of(src_sq);
        let mut i: usize = 0;
        assert(legal_move_vec@.skip(0) =~= legal_move_vec@);
        while i < legal_move_vec.len()
            invariant
                i <= legal_move_vec.len(),
                legal_move_vec@ == moves_from(legal_moves_of(self@.fen), src_sq),
                forall|j: int|
                    0 <= j < legal_move_vec@.len() ==> (#[trigger] legal_move_vec@[j]).wf()
                        && legal_move_vec@[j].from() == Some(src_sq) && playable(
                        self@.fen,
                        legal_move_vec@[j],
                    ),
                first_to(legal_move_vec@, dest_sq) == first_to(legal_move_vec@.skip(i as int), dest_sq),
            decreases legal_move_vec.len() - i,
        {
            let legal_move = legal_move_vec[i];
            assert(legal_move_vec@.skip(i as int)[0] == legal_move);
            if legal_move.to() == dest_sq {
                return Some(legal_move);
            }
            assert(legal_move_vec@.skip(i as int).drop_first() =~= legal_move_vec@.skip(i + 1));
            i = i + 1;
        }
        None
    }

    /// Abandons a waiting promotion; tells whether there was one.
    fn check_promoting(&mut self, out: &mut Vec<Signals>) -> (promoting: bool)
        requires
            old(self)@.wf(),
        ensures
            final(self)@ == check_promoting_step(old(self)@).0,
            views(final(out)@) == views(old(out)@) + check_promoting_step(old(self)@).1,
            promoting == check_promoting_step(old(self)@).2,
            final(self)@.wf(),
    {
        if let Some(promotion_move) = self.promotion {
            self.promotion = None;
            let to = promotion_move.to();
            let from = promotion_move.from().unwrap();
            self.emit(out, Signals::Promoting { file: None });
            self.emit(
                out,
                Signals::Piece(PieceSignals::Move { src_square: to, dest_square: from }),
            );
            if let Some(piece) = self.board.piece_on(to) {
                // Captured piece
                let id = piece.piece_id();
                self.emit(out, Signals::Piece(PieceSignals::Place { id, square: to }));
            }
            return true;
        }
        false
    }

    /// Plays `m` on the board (see `BoardImpl::apply_move`); tells whether
    /// the board played it.
    fn apply_move(&mut self, m: Move) -> (applied: bool)
        ensures
            final(self)@ == (BoardConState { fen: after_move(old(self)@.fen, m), ..old(self)@ }),
            applied == playable(old(self)@.fen, m),
    {
        self.board.apply_move(m)
    }

    /// Makes the legal move `legal_move`, whose piece has already been
    /// placed on its target.
    fn try_apply_move(&mut self, legal_move: Move, out: &mut Vec<Signals>)
        requires
            old(self)@.wf(),
            legal_move.wf(),
            playable(old(self)@.fen, legal_move),
        ensures
            final(self)@ == try_apply_step(old(self)@, legal_move).0,
            views(final(out)@) == views(old(out)@) + try_apply_step(old(self)@, legal_move).1,
            final(self)@.wf(),
    {
        let from = legal_move.from().unwrap();
        let to = legal_move.to();
        if legal_move.promotion().is_some() {
            // A promotion!
            let mut promotion_file: u8 = square_file(to);
            if matches!(self.board.turn(), Some(Color::Black)) {
                promotion_file = promotion_file + 10;
            }
            self.promotion = Some(
                Move::Normal {
                    role: PAWN,
                    from,
                    capture: legal_move.capture(),
                    to,
                    promotion: None,
                },
            );
            self.emit(out, Signals::Promoting { file: Some(promotion_file) });
            return ;
        }
        self.emit(out, Signals::LastMove { src_square: Some(from), dest_square: Some(to) });
        let ghost mid = views(out@);
        if let Move::EnPassant { from, to } = legal_move {
            let ep_square = square_from_coords(square_file(to), square_rank(from));
            self.emit(out, Signals::Piece(PieceSignals::Remove { square: ep_square }));
        }
        assert(views(out@) == mid + en_passant_signals(legal_move));
        let ghost mid2 = views(out@);
        if let Some(castling_side) = legal_move.castling_side() {
            let from_rank = square_rank(from);
            let from_file = if castling_side.is_king_side() {
                FILE_H
            } else {
                FILE_A
            };
            let to_file = castling_side.rook_to_file();
            self.emit(
                out,
                Signals::Piece(
                    PieceSignals::Move {
                        src_square: square_from_coords(from_file, from_rank),
                        dest_square: square_from_coords(to_file, from_rank),
                    },
                ),
            );
        }
        assert(views(out@) == mid2 + castle_signals(legal_move));
        self.apply_move(legal_move);
    }
}

impl BoardConImpl {
    /// Handles one slot; tells what it could not do, if anything. A legal
    /// move that a click or a drag makes is played on the board.
    pub fn handle_slot(&mut self, slot: Slots, out: &mut Vec<Signals>) -> (notice: Option<Notice>)
        requires
            old(self)@.wf(),
            accepts(old(self)@, slot),
        ensures
            final(self)@ == slot_step(old(self)@, slot).0,
            views(final(out)@) == views(old(out)@) + slot_step(old(self)@, slot).1,
            final(self)@.wf(),
            notice == slot_notice(old(self)@, slot),
            slot_move(old(self)@, slot) matches Some(m) ==> position_after(
                old(self)@.fen,
                m.from().unwrap(),
                m.to(),
                m.promotion(),
            ) == Some(final(self)@.fen),
    {
        match slot {
            Slots::Resync => {
                self.resync_board(out);
                None
            },
            Slots::MouseEvent { slot, piece_size } => match slot {
                MouseEventSlots::Clicked { x, y } => {
                    self.coord_clicked(x, y, piece_size, out);
                    None
                },
                MouseEventSlots::Drag(slot) => match slot {
                    DragSlots::Started { src_x, src_y } => {
                        self.coord_drag_started(src_x, src_y, piece_size, out);
                        None
                    },
                    DragSlots::Ended { dest_x, dest_y } => {
                        self.coord_drag_ended(dest_x, dest_y, piece_size, out);
                        None
                    },
                },
            },
            Slots::Promote { id } => self.finalize_promotion(id, out),
        }
    }

    /// Sends the whole board: a reset, then every piece, by ascending
    /// square; each occupied square comes once, with the piece a query of
    /// that square finds.
    pub fn resync_board(&self, out: &mut Vec<Signals>)
        ensures
            views(final(out)@) == views(old(out)@) + resync_signals(self@.fen),
            forall|i: int, j: int|
                0 <= i < j < pieces_of(self@.fen).len() ==> (#[trigger] pieces_of(self@.fen)[i]).0
                    < (#[trigger] pieces_of(self@.fen)[j]).0,
            forall|i: int|
                0 <= i < pieces_of(self@.fen).len() ==> piece_at_of(
                    self@.fen,
                    (#[trigger] pieces_of(self@.fen)[i]).0,
                ) == Some(pieces_of(self@.fen)[i].1),
            forall|square: u8|
                (#[trigger] piece_at_of(self@.fen, square)) is Some ==> exists|i: int|
                    0 <= i < pieces_of(self@.fen).len() && (#[trigger] pieces_of(self@.fen)[i]).0
                        == square,
            views(final(out)@).len() == old(out)@.len() + 1 + pieces_of(self@.fen).len(),
            views(final(out)@)[old(out)@.len() as int] == SignalsView::Reset,
            forall|i: int|
                0 <= i < pieces_of(self@.fen).len() ==> views(final(out)@)[old(out)@.len() + 1 + i]
                    == SignalsView::Piece(
                    PieceSignals::Place {
                        id: image_id(
                            piece_at_of(self@.fen, (#[trigger] pieces_of(self@.fen)[i]).0).unwrap(),
                        ),
                        square: pieces_of(self@.fen)[i].0,
                    },
                ),
    {
        self.emit(out, Signals::Reset);
        let ghost base = views(out@);
        let pieces = self.board.pieces();
        let mut i: usize = 0;
        while i < pieces.len()
            invariant
                i <= pieces.len(),
                pieces@ == pieces_of(self@.fen).map_values(|e: (u8, Piece)| at_square(e)),
                forall|j: int| 0 <= j < pieces@.len() ==> (#[trigger] pieces@[j]).wf(),
                views(out@) == base + pieces_of(self@.fen).take(i as int).map_values(
                    |e: (u8, Piece)| place(piece_id_of(e.1), e.0),
                ),
            decreases pieces.len() - i,
        {
            let piece = pieces[i];
            let id = piece.piece_id();
            self.emit(out, Signals::Piece(PieceSignals::Place { id, square: piece.square }));
            assert(pieces_of(self@.fen).take(i + 1) =~= pieces_of(self@.fen).take(i as int).push(
                pieces_of(self@.fen)[i as int],
            ));
            i = i + 1;
        }
        assert(pieces_of(self@.fen).take(i as int) =~= pieces_of(self@.fen));
        let ghost all = pieces_of(self@.fen);
        assert forall|a: int, b: int| 0 <= a < b < all.len() implies (#[trigger] all[a]).0 < (
        #[trigger] all[b]).0 by {
            assert(pieces@[a] == at_square(all[a]));
            assert(pieces@[b] == at_square(all[b]));
        }
        assert forall|a: int| 0 <= a < all.len() implies piece_at_of(self@.fen, (#[trigger] all[a]).0)
            == Some(all[a].1) by {
            assert(pieces@[a] == at_square(all[a]));
        }
        assert forall|square: u8| (#[trigger] piece_at_of(self@.fen, square)) is Some implies exists|
            a: int,
        | 0 <= a < all.len() && (#[trigger] all[a]).0 == square by {
            let k = choose|k: int| 0 <= k < pieces@.len() && (#[trigger] pieces@[k]).square == square;
            assert(pieces@[k] == at_square(all[k]));
        }
        proof {
            lemma_resync_places_each_piece(self@.fen);
            let base = views(old(out)@);
            assert forall|i: int| 0 <= i < all.len() implies views(out@)[base.len() + 1 + i]
                == SignalsView::Piece(
                PieceSignals::Place {
                    id: image_id(piece_at_of(self@.fen, (#[trigger] all[i]).0).unwrap()),
                    square: all[i].0,
                },
            ) by {
                assert(views(out@)[base.len() + 1 + i] == resync_signals(self@.fen)[i + 1]);
            }
            assert(views(out@)[base.len() as int] == resync_signals(self@.fen)[0]);
        }
    }

    /// A click at `(x, y)` on a board whose squares are `piece_size` pixels wide.
    pub fn coord_clicked(&mut self, x: u32, y: u32, piece_size: u32, out: &mut Vec<Signals>)
        requires
            old(self)@.wf(),
            old(self)@.promotion is None ==> on_board(x, y, piece_size),
        ensures
            final(self)@ == clicked_step(old(self)@, x, y, piece_size).0,
            views(final(out)@) == views(old(out)@) + clicked_step(old(self)@, x, y, piece_size).1,
            final(self)@.wf(),
            clicked_move(old(self)@, x, y, piece_size) matches Some(m) ==> position_after(
                old(self)@.fen,
                m.from().unwrap(),
                m.to(),
                m.promotion(),
            ) == Some(final(self)@.fen),
    {
        self.reset_highlights(out);
        let highlighted_square = self.highlighted_square;
        self.highlighted_square = None;
        if self.check_promoting(out) {
            return ;
        }
        let sq = BoardConImpl::coord_to_square(x, y, piece_size);
        if let Some(src_sq) = highlighted_square {
            if src_sq == sq {
                // Clicked the same square twice
                return ;
            }
            if let Some(legal_move) = self.legal_move(src_sq, sq) {
                // A legal move!
                self.emit(
                    out,
                    Signals::Piece(PieceSignals::Move { src_square: src_sq, dest_square: sq }),
                );
                self.try_apply_move(legal_move, out);
                return ;
            }
        }
        // No new piece selected
        if self.board.piece_on(sq).is_none() {
            return ;
        }
        self.highlighted_square = Some(sq);
        self.emit(out, Signals::Highlight { square: Some(sq) });
        self.show_hints(sq, out);
    }

    /// The start of a drag at `(x, y)`.
    pub fn coord_drag_started(&mut self, src_x: u32, src_y: u32, piece_size: u32, out: &mut Vec<Signals>)
        requires
            old(self)@.wf(),
            old(self)@.promotion is None ==> on_board(src_x, src_y, piece_size),
        ensures
            final(self)@ == drag_started_step(old(self)@, src_x, src_y, piece_size).0,
            views(final(out)@) == views(old(out)@) + drag_started_step(
                old(self)@,
                src_x,
                src_y,
                piece_size,
            ).1,
            final(self)@.wf(),
    {
        self.reset_highlights(out);
        self.highlighted_square = None;
        if self.check_promoting(out) {
            return ;
        }
        let sq = BoardConImpl::coord_to_square(src_x, src_y, piece_size);
        let piece = if let Some(val) = self.board.piece_on(sq) {
            val
        } else {
            return ;
        };
        self.highlighted_square = Some(sq);
        let piece_id = piece.piece_id();
        self.dragged_piece = Some(piece);
        self.emit(out, Signals::Piece(PieceSignals::Remove { square: sq }));
        self.emit(out, Signals::Highlight { square: Some(sq) });
        self.emit(out, Signals::Phantom { id: Some(piece_id) });
        self.show_hints(sq, out);
    }

    /// The end of a drag at `(x, y)`.
    pub fn coord_drag_ended(&mut self, dest_x: u32, dest_y: u32, piece_size: u32, out: &mut Vec<Signals>)
        requires
            old(self)@.wf(),
            old(self)@.dragged_piece is Some ==> on_board(dest_x, dest_y, piece_size),
        ensures
            final(self)@ == drag_ended_step(old(self)@, dest_x, dest_y, piece_size).0,
            views(final(out)@) == views(old(out)@) + drag_ended_step(
                old(self)@,
                dest_x,
                dest_y,
                piece_size,
            ).1,
            final(self)@.wf(),
            drag_ended_move(old(self)@, dest_x, dest_y, piece_size) matches Some(m) ==> position_after(
                old(self)@.fen,
                m.from().unwrap(),
                m.to(),
                m.promotion(),
            ) == Some(final(self)@.fen),
    {
        self.emit(out, Signals::Phantom { id: None });
        let piece = if let Some(val) = self.dragged_piece {
            val
        } else {
            return ;
        };
        self.dragged_piece = None;
        let src_sq = piece.square;
        let dest_sq = BoardConImpl::coord_to_square(dest_x, dest_y, piece_size);
        let id = piece.piece_id();
        let legal_move = if let Some(val) = self.legal_move(src_sq, dest_sq) {
            val
        } else {
            self.emit(out, Signals::Piece(PieceSignals::Place { id, square: src_sq }));
            return ;
        };
        // A legal move
        self.highlighted_square = None;
        self.emit(out, Signals::Hint { squares: Vec::new() });
        self.emit(out, Signals::Capture { squares: Vec::new() });
        self.emit(out, Signals::Highlight { square: None });
        // Place down dragged piece
        self.emit(out, Signals::Piece(PieceSignals::Place { id, square: dest_sq }));
        self.try_apply_move(legal_move, out);
    }

    /// The choice `id` (0 pawn .. 5 king) of the piece for a waiting
    /// promotion; tells what it could not do, if anything.
    pub fn finalize_promotion(&mut self, id: u8, out: &mut Vec<Signals>) -> (notice: Option<Notice>)
        requires
            old(self)@.wf(),
            old(self)@.promotion is Some ==> id < 6,
        ensures
            final(self)@ == finalize_promotion_step(old(self)@, id).0,
            views(final(out)@) == views(old(out)@) + finalize_promotion_step(old(self)@, id).1,
            final(self)@.wf(),
            notice == finalize_notice(old(self)@, id),
    {
        let pending = if let Some(val) = self.promotion {
            val
        } else {
            return Some(Notice::NothingToPromote);
        };
        self.promotion = None;
        let role: u8 = id + 1;
        let promotion_move = Move::Normal {
            role: PAWN,
            from: pending.from().unwrap(),
            capture: pending.capture(),
            to: pending.to(),
            promotion: Some(role),
        };
        let mut piece_id = id;
        if matches!(self.board.turn(), Some(Color::Black)) {
            piece_id = piece_id + 10;
        }
        self.emit(out, Signals::Piece(PieceSignals::Remove { square: pending.to() }));
        self.emit(out, Signals::Piece(PieceSignals::Place { id: piece_id, square: pending.to() }));
        self.emit(out, Signals::Promoting { file: None });
        if self.apply_move(promotion_move) {
            None
        } else {
            Some(Notice::MoveRefused)
        }
    }
}

impl BoardConImpl {
    /// The board.
    pub fn board(&self) -> (board: &BoardImpl)
        ensures
            board@ == self@.fen,
    {
        &self.board
    }

    /// The piece being dragged.
    pub fn dragged_piece(&self) -> (piece: Option<PieceAtSquare>)
        ensures
            piece == self@.dragged_piece,
    {
        self.dragged_piece
    }

    /// The selected square.
    pub fn highlighted_square(&self) -> (square: Option<u8>)
        ensures
            square == self@.highlighted_square,
    {
        self.highlighted_square
    }

    /// The promotion move that waits for the choice of a piece.
    pub fn promotion(&self) -> (pending: Option<Move>)
        ensures
            pending == self@.promotion,
    {
        self.promotion
    }
}

/// Whether the point `(x, y)` lies on the board (see `on_board`).
pub fn on_board_exec(x: u32, y: u32, piece_size: u32) -> (ok: bool)
    ensures
        ok == on_board(x, y, piece_size),
{
    piece_size > 0 && x / piece_size < 8 && y / piece_size < 8
}

} // verus!

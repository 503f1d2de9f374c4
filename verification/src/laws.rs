//! Properties of the controller and of the board object that hold for all
//! inputs.
use crate::board::{after_move, moves_from, piece_id_of};
use crate::board_con::{option_to_i8, signal_step, BoardConView, Signals as UiSignals};
use crate::chess::{file_of, rank_of, square_at, Color, Move, Piece};
use crate::controller::{
    capture_targets, castle_signals, check_promoting_step, clicked_step, coord_square,
    drag_ended_step, drag_started_step, en_passant_signals, finalize_promotion_step, first_to,
    hint_signals, legal_move_between, on_board, place, promotion_move, quiet_targets,
    reset_highlights_signals, resync_signals, slot_step, try_apply_step, BoardConState,
};
use crate::position::{legal_moves_of, piece_at_of, pieces_of, position_after, turn_of};
use crate::signals::{PieceSignals, SignalsView};
use crate::slots::{DragSlots, MouseEventSlots, Slots};
use vstd::prelude::*;

verus! {

/// Handling a slot is doing what the method for that slot does: a resync
/// is `resync_board`, a click `coord_clicked`, the start of a drag
/// `coord_drag_started`, its end `coord_drag_ended`, and a promotion choice
/// `finalize_promotion` (each stated by its step function).
pub proof fn lemma_slot_dispatch(s: BoardConState, slot: Slots)
    ensures
        slot_step(s, slot) == (match slot {
            Slots::Resync => (s, resync_signals(s.fen)),
            Slots::MouseEvent { slot: MouseEventSlots::Clicked { x, y }, piece_size } => clicked_step(
                s,
                x,
                y,
                piece_size,
            ),
            Slots::MouseEvent {
                slot: MouseEventSlots::Drag(DragSlots::Started { src_x, src_y }),
                piece_size,
            } => drag_started_step(s, src_x, src_y, piece_size),
            Slots::MouseEvent {
                slot: MouseEventSlots::Drag(DragSlots::Ended { dest_x, dest_y }),
                piece_size,
            } => drag_ended_step(s, dest_x, dest_y, piece_size),
            Slots::Promote { id } => finalize_promotion_step(s, id),
        }),
{
}

/// The move `first_to` picks is one of the moves it searches, and it ends on
/// the given square.
pub proof fn lemma_first_to_found(moves: Seq<Move>, dest: u8)
    ensures
        first_to(moves, dest) matches Some(m) ==> moves.contains(m) && m.to() == dest,
    decreases moves.len(),
{
    if moves.len() > 0 && moves[0].to() != dest {
        lemma_first_to_found(moves.drop_first(), dest);
        if let Some(m) = first_to(moves.drop_first(), dest) {
            let k = choose|k: int| 0 <= k < moves.drop_first().len() && moves.drop_first()[k] == m;
            assert(moves[k + 1] == m);
        }
    }
}

/// The move found between two squares is a legal move of the position, it
/// starts on the first square and ends on the second.
pub proof fn lemma_legal_move_between_is_legal(fen: Seq<char>, src: u8, dest: u8)
    ensures
        legal_move_between(fen, src, dest) matches Some(m) ==> legal_moves_of(fen).contains(m)
            && m.from() == Some(src) && m.to() == dest,
{
    broadcast use Seq::lemma_filter_contains_rev;

    let moves = moves_from(legal_moves_of(fen), src);
    lemma_first_to_found(moves, dest);
    if let Some(m) = legal_move_between(fen, src, dest) {
        assert(moves.contains(m));
        let k = choose|k: int| 0 <= k < moves.len() && moves[k] == m;
        legal_moves_of(fen).lemma_filter_pred(|mv: Move| mv.from() == Some(src), k);
    }
}

/// Making a move keeps the position, or plays that move when it promotes
/// nothing.
proof fn lemma_try_apply_fen(s: BoardConState, lm: Move)
    ensures
        ({
            let next = try_apply_step(s, lm).0;
            ||| next.fen == s.fen
            ||| lm.promotion() is None && next.fen == after_move(s.fen, lm)
        }),
{
}

/// A mouse event changes the position only by playing one of its legal
/// moves, and never a promotion (a promotion waits for the choice of a piece).
pub proof fn lemma_mouse_events_play_only_legal_moves(s: BoardConState, slot: Slots)
    requires
        slot is MouseEvent,
    ensures
        ({
            let next = slot_step(s, slot).0;
            ||| next.fen == s.fen
            ||| exists|m: Move|
                #![trigger legal_moves_of(s.fen).contains(m)]
                legal_moves_of(s.fen).contains(m) && m.promotion() is None && next.fen
                    == after_move(s.fen, m)
        }),
{
    if let Slots::MouseEvent { slot: mouse, piece_size } = slot {
        match mouse {
            MouseEventSlots::Clicked { x, y } => {
                let s0 = BoardConState { highlighted_square: None, ..s };
                let s1 = check_promoting_step(s0).0;
                assert(s1.fen == s.fen);
                let sq = coord_square(x, y, piece_size);
                if let Some(src) = s.highlighted_square {
                    lemma_legal_move_between_is_legal(s.fen, src, sq);
                    if let Some(lm) = legal_move_between(s.fen, src, sq) {
                        lemma_try_apply_fen(s1, lm);
                    }
                }
            },
            MouseEventSlots::Drag(DragSlots::Ended { dest_x, dest_y }) => {
                if let Some(piece) = s.dragged_piece {
                    let dest = coord_square(dest_x, dest_y, piece_size);
                    lemma_legal_move_between_is_legal(s.fen, piece.square, dest);
                    if let Some(lm) = legal_move_between(s.fen, piece.square, dest) {
                        lemma_try_apply_fen(
                            BoardConState { highlighted_square: None, dragged_piece: None, ..s },
                            lm,
                        );
                    }
                }
            },
            _ => {},
        }
    }
}

/// While a promotion waits for the choice of a piece, a click or the start of
/// a drag only abandons it: the position stays, nothing is selected, and the
/// signals are the reset of the highlights followed by the undoing of the
/// pawn move.
pub proof fn lemma_waiting_promotion_is_abandoned(s: BoardConState, x: u32, y: u32, piece_size: u32)
    requires
        s.promotion is Some,
    ensures
        ({
            let undo = check_promoting_step(BoardConState { highlighted_square: None, ..s });
            &&& clicked_step(s, x, y, piece_size) == (
                BoardConState { highlighted_square: None, promotion: None, ..s },
                reset_highlights_signals() + undo.1,
            )
            &&& drag_started_step(s, x, y, piece_size) == clicked_step(s, x, y, piece_size)
        }),
{
}

/// Clicking the selected square again clears the selection and changes
/// nothing else.
pub proof fn lemma_second_click_deselects(s: BoardConState, x: u32, y: u32, piece_size: u32)
    requires
        s.promotion is None,
        s.highlighted_square == Some(coord_square(x, y, piece_size)),
    ensures
        clicked_step(s, x, y, piece_size) == (
            BoardConState { highlighted_square: None, ..s },
            reset_highlights_signals(),
        ),
{
}

/// The end of a drag always hides the dragged image first and always lets
/// go of the dragged piece.
pub proof fn lemma_drag_end_releases_piece(s: BoardConState, x: u32, y: u32, piece_size: u32)
    ensures
        drag_ended_step(s, x, y, piece_size).0.dragged_piece is None,
        drag_ended_step(s, x, y, piece_size).1[0] == (SignalsView::Phantom { id: None }),
{
}

/// Choosing role `id + 1` for a waiting promotion places the image of that
/// piece, in the colour of the side to move, on the promotion square, and
/// plays the pawn move with that promotion.
pub proof fn lemma_promotion_places_chosen_piece(s: BoardConState, id: u8)
    requires
        s.wf(),
        s.promotion is Some,
        id < 6,
        turn_of(s.fen) is Some,
    ensures
        ({
            let pm = s.promotion.unwrap();
            let (next, out) = finalize_promotion_step(s, id);
            &&& out[1] == place(
                piece_id_of(Piece { color: turn_of(s.fen).unwrap(), role: (id + 1) as u8 }),
                pm.to(),
            )
            &&& next.promotion is None
            &&& next.fen == after_move(s.fen, promotion_move(pm, id))
            &&& promotion_move(pm, id).promotion() == Some((id + 1) as u8)
            &&& promotion_move(pm, id).from() == pm.from()
            &&& promotion_move(pm, id).to() == pm.to()
        }),
{
}

/// Piece ids tell pieces apart: white pieces get `0..=5`, black pieces
/// `10..=15`, and different pieces get different ids.
pub proof fn lemma_piece_ids(a: Piece, b: Piece)
    requires
        a.wf(),
        b.wf(),
    ensures
        a.color == Color::White ==> piece_id_of(a) <= 5,
        a.color == Color::Black ==> 10 <= piece_id_of(a) <= 15,
        piece_id_of(a) == piece_id_of(b) ==> a == b,
{
}

/// The hints of a piece split its moves: each move gives its target to
/// exactly one of the two lists.
pub proof fn lemma_hints_split_moves(moves: Seq<Move>)
    ensures
        quiet_targets(moves).len() + capture_targets(moves).len() == moves.len(),
    decreases moves.len(),
{
    if moves.len() > 0 {
        lemma_hints_split_moves(moves.drop_last());
        assert(moves.drop_last().push(moves.last()) =~= moves);
        moves.drop_last().lemma_filter_push(moves.last(), |m: Move| m.capture() is None);
        moves.drop_last().lemma_filter_push(moves.last(), |m: Move| m.capture() is Some);
    } else {
        reveal_with_fuel(Seq::<Move>::filter, 1);
    }
}

/// Each hint is the target of one of the piece's moves: a quiet move for
/// the first list, a capture for the second.
pub proof fn lemma_hints_are_targets(moves: Seq<Move>, i: int)
    ensures
        0 <= i < quiet_targets(moves).len() ==> exists|m: Move|
            #![trigger moves.contains(m)]
            moves.contains(m) && m.capture() is None && m.to() == quiet_targets(moves)[i],
        0 <= i < capture_targets(moves).len() ==> exists|m: Move|
            #![trigger moves.contains(m)]
            moves.contains(m) && m.capture() is Some && m.to() == capture_targets(moves)[i],
{
    broadcast use Seq::lemma_filter_contains_rev;

    let quiet = |m: Move| m.capture() is None;
    let capture = |m: Move| m.capture() is Some;
    if 0 <= i < quiet_targets(moves).len() {
        let m = moves.filter(quiet)[i];
        moves.lemma_filter_pred(quiet, i);
        assert(moves.filter(quiet).contains(m));
        assert(moves.contains(m));
        assert(m.to() == quiet_targets(moves)[i]);
    }
    if 0 <= i < capture_targets(moves).len() {
        let m = moves.filter(capture)[i];
        moves.lemma_filter_pred(capture, i);
        assert(moves.filter(capture).contains(m));
        assert(moves.contains(m));
        assert(m.to() == capture_targets(moves)[i]);
    }
}

/// A square is the square of its own file and rank.
pub proof fn lemma_square_coords(square: u8)
    requires
        square < 64,
    ensures
        square_at(file_of(square as int), rank_of(square as int)) == square,
        file_of(square as int) < 8,
        rank_of(square as int) < 8,
{
}

/// The square under a point on the board is on the file of its column and
/// the rank of its row, counting rows from the top.
pub proof fn lemma_coord_square(x: u32, y: u32, piece_size: u32)
    requires
        on_board(x, y, piece_size),
    ensures
        coord_square(x, y, piece_size) < 64,
        file_of(coord_square(x, y, piece_size) as int) == x / piece_size,
        rank_of(coord_square(x, y, piece_size) as int) == 7 - y / piece_size,
{
}

/// A property value tells which square or id it stands for: different
/// optional values below 128 give different property values, and none gives
/// -1.
pub proof fn lemma_property_values(a: Option<u8>, b: Option<u8>)
    requires
        a matches Some(v) ==> v < 128,
        b matches Some(v) ==> v < 128,
    ensures
        option_to_i8(a) == option_to_i8(b) ==> a == b,
        option_to_i8(a) == -1 <==> a is None,
{
}

/// The properties of the board object after it shows `signals` in order.
pub open spec fn show_all(v: BoardConView, signals: Seq<SignalsView>) -> BoardConView
    decreases signals.len(),
{
    if signals.len() == 0 {
        v
    } else {
        show_all(signal_step(v, signals[0]).0, signals.drop_first())
    }
}

/// None of `signals` is about the selection mark.
pub open spec fn no_highlight(signals: Seq<SignalsView>) -> bool {
    forall|i: int| 0 <= i < signals.len() ==> !(#[trigger] signals[i] is Highlight)
}

/// Showing two runs of signals is showing the first, then the second.
pub proof fn lemma_show_all_append(v: BoardConView, a: Seq<SignalsView>, b: Seq<SignalsView>)
    ensures
        show_all(v, a + b) == show_all(show_all(v, a), b),
    decreases a.len(),
{
    if a.len() == 0 {
        assert(a + b =~= b);
    } else {
        assert((a + b).drop_first() =~= a.drop_first() + b);
        assert((a + b)[0] == a[0]);
        lemma_show_all_append(signal_step(v, a[0]).0, a.drop_first(), b);
    }
}

/// Signals that are not about the selection mark leave it as it is.
pub proof fn lemma_no_highlight_keeps_mark(v: BoardConView, a: Seq<SignalsView>)
    requires
        no_highlight(a),
    ensures
        show_all(v, a).highlight_sq == v.highlight_sq,
    decreases a.len(),
{
    if a.len() > 0 {
        assert(!(a[0] is Highlight));
        assert forall|i: int| 0 <= i < a.drop_first().len() implies !(#[trigger] a.drop_first()[i] is Highlight) by {
            assert(a.drop_first()[i] == a[i + 1]);
        }
        lemma_no_highlight_keeps_mark(signal_step(v, a[0]).0, a.drop_first());
    }
}

/// Showing one signal is one step.
proof fn lemma_show_one(v: BoardConView, x: SignalsView)
    ensures
        show_all(v, seq![x]) == signal_step(v, x).0,
{
    reveal_with_fuel(show_all, 2);
    assert(seq![x].drop_first() =~= Seq::<SignalsView>::empty());
}

/// After the reset of the highlights nothing is marked.
proof fn lemma_reset_clears_mark(v: BoardConView)
    ensures
        show_all(v, reset_highlights_signals()).highlight_sq == -1,
{
    let r = reset_highlights_signals();
    assert(r =~= seq![r[0], r[1], r[2]] + seq![r[3]]);
    lemma_show_all_append(v, seq![r[0], r[1], r[2]], seq![r[3]]);
    lemma_show_one(show_all(v, seq![r[0], r[1], r[2]]), r[3]);
}

/// The signals of an abandoned promotion, of a move and of hints say
/// nothing about the selection mark.
proof fn lemma_side_signals_no_highlight(s: BoardConState, lm: Move, fen: Seq<char>, sq: u8)
    ensures
        no_highlight(check_promoting_step(s).1),
        no_highlight(try_apply_step(s, lm).1),
        no_highlight(hint_signals(fen, sq)),
        no_highlight(resync_signals(fen)),
        no_highlight(finalize_promotion_step(s, sq).1),
{
    let cp = check_promoting_step(s).1;
    assert forall|i: int| 0 <= i < cp.len() implies !(#[trigger] cp[i] is Highlight) by {}
    let ta = try_apply_step(s, lm).1;
    let ep = en_passant_signals(lm);
    let cs = castle_signals(lm);
    assert forall|i: int| 0 <= i < ta.len() implies !(#[trigger] ta[i] is Highlight) by {
        if lm.promotion() is None {
            if i >= 1 && i < 1 + ep.len() {
                assert(ta[i] == ep[i - 1]);
            } else if i >= 1 + ep.len() {
                assert(ta[i] == cs[i - 1 - ep.len()]);
            }
        }
    }
    let rs = resync_signals(fen);
    assert forall|i: int| 0 <= i < rs.len() implies !(#[trigger] rs[i] is Highlight) by {}
}

/// The selection mark of the board object always shows the square the
/// controller has selected: when it did before a slot, it does after the
/// board object has shown the slot's signals.
pub proof fn lemma_mark_shows_selection(s: BoardConState, v: BoardConView, slot: Slots)
    requires
        v.highlight_sq == option_to_i8(s.highlighted_square),
    ensures
        show_all(v, slot_step(s, slot).1).highlight_sq == option_to_i8(
            slot_step(s, slot).0.highlighted_square,
        ),
{
    let out = slot_step(s, slot).1;
    let next = slot_step(s, slot).0;
    match slot {
        Slots::Resync => {
            lemma_side_signals_no_highlight(s, Move::Put { role: 0, to: 0 }, s.fen, 0);
            lemma_no_highlight_keeps_mark(v, out);
        },
        Slots::Promote { id } => {
            lemma_side_signals_no_highlight(s, Move::Put { role: 0, to: 0 }, s.fen, id);
            lemma_no_highlight_keeps_mark(v, out);
        },
        Slots::MouseEvent { slot: mouse, piece_size } => match mouse {
            MouseEventSlots::Clicked { x, y } => {
                lemma_clicked_mark(s, v, x, y, piece_size);
            },
            MouseEventSlots::Drag(DragSlots::Started { src_x, src_y }) => {
                lemma_drag_started_mark(s, v, src_x, src_y, piece_size);
            },
            MouseEventSlots::Drag(DragSlots::Ended { dest_x, dest_y }) => {
                lemma_drag_ended_mark(s, v, dest_x, dest_y, piece_size);
            },
        },
    }
}

proof fn lemma_clicked_mark(s: BoardConState, v: BoardConView, x: u32, y: u32, piece_size: u32)
    ensures
        show_all(v, clicked_step(s, x, y, piece_size).1).highlight_sq == option_to_i8(
            clicked_step(s, x, y, piece_size).0.highlighted_square,
        ),
{
    let s0 = BoardConState { highlighted_square: None, ..s };
    let (s1, restore, promoting) = check_promoting_step(s0);
    let reset = reset_highlights_signals();
    let sq = coord_square(x, y, piece_size);
    let (next, out) = clicked_step(s, x, y, piece_size);
    lemma_reset_clears_mark(v);
    let v1 = show_all(v, reset);
    lemma_side_signals_no_highlight(s0, Move::Put { role: 0, to: 0 }, s.fen, sq);
    lemma_no_highlight_keeps_mark(v1, restore);
    lemma_show_all_append(v, reset, restore);
    let v2 = show_all(v, reset + restore);
    if !promoting && s.highlighted_square != Some(sq) {
        if s.highlighted_square is Some && legal_move_between(s1.fen, s.highlighted_square.unwrap(), sq) is Some {
            let lm = legal_move_between(s1.fen, s.highlighted_square.unwrap(), sq).unwrap();
            let applied = try_apply_step(s1, lm).1;
            let mid = seq![crate::controller::move_piece(s.highlighted_square.unwrap(), sq)];
            lemma_side_signals_no_highlight(s1, lm, s.fen, sq);
            lemma_show_all_append(v, reset + restore, mid);
            lemma_show_one(v2, mid[0]);
            lemma_show_all_append(v, reset + restore + mid, applied);
            lemma_no_highlight_keeps_mark(show_all(v, reset + restore + mid), applied);
            assert(out =~= reset + restore + mid + applied);
        } else if piece_at_of(s1.fen, sq) is Some {
            let mark = seq![SignalsView::Highlight { square: Some(sq) }];
            let hints = hint_signals(s1.fen, sq);
            lemma_show_all_append(v, reset + restore, mark);
            lemma_show_one(v2, mark[0]);
            lemma_show_all_append(v, reset + restore + mark, hints);
            lemma_no_highlight_keeps_mark(show_all(v, reset + restore + mark), hints);
            assert(out =~= reset + restore + mark + hints);
        }
    }
}

proof fn lemma_drag_started_mark(s: BoardConState, v: BoardConView, x: u32, y: u32, piece_size: u32)
    ensures
        show_all(v, drag_started_step(s, x, y, piece_size).1).highlight_sq == option_to_i8(
            drag_started_step(s, x, y, piece_size).0.highlighted_square,
        ),
{
    let s0 = BoardConState { highlighted_square: None, ..s };
    let (s1, restore, promoting) = check_promoting_step(s0);
    let reset = reset_highlights_signals();
    let sq = coord_square(x, y, piece_size);
    let out = drag_started_step(s, x, y, piece_size).1;
    lemma_reset_clears_mark(v);
    lemma_side_signals_no_highlight(s0, Move::Put { role: 0, to: 0 }, s.fen, sq);
    lemma_no_highlight_keeps_mark(show_all(v, reset), restore);
    lemma_show_all_append(v, reset, restore);
    let v2 = show_all(v, reset + restore);
    if !promoting {
        if let Some(piece) = piece_at_of(s1.fen, sq) {
            let first = seq![crate::controller::remove(sq)];
            let mark = seq![SignalsView::Highlight { square: Some(sq) }];
            let rest = seq![SignalsView::Phantom { id: Some(piece_id_of(piece)) }] + hint_signals(s1.fen, sq);
            lemma_show_all_append(v, reset + restore, first);
            lemma_show_one(v2, first[0]);
            let v3 = show_all(v, reset + restore + first);
            lemma_show_all_append(v, reset + restore + first, mark);
            lemma_show_one(v3, mark[0]);
            assert forall|i: int| 0 <= i < rest.len() implies !(#[trigger] rest[i] is Highlight) by {}
            lemma_show_all_append(v, reset + restore + first + mark, rest);
            lemma_no_highlight_keeps_mark(show_all(v, reset + restore + first + mark), rest);
            assert(out =~= reset + restore + first + mark + rest);
        }
    }
}

proof fn lemma_drag_ended_mark(s: BoardConState, v: BoardConView, x: u32, y: u32, piece_size: u32)
    requires
        v.highlight_sq == option_to_i8(s.highlighted_square),
    ensures
        show_all(v, drag_ended_step(s, x, y, piece_size).1).highlight_sq == option_to_i8(
            drag_ended_step(s, x, y, piece_size).0.highlighted_square,
        ),
{
    let out = drag_ended_step(s, x, y, piece_size).1;
    let pre = seq![SignalsView::Phantom { id: None }];
    lemma_show_one(v, pre[0]);
    if let Some(piece) = s.dragged_piece {
        let dest = coord_square(x, y, piece_size);
        let id = piece_id_of(piece.piece);
        match legal_move_between(s.fen, piece.square, dest) {
            None => {
                let back = seq![place(id, piece.square)];
                lemma_show_all_append(v, pre, back);
                lemma_show_one(show_all(v, pre), back[0]);
                assert(out =~= pre + back);
            },
            Some(lm) => {
                let s1 = BoardConState { highlighted_square: None, dragged_piece: None, ..s };
                let clear = seq![
                    SignalsView::Hint { squares: Seq::empty() },
                    SignalsView::Capture { squares: Seq::empty() },
                ];
                let mark = seq![SignalsView::Highlight { square: None }];
                let rest = seq![place(id, dest)] + try_apply_step(s1, lm).1;
                lemma_side_signals_no_highlight(s1, lm, s.fen, 0);
                assert forall|i: int| 0 <= i < rest.len() implies !(#[trigger] rest[i] is Highlight) by {
                    if i > 0 {
                        assert(rest[i] == try_apply_step(s1, lm).1[i - 1]);
                    }
                }
                assert forall|i: int| 0 <= i < clear.len() implies !(#[trigger] clear[i] is Highlight) by {}
                lemma_show_all_append(v, pre, clear);
                lemma_no_highlight_keeps_mark(show_all(v, pre), clear);
                lemma_show_all_append(v, pre + clear, mark);
                lemma_show_one(show_all(v, pre + clear), mark[0]);
                lemma_show_all_append(v, pre + clear + mark, rest);
                lemma_no_highlight_keeps_mark(show_all(v, pre + clear + mark), rest);
                assert(out =~= pre + clear + mark + rest);
            },
        }
    }
}

// ---------------------------------------------------------------------------
// What the operations do, stated over their inputs and the position's own
// queries.
/// The effects of making a legal move. A promotion only waits for the choice
/// of a piece: the pawn move is kept without its role, and the choice is
/// shown on the target file (plus 10 when Black moves). Any other move is
/// played and marked as the last move; en passant also removes the pawn on
/// the target's file and the origin's rank; castling also moves the rook,
/// on the king's own rank, from the h-file to the f-file (king side) or
/// from the a-file to the d-file (queen side).
pub proof fn lemma_move_effects(s: BoardConState, lm: Move)
    requires
        lm.wf(),
    ensures
        ({
            let next = try_apply_step(s, lm).0;
            let out = try_apply_step(s, lm).1;
            match lm {
                Move::Normal { role, from, capture, to, promotion } => if promotion is Some {
                    &&& next == BoardConState {
                        promotion: Some(
                            Move::Normal { role: 1, from, capture, to, promotion: None },
                        ),
                        ..s
                    }
                    &&& out == seq![
                        SignalsView::Promoting {
                            file: Some(
                                (to % 8 + if turn_of(s.fen) == Some(Color::Black) {
                                    10int
                                } else {
                                    0int
                                }) as u8,
                            ),
                        },
                    ]
                } else {
                    &&& next == BoardConState {
                        fen: match position_after(s.fen, from, to, None) {
                            Some(f) => f,
                            None => s.fen,
                        },
                        ..s
                    }
                    &&& out == seq![
                        SignalsView::LastMove { src_square: Some(from), dest_square: Some(to) },
                    ]
                },
                Move::EnPassant { from, to } => {
                    &&& next == BoardConState {
                        fen: match position_after(s.fen, from, to, None) {
                            Some(f) => f,
                            None => s.fen,
                        },
                        ..s
                    }
                    &&& out == seq![
                        SignalsView::LastMove { src_square: Some(from), dest_square: Some(to) },
                        SignalsView::Piece(
                            PieceSignals::Remove { square: (to % 8 + 8 * (from / 8)) as u8 },
                        ),
                    ]
                },
                Move::Castle { king, rook } => {
                    &&& next == BoardConState {
                        fen: match position_after(s.fen, king, rook, None) {
                            Some(f) => f,
                            None => s.fen,
                        },
                        ..s
                    }
                    &&& out == seq![
                        SignalsView::LastMove { src_square: Some(king), dest_square: Some(rook) },
                        SignalsView::Piece(
                            PieceSignals::Move {
                                src_square: ((if king < rook {
                                    7int
                                } else {
                                    0int
                                }) + 8 * (king / 8)) as u8,
                                dest_square: ((if king < rook {
                                    5int
                                } else {
                                    3int
                                }) + 8 * (king / 8)) as u8,
                            },
                        ),
                    ]
                },
                Move::Put { .. } => true,
            }
        }),
{
    let out = try_apply_step(s, lm).1;
    match lm {
        Move::Normal { promotion, .. } => {
            if promotion is None {
                assert(out =~= seq![
                    SignalsView::LastMove { src_square: lm.from(), dest_square: Some(lm.to()) },
                ]);
            }
        },
        Move::EnPassant { from, to } => {
            assert(out =~= seq![
                SignalsView::LastMove { src_square: Some(from), dest_square: Some(to) },
                SignalsView::Piece(PieceSignals::Remove { square: (to % 8 + 8 * (from / 8)) as u8 }),
            ]);
        },
        Move::Castle { king, rook } => {
            assert(out =~= seq![
                SignalsView::LastMove { src_square: Some(king), dest_square: Some(rook) },
                castle_signals(lm)[0],
            ]);
        },
        Move::Put { .. } => {},
    }
}

/// A search through `moves` for a move ending on `dest` finds one whenever
/// there is one.
proof fn lemma_first_to_complete(moves: Seq<Move>, dest: u8, m: Move)
    requires
        moves.contains(m),
        m.to() == dest,
    ensures
        first_to(moves, dest) is Some,
    decreases moves.len(),
{
    if moves[0].to() != dest {
        let k = choose|k: int| 0 <= k < moves.len() && moves[k] == m;
        assert(k != 0);
        assert(moves.drop_first()[k - 1] == m);
        lemma_first_to_complete(moves.drop_first(), dest, m);
    }
}

/// The move between two squares is found exactly when the position has a
/// legal move from the first square to the second, captures and all, and
/// it is such a move.
pub proof fn lemma_legal_move_between_exact(fen: Seq<char>, src: u8, dest: u8)
    ensures
        (exists|m: Move|
            #![trigger legal_moves_of(fen).contains(m)]
            legal_moves_of(fen).contains(m) && m.from() == Some(src) && m.to() == dest)
            <==> legal_move_between(fen, src, dest) is Some,
        legal_move_between(fen, src, dest) matches Some(m) ==> legal_moves_of(fen).contains(m)
            && m.from() == Some(src) && m.to() == dest,
{
    lemma_legal_move_between_is_legal(fen, src, dest);
    if exists|m: Move|
        #![trigger legal_moves_of(fen).contains(m)]
        legal_moves_of(fen).contains(m) && m.from() == Some(src) && m.to() == dest {
        let m = choose|m: Move|
            #![trigger legal_moves_of(fen).contains(m)]
            legal_moves_of(fen).contains(m) && m.from() == Some(src) && m.to() == dest;
        let k = choose|k: int| 0 <= k < legal_moves_of(fen).len() && legal_moves_of(fen)[k] == m;
        legal_moves_of(fen).lemma_filter_contains(|mv: Move| mv.from() == Some(src), k);
        lemma_first_to_complete(moves_from(legal_moves_of(fen), src), dest, m);
    }
}

/// The image id of a piece: the white pawn .. king are `0..=5`, the black
/// pawn .. king `10..=15`.
pub open spec fn image_id(p: Piece) -> u8 {
    (if p.color == Color::White {
        p.role - 1
    } else {
        p.role + 9
    }) as u8
}

/// A resync sends a reset, then one placing for each entry of the
/// position's piece list, on its square, with the image of the piece that
/// the position has on that square, whatever side is to move.
pub proof fn lemma_resync_places_each_piece(fen: Seq<char>)
    requires
        forall|i: int|
            0 <= i < pieces_of(fen).len() ==> piece_at_of(fen, (#[trigger] pieces_of(fen)[i]).0)
                == Some(pieces_of(fen)[i].1),
    ensures
        resync_signals(fen).len() == pieces_of(fen).len() + 1,
        resync_signals(fen)[0] == SignalsView::Reset,
        forall|i: int|
            0 <= i < pieces_of(fen).len() ==> piece_at_of(fen, (#[trigger] pieces_of(fen)[i]).0) is Some
                && resync_signals(fen)[i + 1] == SignalsView::Piece(
                PieceSignals::Place {
                    id: image_id(piece_at_of(fen, pieces_of(fen)[i].0).unwrap()),
                    square: pieces_of(fen)[i].0,
                },
            ),
{
    assert forall|i: int| 0 <= i < pieces_of(fen).len() implies piece_at_of(
        fen,
        (#[trigger] pieces_of(fen)[i]).0,
    ) is Some && resync_signals(fen)[i + 1] == SignalsView::Piece(
        PieceSignals::Place {
            id: image_id(piece_at_of(fen, pieces_of(fen)[i].0).unwrap()),
            square: pieces_of(fen)[i].0,
        },
    ) by {
        assert(resync_signals(fen)[i + 1] == place(piece_id_of(pieces_of(fen)[i].1), pieces_of(fen)[i].0));
    }
}

/// Each signal sets exactly its property: a hint or capture list replaces
/// the old one, the empty list included; the dragged image, the selection
/// mark and the last-move marks take the carried square or id (-1 for
/// none); the promotion signal changes nothing; piece signals change no
/// property and are sent on as the matching signal.
pub proof fn lemma_signals_set_properties(v: BoardConView, signal: SignalsView)
    ensures
        ({
            let next = signal_step(v, signal).0;
            let sent = signal_step(v, signal).1;
            let code = |o: Option<u8>|
                match o {
                    Some(x) => x as i8,
                    None => -1i8,
                };
            match signal {
                SignalsView::Hint { squares } => next == BoardConView { hint_sq: squares, ..v }
                    && sent is None,
                SignalsView::Capture { squares } => next == BoardConView { capture_sq: squares, ..v }
                    && sent is None,
                SignalsView::Phantom { id } => next == BoardConView { phantom_id: code(id), ..v }
                    && sent is None,
                SignalsView::Highlight { square } => next == BoardConView {
                    highlight_sq: code(square),
                    ..v
                } && sent is None,
                SignalsView::LastMove { src_square, dest_square } => next == BoardConView {
                    last_src_sq: code(src_square),
                    last_dest_sq: code(dest_square),
                    ..v
                } && sent is None,
                SignalsView::Promoting { .. } => next == v && sent is None,
                SignalsView::Reset => next == v && sent == Some(UiSignals::ResetBoard),
                SignalsView::Piece(PieceSignals::Place { id, square }) => next == v && sent == Some(
                    UiSignals::PlacePiece { id, square },
                ),
                SignalsView::Piece(PieceSignals::Move { src_square, dest_square }) => next == v
                    && sent == Some(UiSignals::MovePiece { src_square, dest_square }),
                SignalsView::Piece(PieceSignals::Remove { square }) => next == v && sent == Some(
                    UiSignals::RemovePiece { square },
                ),
            }
        }),
{
}

/// The hints of the piece on `square` cover its legal moves: the target of
/// each legal move from there that captures nothing is in the hint list,
/// that of each capture is in the capture list, every listed square is the
/// target of such a move, and the two lists together have one entry per
/// legal move from there.
pub proof fn lemma_hints_cover_moves(fen: Seq<char>, square: u8)
    ensures
        hint_signals(fen, square).len() == 2,
        hint_signals(fen, square)[0] matches SignalsView::Hint { squares: quiet } && hint_signals(
            fen,
            square,
        )[1] matches SignalsView::Capture { squares: taking } && ({
            let moves = legal_moves_of(fen);
            &&& forall|m: Move|
                #![trigger moves.contains(m)]
                moves.contains(m) && m.from() == Some(square) && m.capture() is None
                    ==> quiet.contains(m.to())
            &&& forall|m: Move|
                #![trigger moves.contains(m)]
                moves.contains(m) && m.from() == Some(square) && m.capture() is Some
                    ==> taking.contains(m.to())
            &&& forall|t: u8|
                #![trigger quiet.contains(t)]
                quiet.contains(t) ==> exists|m: Move|
                    #![trigger moves.contains(m)]
                    moves.contains(m) && m.from() == Some(square) && m.capture() is None && m.to()
                        == t
            &&& forall|t: u8|
                #![trigger taking.contains(t)]
                taking.contains(t) ==> exists|m: Move|
                    #![trigger moves.contains(m)]
                    moves.contains(m) && m.from() == Some(square) && m.capture() is Some && m.to()
                        == t
            &&& quiet.len() + taking.len() == moves.filter(|m: Move| m.from() == Some(square)).len()
        }),
{
    broadcast use Seq::lemma_filter_contains_rev;

    let moves = legal_moves_of(fen);
    let from_sq = |mv: Move| mv.from() == Some(square);
    let mine = moves.filter(from_sq);
    let quiet_p = |m: Move| m.capture() is None;
    let capture_p = |m: Move| m.capture() is Some;
    let quiet = quiet_targets(mine);
    let taking = capture_targets(mine);
    lemma_hints_split_moves(mine);
    assert forall|m: Move|
        #![trigger moves.contains(m)]
        moves.contains(m) && m.from() == Some(square) && m.capture() is None implies quiet.contains(
        m.to(),
    ) by {
        let k = choose|k: int| 0 <= k < moves.len() && moves[k] == m;
        moves.lemma_filter_contains(from_sq, k);
        let j = choose|j: int| 0 <= j < mine.len() && mine[j] == m;
        mine.lemma_filter_contains(quiet_p, j);
        let q = choose|q: int| 0 <= q < mine.filter(quiet_p).len() && mine.filter(quiet_p)[q] == m;
        assert(quiet[q] == m.to());
    }
    assert forall|m: Move|
        #![trigger moves.contains(m)]
        moves.contains(m) && m.from() == Some(square) && m.capture() is Some implies taking.contains(
        m.to(),
    ) by {
        let k = choose|k: int| 0 <= k < moves.len() && moves[k] == m;
        moves.lemma_filter_contains(from_sq, k);
        let j = choose|j: int| 0 <= j < mine.len() && mine[j] == m;
        mine.lemma_filter_contains(capture_p, j);
        let q = choose|q: int| 0 <= q < mine.filter(capture_p).len() && mine.filter(capture_p)[q] == m;
        assert(taking[q] == m.to());
    }
    assert forall|t: u8| #![trigger quiet.contains(t)] quiet.contains(t) implies exists|m: Move|
        #![trigger moves.contains(m)]
        moves.contains(m) && m.from() == Some(square) && m.capture() is None && m.to() == t by {
        let i = choose|i: int| 0 <= i < quiet.len() && quiet[i] == t;
        lemma_hints_are_targets(mine, i);
        let m = choose|m: Move| #![trigger mine.contains(m)] mine.contains(m) && m.capture() is None && m.to() == quiet[i];
        let j = choose|j: int| 0 <= j < mine.len() && mine[j] == m;
        moves.lemma_filter_pred(from_sq, j);
        assert(moves.contains(m));
    }
    assert forall|t: u8| #![trigger taking.contains(t)] taking.contains(t) implies exists|m: Move|
        #![trigger moves.contains(m)]
        moves.contains(m) && m.from() == Some(square) && m.capture() is Some && m.to() == t by {
        let i = choose|i: int| 0 <= i < taking.len() && taking[i] == t;
        lemma_hints_are_targets(mine, i);
        let m = choose|m: Move| #![trigger mine.contains(m)] mine.contains(m) && m.capture() is Some && m.to() == taking[i];
        let j = choose|j: int| 0 <= j < mine.len() && mine[j] == m;
        moves.lemma_filter_pred(from_sq, j);
        assert(moves.contains(m));
    }
}

} // verus!

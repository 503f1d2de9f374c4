use board_con::board::{BoardImpl, PieceAtSquare};
use board_con::board_con::{option_u8_into_i8, BoardCon, Signals as UiSignals};
use board_con::chess::{
    square_file, square_from_coords, square_rank, CastlingSide, Color, Move, Piece,
};
use board_con::signals::{
    BoardSignals, HighlightRectSignals, HintSignals, HoverRectSignals, PieceSignals, Signals,
};
use board_con::slots::{DragSlots, MouseEventSlots, Slots};

const START: &str = "rnbqkbnr/pppppppp/8/8/8/8/PPPPPPPP/RNBQKBNR w KQkq - 0 1";

#[test]
fn square_coordinates() {
    assert_eq!(square_file(12), 4);
    assert_eq!(square_rank(12), 1);
    assert_eq!(square_from_coords(4, 1), 12);
    assert_eq!(square_from_coords(7, 7), 63);
    for sq in 0..64u8 {
        assert_eq!(square_from_coords(square_file(sq), square_rank(sq)), sq);
    }
}

#[test]
fn move_accessors() {
    let normal = Move::Normal { role: 1, from: 48, capture: Some(2), to: 57, promotion: Some(5) };
    assert_eq!(normal.from(), Some(48));
    assert_eq!(normal.to(), 57);
    assert_eq!(normal.capture(), Some(2));
    assert_eq!(normal.promotion(), Some(5));
    assert_eq!(normal.castling_side(), None);
    let ep = Move::EnPassant { from: 36, to: 43 };
    assert_eq!(ep.capture(), Some(1));
    assert_eq!(ep.promotion(), None);
    let king_side = Move::Castle { king: 4, rook: 7 };
    assert_eq!(king_side.from(), Some(4));
    assert_eq!(king_side.to(), 7);
    assert_eq!(king_side.capture(), None);
    assert_eq!(king_side.castling_side(), Some(CastlingSide::KingSide));
    let queen_side = Move::Castle { king: 60, rook: 56 };
    assert_eq!(queen_side.castling_side(), Some(CastlingSide::QueenSide));
    let drop = Move::Put { role: 3, to: 20 };
    assert_eq!(drop.from(), None);
    assert_eq!(drop.to(), 20);
    assert!(CastlingSide::KingSide.is_king_side());
    assert!(!CastlingSide::QueenSide.is_king_side());
    assert_eq!(CastlingSide::KingSide.rook_to_file(), 5);
    assert_eq!(CastlingSide::QueenSide.rook_to_file(), 3);
}

#[test]
fn piece_ids() {
    let at = |color: Color, role: u8| PieceAtSquare { square: 0, piece: Piece { color, role } };
    assert_eq!(at(Color::White, 1).piece_id(), 0);
    assert_eq!(at(Color::White, 6).piece_id(), 5);
    assert_eq!(at(Color::Black, 1).piece_id(), 10);
    assert_eq!(at(Color::Black, 5).piece_id(), 14);
}

#[test]
fn initial_board() {
    let board = BoardImpl::default();
    assert_eq!(board.fen(), START);
    assert_eq!(board.turn(), Some(Color::White));
    let pieces = board.pieces();
    assert_eq!(pieces.len(), 32);
    assert_eq!(pieces[0], PieceAtSquare { square: 0, piece: Piece { color: Color::White, role: 4 } });
    assert_eq!(pieces[31], PieceAtSquare { square: 63, piece: Piece { color: Color::Black, role: 4 } });
    let mut total = 0;
    for sq in 0..64u8 {
        total += board.moves_of(sq).len();
    }
    assert_eq!(total, 20);
    assert_eq!(
        board.moves_of(12),
        vec![
            Move::Normal { role: 1, from: 12, capture: None, to: 20, promotion: None },
            Move::Normal { role: 1, from: 12, capture: None, to: 28, promotion: None },
        ],
    );
    assert!(board.moves_of(52).is_empty());
}

#[test]
fn apply_move_plays_legal_moves_only() {
    let mut board = BoardImpl::default();
    board.apply_move(Move::Normal { role: 1, from: 12, capture: None, to: 36, promotion: None });
    assert_eq!(board.fen(), START);
    board.apply_move(Move::Put { role: 5, to: 36 });
    assert_eq!(board.fen(), START);
    board.apply_move(Move::Normal { role: 1, from: 12, capture: None, to: 28, promotion: None });
    assert_eq!(board.fen(), "rnbqkbnr/pppppppp/8/8/4P3/8/PPPP1PPP/RNBQKBNR b KQkq - 0 1");
    assert_eq!(board.turn(), Some(Color::Black));
    assert_eq!(board.piece_on(28).map(|p| p.piece), Some(Piece { color: Color::White, role: 1 }));
    assert_eq!(board.piece_on(12), None);
}

#[test]
fn unreadable_position_has_no_pieces_and_no_moves() {
    let mut board = BoardImpl::from_fen("not a position");
    assert_eq!(board.turn(), None);
    assert!(board.pieces().is_empty());
    assert!(board.moves_of(12).is_empty());
    assert_eq!(board.piece_on(12), None);
    board.apply_move(Move::Normal { role: 1, from: 12, capture: None, to: 28, promotion: None });
    assert_eq!(board.fen(), "not a position");
}

#[test]
fn conversions_into_signals() {
    assert_eq!(Signals::from(BoardSignals::Reset), Signals::Reset);
    let p = PieceSignals::Remove { square: 9 };
    assert_eq!(Signals::from(p), Signals::Piece(p));
    assert_eq!(
        Signals::from(HighlightRectSignals::Show { square: 4 }),
        Signals::Highlight { square: Some(4) },
    );
    assert_eq!(Signals::from(HighlightRectSignals::Hide), Signals::Highlight { square: None });
    let d = DragSlots::Started { src_x: 1, src_y: 2 };
    assert_eq!(MouseEventSlots::from(d), MouseEventSlots::Drag(d));
    assert_ne!(HintSignals::Place { square: 3 }, HintSignals::Capture { square: 3 });
    assert_ne!(HoverRectSignals::Show { square: 3 }, HoverRectSignals::Hide);
}

#[test]
fn board_con_defaults() {
    let con = BoardCon::default();
    assert_eq!(con.piece_size(), 8);
    assert_eq!(con.phantom_id(), -1);
    assert!(con.hint_sq().is_empty());
    assert!(con.capture_sq().is_empty());
    assert_eq!(con.highlight_sq(), -1);
    assert_eq!(con.last_src_sq(), -1);
    assert_eq!(con.last_dest_sq(), -1);
    assert!(!con.is_connected());
}

#[test]
fn handle_signal_sets_properties_and_forwards_piece_signals() {
    let mut con = BoardCon::default();
    assert_eq!(con.handle_signal(Signals::Reset), Some(UiSignals::ResetBoard));
    assert_eq!(
        con.handle_signal(Signals::Piece(PieceSignals::Place { id: 3, square: 0 })),
        Some(UiSignals::PlacePiece { id: 3, square: 0 }),
    );
    assert_eq!(
        con.handle_signal(Signals::Piece(PieceSignals::Move { src_square: 12, dest_square: 28 })),
        Some(UiSignals::MovePiece { src_square: 12, dest_square: 28 }),
    );
    assert_eq!(
        con.handle_signal(Signals::Piece(PieceSignals::Remove { square: 35 })),
        Some(UiSignals::RemovePiece { square: 35 }),
    );
    assert_eq!(con.handle_signal(Signals::Phantom { id: Some(14) }), None);
    assert_eq!(con.phantom_id(), 14);
    assert_eq!(con.handle_signal(Signals::Hint { squares: vec![20, 28] }), None);
    assert_eq!(con.hint_sq(), &vec![20, 28]);
    assert_eq!(con.handle_signal(Signals::Capture { squares: vec![43] }), None);
    assert_eq!(con.capture_sq(), &vec![43]);
    assert_eq!(con.handle_signal(Signals::Highlight { square: Some(12) }), None);
    assert_eq!(con.highlight_sq(), 12);
    assert_eq!(
        con.handle_signal(Signals::LastMove { src_square: Some(12), dest_square: Some(28) }),
        None,
    );
    assert_eq!(con.last_src_sq(), 12);
    assert_eq!(con.last_dest_sq(), 28);
    assert_eq!(con.handle_signal(Signals::Highlight { square: None }), None);
    assert_eq!(con.highlight_sq(), -1);
    assert_eq!(con.handle_signal(Signals::Phantom { id: None }), None);
    assert_eq!(con.phantom_id(), -1);
    assert_eq!(con.handle_signal(Signals::Promoting { file: Some(3) }), None);
    assert_eq!(con.highlight_sq(), -1);
    assert_eq!(con.hint_sq(), &vec![20, 28]);
}

#[test]
fn property_values_of_optional_numbers() {
    assert_eq!(option_u8_into_i8(None), -1);
    assert_eq!(option_u8_into_i8(Some(0)), 0);
    assert_eq!(option_u8_into_i8(Some(63)), 63);
    assert_eq!(option_u8_into_i8(Some(200)), -56);
}

#[test]
fn slots_are_sent_only_once_started() {
    let mut con = BoardCon::default();
    assert_eq!(con.resync_board(), None);
    assert_eq!(con.coord_clicked(10, 20), None);
    assert_eq!(con.coord_drag_started(1, 2, 3, 4), None);
    assert_eq!(con.coord_drag_ended(1, 2, 3, 4), None);
    con.initialize();
    con.set_piece_size(60);
    assert_eq!(con.resync_board(), Some(Slots::Resync));
    assert_eq!(
        con.coord_clicked(10, 20),
        Some(Slots::MouseEvent { slot: MouseEventSlots::Clicked { x: 10, y: 20 }, piece_size: 60 }),
    );
    assert_eq!(
        con.coord_drag_started(1, 2, 3, 4),
        Some(Slots::MouseEvent {
            slot: MouseEventSlots::Drag(DragSlots::Started { src_x: 1, src_y: 2 }),
            piece_size: 60,
        }),
    );
    assert_eq!(
        con.coord_drag_ended(1, 2, 3, 4),
        Some(Slots::MouseEvent {
            slot: MouseEventSlots::Drag(DragSlots::Ended { dest_x: 3, dest_y: 4 }),
            piece_size: 60,
        }),
    );
}

#[test]
fn drag_slots_carry_only_their_own_point() {
    let mut con = BoardCon::default();
    con.initialize();
    assert_eq!(con.coord_drag_started(1, 2, 3, 4), con.coord_drag_started(1, 2, 300, 400));
    assert_eq!(con.coord_drag_ended(1, 2, 3, 4), con.coord_drag_ended(100, 200, 3, 4));
    assert_ne!(con.coord_drag_started(1, 2, 3, 4), con.coord_drag_started(9, 2, 3, 4));
    assert_ne!(con.coord_drag_ended(1, 2, 3, 4), con.coord_drag_ended(1, 2, 3, 9));
}

#[test]
fn pieces_ascend_and_agree_with_piece_on() {
    let board = BoardImpl::from_fen("4k3/8/3p4/8/2P5/8/8/R3K3 w Q - 0 1");
    let pieces = board.pieces();
    let squares: Vec<u8> = pieces.iter().map(|p| p.square).collect();
    assert_eq!(squares, vec![0, 4, 26, 43, 60]);
    for p in &pieces {
        assert_eq!(board.piece_on(p.square), Some(*p));
    }
}

use board_con::board::BoardImpl;
use board_con::board_con::{option_u8_into_i8, BoardCon};
use board_con::chess::{Color, Move, Piece};
use board_con::controller::{BoardConImpl, Notice};
use board_con::signals::{PieceSignals, Signals};
use board_con::slots::{DragSlots, MouseEventSlots, Slots};

const START: &str = "rnbqkbnr/pppppppp/8/8/8/8/PPPPPPPP/RNBQKBNR w KQkq - 0 1";

/// Pixel coordinates of the middle-ish of a square on a board of 8-pixel squares.
fn xy(square: u8) -> (u32, u32) {
    let file = (square % 8) as u32;
    let rank = (square / 8) as u32;
    (8 * file + 1, 8 * (7 - rank) + 1)
}

fn click(con: &mut BoardConImpl, square: u8) -> Vec<Signals> {
    let (x, y) = xy(square);
    let mut out = Vec::new();
    con.coord_clicked(x, y, 8, &mut out);
    out
}

fn drag(con: &mut BoardConImpl, from: u8, to: u8) -> (Vec<Signals>, Vec<Signals>) {
    let (x, y) = xy(from);
    let mut started = Vec::new();
    con.coord_drag_started(x, y, 8, &mut started);
    let (x, y) = xy(to);
    let mut ended = Vec::new();
    con.coord_drag_ended(x, y, 8, &mut ended);
    (started, ended)
}

fn reset_highlights() -> Vec<Signals> {
    vec![
        Signals::Phantom { id: None },
        Signals::Hint { squares: vec![] },
        Signals::Capture { squares: vec![] },
        Signals::Highlight { square: None },
    ]
}

fn with(mut first: Vec<Signals>, rest: Vec<Signals>) -> Vec<Signals> {
    first.extend(rest);
    first
}

fn place(id: u8, square: u8) -> Signals {
    Signals::Piece(PieceSignals::Place { id, square })
}

fn mv(src_square: u8, dest_square: u8) -> Signals {
    Signals::Piece(PieceSignals::Move { src_square, dest_square })
}

fn remove(square: u8) -> Signals {
    Signals::Piece(PieceSignals::Remove { square })
}

fn last_move(src: u8, dest: u8) -> Signals {
    Signals::LastMove { src_square: Some(src), dest_square: Some(dest) }
}

#[test]
fn coord_to_square_maps_pixels_to_squares() {
    assert_eq!(BoardConImpl::coord_to_square(0, 0, 8), 56);
    assert_eq!(BoardConImpl::coord_to_square(63, 63, 8), 7);
    assert_eq!(BoardConImpl::coord_to_square(33, 49, 8), 12);
    assert_eq!(BoardConImpl::coord_to_square(450, 10, 60), 63);
}

#[test]
fn new_controller_starts_on_the_initial_position() {
    let con = BoardConImpl::new();
    assert_eq!(con.board().fen(), START);
    assert_eq!(con.highlighted_square(), None);
    assert_eq!(con.dragged_piece(), None);
    assert_eq!(con.promotion(), None);
}

#[test]
fn resync_sends_reset_then_every_piece() {
    let con = BoardConImpl::new();
    let mut out = Vec::new();
    con.resync_board(&mut out);
    assert_eq!(out.len(), 33);
    assert_eq!(out[0], Signals::Reset);
    assert_eq!(out[1], place(3, 0));
    assert_eq!(out[2], place(1, 1));
    assert_eq!(out[5], place(5, 4));
    assert_eq!(out[9], place(0, 8));
    assert_eq!(out[17], place(10, 48));
    assert_eq!(out[25], place(13, 56));
    assert_eq!(out[29], place(15, 60));
}

#[test]
fn click_on_piece_selects_it_and_shows_hints() {
    let mut con = BoardConImpl::new();
    let out = click(&mut con, 12);
    let expected = with(
        reset_highlights(),
        vec![
            Signals::Highlight { square: Some(12) },
            Signals::Hint { squares: vec![20, 28] },
            Signals::Capture { squares: vec![] },
        ],
    );
    assert_eq!(out, expected);
    assert_eq!(con.highlighted_square(), Some(12));
}

#[test]
fn click_on_empty_square_selects_nothing() {
    let mut con = BoardConImpl::new();
    let out = click(&mut con, 27);
    assert_eq!(out, reset_highlights());
    assert_eq!(con.highlighted_square(), None);
}

#[test]
fn click_on_target_makes_the_move() {
    let mut con = BoardConImpl::new();
    click(&mut con, 12);
    let out = click(&mut con, 28);
    assert_eq!(out, with(reset_highlights(), vec![mv(12, 28), last_move(12, 28)]));
    assert_eq!(con.board().fen(), "rnbqkbnr/pppppppp/8/8/4P3/8/PPPP1PPP/RNBQKBNR b KQkq - 0 1");
    assert_eq!(con.board().turn(), Some(Color::Black));
    assert_eq!(con.highlighted_square(), None);
}

#[test]
fn second_click_on_selection_deselects() {
    let mut con = BoardConImpl::new();
    click(&mut con, 12);
    let out = click(&mut con, 12);
    assert_eq!(out, reset_highlights());
    assert_eq!(con.highlighted_square(), None);
    assert_eq!(con.board().fen(), START);
}

#[test]
fn click_on_other_own_piece_selects_it() {
    let mut con = BoardConImpl::new();
    click(&mut con, 12);
    let out = click(&mut con, 11);
    let expected = with(
        reset_highlights(),
        vec![
            Signals::Highlight { square: Some(11) },
            Signals::Hint { squares: vec![19, 27] },
            Signals::Capture { squares: vec![] },
        ],
    );
    assert_eq!(out, expected);
    assert_eq!(con.highlighted_square(), Some(11));
}

#[test]
fn drag_to_target_makes_the_move() {
    let mut con = BoardConImpl::new();
    let (started, ended) = drag(&mut con, 6, 21);
    let expected_start = with(
        reset_highlights(),
        vec![
            remove(6),
            Signals::Highlight { square: Some(6) },
            Signals::Phantom { id: Some(1) },
            Signals::Hint { squares: vec![21, 23] },
            Signals::Capture { squares: vec![] },
        ],
    );
    assert_eq!(started, expected_start);
    let expected_end = vec![
        Signals::Phantom { id: None },
        Signals::Hint { squares: vec![] },
        Signals::Capture { squares: vec![] },
        Signals::Highlight { square: None },
        place(1, 21),
        last_move(6, 21),
    ];
    assert_eq!(ended, expected_end);
    assert_eq!(con.board().fen(), "rnbqkbnr/pppppppp/8/8/8/5N2/PPPPPPPP/RNBQKB1R b KQkq - 1 1");
    assert_eq!(con.dragged_piece(), None);
}

#[test]
fn drag_to_illegal_square_puts_piece_back() {
    let mut con = BoardConImpl::new();
    let (_, ended) = drag(&mut con, 12, 36);
    assert_eq!(ended, vec![Signals::Phantom { id: None }, place(0, 12)]);
    assert_eq!(con.board().fen(), START);
    assert_eq!(con.dragged_piece(), None);
    assert_eq!(con.highlighted_square(), Some(12));
}

#[test]
fn drag_end_without_drag_only_hides_phantom() {
    let mut con = BoardConImpl::new();
    let mut out = Vec::new();
    con.coord_drag_ended(1, 1, 8, &mut out);
    assert_eq!(out, vec![Signals::Phantom { id: None }]);
}

#[test]
fn drag_start_on_empty_square_picks_nothing_up() {
    let mut con = BoardConImpl::new();
    let mut out = Vec::new();
    let (x, y) = xy(30);
    con.coord_drag_started(x, y, 8, &mut out);
    assert_eq!(out, reset_highlights());
    assert_eq!(con.dragged_piece(), None);
}

#[test]
fn en_passant_removes_the_taken_pawn() {
    let mut con = BoardConImpl::with_board(BoardImpl::from_fen("4k3/8/8/3pP3/8/8/8/4K3 w - d6 0 1"));
    let (started, ended) = drag(&mut con, 36, 43);
    assert_eq!(started[7], Signals::Hint { squares: vec![44] });
    assert_eq!(started[8], Signals::Capture { squares: vec![43] });
    assert_eq!(ended[4], place(0, 43));
    assert_eq!(ended[5], last_move(36, 43));
    assert_eq!(ended[6], remove(35));
    assert_eq!(ended.len(), 7);
    assert_eq!(con.board().fen(), "4k3/8/3P4/8/8/8/8/4K3 b - - 0 1");
}

#[test]
fn king_side_castling_moves_the_rook() {
    let mut con = BoardConImpl::with_board(BoardImpl::from_fen("4k3/8/8/8/8/8/8/4K2R w K - 0 1"));
    click(&mut con, 4);
    let out = click(&mut con, 7);
    assert_eq!(out, with(reset_highlights(), vec![mv(4, 7), last_move(4, 7), mv(7, 5)]));
    assert_eq!(con.board().fen(), "4k3/8/8/8/8/8/8/5RK1 b - - 1 1");
}

#[test]
fn queen_side_castling_moves_the_rook() {
    let mut con = BoardConImpl::with_board(BoardImpl::from_fen("4k3/8/8/8/8/8/8/R3K3 w Q - 0 1"));
    click(&mut con, 4);
    let out = click(&mut con, 0);
    assert_eq!(out, with(reset_highlights(), vec![mv(4, 0), last_move(4, 0), mv(0, 3)]));
    assert_eq!(con.board().fen(), "4k3/8/8/8/8/8/8/2KR4 b - - 1 1");
}

#[test]
fn promotion_waits_for_choice_then_places_chosen_piece() {
    let mut con = BoardConImpl::with_board(BoardImpl::from_fen("4k3/P7/8/8/8/8/8/4K3 w - - 0 1"));
    let hints = click(&mut con, 48);
    assert_eq!(hints[5], Signals::Hint { squares: vec![56, 56, 56, 56] });
    let out = click(&mut con, 56);
    assert_eq!(out, with(reset_highlights(), vec![mv(48, 56), Signals::Promoting { file: Some(0) }]));
    assert_eq!(
        con.promotion(),
        Some(Move::Normal { role: 1, from: 48, capture: None, to: 56, promotion: None }),
    );
    assert_eq!(con.board().fen(), "4k3/P7/8/8/8/8/8/4K3 w - - 0 1");
    let mut out = Vec::new();
    assert_eq!(con.finalize_promotion(4, &mut out), None);
    assert_eq!(out, vec![remove(56), place(4, 56), Signals::Promoting { file: None }]);
    assert_eq!(con.promotion(), None);
    assert_eq!(con.board().fen(), "Q3k3/8/8/8/8/8/8/4K3 b - - 0 1");
}

#[test]
fn black_promotion_uses_black_ids() {
    let mut con = BoardConImpl::with_board(BoardImpl::from_fen("4k3/8/8/8/8/8/p7/4K3 b - - 0 1"));
    let (_, ended) = drag(&mut con, 8, 0);
    assert_eq!(ended.last(), Some(&Signals::Promoting { file: Some(10) }));
    let mut out = Vec::new();
    assert_eq!(con.handle_slot(Slots::Promote { id: 1 }, &mut out), None);
    assert_eq!(out, vec![remove(0), place(11, 0), Signals::Promoting { file: None }]);
    assert_eq!(con.board().fen(), "4k3/8/8/8/8/8/8/n3K3 w - - 0 2");
}

#[test]
fn click_abandons_waiting_promotion() {
    let mut con = BoardConImpl::with_board(BoardImpl::from_fen("1n2k3/P7/8/8/8/8/8/4K3 w - - 0 1"));
    click(&mut con, 48);
    let out = click(&mut con, 57);
    assert_eq!(out.last(), Some(&Signals::Promoting { file: Some(1) }));
    let out = click(&mut con, 4);
    assert_eq!(
        out,
        with(reset_highlights(), vec![Signals::Promoting { file: None }, mv(57, 48), place(11, 57)]),
    );
    assert_eq!(con.promotion(), None);
    assert_eq!(con.highlighted_square(), None);
    assert_eq!(con.board().fen(), "1n2k3/P7/8/8/8/8/8/4K3 w - - 0 1");
}

#[test]
fn promotion_to_pawn_is_refused_by_the_board() {
    let mut con = BoardConImpl::with_board(BoardImpl::from_fen("4k3/P7/8/8/8/8/8/4K3 w - - 0 1"));
    click(&mut con, 48);
    click(&mut con, 56);
    let mut out = Vec::new();
    assert_eq!(con.finalize_promotion(0, &mut out), Some(Notice::MoveRefused));
    assert_eq!(out, vec![remove(56), place(0, 56), Signals::Promoting { file: None }]);
    assert_eq!(con.board().fen(), "4k3/P7/8/8/8/8/8/4K3 w - - 0 1");
}

#[test]
fn promote_without_waiting_promotion_does_nothing() {
    let mut con = BoardConImpl::new();
    let mut out = Vec::new();
    assert_eq!(con.finalize_promotion(9, &mut out), Some(Notice::NothingToPromote));
    assert!(out.is_empty());
    assert_eq!(con.board().fen(), START);
}

#[test]
fn handle_slot_dispatches_slots() {
    let mut con = BoardConImpl::new();
    let mut out = Vec::new();
    con.handle_slot(Slots::Resync, &mut out);
    assert_eq!(out.len(), 33);
    let mut out = Vec::new();
    let slot = Slots::MouseEvent { slot: MouseEventSlots::Clicked { x: 33, y: 49 }, piece_size: 8 };
    con.handle_slot(slot, &mut out);
    assert_eq!(out[4], Signals::Highlight { square: Some(12) });
    let mut out = Vec::new();
    assert_eq!(con.handle_slot(Slots::Promote { id: 2 }, &mut out), Some(Notice::NothingToPromote));
    assert!(out.is_empty());
    assert_eq!(con.highlighted_square(), Some(12));
    let mut out = Vec::new();
    let slot = Slots::MouseEvent { slot: MouseEventSlots::Clicked { x: 33, y: 33 }, piece_size: 8 };
    assert_eq!(con.handle_slot(slot, &mut out), None);
    assert_eq!(con.board().fen(), "rnbqkbnr/pppppppp/8/8/4P3/8/PPPP1PPP/RNBQKBNR b KQkq - 0 1");
}

#[test]
fn accepts_only_points_on_the_board() {
    let con = BoardConImpl::new();
    let off = Slots::MouseEvent { slot: MouseEventSlots::Clicked { x: 64, y: 3 }, piece_size: 8 };
    let on = Slots::MouseEvent { slot: MouseEventSlots::Clicked { x: 63, y: 3 }, piece_size: 8 };
    let zero = Slots::MouseEvent { slot: MouseEventSlots::Clicked { x: 0, y: 0 }, piece_size: 0 };
    assert!(!con.accepts(&off));
    assert!(con.accepts(&on));
    assert!(!con.accepts(&zero));
    assert!(con.accepts(&Slots::Promote { id: 9 }));
    let end = Slots::MouseEvent {
        slot: MouseEventSlots::Drag(DragSlots::Ended { dest_x: 900, dest_y: 0 }),
        piece_size: 8,
    };
    assert!(con.accepts(&end));
}

#[test]
fn waiting_promotion_lets_off_board_clicks_through() {
    let mut con = BoardConImpl::with_board(BoardImpl::from_fen("4k3/P7/8/8/8/8/8/4K3 w - - 0 1"));
    click(&mut con, 48);
    click(&mut con, 56);
    assert!(!con.accepts(&Slots::Promote { id: 6 }));
    let off = Slots::MouseEvent { slot: MouseEventSlots::Clicked { x: 900, y: 3 }, piece_size: 8 };
    assert!(con.accepts(&off));
    let mut out = Vec::new();
    con.handle_slot(off, &mut out);
    assert_eq!(out.len(), 6);
    assert_eq!(con.promotion(), None);
}

#[test]
fn mouse_events_only_play_legal_moves() {
    let mut con = BoardConImpl::new();
    click(&mut con, 12);
    click(&mut con, 44);
    assert_eq!(con.board().fen(), START);
    drag(&mut con, 1, 11);
    assert_eq!(con.board().fen(), START);
    drag(&mut con, 1, 16);
    assert_eq!(con.board().fen(), "rnbqkbnr/pppppppp/8/8/8/N7/PPPPPPPP/R1BQKBNR b KQkq - 1 1");
}

#[test]
fn emit_appends_signal() {
    let con = BoardConImpl::new();
    let mut out = vec![Signals::Reset];
    con.emit(&mut out, Signals::Highlight { square: Some(3) });
    assert_eq!(out, vec![Signals::Reset, Signals::Highlight { square: Some(3) }]);
}

#[test]
fn piece_on_reads_the_board() {
    let board = BoardImpl::default();
    let king = board.piece_on(4).unwrap();
    assert_eq!(king.piece, Piece { color: Color::White, role: 6 });
    assert_eq!(king.piece_id(), 5);
    assert_eq!(board.piece_on(35), None);
    assert_eq!(board.piece_on(64), None);
}

#[test]
fn ui_mark_follows_controller_selection() {
    let mut con = BoardConImpl::new();
    let mut ui = BoardCon::default();
    let steps: Vec<Box<dyn Fn(&mut BoardConImpl) -> Vec<Signals>>> = vec![
        Box::new(|c| click(c, 12)),
        Box::new(|c| click(c, 11)),
        Box::new(|c| click(c, 27)),
        Box::new(|c| click(c, 52)),
        Box::new(|c| {
            let (started, ended) = drag(c, 6, 21);
            with(started, ended)
        }),
        Box::new(|c| click(c, 51)),
        Box::new(|c| {
            let (started, ended) = drag(c, 51, 43);
            with(started, ended)
        }),
    ];
    for step in steps {
        for signal in step(&mut con) {
            ui.handle_signal(signal);
        }
        assert_eq!(ui.highlight_sq(), option_u8_into_i8(con.highlighted_square()));
    }
}

//! The board object of the user interface: the properties it shows, how a
//! signal of the controller changes them, and the slots it sends to the
//! controller for the user's mouse actions.
use crate::signals;
use crate::signals::{PieceSignals, SignalsView};
use crate::slots::{DragSlots, MouseEventSlots, Slots};
use vstd::prelude::*;

verus! {

/// The signals the board object sends to the views that draw the pieces.
#[derive(Clone, Copy, Debug, PartialEq, Eq, Structural)]
pub enum Signals {
    ResetBoard,
    PlacePiece { id: u8, square: u8 },
    MovePiece { src_square: u8, dest_square: u8 },
    RemovePiece { square: u8 },
}

/// An optional square or id as a property value: the number itself, or -1
/// for none.
pub open spec fn option_to_i8(value: Option<u8>) -> i8 {
    match value {
        Some(v) => v as i8,
        None => -1i8,
    }
}

/// Turns an optional square or id into a property value (see `option_to_i8`).
pub fn option_u8_into_i8(value: Option<u8>) -> (p: i8)
    ensures
        p == option_to_i8(value),
        value matches Some(v) ==> (v < 128 ==> p == v),
        value is None ==> p == -1,
{
    match value {
        Some(v) => v as i8,
        None => -1,
    }
}

/// The properties of the board object, as mathematical values.
pub struct BoardConView {
    pub piece_size: u32,
    pub phantom_id: i8,
    pub hint_sq: Seq<u8>,
    pub capture_sq: Seq<u8>,
    pub highlight_sq: i8,
    pub last_src_sq: i8,
    pub last_dest_sq: i8,
    /// Whether the controller has been started.
    pub connected: bool,
}

/// What a signal of the controller does to the properties, and the signal
/// the board object sends on for it.
pub open spec fn signal_step(v: BoardConView, signal: SignalsView) -> (BoardConView, Option<Signals>) {
    match signal {
        SignalsView::Reset => (v, Some(Signals::ResetBoard)),
        SignalsView::Piece(piece) => (
            v,
            Some(
                match piece {
                    PieceSignals::Place { id, square } => Signals::PlacePiece { id, square },
                    PieceSignals::Move { src_square, dest_square } => Signals::MovePiece {
                        src_square,
                        dest_square,
                    },
                    PieceSignals::Remove { square } => Signals::RemovePiece { square },
                },
            ),
        ),
        SignalsView::Phantom { id } => (BoardConView { phantom_id: option_to_i8(id), ..v }, None),
        SignalsView::Hint { squares } => (BoardConView { hint_sq: squares, ..v }, None),
        SignalsView::Capture { squares } => (BoardConView { capture_sq: squares, ..v }, None),
        SignalsView::Highlight { square } => (
            BoardConView { highlight_sq: option_to_i8(square), ..v },
            None,
        ),
        SignalsView::LastMove { src_square, dest_square } => (
            BoardConView {
                last_src_sq: option_to_i8(src_square),
                last_dest_sq: option_to_i8(dest_square),
                ..v
            },
            None,
        ),
        SignalsView::Promoting { .. } => (v, None),
    }
}

/// The board object.
pub struct BoardCon {
    piece_size: u32,
    phantom_id: i8,
    hint_sq: Vec<u8>,
    capture_sq: Vec<u8>,
    highlight_sq: i8,
    last_src_sq: i8,
    last_dest_sq: i8,
    connected: bool,
}

impl View for BoardCon {
    type V = BoardConView;

    closed spec fn view(&self) -> BoardConView {
        BoardConView {
            piece_size: self.piece_size,
            phantom_id: self.phantom_id,
            hint_sq: self.hint_sq@,
            capture_sq: self.capture_sq@,
            highlight_sq: self.highlight_sq,
            last_src_sq: self.last_src_sq,
            last_dest_sq: self.last_dest_sq,
            connected: self.connected,
        }
    }
}

impl Default for BoardCon {
    fn default() -> (con: BoardCon)
        ensures
            con@ == (BoardConView {
                piece_size: 8,
                phantom_id: -1i8,
                hint_sq: Seq::empty(),
                capture_sq: Seq::empty(),
                highlight_sq: -1i8,
                last_src_sq: -1i8,
                last_dest_sq: -1i8,
                connected: false,
            }),
    {
        BoardCon {
            piece_size: 8,
            phantom_id: -1,
            hint_sq: Vec::new(),
            capture_sq: Vec::new(),
            highlight_sq: -1,
            last_src_sq: -1,
            last_dest_sq: -1,
            connected: false,
        }
    }
}

impl BoardCon {
    /// Shows a signal of the controller: property signals change the
    /// properties, piece signals are sent on.
    pub fn handle_signal(&mut self, signal: signals::Signals) -> (emitted: Option<Signals>)
        ensures
            final(self)@ == signal_step(old(self)@, signal@).0,
            emitted == signal_step(old(self)@, signal@).1,
    {
        match signal {
            signals::Signals::Reset => Some(Signals::ResetBoard),
            signals::Signals::Piece(piece) => match piece {
                PieceSignals::Place { id, square } => Some(Signals::PlacePiece { id, square }),
                PieceSignals::Move { src_square, dest_square } => Some(
                    Signals::MovePiece { src_square, dest_square },
                ),
                PieceSignals::Remove { square } => Some(Signals::RemovePiece { square }),
            },
            signals::Signals::Phantom { id } => {
                self.phantom_id = option_u8_into_i8(id);
                None
            },
            signals::Signals::Hint { squares } => {
                self.hint_sq = squares;
                None
            },
            signals::Signals::Capture { squares } => {
                self.capture_sq = squares;
                None
            },
            signals::Signals::Highlight { square } => {
                self.highlight_sq = option_u8_into_i8(square);
                None
            },
            signals::Signals::LastMove { src_square, dest_square } => {
                self.last_src_sq = option_u8_into_i8(src_square);
                self.last_dest_sq = option_u8_into_i8(dest_square);
                None
            },
            signals::Signals::Promoting { .. } => None,
        }
    }

    /// The width of a square in pixels.
    pub fn piece_size(&self) -> (size: u32)
        ensures
            size == self@.piece_size,
    {
        self.piece_size
    }

    /// Sets the width of a square in pixels.
    pub fn set_piece_size(&mut self, size: u32)
        ensures
            final(self)@ == (BoardConView { piece_size: size, ..old(self)@ }),
    {
        self.piece_size = size;
    }

    /// The id of the dragged image, or -1.
    pub fn phantom_id(&self) -> (id: i8)
        ensures
            id == self@.phantom_id,
    {
        self.phantom_id
    }

    /// The squares marked as quiet move targets.
    pub fn hint_sq(&self) -> (squares: &Vec<u8>)
        ensures
            squares@ == self@.hint_sq,
    {
        &self.hint_sq
    }

    /// The squares marked as capture targets.
    pub fn capture_sq(&self) -> (squares: &Vec<u8>)
        ensures
            squares@ == self@.capture_sq,
    {
        &self.capture_sq
    }

    /// The selected square, or -1.
    pub fn highlight_sq(&self) -> (square: i8)
        ensures
            square == self@.highlight_sq,
    {
        self.highlight_sq
    }

    /// The origin of the last move, or -1.
    pub fn last_src_sq(&self) -> (square: i8)
        ensures
            square == self@.last_src_sq,
    {
        self.last_src_sq
    }

    /// The target of the last move, or -1.
    pub fn last_dest_sq(&self) -> (square: i8)
        ensures
            square == self@.last_dest_sq,
    {
        self.last_dest_sq
    }

    /// Whether the controller has been started.
    pub fn is_connected(&self) -> (connected: bool)
        ensures
            connected == self@.connected,
    {
        self.connected
    }

    /// Records that the controller has been started.
    pub fn initialize(&mut self)
        ensures
            final(self)@ == (BoardConView { connected: true, ..old(self)@ }),
    {
        self.connected = true;
    }

    /// The slot that asks the controller for the whole board; `None` before
    /// the controller is started.
    pub fn resync_board(&self) -> (slot: Option<Slots>)
        ensures
            slot == (if self@.connected {
                Some(Slots::Resync)
            } else {
                None
            }),
    {
        if self.connected {
            Some(Slots::Resync)
        } else {
            None
        }
    }

    /// The slot for a click at `(x, y)`; `None` before the controller is started.
    pub fn coord_clicked(&self, x: u32, y: u32) -> (slot: Option<Slots>)
        ensures
            slot == (if self@.connected {
                Some(
                    Slots::MouseEvent {
                        slot: MouseEventSlots::Clicked { x, y },
                        piece_size: self@.piece_size,
                    },
                )
            } else {
                None
            }),
    {
        if self.connected {
            Some(
                Slots::MouseEvent {
                    slot: MouseEventSlots::Clicked { x, y },
                    piece_size: self.piece_size,
                },
            )
        } else {
            None
        }
    }

    /// The slot for the start of a drag from `(src_x, src_y)`; the point
    /// where the drag is going does not enter it. `None` before the
    /// controller is started.
    pub fn coord_drag_started(&self, src_x: u32, src_y: u32, dest_x: u32, dest_y: u32) -> (slot:
        Option<Slots>)
        ensures
            slot == (if self@.connected {
                Some(
                    Slots::MouseEvent {
                        slot: MouseEventSlots::Drag(DragSlots::Started { src_x, src_y }),
                        piece_size: self@.piece_size,
                    },
                )
            } else {
                None
            }),
    {
        if self.connected {
            Some(
                Slots::MouseEvent {
                    slot: DragSlots::Started { src_x, src_y }.into(),
                    piece_size: self.piece_size,
                },
            )
        } else {
            None
        }
    }

    /// The slot for the end of a drag at `(dest_x, dest_y)`; the point where
    /// the drag started does not enter it. `None` before the controller is
    /// started.
    pub fn coord_drag_ended(&self, src_x: u32, src_y: u32, dest_x: u32, dest_y: u32) -> (slot:
        Option<Slots>)
        ensures
            slot == (if self@.connected {
                Some(
                    Slots::MouseEvent {
                        slot: MouseEventSlots::Drag(DragSlots::Ended { dest_x, dest_y }),
                        piece_size: self@.piece_size,
                    },
                )
            } else {
                None
            }),
    {
        if self.connected {
            Some(
                Slots::MouseEvent {
                    slot: DragSlots::Ended { dest_x, dest_y }.into(),
                    piece_size: self.piece_size,
                },
            )
        } else {
            None
        }
    }
}

} // verus!

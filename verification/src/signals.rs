//! Signals: what the board controller tells the user interface to show.
use vstd::prelude::*;
use vstd::std_specs::convert::FromSpecImpl;

verus! {

/// Signals about the whole board.
#[derive(Clone, Copy, Debug, PartialEq, Eq, Structural)]
pub enum BoardSignals {
    Reset,
}

/// Signals about the piece images on the board. `id` is a piece id (see
/// `PieceAtSquare::piece_id`), squares are numbered `0..64`.
#[derive(Clone, Copy, Debug, PartialEq, Eq, Structural)]
pub enum PieceSignals {
    Place { id: u8, square: u8 },
    Move { src_square: u8, dest_square: u8 },
    Remove { square: u8 },
}

/// Signals about single move hints.
#[derive(Clone, Copy, Debug, PartialEq, Eq, Structural)]
pub enum HintSignals {
    Place { square: u8 },
    Capture { square: u8 },
    Reset,
}

/// Signals about the rectangle that marks the selected square.
#[derive(Clone, Copy, Debug, PartialEq, Eq, Structural)]
pub enum HighlightRectSignals {
    Show { square: u8 },
    Hide,
}

/// Signals about the rectangle that marks the square under the mouse.
#[derive(Clone, Copy, Debug, PartialEq, Eq, Structural)]
pub enum HoverRectSignals {
    Show { square: u8 },
    Hide,
}

/// A signal from the board controller to the user interface.
#[derive(Clone, Debug, PartialEq, Eq)]
pub enum Signals {
    /// Clear all piece images.
    Reset,
    /// Change a piece image.
    Piece(PieceSignals),
    /// Show the image of a dragged piece (by piece id), or hide it.
    Phantom { id: Option<u8> },
    /// The squares a selected piece can move to without capturing.
    Hint { squares: Vec<u8> },
    /// The squares a selected piece can move to by capturing.
    Capture { squares: Vec<u8> },
    /// Mark the selected square, or unmark it.
    Highlight { square: Option<u8> },
    /// Mark the origin and target of the last move.
    LastMove { src_square: Option<u8>, dest_square: Option<u8> },
    /// Show the promotion choice on a file (plus 10 for Black), or hide it.
    Promoting { file: Option<u8> },
}

/// The mathematical value of a `Signals`: square lists as sequences.
pub enum SignalsView {
    Reset,
    Piece(PieceSignals),
    Phantom { id: Option<u8> },
    Hint { squares: Seq<u8> },
    Capture { squares: Seq<u8> },
    Highlight { square: Option<u8> },
    LastMove { src_square: Option<u8>, dest_square: Option<u8> },
    Promoting { file: Option<u8> },
}

impl View for Signals {
    type V = SignalsView;

    open spec fn view(&self) -> SignalsView {
        match self {
            Signals::Reset => SignalsView::Reset,
            Signals::Piece(p) => SignalsView::Piece(*p),
            Signals::Phantom { id } => SignalsView::Phantom { id: *id },
            Signals::Hint { squares } => SignalsView::Hint { squares: squares@ },
            Signals::Capture { squares } => SignalsView::Capture { squares: squares@ },
            Signals::Highlight { square } => SignalsView::Highlight { square: *square },
            Signals::LastMove { src_square, dest_square } => SignalsView::LastMove {
                src_square: *src_square,
                dest_square: *dest_square,
            },
            Signals::Promoting { file } => SignalsView::Promoting { file: *file },
        }
    }
}

/// The views of a sequence of signals.
pub open spec fn views(signals: Seq<Signals>) -> Seq<SignalsView> {
    signals.map_values(|s: Signals| s@)
}

/// Appending a signal appends its view.
pub proof fn lemma_views_push(signals: Seq<Signals>, s: Signals)
    ensures
        views(signals.push(s)) == views(signals).push(s@),
{
    assert(views(signals.push(s)) =~= views(signals).push(s@));
}

impl From<BoardSignals> for Signals {
    fn from(signals: BoardSignals) -> (s: Signals) {
        match signals {
            BoardSignals::Reset => Signals::Reset,
        }
    }
}

impl FromSpecImpl<BoardSignals> for Signals {
    open spec fn obeys_from_spec() -> bool {
        true
    }

    open spec fn from_spec(signals: BoardSignals) -> Signals {
        Signals::Reset
    }
}

impl From<PieceSignals> for Signals {
    fn from(signals: PieceSignals) -> (s: Signals) {
        Signals::Piece(signals)
    }
}

impl FromSpecImpl<PieceSignals> for Signals {
    open spec fn obeys_from_spec() -> bool {
        true
    }

    open spec fn from_spec(signals: PieceSignals) -> Signals {
        Signals::Piece(signals)
    }
}

impl From<HighlightRectSignals> for Signals {
    fn from(signals: HighlightRectSignals) -> (s: Signals) {
        match signals {
            HighlightRectSignals::Show { square } => Signals::Highlight { square: Some(square) },
            HighlightRectSignals::Hide => Signals::Highlight { square: None },
        }
    }
}

impl FromSpecImpl<HighlightRectSignals> for Signals {
    open spec fn obeys_from_spec() -> bool {
        true
    }

    open spec fn from_spec(signals: HighlightRectSignals) -> Signals {
        match signals {
            HighlightRectSignals::Show { square } => Signals::Highlight { square: Some(square) },
            HighlightRectSignals::Hide => Signals::Highlight { square: None },
        }
    }
}

} // verus!

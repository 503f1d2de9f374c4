//! Slots: the events the board controller reacts to.
//!
//! Mouse positions are in whole pixels from the top-left corner of the
//! board; the interface truncates its coordinates to whole pixels.
use vstd::prelude::*;
use vstd::std_specs::convert::FromSpecImpl;

verus! {

/// An event for the board controller.
#[derive(Clone, Copy, Debug, PartialEq, Eq, Structural)]
pub enum Slots {
    /// Send the whole board again.
    Resync,
    /// A mouse event on a board whose squares are `piece_size` pixels wide.
    MouseEvent { slot: MouseEventSlots, piece_size: u32 },
    /// The user chose the role of a promoted pawn (0 pawn .. 5 king).
    Promote { id: u8 },
}

/// A mouse event on the board.
#[derive(Clone, Copy, Debug, PartialEq, Eq, Structural)]
pub enum MouseEventSlots {
    Clicked { x: u32, y: u32 },
    Drag(DragSlots),
}

/// A step of a drag with the mouse.
#[derive(Clone, Copy, Debug, PartialEq, Eq, Structural)]
pub enum DragSlots {
    /// The mouse was pressed at `(src_x, src_y)`.
    Started { src_x: u32, src_y: u32 },
    /// The mouse was released at `(dest_x, dest_y)`.
    Ended { dest_x: u32, dest_y: u32 },
}

impl From<DragSlots> for MouseEventSlots {
    fn from(slot: DragSlots) -> (s: MouseEventSlots) {
        MouseEventSlots::Drag(slot)
    }
}

impl FromSpecImpl<DragSlots> for MouseEventSlots {
    open spec fn obeys_from_spec() -> bool {
        true
    }

    open spec fn from_spec(slot: DragSlots) -> MouseEventSlots {
        MouseEventSlots::Drag(slot)
    }
}

} // verus!

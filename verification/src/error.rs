//! Failures reported by the operations of a room.

use vstd::prelude::*;

verus! {

/// Why an operation on a room was rejected.
#[derive(Debug, Clone, Copy, PartialEq, Eq, Structural)]
pub enum Error {
    /// An occupant was to be added to a room that has no place left.
    RoomFull,
    /// An occupant was to be added whose identity the room already holds.
    RoomAlreadyBooked,
    /// An occupant was to be removed whose identity the room does not hold.
    RoomNotBooked,
    /// The capacity was to be lowered below the number of occupants.
    InvalidUpdate,
}

} // verus!

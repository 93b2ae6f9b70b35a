//! The mathematical model of a room: who occupies it, in which order they
//! booked, and the occupancy state that follows from the count.
//!
//! Everything here is specification. The executable types of
//! [`crate::model`] are related to these values by their views, and every
//! contract in the crate is phrased over the functions defined here.

use vstd::prelude::*;
use crate::error::Error;
use crate::model::RoomState;

verus! {

/// One tenant's claim: an identity and a time window in nanoseconds.
#[verifier::ext_equal]
pub struct OccupantView {
    pub id: Seq<char>,
    pub start_date: u64,
    pub end_date: u64,
}

/// A room as a value: its number, the occupants in booking order, the terms
/// of booking and the tenant who created it.
#[verifier::ext_equal]
pub struct RoomView {
    pub no: u64,
    pub state: RoomState,
    pub occupants: Seq<OccupantView>,
    pub price_per_occupant: u64,
    pub capacity: u64,
    pub owner: OccupantView,
}

/// The state that `count` occupants imply in a room of the given capacity.
/// An empty room is vacant whatever its capacity.
pub open spec fn state_for(count: nat, capacity: u64) -> RoomState {
    if count == 0 {
        RoomState::TotallyVacant
    } else if count == capacity {
        RoomState::Full
    } else {
        RoomState::PartiallyOccupied
    }
}

/// Some occupant in `occupants` has the identity `id`.
pub open spec fn holds_id(occupants: Seq<OccupantView>, id: Seq<char>) -> bool {
    exists|i: int| 0 <= i < occupants.len() && (#[trigger] occupants[i]).id == id
}

/// `i` is the lowest index at which `occupants` has the identity `id`.
pub open spec fn is_first_at(occupants: Seq<OccupantView>, id: Seq<char>, i: int) -> bool {
    &&& 0 <= i < occupants.len()
    &&& occupants[i].id == id
    &&& forall|j: int| 0 <= j < i ==> (#[trigger] occupants[j]).id != id
}

/// The lowest index at which `occupants` has the identity `id`; meaningful
/// only when `holds_id(occupants, id)`.
pub open spec fn first_index(occupants: Seq<OccupantView>, id: Seq<char>) -> int {
    choose|i: int| is_first_at(occupants, id, i)
}

/// The position of `id` among `occupants`, if it is there.
pub open spec fn position_of(occupants: Seq<OccupantView>, id: Seq<char>) -> Option<int> {
    if holds_id(occupants, id) {
        Some(first_index(occupants, id))
    } else {
        None
    }
}

/// No two occupants share an identity.
pub open spec fn distinct_ids(occupants: Seq<OccupantView>) -> bool {
    forall|i: int, j: int|
        0 <= i < j < occupants.len() ==> (#[trigger] occupants[i]).id != (#[trigger] occupants[j]).id
}

impl RoomView {
    /// A freshly created room: vacant, without occupants.
    pub open spec fn vacant(no: u64, capacity: u64, price_per_occupant: u64, owner: OccupantView) -> RoomView {
        RoomView {
            no,
            state: RoomState::TotallyVacant,
            occupants: Seq::empty(),
            price_per_occupant,
            capacity,
            owner,
        }
    }

    /// The invariant of a room: identities are unique, the state is the one
    /// the count implies, and the count is never over the capacity.
    pub open spec fn wf(self) -> bool {
        &&& distinct_ids(self.occupants)
        &&& self.state == state_for(self.occupants.len(), self.capacity)
        &&& self.occupants.len() <= self.capacity
    }

    pub open spec fn is_full(self) -> bool {
        self.state == RoomState::Full
    }

    /// No further occupant fits: the room is full, or it has no capacity
    /// at all. A room without capacity is vacant, never `Full`, and still
    /// has no place to give.
    pub open spec fn no_place_left(self) -> bool {
        self.is_full() || self.occupants.len() >= self.capacity
    }

    pub open spec fn holds(self, id: Seq<char>) -> bool {
        holds_id(self.occupants, id)
    }

    /// Whether `o` may be added: a room without a place left is reported
    /// before a duplicate identity is.
    pub open spec fn add_check(self, o: OccupantView) -> Result<(), Error> {
        if self.no_place_left() {
            Err(Error::RoomFull)
        } else if self.holds(o.id) {
            Err(Error::RoomAlreadyBooked)
        } else {
            Ok(())
        }
    }

    /// The room with `o` appended and the state recomputed.
    pub open spec fn with_occupant(self, o: OccupantView) -> RoomView {
        RoomView {
            occupants: self.occupants.push(o),
            state: if self.occupants.len() + 1 == self.capacity {
                RoomState::Full
            } else {
                RoomState::PartiallyOccupied
            },
            ..self
        }
    }

    /// The room after an attempt to add `o`: unchanged if the attempt fails.
    pub open spec fn add_occupant(self, o: OccupantView) -> RoomView {
        if self.add_check(o) is Ok {
            self.with_occupant(o)
        } else {
            self
        }
    }

    /// Whether the occupant with identity `id` can be removed.
    pub open spec fn remove_check(self, id: Seq<char>) -> Result<(), Error> {
        if self.holds(id) {
            Ok(())
        } else {
            Err(Error::RoomNotBooked)
        }
    }

    /// The room without the entry at index `i`, the state recomputed.
    pub open spec fn without_index(self, i: int) -> RoomView {
        RoomView {
            occupants: self.occupants.remove(i),
            state: if self.occupants.len() - 1 == 0 {
                RoomState::TotallyVacant
            } else {
                RoomState::PartiallyOccupied
            },
            ..self
        }
    }

    /// The room after an attempt to remove the identity `id`: the first
    /// entry with that identity leaves; unchanged if there is none.
    pub open spec fn remove_occupant(self, id: Seq<char>) -> RoomView {
        if self.holds(id) {
            self.without_index(first_index(self.occupants, id))
        } else {
            self
        }
    }

    /// Whether new terms are acceptable: a capacity, if given, may not be
    /// below the number of occupants.
    pub open spec fn update_check(self, new_capacity: Option<u64>) -> Result<(), Error> {
        match new_capacity {
            Some(c) if c < self.occupants.len() => Err(Error::InvalidUpdate),
            _ => Ok(()),
        }
    }

    /// The room after an attempt to update its terms: each given field is
    /// assigned and the state follows the new capacity; unchanged, price
    /// included, if the capacity is refused.
    pub open spec fn update(self, new_capacity: Option<u64>, new_price: Option<u64>) -> RoomView {
        if self.update_check(new_capacity) is Ok {
            let capacity = match new_capacity {
                Some(c) => c,
                None => self.capacity,
            };
            RoomView {
                capacity,
                price_per_occupant: match new_price {
                    Some(p) => p,
                    None => self.price_per_occupant,
                },
                state: state_for(self.occupants.len(), capacity),
                ..self
            }
        } else {
            self
        }
    }
}

/// A room that satisfies the invariant never holds more occupants than its
/// capacity. It is vacant exactly when it is empty and partially occupied
/// exactly when the count lies strictly between zero and the capacity. It
/// is full exactly when it is not empty and the count equals the capacity;
/// in a room that has any capacity that is whenever the two are equal.
pub proof fn lemma_invariant_bounds(room: RoomView)
    requires
        room.wf(),
    ensures
        room.occupants.len() <= room.capacity,
        room.state == RoomState::TotallyVacant <==> room.occupants.len() == 0,
        room.state == RoomState::PartiallyOccupied <==> 0 < room.occupants.len() < room.capacity,
        room.state == RoomState::Full <==> 0 < room.occupants.len() == room.capacity,
        room.capacity > 0 ==> (room.state == RoomState::Full <==> room.occupants.len()
            == room.capacity),
        room.no_place_left() <==> room.occupants.len() == room.capacity,
{
}

/// A freshly created room satisfies the invariant.
pub proof fn lemma_vacant_wf(no: u64, capacity: u64, price_per_occupant: u64, owner: OccupantView)
    ensures
        RoomView::vacant(no, capacity, price_per_occupant, owner).wf(),
{
}

/// Adding an occupant, accepted or not, keeps the invariant.
pub proof fn lemma_add_keeps_wf(room: RoomView, o: OccupantView)
    requires
        room.wf(),
    ensures
        room.add_occupant(o).wf(),
{
    if room.add_check(o) is Ok {
        let after = room.with_occupant(o);
        let n = room.occupants.len() as int;
        assert forall|i: int, j: int| 0 <= i < j < after.occupants.len() implies (
        #[trigger] after.occupants[i]).id != (#[trigger] after.occupants[j]).id by {
            if j == n {
                assert(after.occupants[i] == room.occupants[i]);
                assert(room.occupants[i].id != o.id);
            } else {
                assert(after.occupants[i] == room.occupants[i]);
                assert(after.occupants[j] == room.occupants[j]);
            }
        }
    }
}

/// Removing an occupant, accepted or not, keeps the invariant.
pub proof fn lemma_remove_keeps_wf(room: RoomView, id: Seq<char>)
    requires
        room.wf(),
    ensures
        room.remove_occupant(id).wf(),
{
    if room.holds(id) {
        lemma_first_index(room.occupants, id);
        let k = first_index(room.occupants, id);
        let after = room.without_index(k);
        assert forall|i: int, j: int| 0 <= i < j < after.occupants.len() implies (
        #[trigger] after.occupants[i]).id != (#[trigger] after.occupants[j]).id by {
            let si = if i < k { i } else { i + 1 };
            let sj = if j < k { j } else { j + 1 };
            assert(after.occupants[i] == room.occupants[si]);
            assert(after.occupants[j] == room.occupants[sj]);
        }
    }
}

/// Updating the terms, accepted or not, keeps the invariant.
pub proof fn lemma_update_keeps_wf(room: RoomView, new_capacity: Option<u64>, new_price: Option<u64>)
    requires
        room.wf(),
    ensures
        room.update(new_capacity, new_price).wf(),
{
}

/// An identity that is held has a first position, and only one.
pub proof fn lemma_first_index(occupants: Seq<OccupantView>, id: Seq<char>)
    requires
        holds_id(occupants, id),
    ensures
        is_first_at(occupants, id, first_index(occupants, id)),
        forall|i: int| is_first_at(occupants, id, i) ==> i == first_index(occupants, id),
{
    let k = choose|i: int| 0 <= i < occupants.len() && (#[trigger] occupants[i]).id == id;
    lemma_first_below(occupants, id, k);
    let f = first_index(occupants, id);
    assert forall|i: int| is_first_at(occupants, id, i) implies i == f by {
        if i < f {
            assert(occupants[i].id != id);
        } else if f < i {
            assert(occupants[f].id != id);
        }
    }
}

/// If `id` stands at index `k`, it has a first position at or below `k`.
proof fn lemma_first_below(occupants: Seq<OccupantView>, id: Seq<char>, k: int)
    requires
        0 <= k < occupants.len(),
        occupants[k].id == id,
    ensures
        exists|i: int| is_first_at(occupants, id, i),
    decreases k,
{
    if exists|j: int| 0 <= j < k && (#[trigger] occupants[j]).id == id {
        let j = choose|j: int| 0 <= j < k && (#[trigger] occupants[j]).id == id;
        lemma_first_below(occupants, id, j);
    } else {
        assert(is_first_at(occupants, id, k));
    }
}

} // verus!

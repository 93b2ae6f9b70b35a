//! The executable types: occupants, rooms and the request payloads.

use vstd::prelude::*;
use crate::error::Error;
use crate::occupancy::{
    distinct_ids, is_first_at, lemma_add_keeps_wf, lemma_first_index, lemma_remove_keeps_wf,
    lemma_update_keeps_wf, position_of, state_for, OccupantView, RoomView,
};

verus! {

/// One tenant's claim on a room: who, and for which time window
/// (nanoseconds). The window is recorded as given.
#[derive(Debug)]
pub struct Occupant {
    pub id: String,
    pub start_date: u64,
    pub end_date: u64,
}

impl View for Occupant {
    type V = OccupantView;

    open spec fn view(&self) -> OccupantView {
        OccupantView { id: self.id@, start_date: self.start_date, end_date: self.end_date }
    }
}

impl Occupant {
    pub fn new(id: String, start_date: u64, end_date: u64) -> (occupant: Self)
        ensures
            occupant.id == id,
            occupant.start_date == start_date,
            occupant.end_date == end_date,
    {
        Self { id, start_date, end_date }
    }

    /// Whether two occupants are the same tenant: the identities agree,
    /// whatever the windows.
    pub fn same_identity(&self, other: &Occupant) -> (same: bool)
        ensures
            same == (self@.id == other@.id),
    {
        self.id == other.id
    }
}

impl PartialEq for Occupant {
    /// Equality of occupants is equality of all three fields.
    fn eq(&self, other: &Self) -> (equal: bool) {
        self.id == other.id && self.start_date == other.start_date && self.end_date
            == other.end_date
    }
}

impl vstd::std_specs::cmp::PartialEqSpecImpl for Occupant {
    open spec fn obeys_eq_spec() -> bool {
        true
    }

    open spec fn eq_spec(&self, other: &Self) -> bool {
        self@ == other@
    }
}

impl Eq for Occupant {

}

impl Clone for Occupant {
    fn clone(&self) -> (copy: Self)
        ensures
            copy == *self,
    {
        Occupant { id: self.id.clone(), start_date: self.start_date, end_date: self.end_date }
    }
}

/// How much of a room is taken.
#[derive(Debug, Clone, Copy, PartialEq, Eq, Structural)]
pub enum RoomState {
    Full,
    PartiallyOccupied,
    TotallyVacant,
}

/// The state of a room of the given capacity that holds `count` occupants.
fn state_of(count: usize, capacity: u64) -> (state: RoomState)
    ensures
        state == state_for(count as nat, capacity),
{
    if count == 0 {
        RoomState::TotallyVacant
    } else if count as u64 == capacity {
        RoomState::Full
    } else {
        RoomState::PartiallyOccupied
    }
}

/// Whether no two of `occupants` share an identity.
fn has_distinct_ids(occupants: &Vec<Occupant>) -> (distinct: bool)
    ensures
        distinct == distinct_ids(views_of(occupants@)),
{
    let ghost views = views_of(occupants@);
    let n = occupants.len();
    let mut j: usize = 0;
    while j < n
        invariant
            n == occupants@.len(),
            views == views_of(occupants@),
            j <= n,
            forall|a: int, b: int|
                0 <= a < b < j ==> (#[trigger] views[a]).id != (#[trigger] views[b]).id,
        decreases n - j,
    {
        let mut i: usize = 0;
        while i < j
            invariant
                n == occupants@.len(),
                views == views_of(occupants@),
                i <= j < n,
                forall|a: int| 0 <= a < i ==> (#[trigger] views[a]).id != views[j as int].id,
            decreases j - i,
        {
            if occupants[i].same_identity(&occupants[j]) {
                assert(views[i as int].id == views[j as int].id);
                return false;
            }
            i += 1;
        }
        j += 1;
    }
    true
}

/// The room that six stored parts describe.
pub open spec fn parts_view(
    no: u64,
    state: RoomState,
    occupants: Seq<Occupant>,
    price_per_occupant: u64,
    capacity: u64,
    owner: Occupant,
) -> RoomView {
    RoomView {
        no,
        state,
        occupants: views_of(occupants),
        price_per_occupant,
        capacity,
        owner: owner@,
    }
}

/// The views of a run of occupants, in order.
pub open spec fn views_of(occupants: Seq<Occupant>) -> Seq<OccupantView> {
    occupants.map_values(|o: Occupant| o@)
}

/// A room: a bounded list of occupants in booking order, the state that
/// follows from their number, and the terms of booking.
///
/// The fields are private so that the state cannot be set apart from the
/// occupants it describes; every room that exists satisfies
/// [`RoomView::wf`].
#[derive(Debug)]
pub struct Room {
    no: u64,
    state: RoomState,
    occupants: Vec<Occupant>,
    price_per_occupant: u64,
    capacity: u64,
    owner: Occupant,
}

impl View for Room {
    type V = RoomView;

    closed spec fn view(&self) -> RoomView {
        RoomView {
            no: self.no,
            state: self.state,
            occupants: views_of(self.occupants@),
            price_per_occupant: self.price_per_occupant,
            capacity: self.capacity,
            owner: self.owner@,
        }
    }
}

impl Room {
    /// A vacant room without occupants. Whether `no` is already taken is for
    /// the registry to decide.
    pub fn new(no: u64, capacity: u64, price_per_occupant: u64, owner: Occupant) -> (room: Self)
        ensures
            room@ == RoomView::vacant(no, capacity, price_per_occupant, owner@),
            room@.wf(),
    {
        let room = Self {
            no,
            state: RoomState::TotallyVacant,
            occupants: Vec::new(),
            price_per_occupant,
            capacity,
            owner,
        };
        assert(room@.occupants =~= Seq::empty());
        room
    }

    /// Rebuilds a room from its six parts, as they come out of storage.
    /// The parts are accepted exactly when they satisfy the invariant of a
    /// room; otherwise there is no such room.
    pub fn from_parts(
        no: u64,
        state: RoomState,
        occupants: Vec<Occupant>,
        price_per_occupant: u64,
        capacity: u64,
        owner: Occupant,
    ) -> (room: Option<Self>)
        ensures
            match room {
                Some(r) => r@ == parts_view(
                    no,
                    state,
                    occupants@,
                    price_per_occupant,
                    capacity,
                    owner,
                ) && r@.wf(),
                None => !parts_view(no, state, occupants@, price_per_occupant, capacity, owner).wf(),
            },
    {
        let count = occupants.len();
        if state != state_of(count, capacity) {
            return None;
        }
        if count as u64 > capacity {
            return None;
        }
        if !has_distinct_ids(&occupants) {
            return None;
        }
        Some(Self { no, state, occupants, price_per_occupant, capacity, owner })
    }

    pub fn no(&self) -> (no: u64)
        ensures
            no == self@.no,
    {
        self.no
    }

    pub fn state(&self) -> (state: RoomState)
        ensures
            state == self@.state,
    {
        self.state
    }

    /// The occupants in booking order.
    pub fn occupants(&self) -> (occupants: &Vec<Occupant>)
        ensures
            views_of(occupants@) == self@.occupants,
    {
        &self.occupants
    }

    pub fn price_per_occupant(&self) -> (price: u64)
        ensures
            price == self@.price_per_occupant,
    {
        self.price_per_occupant
    }

    pub fn capacity(&self) -> (capacity: u64)
        ensures
            capacity == self@.capacity,
    {
        self.capacity
    }

    /// The tenant who created the room.
    pub fn owner(&self) -> (owner: &Occupant)
        ensures
            owner@ == self@.owner,
    {
        &self.owner
    }

    /// Whether `price` is the price this room asks of each occupant.
    pub fn price_check(&self, price: u64) -> (matches: bool)
        ensures
            matches == (price == self@.price_per_occupant),
    {
        price == self.price_per_occupant
    }

    pub fn is_full(&self) -> (full: bool)
        ensures
            full == self@.is_full(),
    {
        self.state == RoomState::Full
    }

    /// Whether no further occupant fits: the room is full, or it has no
    /// capacity at all.
    pub fn no_place_left(&self) -> (none_left: bool)
        ensures
            none_left == self@.no_place_left(),
    {
        self.is_full() || self.occupants.len() as u64 >= self.capacity
    }

    /// The position of the first occupant with the identity of `occupant`,
    /// whatever its time window.
    pub fn has_occupant(&self, occupant: &Occupant) -> (position: Option<usize>)
        ensures
            match position {
                Some(i) => position_of(self@.occupants, occupant@.id) == Some(i as int),
                None => position_of(self@.occupants, occupant@.id) is None,
            },
            position matches Some(i) ==> is_first_at(self@.occupants, occupant@.id, i as int),
    {
        let n = self.occupants.len();
        let mut i: usize = 0;
        while i < n
            invariant
                n == self.occupants@.len(),
                i <= n,
                forall|j: int| 0 <= j < i ==> (#[trigger] self@.occupants[j]).id != occupant@.id,
            decreases n - i,
        {
            if self.occupants[i].same_identity(occupant) {
                proof {
                    assert(self@.occupants[i as int].id == occupant@.id);
                    assert(is_first_at(self@.occupants, occupant@.id, i as int));
                    lemma_first_index(self@.occupants, occupant@.id);
                }
                return Some(i);
            }
            i += 1;
        }
        None
    }

    /// Books the room for `occupant`. A room without a place left is
    /// refused first, then an identity that is already present; otherwise
    /// the occupant goes to the end of the list and the state follows the
    /// new count.
    pub fn add_occupant(&mut self, occupant: Occupant) -> (res: Result<(), Error>)
        requires
            old(self)@.wf(),
        ensures
            res == old(self)@.add_check(occupant@),
            final(self)@ == old(self)@.add_occupant(occupant@),
            final(self)@.wf(),
    {
        proof {
            lemma_add_keeps_wf(self@, occupant@);
        }
        if self.no_place_left() {
            return Err(Error::RoomFull);
        }
        match self.has_occupant(&occupant) {
            Some(_) => Err(Error::RoomAlreadyBooked),
            None => {
                self.occupants.push(occupant);
                self.state = if self.occupants.len() as u64 == self.capacity {
                    RoomState::Full
                } else {
                    RoomState::PartiallyOccupied
                };
                proof {
                    assert(self@.occupants =~= old(self)@.occupants.push(occupant@));
                }
                Ok(())
            },
        }
    }

    /// Ends the booking of the tenant with the identity of `occupant`. The
    /// first entry with that identity leaves; the others keep their order.
    pub fn remove_occupant(&mut self, occupant: &Occupant) -> (res: Result<(), Error>)
        requires
            old(self)@.wf(),
        ensures
            res == old(self)@.remove_check(occupant@.id),
            final(self)@ == old(self)@.remove_occupant(occupant@.id),
            final(self)@.wf(),
    {
        proof {
            lemma_remove_keeps_wf(self@, occupant@.id);
        }
        match self.has_occupant(occupant) {
            Some(index) => {
                self.occupants.remove(index);
                self.state = if self.occupants.is_empty() {
                    RoomState::TotallyVacant
                } else {
                    RoomState::PartiallyOccupied
                };
                proof {
                    assert(self@.occupants =~= old(self)@.occupants.remove(index as int));
                }
                Ok(())
            },
            None => Err(Error::RoomNotBooked),
        }
    }

    /// Changes the capacity, the price, both or neither. A capacity below
    /// the number of occupants is refused, and then the price stays too.
    pub fn update_occupant(
        &mut self,
        new_capacity: Option<u64>,
        new_price_per_occupant: Option<u64>,
    ) -> (res: Result<(), Error>)
        requires
            old(self)@.wf(),
        ensures
            res == old(self)@.update_check(new_capacity),
            final(self)@ == old(self)@.update(new_capacity, new_price_per_occupant),
            final(self)@.wf(),
    {
        proof {
            lemma_update_keeps_wf(self@, new_capacity, new_price_per_occupant);
        }
        if let Some(capacity) = new_capacity {
            if capacity < self.occupants.len() as u64 {
                return Err(Error::InvalidUpdate);
            }
            self.capacity = capacity;
            self.state = state_of(self.occupants.len(), capacity);
        }
        if let Some(price) = new_price_per_occupant {
            self.price_per_occupant = price;
        }
        Ok(())
    }

    /// Whether `occupant` is the tenant who created the room: identity and
    /// time window must both agree.
    pub fn is_owner(&self, occupant: &Occupant) -> (owns: bool)
        ensures
            owns == (self@.owner == occupant@),
    {
        self.owner == *occupant
    }
}

impl Clone for Room {
    fn clone(&self) -> (copy: Self)
        ensures
            copy@ == self@,
    {
        let occupants = self.occupants.clone();
        assert(occupants@ =~= self.occupants@);
        Room {
            no: self.no,
            state: self.state,
            occupants,
            price_per_occupant: self.price_per_occupant,
            capacity: self.capacity,
            owner: self.owner.clone(),
        }
    }
}

/// Asks for the room with the given number.
#[derive(Debug, Clone, Copy)]
pub struct GetRoomByNumberPayload {
    pub number: u64,
}

/// Asks for a new room; the caller becomes its owner.
#[derive(Debug, Clone, Copy)]
pub struct CreateRoomPayload {
    pub number: u64,
    pub capacity: u64,
    pub price_per_occupant: u64,
}

/// Asks for a place in a room at the price the caller expects to pay.
#[derive(Debug, Clone, Copy)]
pub struct BookRoomPayload {
    pub number: u64,
    pub price: u64,
}

/// Asks to give up the caller's place in a room.
#[derive(Debug, Clone, Copy)]
pub struct UnbookRoomPayload {
    pub number: u64,
}

/// New terms for a room; a field that is absent keeps its value.
#[derive(Debug, Clone, Copy)]
pub struct UpdateRoomPayload {
    pub number: u64,
    pub capacity: Option<u64>,
    pub price_per_occupant: Option<u64>,
}

/// Asks to discard a room.
#[derive(Debug, Clone, Copy)]
pub struct DeleteRoomPayload {
    pub number: u64,
}

} // verus!

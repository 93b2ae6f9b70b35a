//! The rooms of the hotel, keyed by their number, and the requests that are
//! answered from them. Each request reads or changes one room.
//!
//! Who is calling and what time it is come in as plain values: the caller's
//! identity as a string, the time as nanoseconds since the epoch.

use std::collections::HashMap;
use vstd::prelude::*;
use crate::error::Error;
use crate::model::{
    BookRoomPayload, CreateRoomPayload, DeleteRoomPayload, GetRoomByNumberPayload, Occupant, Room,
    UnbookRoomPayload,
};
use crate::occupancy::{OccupantView, RoomView};

verus! {

broadcast use vstd::std_specs::hash::group_hash_axioms;

/// The length of a claim: every booking runs for one day from the moment it
/// is made (24 * 60 * 60 * 1_000_000_000 ns).
pub const ONE_DAY_IN_NANOSECONDS: u64 = 86_400_000_000_000;

pub const ROOM_CREATED: &'static str = "Room created successfully!";

pub const ROOM_BOOKED: &'static str = "Room successfully booked";

pub const ROOM_UNBOOKED: &'static str = "Room unbooked successfully!";

/// Why a request was rejected.
#[derive(Debug, Clone, Copy, PartialEq, Eq, Structural)]
pub enum RegistryError {
    /// The hotel has no room with the number asked for.
    RoomNotFound,
    /// A room with the number asked for exists already.
    RoomAlreadyExists,
    /// The price offered is not the price of the room.
    InvalidPrice,
    /// The room itself refused.
    Room(Error),
}

/// The claim that `id` makes at time `now`: one day, starting now.
pub open spec fn claim_at(id: Seq<char>, now: u64) -> OccupantView {
    OccupantView { id, start_date: now, end_date: (now + ONE_DAY_IN_NANOSECONDS) as u64 }
}

/// Every room is kept under its own number and satisfies the invariant of
/// a room.
pub open spec fn rooms_wf(rooms: Map<u64, RoomView>) -> bool {
    forall|n: u64| #[trigger] rooms.contains_key(n) ==> rooms[n].no == n && rooms[n].wf()
}

/// Whether a room can be created under the number of `payload`.
pub open spec fn create_check(rooms: Map<u64, RoomView>, payload: CreateRoomPayload) -> Result<
    (),
    RegistryError,
> {
    if rooms.contains_key(payload.number) {
        Err(RegistryError::RoomAlreadyExists)
    } else {
        Ok(())
    }
}

/// The rooms after a request to create one.
pub open spec fn after_create(
    rooms: Map<u64, RoomView>,
    payload: CreateRoomPayload,
    owner: OccupantView,
) -> Map<u64, RoomView> {
    if create_check(rooms, payload) is Ok {
        rooms.insert(
            payload.number,
            RoomView::vacant(payload.number, payload.capacity, payload.price_per_occupant, owner),
        )
    } else {
        rooms
    }
}

/// Whether `claim` can be booked into the room that `payload` names. A room
/// without a place left is reported before a wrong price, a wrong price
/// before a caller who is in the room already.
pub open spec fn book_check(
    rooms: Map<u64, RoomView>,
    payload: BookRoomPayload,
    claim: OccupantView,
) -> Result<(), RegistryError> {
    if !rooms.contains_key(payload.number) {
        Err(RegistryError::RoomNotFound)
    } else if rooms[payload.number].no_place_left() {
        Err(RegistryError::Room(Error::RoomFull))
    } else if payload.price != rooms[payload.number].price_per_occupant {
        Err(RegistryError::InvalidPrice)
    } else {
        match rooms[payload.number].add_check(claim) {
            Ok(_) => Ok(()),
            Err(e) => Err(RegistryError::Room(e)),
        }
    }
}

/// The rooms after a request to book.
pub open spec fn after_book(
    rooms: Map<u64, RoomView>,
    payload: BookRoomPayload,
    claim: OccupantView,
) -> Map<u64, RoomView> {
    if book_check(rooms, payload, claim) is Ok {
        rooms.insert(payload.number, rooms[payload.number].add_occupant(claim))
    } else {
        rooms
    }
}

/// Whether the caller with identity `id` can give up a place in the room
/// that `payload` names: what the room itself says of removing `id`.
pub open spec fn unbook_check(rooms: Map<u64, RoomView>, payload: UnbookRoomPayload, id: Seq<char>) -> Result<
    (),
    RegistryError,
> {
    if !rooms.contains_key(payload.number) {
        Err(RegistryError::RoomNotFound)
    } else {
        match rooms[payload.number].remove_check(id) {
            Ok(_) => Ok(()),
            Err(e) => Err(RegistryError::Room(e)),
        }
    }
}

/// The rooms after a request to unbook.
pub open spec fn after_unbook(
    rooms: Map<u64, RoomView>,
    payload: UnbookRoomPayload,
    id: Seq<char>,
) -> Map<u64, RoomView> {
    if unbook_check(rooms, payload, id) is Ok {
        rooms.insert(payload.number, rooms[payload.number].remove_occupant(id))
    } else {
        rooms
    }
}

/// The claim that `caller` makes at time `now`. The day it runs for must
/// end within the range of the clock.
pub fn claim_of(caller: String, now: u64) -> (claim: Occupant)
    requires
        now + ONE_DAY_IN_NANOSECONDS <= u64::MAX,
    ensures
        claim@ == claim_at(caller@, now),
{
    let end_date: u64 = now + ONE_DAY_IN_NANOSECONDS;
    Occupant::new(caller, now, end_date)
}

/// The rooms of the hotel.
pub struct Registry {
    rooms: HashMap<u64, Room>,
}

impl View for Registry {
    type V = Map<u64, RoomView>;

    closed spec fn view(&self) -> Map<u64, RoomView> {
        self.rooms@.map_values(|r: Room| r@)
    }
}

impl Registry {
    /// A hotel without rooms.
    pub fn new() -> (registry: Self)
        ensures
            registry@ == Map::<u64, RoomView>::empty(),
            rooms_wf(registry@),
    {
        let registry = Registry { rooms: HashMap::new() };
        assert(registry@ =~= Map::<u64, RoomView>::empty());
        registry
    }

    /// Whether the hotel has a room with the given number.
    pub fn has_room(&self, room_id: u64) -> (found: bool)
        ensures
            found == self@.contains_key(room_id),
    {
        self.rooms.contains_key(&room_id)
    }

    /// A copy of the room with the given number, which must exist.
    pub fn get_room(&self, room_id: u64) -> (room: Room)
        requires
            self@.contains_key(room_id),
        ensures
            room@ == self@[room_id],
    {
        let found = self.rooms.get(&room_id);
        found.unwrap().clone()
    }

    /// A copy of the room that `payload` names, if there is one.
    pub fn get_room_by_number(&self, payload: GetRoomByNumberPayload) -> (res: Result<
        Room,
        RegistryError,
    >)
        ensures
            match res {
                Ok(room) => self@.contains_key(payload.number) && room@ == self@[payload.number],
                Err(e) => !self@.contains_key(payload.number) && e == RegistryError::RoomNotFound,
            },
    {
        match self.rooms.get(&payload.number) {
            Some(room) => Ok(room.clone()),
            None => Err(RegistryError::RoomNotFound),
        }
    }

    /// Creates a vacant room owned by `caller`, unless its number is taken.
    pub fn create_room(&mut self, payload: CreateRoomPayload, caller: String, now: u64) -> (res:
        Result<String, RegistryError>)
        requires
            rooms_wf(old(self)@),
            now + ONE_DAY_IN_NANOSECONDS <= u64::MAX,
        ensures
            match res {
                Ok(message) => create_check(old(self)@, payload) is Ok && message@
                    == ROOM_CREATED@,
                Err(e) => create_check(old(self)@, payload) == Err::<(), RegistryError>(e),
            },
            final(self)@ == after_create(old(self)@, payload, claim_at(caller@, now)),
            rooms_wf(final(self)@),
    {
        let room = Room::new(
            payload.number,
            payload.capacity,
            payload.price_per_occupant,
            claim_of(caller, now),
        );
        if self.rooms.contains_key(&payload.number) {
            return Err(RegistryError::RoomAlreadyExists);
        }
        self.rooms.insert(payload.number, room);
        assert(self@ =~= after_create(old(self)@, payload, claim_at(caller@, now)));
        Ok(ROOM_CREATED.to_owned())
    }

    /// Books a place for `caller` in the room that `payload` names.
    pub fn book_room(&mut self, payload: BookRoomPayload, caller: String, now: u64) -> (res:
        Result<String, RegistryError>)
        requires
            rooms_wf(old(self)@),
            now + ONE_DAY_IN_NANOSECONDS <= u64::MAX,
        ensures
            match res {
                Ok(message) => book_check(old(self)@, payload, claim_at(caller@, now)) is Ok
                    && message@ == ROOM_BOOKED@,
                Err(e) => book_check(old(self)@, payload, claim_at(caller@, now)) == Err::<
                    (),
                    RegistryError,
                >(e),
            },
            final(self)@ == after_book(old(self)@, payload, claim_at(caller@, now)),
            rooms_wf(final(self)@),
    {
        let ghost claim = claim_at(caller@, now);
        let mut room = match self.rooms.remove(&payload.number) {
            Some(room) => room,
            None => {
                assert(self@ =~= old(self)@);
                return Err(RegistryError::RoomNotFound);
            },
        };
        assert(room@ == old(self)@[payload.number]);
        let res = if room.no_place_left() {
            Err(RegistryError::Room(Error::RoomFull))
        } else if !room.price_check(payload.price) {
            Err(RegistryError::InvalidPrice)
        } else {
            let occupant = claim_of(caller, now);
            match room.add_occupant(occupant) {
                Ok(_) => Ok(ROOM_BOOKED.to_owned()),
                Err(err) => Err(RegistryError::Room(err)),
            }
        };
        self.rooms.insert(payload.number, room);
        assert(self@ =~= after_book(old(self)@, payload, claim));
        res
    }

    /// Gives up the place of `caller` in the room that `payload` names.
    pub fn unbook_room(&mut self, payload: UnbookRoomPayload, caller: String, now: u64) -> (res:
        Result<String, RegistryError>)
        requires
            rooms_wf(old(self)@),
            now + ONE_DAY_IN_NANOSECONDS <= u64::MAX,
        ensures
            match res {
                Ok(message) => unbook_check(old(self)@, payload, caller@) is Ok && message@
                    == ROOM_UNBOOKED@,
                Err(e) => unbook_check(old(self)@, payload, caller@) == Err::<(), RegistryError>(e),
            },
            final(self)@ == after_unbook(old(self)@, payload, caller@),
            rooms_wf(final(self)@),
    {
        let mut room = match self.rooms.remove(&payload.number) {
            Some(room) => room,
            None => {
                assert(self@ =~= old(self)@);
                return Err(RegistryError::RoomNotFound);
            },
        };
        assert(room@ == old(self)@[payload.number]);
        let occupant = claim_of(caller, now);
        let res = match room.remove_occupant(&occupant) {
            Ok(_) => Ok(ROOM_UNBOOKED.to_owned()),
            Err(err) => Err(RegistryError::Room(err)),
        };
        self.rooms.insert(payload.number, room);
        assert(self@ =~= after_unbook(old(self)@, payload, caller@));
        res
    }

    /// Discards the room that `payload` names, whoever asks and whoever is
    /// in it. Discarding a room that does not exist succeeds too.
    pub fn delete_room(&mut self, payload: DeleteRoomPayload) -> (res: Result<(), RegistryError>)
        requires
            rooms_wf(old(self)@),
        ensures
            res is Ok,
            final(self)@ == old(self)@.remove(payload.number),
            rooms_wf(final(self)@),
    {
        self.rooms.remove(&payload.number);
        assert(self@ =~= old(self)@.remove(payload.number));
        Ok(())
    }
}

} // verus!

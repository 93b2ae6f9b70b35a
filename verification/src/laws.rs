//! What holds of rooms across several operations, proved over the model of
//! [`crate::occupancy`]. The contracts of [`crate::model::Room`] tie the
//! executable operations to the same functions, so each statement here is a
//! statement about sequences of calls on a `Room`.

use vstd::prelude::*;
use crate::error::Error;
use crate::model::RoomState;
use crate::model::{
    parts_view, views_of, BookRoomPayload, CreateRoomPayload, Occupant, UnbookRoomPayload,
};
use crate::occupancy::{
    first_index, lemma_add_keeps_wf, lemma_first_index, lemma_remove_keeps_wf, OccupantView,
    RoomView,
};
use crate::registry::{after_book, after_create, after_unbook, rooms_wf};

verus! {

/// Booking twice under one identity. If the first booking is accepted and
/// does not fill the room, the second is refused as `RoomAlreadyBooked`, and
/// it changes nothing: the room, and so the number of occupants, is as the
/// first booking left it.
pub proof fn lemma_repeated_booking_refused(room: RoomView, first: OccupantView, second: OccupantView)
    requires
        room.wf(),
        first.id == second.id,
        room.add_check(first) is Ok,
        !room.add_occupant(first).is_full(),
    ensures
        room.add_occupant(first).add_check(second) == Err::<(), Error>(Error::RoomAlreadyBooked),
        room.add_occupant(first).add_occupant(second) == room.add_occupant(first),
        room.add_occupant(first).add_occupant(second).occupants.len() == room.occupants.len() + 1,
{
    let after = room.add_occupant(first);
    assert(after.occupants[room.occupants.len() as int].id == second.id);
}

/// Booking twice under one identity when the first booking takes the last
/// place: the second is refused as `RoomFull`, since a full room is
/// reported before a duplicate, and again nothing changes.
pub proof fn lemma_repeated_booking_in_filled_room(
    room: RoomView,
    first: OccupantView,
    second: OccupantView,
)
    requires
        room.wf(),
        first.id == second.id,
        room.add_check(first) is Ok,
        room.add_occupant(first).is_full(),
    ensures
        room.add_occupant(first).add_check(second) == Err::<(), Error>(Error::RoomFull),
        room.add_occupant(first).add_occupant(second) == room.add_occupant(first),
{
}

/// Where the capacity lies. A tenant who is not yet in the room is
/// accepted exactly while the count is below the capacity and refused as
/// `RoomFull` once it is reached, also in a room without any capacity; an
/// accepted booking leaves the room full exactly when it took the last
/// place, and never takes the count over the capacity.
pub proof fn lemma_capacity_boundary(room: RoomView, o: OccupantView)
    requires
        room.wf(),
        !room.holds(o.id),
    ensures
        room.add_check(o) is Ok <==> room.occupants.len() < room.capacity,
        room.add_check(o) is Err <==> room.add_check(o) == Err::<(), Error>(Error::RoomFull),
        room.add_check(o) is Ok ==> (room.add_occupant(o).state == RoomState::Full
            <==> room.occupants.len() + 1 == room.capacity),
        room.add_check(o) is Ok ==> room.add_occupant(o).occupants == room.occupants.push(o),
        room.add_occupant(o).occupants.len() <= room.capacity,
{
}

/// When the only occupant leaves, the room is vacant and empty, and a
/// second removal of the same identity is refused as `RoomNotBooked`.
pub proof fn lemma_last_occupant_leaves(room: RoomView, id: Seq<char>)
    requires
        room.wf(),
        room.occupants.len() == 1,
        room.occupants[0].id == id,
    ensures
        room.remove_check(id) is Ok,
        room.remove_occupant(id).state == RoomState::TotallyVacant,
        room.remove_occupant(id).occupants.len() == 0,
        room.remove_occupant(id).remove_check(id) == Err::<(), Error>(Error::RoomNotBooked),
        room.remove_occupant(id).remove_occupant(id) == room.remove_occupant(id),
{
    assert(room.holds(id));
    lemma_first_index(room.occupants, id);
}

/// Removal takes out the first entry with the identity and nothing else:
/// the entries before it and after it keep their order, and the identity
/// is gone from the room.
pub proof fn lemma_removal_keeps_order(room: RoomView, id: Seq<char>)
    requires
        room.wf(),
        room.holds(id),
    ensures
        room.remove_occupant(id).occupants.len() == room.occupants.len() - 1,
        !room.remove_occupant(id).holds(id),
        forall|i: int|
            0 <= i < first_index(room.occupants, id) ==> #[trigger] room.remove_occupant(
                id,
            ).occupants[i] == room.occupants[i],
        forall|i: int|
            first_index(room.occupants, id) <= i < room.occupants.len() - 1
                ==> #[trigger] room.remove_occupant(id).occupants[i] == room.occupants[i + 1],
{
    lemma_first_index(room.occupants, id);
    let k = first_index(room.occupants, id);
    let after = room.remove_occupant(id);
    if after.holds(id) {
        let w = choose|w: int|
            0 <= w < after.occupants.len() && (#[trigger] after.occupants[w]).id == id;
        let source = if w < k {
            w
        } else {
            w + 1
        };
        assert(after.occupants[w] == room.occupants[source]);
        if source < k {
            assert(room.occupants[source].id != id);
        } else {
            assert(room.occupants[k].id != room.occupants[source].id);
        }
    }
}

/// The guard on the capacity. A new capacity is refused exactly when it is
/// below the number of occupants; a refused update leaves the room as it
/// was, price included, and an accepted one leaves the capacity asked for.
pub proof fn lemma_update_guard(room: RoomView, capacity: u64, new_price: Option<u64>)
    requires
        room.wf(),
    ensures
        room.update_check(Some(capacity)) == if capacity < room.occupants.len() {
            Err::<(), Error>(Error::InvalidUpdate)
        } else {
            Ok::<(), Error>(())
        },
        capacity < room.occupants.len() ==> room.update(Some(capacity), new_price) == room,
        capacity >= room.occupants.len() ==> room.update(Some(capacity), new_price).capacity
            == capacity,
        room.update(Some(capacity), new_price).occupants == room.occupants,
{
}

/// An update that names no capacity is always accepted and changes at most
/// the price.
pub proof fn lemma_price_update(room: RoomView, new_price: Option<u64>)
    requires
        room.wf(),
    ensures
        room.update_check(None) is Ok,
        room.update(None, new_price) == (RoomView {
            price_per_occupant: match new_price {
                Some(p) => p,
                None => room.price_per_occupant,
            },
            ..room
        }),
{
}

/// Taking a room apart and putting it together again. The six parts read
/// off a room that satisfies the invariant describe that same room, so
/// `Room::from_parts` accepts them and gives back a room equal in every
/// field.
pub proof fn lemma_parts_rebuild_room(
    room: RoomView,
    no: u64,
    state: RoomState,
    occupants: Seq<Occupant>,
    price_per_occupant: u64,
    capacity: u64,
    owner: Occupant,
)
    requires
        room.wf(),
        no == room.no,
        state == room.state,
        views_of(occupants) == room.occupants,
        price_per_occupant == room.price_per_occupant,
        capacity == room.capacity,
        owner@ == room.owner,
    ensures
        parts_view(no, state, occupants, price_per_occupant, capacity, owner) == room,
        parts_view(no, state, occupants, price_per_occupant, capacity, owner).wf(),
{
}

/// A request changes at most the room it names: every other room stays
/// as it was, and no request but creation adds a number to the hotel.
pub proof fn lemma_requests_touch_one_room(
    rooms: Map<u64, RoomView>,
    create: CreateRoomPayload,
    book: BookRoomPayload,
    unbook: UnbookRoomPayload,
    claim: OccupantView,
    other: u64,
)
    requires
        rooms.contains_key(other),
    ensures
        other != create.number ==> after_create(rooms, create, claim)[other] == rooms[other],
        other != book.number ==> after_book(rooms, book, claim)[other] == rooms[other],
        other != unbook.number ==> after_unbook(rooms, unbook, claim.id)[other] == rooms[other],
        after_book(rooms, book, claim).dom() == rooms.dom(),
        after_unbook(rooms, unbook, claim.id).dom() == rooms.dom(),
{
    assert(after_book(rooms, book, claim).dom() =~= rooms.dom());
    assert(after_unbook(rooms, unbook, claim.id).dom() =~= rooms.dom());
}

/// Every request leaves each room under its own number and within its
/// invariant.
pub proof fn lemma_requests_keep_rooms_wf(
    rooms: Map<u64, RoomView>,
    create: CreateRoomPayload,
    book: BookRoomPayload,
    unbook: UnbookRoomPayload,
    claim: OccupantView,
    delete: u64,
)
    requires
        rooms_wf(rooms),
    ensures
        rooms_wf(after_create(rooms, create, claim)),
        rooms_wf(after_book(rooms, book, claim)),
        rooms_wf(after_unbook(rooms, unbook, claim.id)),
        rooms_wf(rooms.remove(delete)),
{
    if rooms.contains_key(book.number) {
        lemma_add_keeps_wf(rooms[book.number], claim);
    }
    if rooms.contains_key(unbook.number) {
        lemma_remove_keeps_wf(rooms[unbook.number], claim.id);
    }
}

} // verus!

use canister_hotel::error::Error;
use canister_hotel::model::{Occupant, Room, RoomState};

fn tenant(id: &str) -> Occupant {
    Occupant::new(id.to_string(), 1_000, 2_000)
}

fn ids(room: &Room) -> Vec<String> {
    room.occupants().iter().map(|o| o.id.clone()).collect()
}

#[test]
fn occupant_new_keeps_its_fields() {
    let o = Occupant::new("alice".to_string(), 5, 9);
    assert_eq!(o.id, "alice");
    assert_eq!(o.start_date, 5);
    assert_eq!(o.end_date, 9);
}

#[test]
fn occupant_window_is_not_validated() {
    let o = Occupant::new("alice".to_string(), 9, 5);
    assert_eq!(o.start_date, 9);
    assert_eq!(o.end_date, 5);
}

#[test]
fn occupant_equality_is_by_all_fields() {
    let a = Occupant::new("alice".to_string(), 5, 9);
    assert_eq!(a, Occupant::new("alice".to_string(), 5, 9));
    assert_ne!(a, Occupant::new("alice".to_string(), 5, 10));
    assert_ne!(a, Occupant::new("alice".to_string(), 4, 9));
    assert_ne!(a, Occupant::new("bob".to_string(), 5, 9));
    assert_eq!(a.clone(), a);
}

#[test]
fn same_identity_ignores_the_window() {
    let a = Occupant::new("alice".to_string(), 5, 9);
    assert!(a.same_identity(&Occupant::new("alice".to_string(), 100, 200)));
    assert!(!a.same_identity(&Occupant::new("alicf".to_string(), 5, 9)));
}

#[test]
fn new_room_is_vacant_and_empty() {
    let room = Room::new(7, 2, 100, tenant("owner"));
    assert_eq!(room.no(), 7);
    assert_eq!(room.capacity(), 2);
    assert_eq!(room.price_per_occupant(), 100);
    assert_eq!(room.state(), RoomState::TotallyVacant);
    assert!(room.occupants().is_empty());
    assert_eq!(room.owner(), &tenant("owner"));
    assert!(!room.is_full());
}

#[test]
fn scenario_two_places_three_tenants() {
    let mut room = Room::new(7, 2, 100, tenant("O"));
    assert_eq!(room.add_occupant(tenant("A")), Ok(()));
    assert_eq!(room.state(), RoomState::PartiallyOccupied);
    assert_eq!(room.add_occupant(tenant("B")), Ok(()));
    assert_eq!(room.state(), RoomState::Full);
    assert_eq!(room.add_occupant(tenant("C")), Err(Error::RoomFull));
    assert_eq!(room.remove_occupant(&tenant("A")), Ok(()));
    assert_eq!(room.state(), RoomState::PartiallyOccupied);
    assert_eq!(ids(&room), vec!["B".to_string()]);
}

#[test]
fn capacity_two_takes_exactly_two() {
    let mut room = Room::new(1, 2, 10, tenant("O"));
    assert_eq!(room.add_occupant(tenant("A")), Ok(()));
    assert!(!room.is_full());
    assert_eq!(room.add_occupant(tenant("B")), Ok(()));
    assert!(room.is_full());
    assert_eq!(room.state(), RoomState::Full);
    assert_eq!(room.add_occupant(tenant("C")), Err(Error::RoomFull));
    assert_eq!(room.occupants().len(), 2);
    assert_eq!(ids(&room), vec!["A".to_string(), "B".to_string()]);
}

#[test]
fn capacity_one_goes_from_vacant_to_full() {
    let mut room = Room::new(1, 1, 10, tenant("O"));
    assert_eq!(room.add_occupant(tenant("A")), Ok(()));
    assert_eq!(room.state(), RoomState::Full);
}

#[test]
fn second_booking_under_one_identity_is_refused() {
    let mut room = Room::new(1, 3, 10, tenant("O"));
    assert_eq!(room.add_occupant(Occupant::new("A".to_string(), 1, 2)), Ok(()));
    assert_eq!(
        room.add_occupant(Occupant::new("A".to_string(), 50, 60)),
        Err(Error::RoomAlreadyBooked)
    );
    assert_eq!(room.occupants().len(), 1);
    assert_eq!(room.occupants()[0], Occupant::new("A".to_string(), 1, 2));
    assert_eq!(room.state(), RoomState::PartiallyOccupied);
}

#[test]
fn second_booking_in_a_room_the_first_filled_reports_full() {
    let mut room = Room::new(1, 1, 10, tenant("O"));
    assert_eq!(room.add_occupant(tenant("A")), Ok(()));
    assert_eq!(room.add_occupant(tenant("A")), Err(Error::RoomFull));
    assert_eq!(room.occupants().len(), 1);
}

#[test]
fn last_occupant_leaves_then_nobody_is_booked() {
    let mut room = Room::new(1, 4, 10, tenant("O"));
    assert_eq!(room.add_occupant(tenant("A")), Ok(()));
    assert_eq!(room.remove_occupant(&tenant("A")), Ok(()));
    assert_eq!(room.state(), RoomState::TotallyVacant);
    assert_eq!(room.occupants().len(), 0);
    assert_eq!(room.remove_occupant(&tenant("A")), Err(Error::RoomNotBooked));
    assert_eq!(room.state(), RoomState::TotallyVacant);
}

#[test]
fn removal_from_a_full_room_makes_it_partial() {
    let mut room = Room::new(1, 3, 10, tenant("O"));
    for id in ["A", "B", "C"] {
        assert_eq!(room.add_occupant(tenant(id)), Ok(()));
    }
    assert_eq!(room.state(), RoomState::Full);
    assert_eq!(room.remove_occupant(&tenant("B")), Ok(()));
    assert_eq!(room.state(), RoomState::PartiallyOccupied);
    assert_eq!(ids(&room), vec!["A".to_string(), "C".to_string()]);
}

#[test]
fn removal_matches_by_identity_alone() {
    let mut room = Room::new(1, 3, 10, tenant("O"));
    assert_eq!(room.add_occupant(Occupant::new("A".to_string(), 1, 2)), Ok(()));
    assert_eq!(room.remove_occupant(&Occupant::new("A".to_string(), 77, 88)), Ok(()));
    assert!(room.occupants().is_empty());
}

#[test]
fn removal_of_a_stranger_changes_nothing() {
    let mut room = Room::new(1, 3, 10, tenant("O"));
    assert_eq!(room.add_occupant(tenant("A")), Ok(()));
    assert_eq!(room.remove_occupant(&tenant("Z")), Err(Error::RoomNotBooked));
    assert_eq!(ids(&room), vec!["A".to_string()]);
    assert_eq!(room.state(), RoomState::PartiallyOccupied);
}

#[test]
fn update_guard_on_a_full_room() {
    let mut room = Room::new(1, 3, 10, tenant("O"));
    for id in ["A", "B", "C"] {
        assert_eq!(room.add_occupant(tenant(id)), Ok(()));
    }
    assert_eq!(room.update_occupant(Some(2), None), Err(Error::InvalidUpdate));
    assert_eq!(room.capacity(), 3);
    assert_eq!(room.update_occupant(Some(5), None), Ok(()));
    assert_eq!(room.capacity(), 5);
    assert_eq!(room.occupants().len(), 3);
}

#[test]
fn refused_capacity_keeps_the_price_too() {
    let mut room = Room::new(1, 3, 10, tenant("O"));
    for id in ["A", "B"] {
        assert_eq!(room.add_occupant(tenant(id)), Ok(()));
    }
    assert_eq!(room.update_occupant(Some(1), Some(99)), Err(Error::InvalidUpdate));
    assert_eq!(room.capacity(), 3);
    assert_eq!(room.price_per_occupant(), 10);
}

#[test]
fn update_assigns_each_given_field() {
    let mut room = Room::new(1, 3, 10, tenant("O"));
    assert_eq!(room.update_occupant(None, Some(25)), Ok(()));
    assert_eq!((room.capacity(), room.price_per_occupant()), (3, 25));
    assert_eq!(room.update_occupant(Some(8), None), Ok(()));
    assert_eq!((room.capacity(), room.price_per_occupant()), (8, 25));
    assert_eq!(room.update_occupant(Some(4), Some(30)), Ok(()));
    assert_eq!((room.capacity(), room.price_per_occupant()), (4, 30));
    assert_eq!(room.update_occupant(None, None), Ok(()));
    assert_eq!((room.capacity(), room.price_per_occupant()), (4, 30));
}

#[test]
fn state_follows_a_new_capacity() {
    let mut room = Room::new(1, 3, 10, tenant("O"));
    for id in ["A", "B", "C"] {
        assert_eq!(room.add_occupant(tenant(id)), Ok(()));
    }
    assert_eq!(room.update_occupant(Some(5), None), Ok(()));
    assert_eq!(room.state(), RoomState::PartiallyOccupied);
    assert_eq!(room.add_occupant(tenant("D")), Ok(()));
    assert_eq!(room.update_occupant(Some(4), None), Ok(()));
    assert_eq!(room.state(), RoomState::Full);
    assert_eq!(room.add_occupant(tenant("E")), Err(Error::RoomFull));
    assert_eq!(room.occupants().len(), 4);
}

#[test]
fn capacity_equal_to_count_is_accepted() {
    let mut room = Room::new(1, 3, 10, tenant("O"));
    assert_eq!(room.add_occupant(tenant("A")), Ok(()));
    assert_eq!(room.update_occupant(Some(1), None), Ok(()));
    assert_eq!(room.capacity(), 1);
    assert!(room.is_full());
}

#[test]
fn room_without_capacity_takes_nobody() {
    let mut room = Room::new(1, 0, 10, tenant("O"));
    assert_eq!(room.state(), RoomState::TotallyVacant);
    assert!(!room.is_full());
    assert!(room.no_place_left());
    assert_eq!(room.add_occupant(tenant("A")), Err(Error::RoomFull));
    assert_eq!(room.state(), RoomState::TotallyVacant);
    assert!(room.occupants().is_empty());
    assert_eq!(room.capacity(), 0);
}

#[test]
fn capacity_lowered_to_nothing_closes_an_empty_room() {
    let mut room = Room::new(1, 2, 10, tenant("O"));
    assert_eq!(room.update_occupant(Some(0), None), Ok(()));
    assert_eq!(room.state(), RoomState::TotallyVacant);
    assert_eq!(room.add_occupant(tenant("A")), Err(Error::RoomFull));
    assert_eq!(room.update_occupant(Some(1), None), Ok(()));
    assert_eq!(room.add_occupant(tenant("A")), Ok(()));
    assert_eq!(room.state(), RoomState::Full);
}

#[test]
fn no_place_left_follows_count_and_capacity() {
    let mut room = Room::new(1, 2, 10, tenant("O"));
    assert!(!room.no_place_left());
    assert_eq!(room.add_occupant(tenant("A")), Ok(()));
    assert!(!room.no_place_left());
    assert_eq!(room.add_occupant(tenant("B")), Ok(()));
    assert!(room.no_place_left());
    assert_eq!(room.remove_occupant(&tenant("A")), Ok(()));
    assert!(!room.no_place_left());
}

#[test]
fn price_check_is_equality() {
    let room = Room::new(1, 3, 100, tenant("O"));
    assert!(room.price_check(100));
    assert!(!room.price_check(99));
    assert!(!room.price_check(101));
    assert!(!room.price_check(0));
}

#[test]
fn has_occupant_gives_the_position() {
    let mut room = Room::new(1, 3, 10, tenant("O"));
    for id in ["A", "B", "C"] {
        assert_eq!(room.add_occupant(tenant(id)), Ok(()));
    }
    assert_eq!(room.has_occupant(&tenant("A")), Some(0));
    assert_eq!(room.has_occupant(&tenant("B")), Some(1));
    assert_eq!(room.has_occupant(&Occupant::new("C".to_string(), 0, 0)), Some(2));
    assert_eq!(room.has_occupant(&tenant("D")), None);
    assert_eq!(room.has_occupant(&tenant("O")), None);
}

#[test]
fn is_owner_needs_identity_and_window() {
    let room = Room::new(1, 3, 10, Occupant::new("O".to_string(), 10, 20));
    assert!(room.is_owner(&Occupant::new("O".to_string(), 10, 20)));
    assert!(!room.is_owner(&Occupant::new("O".to_string(), 10, 21)));
    assert!(!room.is_owner(&Occupant::new("O".to_string(), 11, 20)));
    assert!(!room.is_owner(&Occupant::new("P".to_string(), 10, 20)));
}

#[test]
fn clone_is_an_equal_room() {
    let mut room = Room::new(9, 3, 10, tenant("O"));
    assert_eq!(room.add_occupant(tenant("A")), Ok(()));
    let copy = room.clone();
    assert_eq!(copy.no(), 9);
    assert_eq!(copy.state(), RoomState::PartiallyOccupied);
    assert_eq!(copy.occupants(), room.occupants());
    assert_eq!(copy.capacity(), 3);
    assert_eq!(copy.price_per_occupant(), 10);
    assert_eq!(copy.owner(), room.owner());
    assert_eq!(room.add_occupant(tenant("B")), Ok(()));
    assert_eq!(copy.occupants().len(), 1);
}

#[test]
fn parts_of_a_room_rebuild_it() {
    let mut room = Room::new(9, 2, 10, tenant("O"));
    assert_eq!(room.add_occupant(tenant("A")), Ok(()));
    assert_eq!(room.add_occupant(tenant("B")), Ok(()));
    let rebuilt = Room::from_parts(
        room.no(),
        room.state(),
        room.occupants().clone(),
        room.price_per_occupant(),
        room.capacity(),
        room.owner().clone(),
    )
    .expect("the parts of a room are valid");
    assert_eq!(rebuilt.no(), 9);
    assert_eq!(rebuilt.state(), RoomState::Full);
    assert_eq!(rebuilt.occupants(), room.occupants());
    assert_eq!(rebuilt.price_per_occupant(), 10);
    assert_eq!(rebuilt.capacity(), 2);
    assert_eq!(rebuilt.owner(), room.owner());
}

#[test]
fn from_parts_refuses_a_wrong_state() {
    let occupants = vec![tenant("A")];
    assert!(Room::from_parts(1, RoomState::Full, occupants.clone(), 10, 2, tenant("O")).is_none());
    assert!(
        Room::from_parts(1, RoomState::TotallyVacant, occupants.clone(), 10, 2, tenant("O"))
            .is_none()
    );
    assert!(
        Room::from_parts(1, RoomState::PartiallyOccupied, occupants, 10, 2, tenant("O")).is_some()
    );
    assert!(Room::from_parts(1, RoomState::Full, vec![], 10, 0, tenant("O")).is_none());
    assert!(Room::from_parts(1, RoomState::TotallyVacant, vec![], 10, 0, tenant("O")).is_some());
}

#[test]
fn from_parts_refuses_more_occupants_than_places() {
    let occupants = vec![tenant("A"), tenant("B"), tenant("C")];
    assert!(
        Room::from_parts(1, RoomState::PartiallyOccupied, occupants.clone(), 10, 2, tenant("O"))
            .is_none()
    );
    assert!(Room::from_parts(1, RoomState::Full, occupants, 10, 3, tenant("O")).is_some());
    assert!(
        Room::from_parts(1, RoomState::PartiallyOccupied, vec![tenant("A")], 10, 0, tenant("O"))
            .is_none()
    );
}

#[test]
fn from_parts_refuses_a_repeated_identity() {
    let occupants = vec![
        tenant("A"),
        tenant("B"),
        Occupant::new("A".to_string(), 7, 8),
    ];
    assert!(
        Room::from_parts(1, RoomState::PartiallyOccupied, occupants, 10, 5, tenant("O")).is_none()
    );
}

#[test]
fn every_room_error_has_an_input() {
    let mut room = Room::new(1, 1, 10, tenant("O"));
    assert_eq!(room.remove_occupant(&tenant("A")), Err(Error::RoomNotBooked));
    let mut wide = Room::new(2, 2, 10, tenant("O"));
    assert_eq!(wide.add_occupant(tenant("A")), Ok(()));
    assert_eq!(wide.add_occupant(tenant("A")), Err(Error::RoomAlreadyBooked));
    assert_eq!(room.add_occupant(tenant("A")), Ok(()));
    assert_eq!(room.add_occupant(tenant("B")), Err(Error::RoomFull));
    assert_eq!(room.update_occupant(Some(0), None), Err(Error::InvalidUpdate));
}

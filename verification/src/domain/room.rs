//! Named bounded areas of the office scene. Rooms are data (id and label), so
//! that operators can add, rename and reorder them.
use vstd::prelude::*;

verus! {

/// A room in the office: `id` is the stable key, `label` the text drawn.
#[derive(Debug, PartialEq, Eq)]
pub struct Room {
    pub id: String,
    pub label: String,
}

/// What [`Room`] holds, as mathematical values.
#[verifier::ext_equal]
pub struct RoomView {
    pub id: Seq<char>,
    pub label: Seq<char>,
}

impl DeepView for Room {
    type V = RoomView;

    open spec fn deep_view(&self) -> RoomView {
        RoomView {
            id: self.id.deep_view(),
            label: self.label.deep_view(),
        }
    }
}

impl Clone for Room {
    fn clone(&self) -> (r: Room)
        ensures
            r.deep_view() == self.deep_view(),
    {
        Room {
            id: self.id.clone(),
            label: self.label.clone(),
        }
    }
}

impl Room {
    pub fn new(id: &str, label: &str) -> (r: Room)
        ensures
            r.deep_view() == (RoomView { id: id@, label: label@ }),
    {
        Room { id: id.to_owned(), label: label.to_owned() }
    }
}

/// The rooms of the first launch.
pub open spec fn first_rooms() -> Seq<RoomView> {
    seq![
        RoomView { id: "command-deck"@, label: "Command Deck"@ },
        RoomView { id: "galley"@, label: "Galley"@ },
        RoomView { id: "engine-room"@, label: "Engine Room"@ },
    ]
}

/// The default room set seeded on first launch.
pub fn default_rooms() -> (r: Vec<Room>)
    ensures
        r.deep_view() == first_rooms(),
{
    let mut r: Vec<Room> = Vec::new();
    r.push(Room::new("command-deck", "Command Deck"));
    r.push(Room::new("galley", "Galley"));
    r.push(Room::new("engine-room", "Engine Room"));
    assert(r.deep_view() =~= first_rooms());
    r
}

/// Fallback home room: agents without a configured room land here.
pub const MAIN_ROOM: &'static str = "command-deck";

/// The fallback home room is one of the default rooms.
pub proof fn main_room_is_a_default_room()
    ensures
        exists|i: int| 0 <= i < first_rooms().len() && (#[trigger] first_rooms()[i]).id
            == MAIN_ROOM@,
{
    assert(first_rooms()[0].id == MAIN_ROOM@);
}

} // verus!

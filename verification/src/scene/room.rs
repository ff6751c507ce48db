//! Grid layout for an arbitrary list of rooms.
//!
//! The rooms are packed, in order, into a grid of columns and rows that is
//! picked by their number. Rooms past the last cell are not shown.
use vstd::prelude::*;

use crate::domain::room::{Room, RoomView};
use crate::text::same;

verus! {

/// How many sprites of one room have a place of their own.
pub const SLOTS_PER_ROOM: usize = 4;

/// Columns and rows for a number of rooms.
pub open spec fn grid(count: nat) -> (nat, nat) {
    if count <= 3 {
        (if count == 0 {
            1
        } else {
            count
        }, 1)
    } else if count == 4 {
        (2, 2)
    } else if count <= 6 {
        (3, 2)
    } else {
        (4, 2)
    }
}

/// How many columns and rows to use for a given room count, picked so that
/// every size up to eight fills the canvas without awkward gaps.
pub fn grid_for(count: usize) -> (r: (usize, usize))
    ensures
        r.0 == grid(count as nat).0,
        r.1 == grid(count as nat).1,
{
    if count <= 1 {
        (1, 1)
    } else if count == 2 {
        (2, 1)
    } else if count == 3 {
        (3, 1)
    } else if count == 4 {
        (2, 2)
    } else if count <= 6 {
        (3, 2)
    } else {
        (4, 2)
    }
}

/// Up to eight rooms all have a cell, with at most one cell to spare; of more
/// rooms the first eight have one.
pub proof fn grid_is_tight(count: nat)
    requires
        count > 0,
    ensures
        count <= 8 ==> count <= grid(count).0 * grid(count).1 <= count + 1,
        count > 8 ==> grid(count).0 * grid(count).1 == 8,
        grid(count).1 <= grid(count).0,
{
    if count <= 3 {
        assert(grid(count) == (count, 1nat));
        assert(count * 1 == count) by (nonlinear_arith);
    }
}

/// How many of the rooms have a cell.
pub open spec fn shown_rooms(rooms: Seq<RoomView>) -> nat {
    let cells = grid(rooms.len()).0 * grid(rooms.len()).1;
    if rooms.len() < cells {
        rooms.len()
    } else {
        cells
    }
}

/// Where the first room with the id `id` stands in the list, or the number of
/// rooms.
pub open spec fn room_index(rooms: Seq<RoomView>, id: Seq<char>) -> int
    decreases rooms.len(),
{
    if rooms.len() == 0 || rooms[0].id == id {
        0
    } else {
        1 + room_index(rooms.drop_first(), id)
    }
}

/// `i` is where the room with the id `id` stands when nothing before it has
/// that id.
pub proof fn room_index_unique(rooms: Seq<RoomView>, id: Seq<char>, i: int)
    requires
        0 <= i <= rooms.len(),
        i < rooms.len() ==> rooms[i].id == id,
        forall|j: int| 0 <= j < i ==> (#[trigger] rooms[j]).id != id,
    ensures
        room_index(rooms, id) == i,
    decreases rooms.len(),
{
    if rooms.len() > 0 && i > 0 {
        assert(rooms[0].id != id);
        let rest = rooms.drop_first();
        assert forall|j: int| 0 <= j < i - 1 implies (#[trigger] rest[j]).id != id by {
            assert(rest[j] == rooms[j + 1]);
        }
        room_index_unique(rest, id, i - 1);
    }
}

/// The list position of the room with the id `id`, where it has a cell.
pub open spec fn shown_index(rooms: Seq<RoomView>, id: Seq<char>) -> Option<int> {
    if room_index(rooms, id) < shown_rooms(rooms) {
        Some(room_index(rooms, id))
    } else {
        None
    }
}

/// The column and row of the room at `index`.
pub open spec fn cell(rooms: Seq<RoomView>, index: int) -> (int, int) {
    (index % (grid(rooms.len()).0 as int), index / (grid(rooms.len()).0 as int))
}

/// Two rooms never share a cell, and every cell lies within the grid.
pub proof fn cells_are_apart(rooms: Seq<RoomView>, a: int, b: int)
    requires
        0 <= a < shown_rooms(rooms),
        0 <= b < shown_rooms(rooms),
    ensures
        cell(rooms, a) == cell(rooms, b) <==> a == b,
        0 <= cell(rooms, a).0 < grid(rooms.len()).0,
        0 <= cell(rooms, a).1 < grid(rooms.len()).1,
{
}

/// The room grid over a list of rooms.
pub struct RoomLayout<'a> {
    rooms: &'a Vec<Room>,
    cols: usize,
    rows: usize,
}

impl<'a> RoomLayout<'a> {
    /// The rooms that are laid out.
    pub closed spec fn list(&self) -> Seq<RoomView> {
        self.rooms.deep_view()
    }

    #[verifier::type_invariant]
    spec fn grid_fits_the_rooms(self) -> bool {
        &&& self.cols == grid(self.rooms@.len()).0
        &&& self.rows == grid(self.rooms@.len()).1
    }

    pub fn new(rooms: &'a Vec<Room>) -> (r: RoomLayout<'a>)
        ensures
            r.list() == rooms.deep_view(),
    {
        let (cols, rows) = grid_for(rooms.len());
        RoomLayout { rooms, cols, rows }
    }

    /// How many columns and rows the grid has.
    pub fn size(&self) -> (r: (usize, usize))
        ensures
            r.0 == grid(self.list().len()).0,
            r.1 == grid(self.list().len()).1,
    {
        proof {
            use_type_invariant(self);
        }
        (self.cols, self.rows)
    }

    /// How many rooms are shown: the first so many of the list.
    pub fn shown(&self) -> (r: usize)
        ensures
            r == shown_rooms(self.list()),
            r <= 8,
    {
        proof {
            use_type_invariant(self);
        }
        let cells = self.cols * self.rows;
        if self.rooms.len() < cells {
            self.rooms.len()
        } else {
            cells
        }
    }

    /// The list position of the room with the given id, if it has a cell.
    pub fn room_at(&self, id: &str) -> (r: Option<usize>)
        ensures
            match r {
                Some(i) => shown_index(self.list(), id@) == Some(i as int),
                None => shown_index(self.list(), id@) is None,
            },
            r matches Some(i) ==> i < self.list().len() && self.list()[i as int].id == id@,
    {
        let ghost all = self.rooms.deep_view();
        let n = self.shown();
        let mut i: usize = 0;
        while i < n
            invariant
                all == self.rooms.deep_view(),
                n == shown_rooms(all),
                i <= n,
                forall|j: int| 0 <= j < i ==> (#[trigger] all[j]).id != id@,
            decreases n - i,
        {
            assert(all[i as int].id == self.rooms@[i as int].id@);
            if same(self.rooms[i].id.as_str(), id) {
                proof {
                    room_index_unique(all, id@, i as int);
                }
                return Some(i);
            }
            i = i + 1;
        }
        proof {
            if room_index(all, id@) < n {
                room_index_names_it(all, id@);
                assert(all[room_index(all, id@)].id != id@);
            }
        }
        None
    }

    /// The column and row of the room at `index`.
    pub fn cell_of(&self, index: usize) -> (r: (usize, usize))
        ensures
            r.0 == cell(self.list(), index as int).0,
            r.1 == cell(self.list(), index as int).1,
    {
        proof {
            use_type_invariant(self);
        }
        (index % self.cols, index / self.cols)
    }

    /// The column and row, two of each, of the `index`-th sprite of a room, so
    /// that up to [`SLOTS_PER_ROOM`] sprites do not stack.
    pub fn sprite_slot(&self, index: usize) -> (r: (usize, usize))
        ensures
            r == slot(index as nat),
    {
        let i = index % SLOTS_PER_ROOM;
        (i % 2, i / 2)
    }
}

/// The column and row of the `index`-th sprite of a room.
pub open spec fn slot(index: nat) -> (usize, usize) {
    ((index % 4 % 2) as usize, (index % 4 / 2) as usize)
}

/// Two of the first four sprites of a room never share a slot, and the fifth
/// stands where the first does.
pub proof fn slots_are_apart(a: nat, b: nat)
    ensures
        slot(a) == slot(b) <==> a % 4 == b % 4,
        slot(a).0 < 2 && slot(a).1 < 2,
{
}

/// `room_index` is within the list, and what stands there has the id.
pub proof fn room_index_names_it(rooms: Seq<RoomView>, id: Seq<char>)
    ensures
        0 <= room_index(rooms, id) <= rooms.len(),
        room_index(rooms, id) < rooms.len() ==> rooms[room_index(rooms, id)].id == id,
    decreases rooms.len(),
{
    if rooms.len() > 0 && rooms[0].id != id {
        room_index_names_it(rooms.drop_first(), id);
    }
}

} // verus!

//! The room listing: each room with whether the caller has solved it.
use vstd::prelude::*;

verus! {

/// A room's row as the listing query returns it.
pub struct RoomRow {
    pub slug: String,
    pub title: String,
    pub category: String,
    pub difficulty: String,
    pub position: i32,
    pub description: String,
    pub solved: bool,
}

/// A room's row where `solved` may be NULL (no progress row joined).
pub struct NullableRoomRow {
    pub slug: String,
    pub title: String,
    pub category: String,
    pub difficulty: String,
    pub position: i32,
    pub description: String,
    pub solved: Option<bool>,
}

/// A room as the listing answers it.
pub struct RoomResponse {
    pub slug: String,
    pub title: String,
    pub category: String,
    pub difficulty: String,
    pub position: i32,
    pub description: String,
    pub solved: bool,
}

impl From<RoomRow> for RoomResponse {
    fn from(row: RoomRow) -> (r: Self) {
        RoomResponse {
            slug: row.slug,
            title: row.title,
            category: row.category,
            difficulty: row.difficulty,
            position: row.position,
            description: row.description,
            solved: row.solved,
        }
    }
}

impl vstd::std_specs::convert::FromSpecImpl<RoomRow> for RoomResponse {
    open spec fn obeys_from_spec() -> bool {
        true
    }

    open spec fn from_spec(row: RoomRow) -> Self {
        RoomResponse {
            slug: row.slug,
            title: row.title,
            category: row.category,
            difficulty: row.difficulty,
            position: row.position,
            description: row.description,
            solved: row.solved,
        }
    }
}

/// A room as listed for a caller: an anonymous caller sees every room, and
/// none of them marked solved.
pub open spec fn listed_as(row: RoomRow, resp: RoomResponse, caller_known: bool) -> bool {
    &&& resp.slug == row.slug
    &&& resp.title == row.title
    &&& resp.category == row.category
    &&& resp.difficulty == row.difficulty
    &&& resp.position == row.position
    &&& resp.description == row.description
    &&& resp.solved == (caller_known && row.solved)
}

/// The room listing for a caller, in the rows' order. Only an identified
/// caller can see a room marked solved.
pub fn room_listing(rows: &Vec<RoomRow>, caller_known: bool) -> (r: Vec<RoomResponse>)
    ensures
        r@.len() == rows@.len(),
        forall|i: int| 0 <= i < rows@.len() ==> listed_as(#[trigger] rows@[i], r@[i], caller_known),
        forall|i: int|
            0 <= i < rows@.len() ==> {
                &&& (#[trigger] r@[i]).slug == rows@[i].slug
                &&& r@[i].title == rows@[i].title
                &&& r@[i].category == rows@[i].category
                &&& r@[i].difficulty == rows@[i].difficulty
                &&& r@[i].position == rows@[i].position
                &&& r@[i].description == rows@[i].description
                &&& r@[i].solved == (caller_known && rows@[i].solved)
            },
{
    let mut out: Vec<RoomResponse> = Vec::new();
    let n = rows.len();
    let mut i: usize = 0;
    while i < n
        invariant
            n == rows@.len(),
            i <= n,
            out@.len() == i,
            forall|k: int| 0 <= k < i ==> listed_as(#[trigger] rows@[k], out@[k], caller_known),
        decreases n - i,
    {
        let row = &rows[i];
        out.push(
            RoomResponse {
                slug: row.slug.clone(),
                title: row.title.clone(),
                category: row.category.clone(),
                difficulty: row.difficulty.clone(),
                position: row.position,
                description: row.description.clone(),
                solved: caller_known && row.solved,
            },
        );
        i = i + 1;
    }
    out
}

/// A listed room keeps each field of its row, and shows it solved only
/// for an identified caller whose row says so; an anonymous caller sees
/// no room solved.
pub proof fn lemma_listed_room_keeps_row(row: RoomRow, resp: RoomResponse, caller_known: bool)
    requires
        listed_as(row, resp, caller_known),
    ensures
        resp.slug == row.slug,
        resp.title == row.title,
        resp.category == row.category,
        resp.difficulty == row.difficulty,
        resp.position == row.position,
        resp.description == row.description,
        resp.solved <==> (caller_known && row.solved),
        !caller_known ==> !resp.solved,
{
}

/// Whose progress the listing shows: the identified caller's, or the
/// empty id, which no progress row carries, for an anonymous caller.
pub fn progress_owner(id: Option<String>) -> (r: String)
    ensures
        match id {
            Some(s) => r == s,
            None => r@.len() == 0,
        },
{
    match id {
        Some(s) => s,
        None => String::new(),
    }
}

/// A room of a row whose `solved` may be NULL: NULL counts as not solved.
pub fn room_from_nullable(row: NullableRoomRow) -> (r: RoomResponse)
    ensures
        r.slug == row.slug,
        r.title == row.title,
        r.category == row.category,
        r.difficulty == row.difficulty,
        r.position == row.position,
        r.description == row.description,
        r.solved == (row.solved == Some(true)),
{
    let solved = match row.solved {
        Some(b) => b,
        None => false,
    };
    RoomResponse {
        slug: row.slug,
        title: row.title,
        category: row.category,
        difficulty: row.difficulty,
        position: row.position,
        description: row.description,
        solved,
    }
}

} // verus!

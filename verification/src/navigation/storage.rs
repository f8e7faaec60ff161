//! Grids as bytes.

use vstd::prelude::*;
use vstd::slice::slice_subrange;

use crate::navigation::walkability::{lists, Tile, TileCost, WalkabilityGrid};

verus! {

/// The version of the byte format.
pub const GRID_VERSION: u8 = 1;

/// Why bytes were not taken for a grid.
#[derive(Clone, Copy, Debug, PartialEq, Eq, Structural)]
pub enum GridError {
    /// They are of a version that is not known.
    UnsupportedVersion(u8),
    /// They begin like a grid, but do not go on like one.
    Corrupt,
    /// They neither begin like a grid nor are one of the old format.
    NotAGrid,
}

/// What a grid is.
pub struct GridView {
    pub tiles: Map<Tile, TileCost>,
    pub transitions: Set<Tile>,
    pub files: u32,
}

/// The bytes into which `postcard` turns the parts of a grid.
pub uninterp spec fn postcard_bytes(
    tiles: Seq<((i32, i32, i32), u8)>,
    transitions: Seq<(i32, i32, i32)>,
    files: u32,
) -> Seq<u8>;

/// The parts of a grid that `postcard` reads from bytes, if it can.
pub uninterp spec fn postcard_parts(bytes: Seq<u8>) -> Option<
    (Seq<((i32, i32, i32), u8)>, Seq<(i32, i32, i32)>, u32),
>;

/// The parts of a grid that `bincode` reads from bytes, if it can.
pub uninterp spec fn bincode_parts(bytes: Seq<u8>) -> Option<
    (Seq<((i32, i32, i32), u8)>, Seq<(i32, i32, i32)>, u32),
>;

/// `postcard::to_allocvec` of the three parts: it succeeds, and `postcard::from_bytes` reads
/// the same parts from the bytes.
#[verifier::external_body]
fn write_parts(tiles: &Vec<(Tile, TileCost)>, transitions: &Vec<Tile>, files: u32) -> (r: Option<
    Vec<u8>,
>)
    ensures
        r is Some,
        r->Some_0@ == postcard_bytes(tiles@, transitions@, files),
        postcard_parts(r->Some_0@) == Some((tiles@, transitions@, files)),
{
    postcard::to_allocvec(&(tiles, transitions, files)).ok()
}

/// `postcard::from_bytes` into the three parts.
#[verifier::external_body]
fn read_parts(bytes: &[u8]) -> (r: Option<(Vec<(Tile, TileCost)>, Vec<Tile>, u32)>)
    ensures
        (r is Some) == (postcard_parts(bytes@) is Some),
        r matches Some(parts) ==> postcard_parts(bytes@) == Some((parts.0@, parts.1@, parts.2)),
{
    postcard::from_bytes(bytes).ok()
}

/// `bincode::deserialize` into the three parts.
#[verifier::external_body]
fn read_old_parts(bytes: &[u8]) -> (r: Option<(Vec<(Tile, TileCost)>, Vec<Tile>, u32)>)
    ensures
        (r is Some) == (bincode_parts(bytes@) is Some),
        r matches Some(parts) ==> bincode_parts(bytes@) == Some((parts.0@, parts.1@, parts.2)),
{
    bincode::deserialize(bytes).ok()
}

/// The costs that a list gives; the last one counts where a tile occurs twice.
pub open spec fn costs_of(list: Seq<(Tile, TileCost)>) -> Map<Tile, TileCost>
    decreases list.len(),
{
    if list.len() == 0 {
        Map::empty()
    } else {
        costs_of(list.drop_last()).insert(list.last().0, list.last().1)
    }
}

/// The grid of which the parts are given.
pub open spec fn grid_of(
    parts: (Seq<((i32, i32, i32), u8)>, Seq<(i32, i32, i32)>, u32),
) -> GridView {
    GridView { tiles: costs_of(parts.0), transitions: parts.1.to_set(), files: parts.2 }
}

/// Whether bytes begin like a grid.
pub open spec fn is_marked(data: Seq<u8>) -> bool {
    data.len() >= 5 && data[0] == 0x54 && data[1] == 0x42 && data[2] == 0x57 && data[3] == 0x47
}

/// What bytes stand for.
pub open spec fn parsed(data: Seq<u8>) -> Result<GridView, GridError> {
    if is_marked(data) {
        if data[4] != GRID_VERSION {
            Err(GridError::UnsupportedVersion(data[4]))
        } else {
            match postcard_parts(data.skip(5)) {
                Some(parts) => Ok(grid_of(parts)),
                None => Err(GridError::Corrupt),
            }
        }
    } else {
        match bincode_parts(data) {
            Some(parts) => Ok(grid_of(parts)),
            None => Err(GridError::NotAGrid),
        }
    }
}

/// What a grid is.
pub open spec fn view_of(grid: &WalkabilityGrid) -> GridView {
    GridView { tiles: grid.tiles(), transitions: grid.transitions(), files: grid.files() }
}

/// The grid of which the parts are given.
pub fn build_grid(tiles: &Vec<(Tile, TileCost)>, transitions: &Vec<Tile>, files: u32) -> (r:
    WalkabilityGrid)
    ensures
        r.wf(),
        view_of(&r) == grid_of((tiles@, transitions@, files)),
{
    let mut grid = WalkabilityGrid::new();
    let mut i: usize = 0;
    while i < tiles.len()
        invariant
            i <= tiles@.len(),
            grid.wf(),
            grid.tiles() == costs_of(tiles@.take(i as int)),
            grid.transitions() == Set::<Tile>::empty(),
        decreases tiles@.len() - i,
    {
        let ((x, y, z), cost) = tiles[i];
        grid.set_tile(x, y, z, cost);
        assert(tiles@.take(i + 1).drop_last() =~= tiles@.take(i as int));
        i = i + 1;
    }
    assert(tiles@.take(i as int) =~= tiles@);
    let mut j: usize = 0;
    assert(transitions@.take(0).to_set() =~= Set::<Tile>::empty());
    while j < transitions.len()
        invariant
            j <= transitions@.len(),
            grid.wf(),
            grid.tiles() == costs_of(tiles@),
            grid.transitions() == transitions@.take(j as int).to_set(),
        decreases transitions@.len() - j,
    {
        let (x, y, z) = transitions[j];
        grid.add_transition(x, y, z);
        proof {
            let less = transitions@.take(j as int);
            let more = transitions@.take(j + 1);
            assert(more =~= less.push(transitions@[j as int]));
            assert(more[j as int] == transitions@[j as int]);
            assert forall|t: Tile| more.to_set().contains(t) == less.to_set().insert(
                transitions@[j as int],
            ).contains(t) by {
                if less.contains(t) {
                    let k = choose|k: int| 0 <= k < less.len() && less[k] == t;
                    assert(more[k] == t);
                }
                if more.contains(t) && t != transitions@[j as int] {
                    let k = choose|k: int| 0 <= k < more.len() && more[k] == t;
                    assert(less[k] == t);
                }
            }
            assert(more.to_set() =~= less.to_set().insert(transitions@[j as int]));
        }
        j = j + 1;
    }
    assert(transitions@.take(j as int) =~= transitions@);
    grid.set_files_loaded(files);
    grid
}

impl WalkabilityGrid {
    /// The grid that bytes stand for.
    pub fn from_bytes(data: &[u8]) -> (r: Result<WalkabilityGrid, GridError>)
        ensures
            r matches Ok(grid) ==> grid.wf() && parsed(data@) == Ok::<GridView, GridError>(
                view_of(&grid),
            ),
            r matches Err(e) ==> parsed(data@) == Err::<GridView, GridError>(e),
    {
        if data.len() >= 5 && data[0] == 0x54 && data[1] == 0x42 && data[2] == 0x57 && data[3]
            == 0x47 {
            if data[4] != GRID_VERSION {
                return Err(GridError::UnsupportedVersion(data[4]));
            }
            let rest = slice_subrange(data, 5, data.len());
            assert(rest@ =~= data@.skip(5));
            match read_parts(rest) {
                Some((tiles, transitions, files)) => Ok(build_grid(&tiles, &transitions, files)),
                None => Err(GridError::Corrupt),
            }
        } else {
            match read_old_parts(data) {
                Some((tiles, transitions, files)) => Ok(build_grid(&tiles, &transitions, files)),
                None => Err(GridError::NotAGrid),
            }
        }
    }
}

/// Whether a list gives the cost of each tile once.
pub open spec fn lists_costs(list: Seq<(Tile, TileCost)>, tiles: Map<Tile, TileCost>) -> bool {
    &&& lists(Seq::new(list.len(), |i: int| list[i].0), tiles.dom())
    &&& forall|i: int| 0 <= i < list.len() ==> #[trigger] list[i].1 == tiles[list[i].0]
}

/// What a list gives for each tile on it.
proof fn costs_listed(list: Seq<(Tile, TileCost)>)
    requires
        forall|i: int, j: int| 0 <= i < j < list.len() ==> list[i].0 != list[j].0,
    ensures
        forall|t: Tile| #[trigger]
            costs_of(list).contains_key(t) == exists|i: int|
                0 <= i < list.len() && (#[trigger] list[i]).0 == t,
        forall|i: int| 0 <= i < list.len() ==> costs_of(list)[(#[trigger] list[i]).0] == list[i].1,
    decreases list.len(),
{
    if list.len() > 0 {
        let less = list.drop_last();
        let n = list.len() - 1;
        assert forall|i: int, j: int| 0 <= i < j < less.len() implies less[i].0 != less[j].0 by {
            assert(less[i] == list[i] && less[j] == list[j]);
        }
        costs_listed(less);
        assert forall|t: Tile| #[trigger]
            costs_of(list).contains_key(t) == exists|i: int|
                0 <= i < list.len() && (#[trigger] list[i]).0 == t by {
            if costs_of(less).contains_key(t) {
                let i = choose|i: int| 0 <= i < less.len() && (#[trigger] less[i]).0 == t;
                assert(list[i].0 == t);
            }
            if t == list.last().0 {
                assert(list[n].0 == t);
            }
            if exists|i: int| 0 <= i < list.len() && (#[trigger] list[i]).0 == t {
                let i = choose|i: int| 0 <= i < list.len() && (#[trigger] list[i]).0 == t;
                if i < n {
                    assert(less[i].0 == t);
                }
            }
        }
        assert forall|i: int| 0 <= i < list.len() implies costs_of(list)[(
        #[trigger] list[i]).0] == list[i].1 by {
            if i < n {
                assert(less[i] == list[i]);
                assert(list[i].0 != list[n].0);
            }
        }
    }
}

/// A list that gives the cost of each tile once stands for these costs.
proof fn listed_costs(list: Seq<(Tile, TileCost)>, tiles: Map<Tile, TileCost>)
    requires
        lists_costs(list, tiles),
    ensures
        costs_of(list) == tiles,
{
    let places = Seq::new(list.len(), |i: int| list[i].0);
    assert forall|i: int, j: int| 0 <= i < j < list.len() implies list[i].0 != list[j].0 by {
        assert(places[i] != places[j]);
    }
    costs_listed(list);
    assert forall|t: Tile| costs_of(list).contains_key(t) == tiles.contains_key(t) by {
        if tiles.contains_key(t) {
            assert(places.to_set().contains(t));
            let i = choose|i: int| 0 <= i < places.len() && places[i] == t;
            assert(list[i].0 == t);
        }
        if costs_of(list).contains_key(t) {
            let i = choose|i: int| 0 <= i < list.len() && (#[trigger] list[i]).0 == t;
            assert(places[i] == t);
            assert(places.to_set().contains(t));
        }
    }
    assert forall|t: Tile| tiles.contains_key(t) implies costs_of(list)[t] == tiles[t] by {
        assert(costs_of(list).contains_key(t));
        let i = choose|i: int| 0 <= i < list.len() && (#[trigger] list[i]).0 == t;
        assert(list[i].1 == tiles[list[i].0]);
    }
    assert(costs_of(list) =~= tiles);
}

/// Whether bytes are those of a grid: the mark, the version, and the parts in some order.
pub open spec fn is_written(data: Seq<u8>, grid: GridView) -> bool {
    exists|tiles: Seq<(Tile, TileCost)>, transitions: Seq<Tile>|
        lists_costs(tiles, grid.tiles) && lists(transitions, grid.transitions) && data
            == seq![0x54u8, 0x42u8, 0x57u8, 0x47u8, GRID_VERSION] + #[trigger] postcard_bytes(
            tiles,
            transitions,
            grid.files,
        )
}

impl WalkabilityGrid {
    /// The costs of the known tiles, in no particular order.
    fn cost_list(&self) -> (r: Vec<(Tile, TileCost)>)
        requires
            self.wf(),
        ensures
            lists_costs(r@, self.tiles()),
    {
        let list = self.tile_list();
        let mut out: Vec<(Tile, TileCost)> = Vec::new();
        let mut i: usize = 0;
        while i < list.len()
            invariant
                i <= list@.len(),
                lists(list@, self.tiles().dom()),
                out@.len() == i,
                forall|j: int|
                    0 <= j < i ==> (#[trigger] out@[j]).0 == list@[j] && out@[j].1
                        == self.tiles()[list@[j]],
            decreases list@.len() - i,
        {
            let t: Tile = list[i];
            assert(list@.to_set().contains(t));
            assert(self.tiles().contains_key(t));
            match self.cost(t.0, t.1, t.2) {
                Some(cost) => {
                    out.push((t, cost));
                },
                None => {},
            }
            i = i + 1;
        }
        assert(Seq::new(out@.len(), |i: int| out@[i].0) =~= list@);
        out
    }

    /// The bytes of the grid. They stand for the grid.
    pub fn to_bytes(&self) -> (r: Vec<u8>)
        requires
            self.wf(),
        ensures
            is_written(r@, view_of(self)),
            parsed(r@) == Ok::<GridView, GridError>(view_of(self)),
    {
        let tiles = self.cost_list();
        let transitions = self.transition_list();
        let files: u32 = self.files_loaded();
        let mut data: Vec<u8> = Vec::new();
        data.push(0x54);
        data.push(0x42);
        data.push(0x57);
        data.push(0x47);
        data.push(GRID_VERSION);
        if let Some(mut payload) = write_parts(&tiles, &transitions, files) {
            let ghost bytes = payload@;
            data.append(&mut payload);
            proof {
                assert(data@ =~= seq![0x54u8, 0x42u8, 0x57u8, 0x47u8, GRID_VERSION] + bytes);
                assert(data@.skip(5) =~= bytes);
                assert(bytes == postcard_bytes(tiles@, transitions@, view_of(self).files));
                assert(is_written(data@, view_of(self)));
                listed_costs(tiles@, self.tiles());
            }
        }
        data
    }
}

/// What is read from bytes: from those that begin with the mark `TBWG` and the version 1, what
/// follows them; from those with the mark and another version nothing, and that version is named;
/// from all others what they are in the old form. What cannot be read is told apart by whether it
/// bears the mark.
pub proof fn the_mark_decides_how_bytes_are_read(data: Seq<u8>)
    ensures
        data.len() >= 5 && data[0] == 'T' as u32 && data[1] == 'B' as u32 && data[2] == 'W' as u32
            && data[3] == 'G' as u32 && data[4] != 1 ==> parsed(data) == Err::<GridView, GridError>(
            GridError::UnsupportedVersion(data[4]),
        ),
        data.len() >= 5 && data[0] == 'T' as u32 && data[1] == 'B' as u32 && data[2] == 'W' as u32
            && data[3] == 'G' as u32 && data[4] == 1 && postcard_parts(data.skip(5)) is None
            ==> parsed(data) == Err::<GridView, GridError>(GridError::Corrupt),
        data.len() >= 5 && data[0] == 'T' as u32 && data[1] == 'B' as u32 && data[2] == 'W' as u32
            && data[3] == 'G' as u32 && data[4] == 1 && postcard_parts(data.skip(5)) is Some
            ==> parsed(data) == Ok::<GridView, GridError>(
            grid_of(postcard_parts(data.skip(5))->Some_0),
        ),
        (data.len() < 5 || data[0] != 'T' as u32 || data[1] != 'B' as u32 || data[2] != 'W' as u32
            || data[3] != 'G' as u32) && bincode_parts(data) is None ==> parsed(data) == Err::<
            GridView,
            GridError,
        >(GridError::NotAGrid),
        (data.len() < 5 || data[0] != 'T' as u32 || data[1] != 'B' as u32 || data[2] != 'W' as u32
            || data[3] != 'G' as u32) && bincode_parts(data) is Some ==> parsed(data) == Ok::<
            GridView,
            GridError,
        >(grid_of(bincode_parts(data)->Some_0)),
{
}

/// A grid that is read has the listed tiles, transitions and number of files. Of several costs of
/// one tile the last counts.
pub proof fn a_grid_has_what_its_parts_list(
    tiles: Seq<((i32, i32, i32), u8)>,
    one: ((i32, i32, i32), u8),
    transitions: Seq<(i32, i32, i32)>,
    files: u32,
    t: Tile,
)
    ensures
        grid_of((Seq::empty(), transitions, files)).tiles == Map::<Tile, TileCost>::empty(),
        grid_of((tiles.push(one), transitions, files)).tiles.contains_key(one.0),
        grid_of((tiles.push(one), transitions, files)).tiles[one.0] == one.1,
        t != one.0 ==> grid_of((tiles.push(one), transitions, files)).tiles.contains_key(t)
            == grid_of((tiles, transitions, files)).tiles.contains_key(t),
        t != one.0 && grid_of((tiles, transitions, files)).tiles.contains_key(t) ==> grid_of(
            (tiles.push(one), transitions, files),
        ).tiles[t] == grid_of((tiles, transitions, files)).tiles[t],
        grid_of((tiles, transitions, files)).transitions.contains(t) == transitions.contains(t),
        grid_of((tiles, transitions, files)).files == files,
{
    assert(tiles.push(one).drop_last() =~= tiles);
}

} // verus!

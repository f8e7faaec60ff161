//! Which tiles of the map can be walked on, and at what cost.

use std::collections::{HashMap, HashSet};

use vstd::prelude::*;
use vstd::std_specs::hash::*;
use vstd::std_specs::iter::IteratorSpec;

verus! {

broadcast use vstd::std_specs::hash::group_hash_axioms;

/// The cost of a tile: below `WALL_THRESHOLD` it can be walked on.
pub type TileCost = u8;

/// A place on the map: column, row and floor.
pub type Tile = (i32, i32, i32);

/// The cost from which on a tile is a wall.
pub const WALL_THRESHOLD: u8 = 250;

/// The most tiles that a way is looked for among: the cost of a way over all of them still fits in
/// 64 bits. No memory holds as many.
pub const TILE_LIMIT: u64 = 0x40_0000_0000_0000;

/// The number under which a tile is stored.
spec fn key_of(t: Tile) -> u128 {
    ((t.0 + 0x8000_0000) * 0x1_0000_0000_0000_0000 + (t.1 + 0x8000_0000) * 0x1_0000_0000 + (t.2
        + 0x8000_0000)) as u128
}

/// The tile that is stored under a number.
spec fn tile_of(k: u128) -> Tile {
    (
        (k / 0x1_0000_0000_0000_0000 - 0x8000_0000) as i32,
        ((k / 0x1_0000_0000) % 0x1_0000_0000 - 0x8000_0000) as i32,
        (k % 0x1_0000_0000 - 0x8000_0000) as i32,
    )
}

/// Whether a tile is stored under a number.
spec fn is_key(k: u128) -> bool {
    k < 0x1_0000_0000_0000_0000_0000_0000
}

proof fn keys_stand_for_tiles(t: Tile)
    ensures
        is_key(key_of(t)),
        tile_of(key_of(t)) == t,
{
    let a = t.0 + 0x8000_0000;
    let b = t.1 + 0x8000_0000;
    let c = t.2 + 0x8000_0000;
    let k = key_of(t) as int;
    assert(k == a * 0x1_0000_0000_0000_0000 + b * 0x1_0000_0000 + c);
    assert(k / 0x1_0000_0000_0000_0000 == a);
    assert(k / 0x1_0000_0000 == a * 0x1_0000_0000 + b);
    assert((a * 0x1_0000_0000 + b) % 0x1_0000_0000 == b);
    assert(k % 0x1_0000_0000 == c);
}

proof fn tiles_stand_for_keys(k: u128)
    requires
        is_key(k),
    ensures
        key_of(tile_of(k)) == k,
{
    let x = k / 0x1_0000_0000_0000_0000;
    let m = k / 0x1_0000_0000;
    assert(m / 0x1_0000_0000 == x);
    assert(k == m * 0x1_0000_0000 + k % 0x1_0000_0000);
    assert(m == x * 0x1_0000_0000 + m % 0x1_0000_0000);
}

fn pack(t: Tile) -> (r: u128)
    ensures
        r == key_of(t),
{
    let x: u128 = (t.0 as i64 + 0x8000_0000) as u128;
    let y: u128 = (t.1 as i64 + 0x8000_0000) as u128;
    let z: u128 = (t.2 as i64 + 0x8000_0000) as u128;
    x * 0x1_0000_0000_0000_0000 + y * 0x1_0000_0000 + z
}

fn unpack(k: u128) -> (r: Tile)
    requires
        is_key(k),
    ensures
        r == tile_of(k),
{
    let x: i64 = (k / 0x1_0000_0000_0000_0000) as i64;
    let y: i64 = ((k / 0x1_0000_0000) % 0x1_0000_0000) as i64;
    let z: i64 = (k % 0x1_0000_0000) as i64;
    ((x - 0x8000_0000) as i32, (y - 0x8000_0000) as i32, (z - 0x8000_0000) as i32)
}

/// The known tiles of the map, and those from which another floor can be reached.
#[derive(Debug)]
pub struct WalkabilityGrid {
    tiles: HashMap<u128, TileCost>,
    transitions: HashSet<u128>,
    files_loaded: u32,
}

/// Whether a tile is known and no wall.
pub open spec fn walkable(tiles: Map<Tile, TileCost>, t: Tile) -> bool {
    tiles.contains_key(t) && tiles[t] < WALL_THRESHOLD
}

impl WalkabilityGrid {
    /// The cost of each known tile.
    pub closed spec fn tiles(&self) -> Map<Tile, TileCost> {
        Map::new(
            |t: Tile| self.tiles@.contains_key(key_of(t)),
            |t: Tile| self.tiles@[key_of(t)],
        )
    }

    /// The tiles from which another floor can be reached.
    pub closed spec fn transitions(&self) -> Set<Tile> {
        Set::new(|t: Tile| self.transitions@.contains(key_of(t)))
    }

    /// How many map files were read into the grid.
    pub closed spec fn files(&self) -> u32 {
        self.files_loaded
    }

    pub closed spec fn wf(&self) -> bool {
        &&& forall|k: u128| #[trigger] self.tiles@.contains_key(k) ==> is_key(k)
        &&& forall|k: u128| #[trigger] self.transitions@.contains(k) ==> is_key(k)
    }

    /// A grid without tiles.
    pub fn new() -> (r: WalkabilityGrid)
        ensures
            r.wf(),
            r.tiles() == Map::<Tile, TileCost>::empty(),
            r.transitions() == Set::<Tile>::empty(),
            r.files() == 0,
    {
        let r = WalkabilityGrid {
            tiles: HashMap::new(),
            transitions: HashSet::new(),
            files_loaded: 0,
        };
        assert(r.tiles() =~= Map::<Tile, TileCost>::empty());
        assert(r.transitions() =~= Set::<Tile>::empty());
        r
    }

    /// How many map files were taken in.
    pub fn files_loaded(&self) -> (r: u32)
        ensures
            r == self.files(),
    {
        self.files_loaded
    }

    /// Says how many map files the grid stands for.
    pub fn set_files_loaded(&mut self, files: u32)
        requires
            old(self).wf(),
        ensures
            final(self).wf(),
            final(self).tiles() == old(self).tiles(),
            final(self).transitions() == old(self).transitions(),
            final(self).files() == files,
    {
        self.files_loaded = files;
        assert(self.tiles() =~= old(self).tiles());
        assert(self.transitions() =~= old(self).transitions());
    }

    /// Stores the cost of a tile.
    pub fn set_tile(&mut self, x: i32, y: i32, z: i32, cost: TileCost)
        requires
            old(self).wf(),
        ensures
            final(self).wf(),
            final(self).tiles() == old(self).tiles().insert((x, y, z), cost),
            final(self).transitions() == old(self).transitions(),
            final(self).files() == old(self).files(),
    {
        let t: Tile = (x, y, z);
        self.tiles.insert(pack(t), cost);
        proof {
            keys_stand_for_tiles(t);
            assert forall|u: Tile| key_of(u) == key_of(t) implies u == t by {
                keys_stand_for_tiles(u);
            }
            assert(self.tiles() =~= old(self).tiles().insert(t, cost));
            assert(self.transitions() =~= old(self).transitions());
        }
    }

    /// The cost of a tile, if it is known.
    pub fn cost(&self, x: i32, y: i32, z: i32) -> (r: Option<TileCost>)
        ensures
            r == if self.tiles().contains_key((x, y, z)) {
                Some(self.tiles()[(x, y, z)])
            } else {
                None
            },
    {
        let k: u128 = pack((x, y, z));
        match self.tiles.get(&k) {
            Some(c) => Some(*c),
            None => None,
        }
    }

    /// Whether a tile can be walked on.
    pub fn is_walkable(&self, x: i32, y: i32, z: i32) -> (r: bool)
        ensures
            r == walkable(self.tiles(), (x, y, z)),
    {
        match self.cost(x, y, z) {
            Some(c) => c < WALL_THRESHOLD,
            None => false,
        }
    }

    /// Whether a tile leads to another floor.
    pub fn is_transition(&self, x: i32, y: i32, z: i32) -> (r: bool)
        ensures
            r == self.transitions().contains((x, y, z)),
    {
        let k: u128 = pack((x, y, z));
        self.transitions.contains(&k)
    }

    /// Marks a tile as one from which another floor can be reached.
    pub fn add_transition(&mut self, x: i32, y: i32, z: i32)
        requires
            old(self).wf(),
        ensures
            final(self).wf(),
            final(self).tiles() == old(self).tiles(),
            final(self).transitions() == old(self).transitions().insert((x, y, z)),
            final(self).files() == old(self).files(),
    {
        let t: Tile = (x, y, z);
        self.transitions.insert(pack(t));
        proof {
            keys_stand_for_tiles(t);
            assert forall|u: Tile| key_of(u) == key_of(t) implies u == t by {
                keys_stand_for_tiles(u);
            }
            assert(self.transitions() =~= old(self).transitions().insert(t));
            assert(self.tiles() =~= old(self).tiles());
        }
    }

    /// Takes the mark off a tile; returns whether there was one.
    pub fn remove_transition(&mut self, x: i32, y: i32, z: i32) -> (r: bool)
        requires
            old(self).wf(),
        ensures
            final(self).wf(),
            final(self).tiles() == old(self).tiles(),
            final(self).transitions() == old(self).transitions().remove((x, y, z)),
            final(self).files() == old(self).files(),
            r == old(self).transitions().contains((x, y, z)),
    {
        let t: Tile = (x, y, z);
        let k: u128 = pack(t);
        let r = self.transitions.remove(&k);
        proof {
            keys_stand_for_tiles(t);
            assert forall|u: Tile| key_of(u) == key_of(t) implies u == t by {
                keys_stand_for_tiles(u);
            }
            assert(self.transitions() =~= old(self).transitions().remove(t));
            assert(self.tiles() =~= old(self).tiles());
        }
        r
    }
}

/// Whether a list holds each element of a set once.
pub open spec fn lists(list: Seq<Tile>, set: Set<Tile>) -> bool {
    list.no_duplicates() && list.to_set() == set
}

/// A list that holds each element of a set once is as long as the set is large.
proof fn listed_size(list: Seq<Tile>, set: Set<Tile>)
    requires
        lists(list, set),
    ensures
        set.finite(),
        set.len() == list.len(),
{
    list.unique_seq_to_set();
}

/// The tiles of a list of keys.
spec fn tiles_of(keys: Seq<u128>) -> Seq<Tile> {
    Seq::new(keys.len(), |i: int| tile_of(keys[i]))
}

proof fn keys_list_tiles(keys: Seq<u128>, set: Set<u128>, tiles: Set<Tile>)
    requires
        keys.no_duplicates(),
        keys.to_set() == set,
        forall|k: u128| #[trigger] set.contains(k) ==> is_key(k),
        forall|t: Tile| #[trigger] tiles.contains(t) == set.contains(key_of(t)),
    ensures
        lists(tiles_of(keys), tiles),
{
    let list = tiles_of(keys);
    assert forall|i: int, j: int| 0 <= i < j < list.len() implies list[i] != list[j] by {
        assert(set.contains(keys[i]) && set.contains(keys[j]));
        tiles_stand_for_keys(keys[i]);
        tiles_stand_for_keys(keys[j]);
    }
    assert forall|t: Tile| list.to_set().contains(t) == tiles.contains(t) by {
        if list.to_set().contains(t) {
            let i = choose|i: int| 0 <= i < list.len() && list[i] == t;
            assert(set.contains(keys[i]));
            tiles_stand_for_keys(keys[i]);
        }
        if tiles.contains(t) {
            assert(keys.to_set().contains(key_of(t)));
            let i = choose|i: int| 0 <= i < keys.len() && keys[i] == key_of(t);
            keys_stand_for_tiles(t);
            assert(list[i] == t);
        }
    }
    assert(list.to_set() =~= tiles);
}

impl WalkabilityGrid {
    /// The known tiles, in no particular order.
    pub fn tile_list(&self) -> (r: Vec<Tile>)
        requires
            self.wf(),
        ensures
            lists(r@, self.tiles().dom()),
    {
        let mut keys: Vec<u128> = Vec::new();
        let mut out: Vec<Tile> = Vec::new();
        let ghost all = spec_keys_iter(&self.tiles).remaining();
        for k in it: self.tiles.keys()
            invariant
                keys@ == it.seq().unref().take(it.index() as int),
                it.seq() == all,
                all.unref().to_set() == self.tiles@.dom(),
                all.no_duplicates(),
                out@ == tiles_of(keys@),
                self.wf(),
        {
            let key: u128 = *k;
            proof {
                assert(it.seq().unref()[it.index() as int] == key);
                assert(it.seq().unref().to_set().contains(key));
                assert(self.tiles@.contains_key(key));
            }
            keys.push(key);
            out.push(unpack(key));
            assert(out@ =~= tiles_of(keys@));
            assert(keys@ =~= it.seq().unref().take(it.index() as int + 1));
        }
        proof {
            assert(keys@ =~= all.unref());
            keys_list_tiles(keys@, self.tiles@.dom(), self.tiles().dom());
        }
        out
    }
}

proof fn same_size(keys: Set<u128>, tiles: Set<Tile>)
    requires
        keys.finite(),
        forall|k: u128| #[trigger] keys.contains(k) ==> is_key(k),
        forall|t: Tile| #[trigger] tiles.contains(t) == keys.contains(key_of(t)),
    ensures
        tiles.finite(),
        tiles.len() == keys.len(),
    decreases keys.len(),
{
    if keys.len() == 0 {
        assert(keys =~= Set::<u128>::empty());
        assert(tiles =~= Set::<Tile>::empty());
    } else {
        let k = keys.choose();
        assert(keys.contains(k));
        let t = tile_of(k);
        tiles_stand_for_keys(k);
        let fewer = tiles.remove(t);
        assert forall|u: Tile| #[trigger] fewer.contains(u) == keys.remove(k).contains(
            key_of(u),
        ) by {
            keys_stand_for_tiles(u);
            keys_stand_for_tiles(t);
        }
        same_size(keys.remove(k), fewer);
        assert(tiles =~= fewer.insert(t));
    }
}

proof fn one_more_taken(list: Seq<Tile>, i: int)
    requires
        0 <= i < list.len(),
        list.no_duplicates(),
    ensures
        !list.take(i).contains(list[i]),
        forall|u: Tile| #[trigger]
            list.take(i + 1).contains(u) == (list.take(i).contains(u) || u == list[i]),
{
    let less = list.take(i);
    let more = list.take(i + 1);
    assert forall|j: int| 0 <= j < less.len() implies #[trigger] less[j] != list[i] by {
        assert(less[j] == list[j]);
    }
    assert forall|u: Tile| #[trigger]
        more.contains(u) == (less.contains(u) || u == list[i]) by {
        if less.contains(u) {
            let j = choose|j: int| 0 <= j < less.len() && less[j] == u;
            assert(more[j] == u);
        }
        if u == list[i] {
            assert(more[i] == u);
        }
        if more.contains(u) && u != list[i] {
            let j = choose|j: int| 0 <= j < more.len() && more[j] == u;
            assert(less[j] == u);
        }
    }
}

/// The tile one floor up, where there is one.
pub open spec fn has_floor_above(t: Tile) -> bool {
    t.2 > i32::MIN
}

/// The tile one floor up.
pub open spec fn floor_above(t: Tile) -> Tile {
    (t.0, t.1, (t.2 - 1) as i32)
}

/// The tiles that can be walked on and lie under another such tile.
pub open spec fn stacked(tiles: Map<Tile, TileCost>) -> Set<Tile> {
    Set::new(
        |t: Tile|
            walkable(tiles, t) && has_floor_above(t) && walkable(tiles, floor_above(t)),
    )
}

/// Both tiles of each stacked pair.
pub open spec fn stacked_pairs(tiles: Map<Tile, TileCost>) -> Set<Tile> {
    Set::new(
        |t: Tile|
            stacked(tiles).contains(t) || exists|u: Tile| #[trigger]
                stacked(tiles).contains(u) && floor_above(u) == t,
    )
}

impl WalkabilityGrid {
    /// The number of known tiles.
    pub fn len(&self) -> (r: usize)
        requires
            self.wf(),
        ensures
            self.tiles().dom().finite(),
            r == self.tiles().dom().len(),
    {
        proof {
            same_size(self.tiles@.dom(), self.tiles().dom());
        }
        self.tiles.len()
    }

    /// Whether there are no tiles.
    pub fn is_empty(&self) -> (r: bool)
        requires
            self.wf(),
        ensures
            r == (self.tiles() == Map::<Tile, TileCost>::empty()),
    {
        let r = self.tiles.len() == 0;
        proof {
            same_size(self.tiles@.dom(), self.tiles().dom());
            if r {
                assert(self.tiles().dom() =~= Set::<Tile>::empty());
                assert(self.tiles() =~= Map::<Tile, TileCost>::empty());
            }
        }
        r
    }

    /// How many tiles lead to another floor.
    pub fn transitions_count(&self) -> (r: usize)
        requires
            self.wf(),
        ensures
            self.transitions().finite(),
            r == self.transitions().len(),
    {
        proof {
            let all = spec_hash_keys_iter(&self.transitions).remaining();
            vstd::seq_lib::seq_to_set_is_finite(all.unref());
            same_size(self.transitions@, self.transitions());
        }
        self.transitions.len()
    }

    /// The tiles from which another floor can be reached, in no particular order.
    pub fn transition_list(&self) -> (r: Vec<Tile>)
        requires
            self.wf(),
        ensures
            lists(r@, self.transitions()),
    {
        let mut keys: Vec<u128> = Vec::new();
        let mut out: Vec<Tile> = Vec::new();
        let ghost all = spec_hash_keys_iter(&self.transitions).remaining();
        for k in it: self.transitions.iter()
            invariant
                keys@ == it.seq().unref().take(it.index() as int),
                it.seq() == all,
                all.unref().to_set() == self.transitions@,
                all.no_duplicates(),
                out@ == tiles_of(keys@),
                self.wf(),
        {
            let key: u128 = *k;
            proof {
                assert(it.seq().unref()[it.index() as int] == key);
                assert(it.seq().unref().to_set().contains(key));
                assert(self.transitions@.contains(key));
            }
            keys.push(key);
            out.push(unpack(key));
            assert(out@ =~= tiles_of(keys@));
            assert(keys@ =~= it.seq().unref().take(it.index() as int + 1));
        }
        proof {
            assert(keys@ =~= all.unref());
            keys_list_tiles(keys@, self.transitions@, self.transitions());
        }
        out
    }

    /// Marks every two tiles that can be walked on and lie one above the other; returns how
    /// many such pairs there are, or the largest number that can be returned if there are more.
    pub fn detect_transitions(&mut self) -> (r: u32)
        requires
            old(self).wf(),
        ensures
            final(self).wf(),
            final(self).tiles() == old(self).tiles(),
            final(self).files() == old(self).files(),
            final(self).transitions() == old(self).transitions().union(
                stacked_pairs(old(self).tiles()),
            ),
            stacked(old(self).tiles()).finite(),
            r == if stacked(old(self).tiles()).len() <= u32::MAX {
                stacked(old(self).tiles()).len() as int
            } else {
                u32::MAX as int
            },
    {
        let list: Vec<Tile> = self.tile_list();
        let ghost tiles = self.tiles();
        let ghost marked = self.transitions();
        proof {
            listed_size(list@, tiles.dom());
        }
        let mut count: u32 = 0;
        let mut i: usize = 0;
        let ghost mut seen: Set<Tile> = Set::empty();
        while i < list.len()
            invariant
                i <= list@.len(),
                lists(list@, tiles.dom()),
                self.wf(),
                self.tiles() == tiles,
                self.files() == old(self).files(),
                seen.finite(),
                count == if seen.len() <= u32::MAX {
                    seen.len() as int
                } else {
                    u32::MAX as int
                },
                forall|t: Tile| #[trigger]
                    seen.contains(t) == (stacked(tiles).contains(t) && list@.take(
                        i as int,
                    ).contains(t)),
                forall|t: Tile| #[trigger]
                    self.transitions().contains(t) == (marked.contains(t) || seen.contains(t)
                        || exists|u: Tile| #[trigger] seen.contains(u) && floor_above(u) == t),
            decreases list@.len() - i,
        {
            let (x, y, z) = list[i];
            let ghost t = list@[i as int];
            let ghost before = seen;
            proof {
                one_more_taken(list@, i as int);
            }
            if z > i32::MIN && self.is_walkable(x, y, z) && self.is_walkable(x, y, z - 1) {
                self.add_transition(x, y, z);
                self.add_transition(x, y, z - 1);
                count = count.saturating_add(1);
                proof {
                    seen = seen.insert(t);
                    assert(seen.contains(t));
                    assert(floor_above(t) == (x, y, (z - 1) as i32));
                    assert forall|v: Tile| #[trigger]
                        self.transitions().contains(v) == (marked.contains(v) || seen.contains(v)
                            || exists|u: Tile| #[trigger]
                            seen.contains(u) && floor_above(u) == v) by {
                        if exists|u: Tile| #[trigger] before.contains(u) && floor_above(u) == v {
                            let u = choose|u: Tile| #[trigger]
                                before.contains(u) && floor_above(u) == v;
                            assert(seen.contains(u));
                        }
                        if exists|u: Tile| #[trigger] seen.contains(u) && floor_above(u) == v {
                            let u = choose|u: Tile| #[trigger]
                                seen.contains(u) && floor_above(u) == v;
                            assert(u == t || before.contains(u));
                        }
                    }
                }
            }
            i = i + 1;
        }
        proof {
            assert(list@.take(i as int) =~= list@);
            assert forall|t: Tile| stacked(tiles).contains(t) implies list@.contains(t) by {
                assert(list@.to_set().contains(t));
            }
            assert(seen =~= stacked(tiles));
            assert(self.transitions() =~= marked.union(stacked_pairs(tiles)));
        }
        count
    }
}

/// Looking for transitions keeps every mark, and marks no tile but those of a stacked pair, which
/// can be walked on. Looking a second time finds as many and changes nothing.
pub proof fn detection_adds_stacked_tiles_alone(
    tiles: Map<Tile, TileCost>,
    marks: Set<Tile>,
    t: Tile,
)
    ensures
        marks.contains(t) ==> marks.union(stacked_pairs(tiles)).contains(t),
        marks.union(stacked_pairs(tiles)).contains(t) && !marks.contains(t) ==> walkable(tiles, t)
            && (stacked(tiles).contains(t) || exists|u: Tile| #[trigger]
            stacked(tiles).contains(u) && floor_above(u) == t),
        marks.union(stacked_pairs(tiles)).union(stacked_pairs(tiles)) == marks.union(
            stacked_pairs(tiles),
        ),
{
    let once = marks.union(stacked_pairs(tiles));
    assert(once.union(stacked_pairs(tiles)) =~= once);
}

impl Default for WalkabilityGrid {
    fn default() -> (r: WalkabilityGrid)
        ensures
            r.wf(),
            r.tiles() == Map::<Tile, TileCost>::empty(),
            r.transitions() == Set::<Tile>::empty(),
            r.files() == 0,
    {
        WalkabilityGrid::new()
    }
}

/// A tile can be walked on exactly if it is known and costs less than a wall, which begins at 250;
/// two tiles are stacked if both can be walked on and one lies right above the other, one floor
/// number less.
pub proof fn walls_begin_at_their_cost(tiles: Map<Tile, TileCost>, x: i32, y: i32, z: i32)
    ensures
        walkable(tiles, (x, y, z)) == (tiles.contains_key((x, y, z)) && tiles[(x, y, z)] < 250),
        z > i32::MIN ==> stacked(tiles).contains((x, y, z)) == (tiles.contains_key((x, y, z))
            && tiles[(x, y, z)] < 250 && tiles.contains_key((x, y, (z - 1) as i32)) && tiles[(
            x,
            y,
            (z - 1) as i32,
        )] < 250),
        z == i32::MIN ==> !stacked(tiles).contains((x, y, z)),
        i32::MIN < z < i32::MAX ==> stacked_pairs(tiles).contains((x, y, z)) == (stacked(
            tiles,
        ).contains((x, y, z)) || stacked(tiles).contains((x, y, (z + 1) as i32))),
{
    let t = (x, y, z);
    if i32::MIN < z < i32::MAX {
        let below = (x, y, (z + 1) as i32);
        assert(floor_above(below) == t);
        if exists|u: Tile| #[trigger] stacked(tiles).contains(u) && floor_above(u) == t {
            let u = choose|u: Tile| #[trigger] stacked(tiles).contains(u) && floor_above(u) == t;
            assert(u == below);
        }
    }
}

} // verus!

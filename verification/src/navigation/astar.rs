//! The cheapest way from tile to tile, over several floors.

use vstd::prelude::*;

use crate::navigation::walkability::{
    floor_above, stacked, stacked_pairs, walkable, Tile, TileCost, WalkabilityGrid, TILE_LIMIT,
    WALL_THRESHOLD,
};

verus! {

/// How many tiles a search looks at before it gives up.
pub const DEFAULT_MAX_ITERS: usize = 100_000;

/// What a change of floor costs beside the tile that is stepped on.
pub const FLOOR_CHANGE_PENALTY: u64 = 500;

/// The least cost of a tile on the maps of the game.
pub const MIN_TILE_COST: u64 = 90;

/// A way from tile to tile.
#[derive(Clone, Debug)]
pub struct Path {
    /// The tiles from the start to the goal, both of them listed.
    pub tiles: Vec<Tile>,
    /// The cost of all steps.
    pub total_cost: u64,
    /// How many tiles the search looked at.
    pub nodes_expanded: usize,
}

/// The distance of two numbers.
pub open spec fn distance(a: int, b: int) -> int {
    if a >= b {
        a - b
    } else {
        b - a
    }
}

/// The least that a way between two tiles can cost where no tile costs less than
/// `MIN_TILE_COST`.
pub open spec fn least_cost(a: Tile, b: Tile) -> int {
    (distance(a.0 as int, b.0 as int) + distance(a.1 as int, b.1 as int)) * MIN_TILE_COST
        + distance(a.2 as int, b.2 as int) * (MIN_TILE_COST + FLOOR_CHANGE_PENALTY)
}

fn apart(a: i32, b: i32) -> (r: u64)
    ensures
        r == distance(a as int, b as int),
{
    if a >= b {
        (a as i64 - b as i64) as u64
    } else {
        (b as i64 - a as i64) as u64
    }
}

/// See `least_cost`.
pub fn heuristic(a: Tile, b: Tile) -> (r: u64)
    ensures
        r == least_cost(a, b),
{
    let flat: u64 = apart(a.0, b.0) + apart(a.1, b.1);
    let tall: u64 = apart(a.2, b.2);
    proof {
        let low = MIN_TILE_COST as int;
        let high = MIN_TILE_COST + FLOOR_CHANGE_PENALTY;
        assert(0 <= flat * low == 90 * flat && 0 <= tall * high == 590 * tall) by (nonlinear_arith)
            requires
                low == 90,
                high == 590,
                flat >= 0,
                tall >= 0,
        ;
    }
    flat * MIN_TILE_COST + tall * (MIN_TILE_COST + FLOOR_CHANGE_PENALTY)
}

/// Whether one step leads from `a` to `b`: to one of the four sides, or to the floor above or
/// below where both tiles are marked as transitions.
pub open spec fn adjacent(transitions: Set<Tile>, a: Tile, b: Tile) -> bool {
    ||| a.2 == b.2 && distance(a.0 as int, b.0 as int) + distance(a.1 as int, b.1 as int) == 1
    ||| a.0 == b.0 && a.1 == b.1 && distance(a.2 as int, b.2 as int) == 1 && transitions.contains(a)
        && transitions.contains(b)
}

/// Whether a step can be taken.
pub open spec fn can_step(
    tiles: Map<Tile, TileCost>,
    transitions: Set<Tile>,
    a: Tile,
    b: Tile,
) -> bool {
    adjacent(transitions, a, b) && walkable(tiles, b)
}

/// What a step costs.
pub open spec fn step_cost(tiles: Map<Tile, TileCost>, a: Tile, b: Tile) -> int {
    if a.2 != b.2 {
        tiles[b] + FLOOR_CHANGE_PENALTY
    } else {
        tiles[b] as int
    }
}

/// The step to `b`, if it can be taken.
pub open spec fn step_to(tiles: Map<Tile, TileCost>, a: Tile, b: Tile) -> Seq<(Tile, u64)> {
    if walkable(tiles, b) {
        seq![(b, step_cost(tiles, a, b) as u64)]
    } else {
        Seq::empty()
    }
}

/// Whether there is a tile at a distance along one axis.
pub open spec fn reaches(v: i32, by: int) -> bool {
    i32::MIN <= v + by <= i32::MAX
}

/// The steps that can be taken from a tile.
pub open spec fn steps_from(
    tiles: Map<Tile, TileCost>,
    transitions: Set<Tile>,
    a: Tile,
) -> Seq<(Tile, u64)> {
    let north = (a.0, (a.1 - 1) as i32, a.2);
    let south = (a.0, (a.1 + 1) as i32, a.2);
    let west = ((a.0 - 1) as i32, a.1, a.2);
    let east = ((a.0 + 1) as i32, a.1, a.2);
    let up = (a.0, a.1, (a.2 - 1) as i32);
    let down = (a.0, a.1, (a.2 + 1) as i32);
    let crosses = transitions.contains(a);
    stepped(tiles, a, north, reaches(a.1, -1)) + stepped(tiles, a, south, reaches(a.1, 1))
        + stepped(tiles, a, west, reaches(a.0, -1)) + stepped(tiles, a, east, reaches(a.0, 1))
        + stepped(tiles, a, up, crosses && reaches(a.2, -1) && transitions.contains(up))
        + stepped(tiles, a, down, crosses && reaches(a.2, 1) && transitions.contains(down))
}

/// The step to `b` where it is there to be taken.
pub open spec fn stepped(tiles: Map<Tile, TileCost>, a: Tile, b: Tile, there: bool) -> Seq<
    (Tile, u64),
> {
    if there {
        step_to(tiles, a, b)
    } else {
        Seq::empty()
    }
}

fn push_step(out: &mut Vec<(Tile, u64)>, grid: &WalkabilityGrid, a: Tile, b: Tile)
    ensures
        final(out)@ == old(out)@ + step_to(grid.tiles(), a, b),
{
    if let Some(cost) = grid.cost(b.0, b.1, b.2) {
        if cost < WALL_THRESHOLD {
            let price: u64 = if b.2 != a.2 {
                cost as u64 + FLOOR_CHANGE_PENALTY
            } else {
                cost as u64
            };
            out.push((b, price));
        }
    }
    assert(out@ =~= old(out)@ + step_to(grid.tiles(), a, b));
}

/// The steps that can be taken from a tile, with their costs.
pub fn successors(tile: Tile, grid: &WalkabilityGrid) -> (r: Vec<(Tile, u64)>)
    ensures
        r@ == steps_from(grid.tiles(), grid.transitions(), tile),
{
    let (x, y, z) = tile;
    let mut out: Vec<(Tile, u64)> = Vec::new();
    if y > i32::MIN {
        push_step(&mut out, grid, tile, (x, y - 1, z));
    }
    if y < i32::MAX {
        push_step(&mut out, grid, tile, (x, y + 1, z));
    }
    if x > i32::MIN {
        push_step(&mut out, grid, tile, (x - 1, y, z));
    }
    if x < i32::MAX {
        push_step(&mut out, grid, tile, (x + 1, y, z));
    }
    if grid.is_transition(x, y, z) {
        if z > i32::MIN && grid.is_transition(x, y, z - 1) {
            push_step(&mut out, grid, tile, (x, y, z - 1));
        }
        if z < i32::MAX && grid.is_transition(x, y, z + 1) {
            push_step(&mut out, grid, tile, (x, y, z + 1));
        }
    }
    assert(out@ =~= steps_from(grid.tiles(), grid.transitions(), tile));
    out
}

/// A step is listed exactly if it can be taken, at its cost.
pub proof fn listed_steps_can_be_taken(
    tiles: Map<Tile, TileCost>,
    transitions: Set<Tile>,
    a: Tile,
    b: Tile,
    cost: u64,
)
    ensures
        steps_from(tiles, transitions, a).contains((b, cost)) == (can_step(
            tiles,
            transitions,
            a,
            b,
        ) && cost == step_cost(tiles, a, b)),
{
    let north: Tile = (a.0, (a.1 - 1) as i32, a.2);
    let south: Tile = (a.0, (a.1 + 1) as i32, a.2);
    let west: Tile = ((a.0 - 1) as i32, a.1, a.2);
    let east: Tile = ((a.0 + 1) as i32, a.1, a.2);
    let up: Tile = (a.0, a.1, (a.2 - 1) as i32);
    let down: Tile = (a.0, a.1, (a.2 + 1) as i32);
    let crosses = transitions.contains(a);
    let s1 = stepped(tiles, a, north, reaches(a.1, -1));
    let s2 = s1 + stepped(tiles, a, south, reaches(a.1, 1));
    let s3 = s2 + stepped(tiles, a, west, reaches(a.0, -1));
    let s4 = s3 + stepped(tiles, a, east, reaches(a.0, 1));
    let s5 = s4 + stepped(tiles, a, up, crosses && reaches(a.2, -1) && transitions.contains(up));
    let one = (b, cost);
    one_stepped(Seq::empty(), tiles, a, north, reaches(a.1, -1), one);
    assert(Seq::<(Tile, u64)>::empty() + s1 =~= s1);
    one_stepped(s1, tiles, a, south, reaches(a.1, 1), one);
    one_stepped(s2, tiles, a, west, reaches(a.0, -1), one);
    one_stepped(s3, tiles, a, east, reaches(a.0, 1), one);
    one_stepped(
        s4,
        tiles,
        a,
        up,
        crosses && reaches(a.2, -1) && transitions.contains(up),
        one,
    );
    one_stepped(
        s5,
        tiles,
        a,
        down,
        crosses && reaches(a.2, 1) && transitions.contains(down),
        one,
    );
}

proof fn one_stepped(
    s: Seq<(Tile, u64)>,
    tiles: Map<Tile, TileCost>,
    a: Tile,
    b: Tile,
    there: bool,
    one: (Tile, u64),
)
    ensures
        (s + stepped(tiles, a, b, there)).contains(one) == (s.contains(one) || (there && walkable(
            tiles,
            b,
        ) && one == (b, step_cost(tiles, a, b) as u64))),
{
    let more = s + stepped(tiles, a, b, there);
    if s.contains(one) {
        let i = choose|i: int| 0 <= i < s.len() && s[i] == one;
        assert(more[i] == one);
    }
    if there && walkable(tiles, b) {
        assert(more[s.len() as int] == (b, step_cost(tiles, a, b) as u64));
    }
    if more.contains(one) && !s.contains(one) {
        let i = choose|i: int| 0 <= i < more.len() && more[i] == one;
        if i < s.len() {
            assert(s[i] == one);
        }
    }
}

/// Whether each tile of a list but the first is one step from the one before it.
pub open spec fn is_walk(
    tiles: Map<Tile, TileCost>,
    transitions: Set<Tile>,
    path: Seq<Tile>,
) -> bool {
    forall|i: int| 1 <= i < path.len() ==> can_step(tiles, transitions, path[i - 1], #[trigger] path[i])
}

/// Whether a list of tiles is a way from `start` to `goal`.
pub open spec fn leads(
    tiles: Map<Tile, TileCost>,
    transitions: Set<Tile>,
    path: Seq<Tile>,
    start: Tile,
    goal: Tile,
) -> bool {
    path.len() > 0 && path[0] == start && path.last() == goal && is_walk(tiles, transitions, path)
}

/// The cost of all steps of a way.
pub open spec fn path_cost(tiles: Map<Tile, TileCost>, path: Seq<Tile>) -> int
    decreases path.len(),
{
    if path.len() <= 1 {
        0
    } else {
        path_cost(tiles, path.drop_last()) + step_cost(tiles, path[path.len() - 2], path.last())
    }
}

/// Whether no tile that can be walked on costs less than on the maps of the game.
pub open spec fn costs_as_on_maps(tiles: Map<Tile, TileCost>) -> bool {
    forall|t: Tile| walkable(tiles, t) ==> #[trigger] tiles[t] >= MIN_TILE_COST
}

/// The count of the tiles that a search looked at, and its limit.
#[derive(Clone, Copy, Debug, PartialEq, Eq, Structural)]
pub struct Expansion {
    pub limit: usize,
    pub expanded: usize,
    pub exhausted: bool,
}

impl Expansion {
    /// The count never exceeds the limit.
    pub open spec fn wf(&self) -> bool {
        self.expanded <= self.limit
    }

    /// The steps from the next tile that the search looks at; none where that tile would exceed
    /// the limit, and none from then on.
    pub fn expand(&mut self, tile: Tile, grid: &WalkabilityGrid) -> (r: Vec<(Tile, u64)>)
        requires
            old(self).wf(),
        ensures
            final(self).wf(),
            final(self).limit == old(self).limit,
            old(self).exhausted ==> *final(self) == *old(self) && r@.len() == 0,
            !old(self).exhausted ==> {
                &&& final(self).exhausted == (old(self).expanded >= old(self).limit)
                &&& final(self).expanded == if final(self).exhausted {
                    old(self).expanded as int
                } else {
                    old(self).expanded + 1
                }
                &&& r@ == if final(self).exhausted {
                    Seq::empty()
                } else {
                    steps_from(grid.tiles(), grid.transitions(), tile)
                }
            },
    {
        if self.exhausted {
            return Vec::new();
        }
        if self.expanded >= self.limit {
            self.exhausted = true;
            return Vec::new();
        }
        self.expanded = self.expanded + 1;
        successors(tile, grid)
    }
}

fn is_goal(tile: Tile, goal: Tile) -> (r: bool)
    ensures
        r == (tile == goal),
{
    tile.0 == goal.0 && tile.1 == goal.1 && tile.2 == goal.2
}

/// What a search with a limit finds: the tiles and the cost of a way, if it finds one, how many
/// tiles it looks at, and whether it would have looked at more than the limit.
pub uninterp spec fn astar_outcome(
    start: (i32, i32, i32),
    goal: (i32, i32, i32),
    tiles: Map<(i32, i32, i32), u8>,
    transitions: Set<(i32, i32, i32)>,
    limit: usize,
) -> (Option<(Seq<(i32, i32, i32)>, u64)>, usize, bool);

/// Whether a search with any larger limit comes to the same.
pub open spec fn outcome_stays(
    start: Tile,
    goal: Tile,
    tiles: Map<Tile, TileCost>,
    transitions: Set<Tile>,
    limit: usize,
) -> bool {
    forall|more: usize|
        more >= limit ==> #[trigger] astar_outcome(start, goal, tiles, transitions, more)
            == astar_outcome(start, goal, tiles, transitions, limit)
}

/// `pathfinding::directed::astar::astar` over the steps of a grid. What it returns depends on
/// the tiles, the transitions and the limit alone. A returned list leads from the start to the
/// goal, passes no tile twice, and costs no more than the returned cost. Unless the limit was
/// too low, nothing is returned only if no way exists, and, where costs are as on the maps, the
/// returned cost is exact and no way is cheaper. Where costs are as on the maps no tile is
/// looked at twice. Unless the limit was too low, a larger one leads to the same outcome.
#[verifier::external_body]
fn search(start: Tile, goal: Tile, grid: &WalkabilityGrid, budget: &mut Expansion) -> (r: Option<
    (Vec<Tile>, u64),
>)
    requires
        grid.wf(),
        grid.tiles().dom().len() <= TILE_LIMIT,
        walkable(grid.tiles(), start),
        start != goal,
        old(budget).expanded == 0,
        !old(budget).exhausted,
    ensures
        final(budget).limit == old(budget).limit,
        final(budget).wf(),
        final(budget).expanded == astar_outcome(
            start,
            goal,
            grid.tiles(),
            grid.transitions(),
            old(budget).limit,
        ).1,
        final(budget).exhausted == astar_outcome(
            start,
            goal,
            grid.tiles(),
            grid.transitions(),
            old(budget).limit,
        ).2,
        (r is Some) == (astar_outcome(
            start,
            goal,
            grid.tiles(),
            grid.transitions(),
            old(budget).limit,
        ).0 is Some),
        r matches Some(found) ==> astar_outcome(
            start,
            goal,
            grid.tiles(),
            grid.transitions(),
            old(budget).limit,
        ).0 == Some((found.0@, found.1)),
        r matches Some(found) ==> leads(grid.tiles(), grid.transitions(), found.0@, start, goal)
            && found.0@.no_duplicates() && path_cost(grid.tiles(), found.0@) <= found.1,
        r matches Some(found) ==> (!final(budget).exhausted && costs_as_on_maps(grid.tiles())
            ==> path_cost(grid.tiles(), found.0@) == found.1 && forall|other: Seq<Tile>|
            #![trigger path_cost(grid.tiles(), other)]
            leads(grid.tiles(), grid.transitions(), other, start, goal) ==> path_cost(
                grid.tiles(),
                other,
            ) >= found.1),
        r is None && !final(budget).exhausted ==> forall|other: Seq<Tile>|
            !leads(grid.tiles(), grid.transitions(), other, start, goal),
        costs_as_on_maps(grid.tiles()) && grid.tiles().dom().len() <= old(budget).limit
            ==> !final(budget).exhausted,
        !final(budget).exhausted ==> outcome_stays(
            start,
            goal,
            grid.tiles(),
            grid.transitions(),
            old(budget).limit,
        ),
{
    pathfinding::directed::astar::astar(
        &start,
        |tile| budget.expand(*tile, grid),
        |tile| heuristic(*tile, goal),
        |tile| is_goal(*tile, goal),
    )
}

/// The way that a search found, unless its limit was too low.
pub fn path_from(found: Option<(Vec<Tile>, u64)>, budget: Expansion) -> (r: Option<Path>)
    ensures
        (r is Some) == (found is Some && !budget.exhausted),
        r matches Some(path) ==> path.tiles == found->Some_0.0 && path.total_cost
            == found->Some_0.1 && path.nodes_expanded == budget.expanded,
{
    if budget.exhausted {
        return None;
    }
    match found {
        Some((tiles, total_cost)) => Some(
            Path { tiles, total_cost, nodes_expanded: budget.expanded },
        ),
        None => None,
    }
}

/// Whether two tiles can be searched for a way between them.
pub open spec fn searchable(tiles: Map<Tile, TileCost>, start: Tile, goal: Tile) -> bool {
    start != goal && walkable(tiles, start) && walkable(tiles, goal)
}

/// A cheapest way from `start` to `goal`, if a search that looks at `max_iters` tiles at
/// most finds one.
pub fn find_path_with_limit(start: Tile, goal: Tile, grid: &WalkabilityGrid, max_iters: usize) -> (r:
    Option<Path>)
    requires
        grid.wf(),
        grid.tiles().dom().len() <= TILE_LIMIT,
    ensures
        is_searched(start, goal, grid, max_iters, r),
        r matches Some(path) ==> path.nodes_expanded <= max_iters,
        r matches Some(path) ==> leads(
            grid.tiles(),
            grid.transitions(),
            path.tiles@,
            start,
            goal,
        ) && path.tiles@.no_duplicates() && path_cost(grid.tiles(), path.tiles@)
            <= path.total_cost,
        r matches Some(path) ==> (costs_as_on_maps(grid.tiles()) ==> is_cheapest(
            grid,
            path,
            start,
            goal,
        )),
        r is None && searchable(grid.tiles(), start, goal) && costs_as_on_maps(grid.tiles())
            && grid.tiles().dom().len() <= max_iters ==> forall|other: Seq<Tile>|
            !leads(grid.tiles(), grid.transitions(), other, start, goal),
{
    if is_goal(start, goal) {
        let mut tiles: Vec<Tile> = Vec::new();
        tiles.push(start);
        assert(tiles@ =~= seq![start]);
        proof {
            assert forall|other: Seq<Tile>|
                #![trigger path_cost(grid.tiles(), other)]
                leads(grid.tiles(), grid.transitions(), other, start, goal) implies path_cost(
                grid.tiles(),
                other,
            ) >= 0 by {
                costs_are_not_negative(grid.tiles(), other);
            }
        }
        return Some(Path { tiles, total_cost: 0, nodes_expanded: 0 });
    }
    if !grid.is_walkable(start.0, start.1, start.2) {
        return None;
    }
    if !grid.is_walkable(goal.0, goal.1, goal.2) {
        return None;
    }
    let mut budget = Expansion { limit: max_iters, expanded: 0, exhausted: false };
    let found = search(start, goal, grid, &mut budget);
    path_from(found, budget)
}

/// Whether a search with the given outcome gave the given result: none if its limit was too
/// low.
pub open spec fn found_within(
    outcome: (Option<(Seq<Tile>, u64)>, usize, bool),
    r: Option<Path>,
) -> bool {
    match r {
        Some(path) => !outcome.2 && outcome.0 == Some((path.tiles@, path.total_cost))
            && path.nodes_expanded == outcome.1,
        None => outcome.2 || outcome.0 is None,
    }
}

/// Whether a search with a limit comes to this: a tile is its own way, a wall is on none, and
/// elsewhere the outcome decides, which no larger limit changes once a way was found.
pub open spec fn is_searched(
    start: Tile,
    goal: Tile,
    grid: &WalkabilityGrid,
    limit: usize,
    r: Option<Path>,
) -> bool {
    if start == goal {
        r matches Some(path) && path.tiles@ == seq![start] && path.total_cost == 0
            && path.nodes_expanded == 0
    } else if !searchable(grid.tiles(), start, goal) {
        r is None
    } else {
        &&& found_within(
            astar_outcome(start, goal, grid.tiles(), grid.transitions(), limit),
            r,
        )
        &&& r is Some ==> outcome_stays(
            start,
            goal,
            grid.tiles(),
            grid.transitions(),
            limit,
        )
    }
}

/// Whether a way costs what it says, and no other way costs less.
pub open spec fn is_cheapest(
    grid: &WalkabilityGrid,
    path: Path,
    start: Tile,
    goal: Tile,
) -> bool {
    path_cost(grid.tiles(), path.tiles@) == path.total_cost && forall|other: Seq<Tile>|
        #![trigger path_cost(grid.tiles(), other)]
        leads(grid.tiles(), grid.transitions(), other, start, goal) ==> path_cost(
            grid.tiles(),
            other,
        ) >= path.total_cost
}

proof fn costs_are_not_negative(tiles: Map<Tile, TileCost>, path: Seq<Tile>)
    ensures
        path_cost(tiles, path) >= 0,
    decreases path.len(),
{
    if path.len() > 1 {
        costs_are_not_negative(tiles, path.drop_last());
    }
}

/// A cheapest way from `start` to `goal`, if a search of the default size finds one.
pub fn find_path(start: Tile, goal: Tile, grid: &WalkabilityGrid) -> (r: Option<Path>)
    requires
        grid.wf(),
        grid.tiles().dom().len() <= TILE_LIMIT,
    ensures
        is_searched(start, goal, grid, DEFAULT_MAX_ITERS, r),
        r matches Some(path) ==> path.nodes_expanded <= DEFAULT_MAX_ITERS,
        r matches Some(path) ==> path.nodes_expanded <= 100_000,
        r matches Some(path) ==> leads(
            grid.tiles(),
            grid.transitions(),
            path.tiles@,
            start,
            goal,
        ) && path.tiles@.no_duplicates() && path_cost(grid.tiles(), path.tiles@)
            <= path.total_cost,
        r matches Some(path) ==> (costs_as_on_maps(grid.tiles()) ==> is_cheapest(
            grid,
            path,
            start,
            goal,
        )),
        r is None && searchable(grid.tiles(), start, goal) && costs_as_on_maps(grid.tiles())
            && grid.tiles().dom().len() <= DEFAULT_MAX_ITERS ==> forall|other: Seq<Tile>|
            !leads(grid.tiles(), grid.transitions(), other, start, goal),
{
    find_path_with_limit(start, goal, grid, DEFAULT_MAX_ITERS)
}

proof fn apart_adds_up(a: int, b: int, c: int)
    ensures
        distance(a, c) <= distance(a, b) + distance(b, c),
{
}

proof fn least_cost_adds_up(a: Tile, b: Tile, c: Tile)
    ensures
        least_cost(a, c) <= least_cost(a, b) + least_cost(b, c),
{
    let low = MIN_TILE_COST as int;
    let high = MIN_TILE_COST + FLOOR_CHANGE_PENALTY;
    let f1 = distance(a.0 as int, b.0 as int) + distance(a.1 as int, b.1 as int);
    let f2 = distance(b.0 as int, c.0 as int) + distance(b.1 as int, c.1 as int);
    let f = distance(a.0 as int, c.0 as int) + distance(a.1 as int, c.1 as int);
    let t1 = distance(a.2 as int, b.2 as int);
    let t2 = distance(b.2 as int, c.2 as int);
    let t = distance(a.2 as int, c.2 as int);
    assert(f * low + t * high <= (f1 * low + t1 * high) + (f2 * low + t2 * high))
        by (nonlinear_arith)
        requires
            f <= f1 + f2,
            t <= t1 + t2,
            low == 90,
            high == 590,
    ;
}

/// Where costs are as on the maps, no way costs less than the estimate for its ends.
pub proof fn estimate_is_never_too_high(
    tiles: Map<Tile, TileCost>,
    transitions: Set<Tile>,
    path: Seq<Tile>,
    start: Tile,
    goal: Tile,
)
    requires
        costs_as_on_maps(tiles),
        leads(tiles, transitions, path, start, goal),
    ensures
        least_cost(start, goal) <= path_cost(tiles, path),
    decreases path.len(),
{
    let low = MIN_TILE_COST as int;
    let high = MIN_TILE_COST + FLOOR_CHANGE_PENALTY;
    if path.len() == 1 {
        assert(0 * low + 0 * high == 0) by (nonlinear_arith);
    } else {
        let less = path.drop_last();
        let n = path.len() as int;
        let a = path[n - 2];
        let b = path[n - 1];
        assert(can_step(tiles, transitions, path[n - 1 - 1], path[n - 1]));
        assert(is_walk(tiles, transitions, less)) by {
            assert forall|i: int| 1 <= i < less.len() implies can_step(
                tiles,
                transitions,
                less[i - 1],
                #[trigger] less[i],
            ) by {
                assert(less[i] == path[i] && less[i - 1] == path[i - 1]);
                assert(can_step(tiles, transitions, path[i - 1], path[i]));
            }
        }
        estimate_is_never_too_high(tiles, transitions, less, start, a);
        least_cost_adds_up(start, a, b);
        assert(tiles[b] >= MIN_TILE_COST);
        let f = distance(a.0 as int, b.0 as int) + distance(a.1 as int, b.1 as int);
        let t = distance(a.2 as int, b.2 as int);
        assert(f * low + t * high == 90 * f + 590 * t) by (nonlinear_arith)
            requires
                low == 90,
                high == 590,
        ;
    }
}

/// Which way a number goes.
pub open spec fn sign(from: i32, to: i32) -> int {
    if to > from {
        1
    } else if to < from {
        -1
    } else {
        0
    }
}

/// The direction of the step to the tile at place `i`.
pub open spec fn heading(path: Seq<Tile>, i: int) -> (int, int, int) {
    (
        sign(path[i - 1].0, path[i].0),
        sign(path[i - 1].1, path[i].1),
        sign(path[i - 1].2, path[i].2),
    )
}

/// A list with a tile at its end, unless that tile is there already.
pub open spec fn ending_in(list: Seq<Tile>, t: Tile) -> Seq<Tile> {
    if list.len() > 0 && list.last() == t {
        list
    } else {
        list.push(t)
    }
}

/// The first tile and the corners among the first `n` steps of a way.
pub open spec fn corners(path: Seq<Tile>, n: int) -> Seq<Tile>
    decreases n,
{
    if n <= 1 {
        seq![path[0]]
    } else if heading(path, n) != heading(path, n - 1) {
        ending_in(corners(path, n - 1), path[n - 1])
    } else {
        corners(path, n - 1)
    }
}

/// A way reduced to its ends and the tiles at which it turns.
pub open spec fn simplified(path: Seq<Tile>) -> Seq<Tile> {
    if path.len() <= 2 {
        path
    } else {
        ending_in(corners(path, path.len() - 1), path.last())
    }
}

fn sign_of(from: i32, to: i32) -> (r: i8)
    ensures
        r == sign(from, to),
{
    if to > from {
        1
    } else if to < from {
        -1
    } else {
        0
    }
}

fn push_end(out: &mut Vec<Tile>, t: Tile)
    requires
        old(out)@.len() > 0,
    ensures
        final(out)@ == ending_in(old(out)@, t),
{
    let last: Tile = out[out.len() - 1];
    if !is_goal(last, t) {
        out.push(t);
    }
}

/// Reduces a way to its ends and the tiles at which it turns.
pub fn simplify_path(path: &[Tile]) -> (r: Vec<Tile>)
    ensures
        r@ == simplified(path@),
{
    let n: usize = path.len();
    let mut out: Vec<Tile> = Vec::new();
    if n <= 2 {
        let mut i: usize = 0;
        while i < n
            invariant
                i <= n == path@.len(),
                out@ == path@.take(i as int),
            decreases n - i,
        {
            out.push(path[i]);
            i = i + 1;
            assert(out@ =~= path@.take(i as int));
        }
        assert(path@.take(i as int) =~= path@);
        return out;
    }
    out.push(path[0]);
    assert(out@ =~= corners(path@, 1));
    let mut last = (
        sign_of(path[0].0, path[1].0),
        sign_of(path[0].1, path[1].1),
        sign_of(path[0].2, path[1].2),
    );
    let mut i: usize = 2;
    while i < n
        invariant
            2 <= i <= n == path@.len(),
            out@ == corners(path@, i - 1),
            out@.len() > 0,
            (last.0 as int, last.1 as int, last.2 as int) == heading(path@, i - 1),
        decreases n - i,
    {
        let dir = (
            sign_of(path[i - 1].0, path[i].0),
            sign_of(path[i - 1].1, path[i].1),
            sign_of(path[i - 1].2, path[i].2),
        );
        if dir.0 != last.0 || dir.1 != last.1 || dir.2 != last.2 {
            push_end(&mut out, path[i - 1]);
        }
        last = dir;
        i = i + 1;
    }
    push_end(&mut out, path[n - 1]);
    out
}

/// A reduced way keeps both ends, holds only tiles of the way, and, of a way of more than two
/// tiles, repeats none.
pub proof fn simplified_keeps_the_ends(path: Seq<Tile>)
    requires
        path.len() > 0,
    ensures
        simplified(path).len() > 0,
        simplified(path)[0] == path[0],
        simplified(path).last() == path.last(),
        simplified(path).len() <= path.len(),
        forall|i: int| 0 <= i < simplified(path).len() ==> path.contains(#[trigger] simplified(path)[i]),
        path.len() > 2 ==> forall|i: int|
            1 <= i < simplified(path).len() ==> simplified(path)[i - 1] != #[trigger] simplified(
                path,
            )[i],
{
    if path.len() > 2 {
        corners_are_tiles(path, path.len() - 1);
        assert(path[path.len() - 1] == path.last());
    }
}

proof fn corners_are_tiles(path: Seq<Tile>, n: int)
    requires
        1 <= n < path.len(),
    ensures
        0 < corners(path, n).len() <= n,
        corners(path, n)[0] == path[0],
        forall|i: int| 0 <= i < corners(path, n).len() ==> path.contains(#[trigger] corners(path, n)[i]),
        forall|i: int|
            1 <= i < corners(path, n).len() ==> corners(path, n)[i - 1] != #[trigger] corners(
                path,
                n,
            )[i],
    decreases n,
{
    if n <= 1 {
        assert(path.contains(path[0]));
    } else {
        corners_are_tiles(path, n - 1);
        assert(path.contains(path[n - 1]));
    }
}

/// A way that never turns is reduced to its ends.
pub proof fn straight_ways_have_no_corners(path: Seq<Tile>)
    requires
        path.len() > 2,
        path[0] != path.last(),
        forall|i: int| 1 < i < path.len() ==> #[trigger] heading(path, i) == heading(path, 1),
    ensures
        simplified(path) == seq![path[0], path.last()],
{
    no_corners(path, path.len() - 1);
    assert(simplified(path) =~= seq![path[0], path.last()]);
}

proof fn no_corners(path: Seq<Tile>, n: int)
    requires
        1 <= n < path.len(),
        forall|i: int| 1 < i < path.len() ==> #[trigger] heading(path, i) == heading(path, 1),
    ensures
        corners(path, n) == seq![path[0]],
    decreases n,
{
    if n > 1 {
        assert(heading(path, n) == heading(path, 1));
        if n - 1 > 1 {
            assert(heading(path, n - 1) == heading(path, 1));
        }
        no_corners(path, n - 1);
    }
}

proof fn corners_stay(path: Seq<Tile>, i: int, n: int, t: Tile)
    requires
        1 <= i <= n < path.len(),
        corners(path, i).contains(t),
    ensures
        corners(path, n).contains(t),
    decreases n,
{
    if i < n {
        corners_stay(path, i, n - 1, t);
        let less = corners(path, n - 1);
        let k = choose|k: int| 0 <= k < less.len() && less[k] == t;
        assert(corners(path, n)[k] == t);
    }
}

/// Every tile at which a way turns is kept, so a reduced way skips no change of floor.
pub proof fn turns_are_kept(path: Seq<Tile>, i: int)
    requires
        1 <= i < path.len() - 1,
        heading(path, i) != heading(path, i + 1),
    ensures
        simplified(path).contains(path[i]),
{
    let there = corners(path, i + 1);
    corners_are_tiles(path, i);
    assert(there == ending_in(corners(path, i), path[i]));
    assert(there[there.len() - 1] == path[i]);
    corners_stay(path, i + 1, path.len() - 1, path[i]);
    let all = corners(path, path.len() - 1);
    let k = choose|k: int| 0 <= k < all.len() && all[k] == path[i];
    assert(simplified(path)[k] == path[i]);
}

/// After the detection a step leads from each of two stacked tiles to the other.
pub proof fn stacked_tiles_are_connected(
    tiles: Map<Tile, TileCost>,
    before: Set<Tile>,
    transitions: Set<Tile>,
    t: Tile,
)
    requires
        transitions == before.union(stacked_pairs(tiles)),
        stacked(tiles).contains(t),
    ensures
        can_step(tiles, transitions, t, floor_above(t)),
        can_step(tiles, transitions, floor_above(t), t),
{
    assert(stacked_pairs(tiles).contains(floor_above(t)));
}

/// Whatever a search finds, one with a larger limit finds too: the same tiles, at the same cost,
/// after looking at as many.
pub proof fn a_larger_limit_finds_the_same(
    start: Tile,
    goal: Tile,
    grid: &WalkabilityGrid,
    low: usize,
    high: usize,
    found: Path,
    again: Option<Path>,
)
    requires
        low <= high,
        is_searched(start, goal, grid, low, Some(found)),
        is_searched(start, goal, grid, high, again),
    ensures
        again matches Some(path) && path.tiles@ == found.tiles@ && path.total_cost
            == found.total_cost && path.nodes_expanded == found.nodes_expanded,
{
    if start != goal {
        let tiles = grid.tiles();
        let transitions = grid.transitions();
        assert(astar_outcome(start, goal, tiles, transitions, high) == astar_outcome(
            start,
            goal,
            tiles,
            transitions,
            low,
        ));
    }
}

/// A step before a way adds its cost.
proof fn cost_of_a_first_step(tiles: Map<Tile, TileCost>, a: Tile, path: Seq<Tile>)
    requires
        path.len() > 0,
    ensures
        path_cost(tiles, seq![a] + path) == step_cost(tiles, a, path[0]) + path_cost(tiles, path),
    decreases path.len(),
{
    let whole = seq![a] + path;
    if path.len() == 1 {
        assert(whole.drop_last() =~= seq![a]);
        assert(whole[whole.len() - 2] == a && whole.last() == path[0]);
        assert(path_cost(tiles, whole.drop_last()) == 0);
    } else {
        let rest = path.drop_last();
        assert(whole.drop_last() =~= seq![a] + rest);
        cost_of_a_first_step(tiles, a, rest);
        assert(whole[whole.len() - 2] == path[path.len() - 2] && whole.last() == path.last());
    }
}

/// A way can be walked back, for the cost of its first tile in place of that of its last.
proof fn a_way_leads_back(
    tiles: Map<Tile, TileCost>,
    transitions: Set<Tile>,
    path: Seq<Tile>,
)
    requires
        path.len() > 0,
        walkable(tiles, path[0]),
        is_walk(tiles, transitions, path),
    ensures
        is_walk(tiles, transitions, path.reverse()),
        path_cost(tiles, path.reverse()) + tiles[path.last()] == path_cost(tiles, path)
            + tiles[path[0]],
    decreases path.len(),
{
    let back = path.reverse();
    assert forall|i: int| 1 <= i < back.len() implies can_step(
        tiles,
        transitions,
        back[i - 1],
        #[trigger] back[i],
    ) by {
        let j = path.len() - i;
        assert(can_step(tiles, transitions, path[j - 1], path[j]));
        if j - 1 > 0 {
            assert(can_step(tiles, transitions, path[j - 2], path[j - 1]));
        }
    }
    if path.len() == 1 {
        assert(back =~= path);
    } else {
        let rest = path.drop_last();
        assert forall|i: int| 1 <= i < rest.len() implies can_step(
            tiles,
            transitions,
            rest[i - 1],
            #[trigger] rest[i],
        ) by {
            assert(can_step(tiles, transitions, path[i - 1], path[i]));
        }
        a_way_leads_back(tiles, transitions, rest);
        assert(back =~= seq![path.last()] + rest.reverse());
        cost_of_a_first_step(tiles, path.last(), rest.reverse());
        assert(rest.reverse()[0] == rest.last());
    }
}

/// A cheapest way back costs what a cheapest way there does, but for the cost of the tile that each
/// of them ends on.
pub proof fn the_way_back_costs_the_same(
    grid: &WalkabilityGrid,
    start: Tile,
    goal: Tile,
    there: Path,
    back: Path,
)
    requires
        walkable(grid.tiles(), start),
        walkable(grid.tiles(), goal),
        leads(grid.tiles(), grid.transitions(), there.tiles@, start, goal),
        leads(grid.tiles(), grid.transitions(), back.tiles@, goal, start),
        is_cheapest(grid, there, start, goal),
        is_cheapest(grid, back, goal, start),
    ensures
        there.total_cost + grid.tiles()[start] == back.total_cost + grid.tiles()[goal],
{
    let tiles = grid.tiles();
    let transitions = grid.transitions();
    a_way_leads_back(tiles, transitions, there.tiles@);
    a_way_leads_back(tiles, transitions, back.tiles@);
    assert(leads(tiles, transitions, there.tiles@.reverse(), goal, start));
    assert(leads(tiles, transitions, back.tiles@.reverse(), start, goal));
    assert(path_cost(tiles, there.tiles@.reverse()) >= back.total_cost);
    assert(path_cost(tiles, back.tiles@.reverse()) >= there.total_cost);
}

/// A step leads to the next tile in one of the four directions, or to the tile right above or below
/// where both are transitions, and only to a tile that can be walked on. It costs what that tile
/// costs, and 500 more from floor to floor.
pub proof fn a_step_leads_to_a_neighbour(
    tiles: Map<Tile, TileCost>,
    transitions: Set<Tile>,
    a: Tile,
    b: Tile,
)
    ensures
        can_step(tiles, transitions, a, b) == (tiles.contains_key(b) && tiles[b] < 250 && ((a.2
            == b.2 && a.1 == b.1 && (b.0 == a.0 + 1 || b.0 == a.0 - 1)) || (a.2 == b.2 && a.0 == b.0
            && (b.1 == a.1 + 1 || b.1 == a.1 - 1)) || (a.0 == b.0 && a.1 == b.1 && (b.2 == a.2 + 1
            || b.2 == a.2 - 1) && transitions.contains(a) && transitions.contains(b)))),
        a.2 == b.2 ==> step_cost(tiles, a, b) == tiles[b],
        a.2 != b.2 ==> step_cost(tiles, a, b) == tiles[b] + 500,
{
}

/// The cost of a way is that of its steps: none for a single tile, and for one more tile that of
/// the step to it.
pub proof fn the_cost_of_a_way_is_that_of_its_steps(
    tiles: Map<Tile, TileCost>,
    path: Seq<Tile>,
    a: Tile,
    b: Tile,
)
    ensures
        path_cost(tiles, seq![a]) == 0,
        path_cost(tiles, path.push(a).push(b)) == path_cost(tiles, path.push(a)) + tiles[b] + (
        if a.2 != b.2 {
            500int
        } else {
            0
        }),
{
    let whole = path.push(a).push(b);
    assert(whole.drop_last() =~= path.push(a));
    assert(whole[whole.len() - 2] == a);
}

/// The estimate counts 90 for each tile of distance on a floor and 590 for each floor, whichever
/// way it is taken, and nothing for no distance.
pub proof fn the_estimate_counts_distances(a: Tile, b: Tile, dx: nat, dy: nat, dz: nat)
    requires
        a.0 - b.0 == dx || b.0 - a.0 == dx,
        a.1 - b.1 == dy || b.1 - a.1 == dy,
        a.2 - b.2 == dz || b.2 - a.2 == dz,
    ensures
        least_cost(a, b) == 90 * dx + 90 * dy + 590 * dz,
        least_cost(a, b) == least_cost(b, a),
        least_cost(a, a) == 0,
{
}

/// A search goes out only from a tile that can be walked on to another that can; from a tile to
/// itself leads that tile alone, at no cost.
pub proof fn a_search_needs_both_ends(
    start: Tile,
    goal: Tile,
    grid: &WalkabilityGrid,
    limit: usize,
    r: Option<Path>,
)
    requires
        is_searched(start, goal, grid, limit, r),
    ensures
        start == goal ==> r is Some && r->0.tiles@ == seq![start] && r->0.total_cost == 0,
        start != goal && !(grid.tiles().contains_key(start) && grid.tiles()[start] < 250)
            ==> r is None,
        start != goal && !(grid.tiles().contains_key(goal) && grid.tiles()[goal] < 250)
            ==> r is None,
        start != goal && grid.tiles().contains_key(start) && grid.tiles()[start] < 250
            && grid.tiles().contains_key(goal) && grid.tiles()[goal] < 250 ==> (r is Some) == (
        astar_outcome(start, goal, grid.tiles(), grid.transitions(), limit).0 is Some
            && !astar_outcome(start, goal, grid.tiles(), grid.transitions(), limit).2),
{
}

/// The direction of a step along each axis is that of the change, whatever its size.
pub proof fn a_heading_follows_the_change(path: Seq<Tile>, i: int)
    requires
        1 <= i < path.len(),
    ensures
        (heading(path, i).0 > 0) == (path[i].0 > path[i - 1].0),
        (heading(path, i).0 < 0) == (path[i].0 < path[i - 1].0),
        (heading(path, i).1 > 0) == (path[i].1 > path[i - 1].1),
        (heading(path, i).1 < 0) == (path[i].1 < path[i - 1].1),
        (heading(path, i).2 > 0) == (path[i].2 > path[i - 1].2),
        (heading(path, i).2 < 0) == (path[i].2 < path[i - 1].2),
        -1 <= heading(path, i).0 <= 1,
        -1 <= heading(path, i).1 <= 1,
        -1 <= heading(path, i).2 <= 1,
{
}

proof fn straight_corners(path: Seq<Tile>, n: int)
    requires
        1 <= n < path.len(),
        forall|i: int| 1 <= i < path.len() ==> #[trigger] heading(path, i) == heading(path, 1),
    ensures
        corners(path, n) == seq![path[0]],
    decreases n,
{
    if n > 1 {
        straight_corners(path, n - 1);
        assert(heading(path, n) == heading(path, 1));
        assert(heading(path, n - 1) == heading(path, 1));
    }
}

/// A straight way is reduced to its two ends.
pub proof fn a_straight_way_has_two_ends(path: Seq<Tile>)
    requires
        path.len() >= 2,
        path[0] != path.last(),
        forall|i: int| 1 <= i < path.len() ==> #[trigger] heading(path, i) == heading(path, 1),
    ensures
        simplified(path) == seq![path[0], path.last()],
{
    if path.len() == 2 {
        assert(path =~= seq![path[0], path.last()]);
    } else {
        straight_corners(path, path.len() - 1);
        assert(simplified(path) =~= seq![path[0], path.last()]);
    }
}

} // verus!

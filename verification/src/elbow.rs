//! Elbow arrow routing using A* pathfinding.
//!
//! Creates right-angle paths between two points with minimal turns.
//! Uses departure/arrival waypoints to ensure clean entry/exit angles.

use vstd::prelude::*;

verus! {

/// Size of one grid cell, in canvas units.
pub const CELL_SIZE: i64 = 20;

/// Largest coordinate magnitude the router accepts.  The bound keeps every
/// intermediate quantity (grid coordinates, Manhattan distances, and the
/// cubed turn penalty used as an edge cost) well inside the machine integer
/// ranges.
pub const MAX_COORD: i64 = 100_000;

/// Upper bound on the turn penalty accepted by the search helpers, so that
/// `1 + penalty^3` fits in a `u64`.
pub const MAX_TURN_PENALTY: u64 = 1_000_000;

/// A point on the canvas, in integer canvas units.
#[derive(Clone, Copy, Debug, PartialEq, Eq, Structural)]
pub struct Point {
    pub x: i64,
    pub y: i64,
}

impl Point {
    pub fn new(x: i64, y: i64) -> (p: Point)
        ensures
            p == (Point { x, y }),
    {
        Point { x, y }
    }
}

/// A point whose coordinates the router accepts.
pub open spec fn in_bounds(p: Point) -> bool {
    -MAX_COORD <= p.x <= MAX_COORD && -MAX_COORD <= p.y <= MAX_COORD
}

/// Cardinal direction for orthogonal movement.  `Unset` is the sentinel for
/// "no prior direction", used only before the first move of a search.
#[derive(Clone, Copy, Debug, Eq, Hash, PartialEq, Structural)]
pub enum Heading {
    Up,
    Down,
    Left,
    Right,
    Unset,
}

/// The exact opposite of a heading; `Unset` has no opposite.
pub open spec fn reverse_spec(h: Heading) -> Heading {
    match h {
        Heading::Up => Heading::Down,
        Heading::Down => Heading::Up,
        Heading::Left => Heading::Right,
        Heading::Right => Heading::Left,
        Heading::Unset => Heading::Unset,
    }
}

impl Heading {
    pub fn reverse(&self) -> (r: Heading)
        ensures
            r == reverse_spec(*self),
    {
        match self {
            Heading::Up => Heading::Down,
            Heading::Down => Heading::Up,
            Heading::Left => Heading::Right,
            Heading::Right => Heading::Left,
            Heading::Unset => Heading::Unset,
        }
    }
}

/// Grid cell with current heading for A* state.  The heading is part of the
/// state so that turn costs can be charged correctly: the same position
/// reached with a different heading is a distinct search state.
#[derive(Clone, Copy, Debug, Eq, Hash, PartialEq, Structural)]
pub struct Cell {
    pub x: i32,
    pub y: i32,
    pub heading: Heading,
}

impl Cell {
    pub fn new(x: i32, y: i32, heading: Heading) -> (c: Cell)
        ensures
            c == (Cell { x, y, heading }),
    {
        Cell { x, y, heading }
    }
}

pub open spec fn abs_int(v: int) -> int {
    if v >= 0 {
        v
    } else {
        -v
    }
}

pub open spec fn manhattan_spec(x1: int, y1: int, x2: int, y2: int) -> int {
    abs_int(x1 - x2) + abs_int(y1 - y2)
}

/// Manhattan distance between two grid positions.
pub fn manhattan(x1: i32, y1: i32, x2: i32, y2: i32) -> (d: u64)
    ensures
        d == manhattan_spec(x1 as int, y1 as int, x2 as int, y2 as int),
{
    let dx: i64 = (x1 as i64) - (x2 as i64);
    let dy: i64 = (y1 as i64) - (y2 as i64);
    let ax: i64 = if dx >= 0 {
        dx
    } else {
        -dx
    };
    let ay: i64 = if dy >= 0 {
        dy
    } else {
        -dy
    };
    (ax + ay) as u64
}

/// The grid index of a canvas coordinate: the coordinate divided by
/// `CELL_SIZE`, rounded to the nearest integer with ties away from zero.
pub open spec fn grid_of(v: int) -> int {
    if v >= 0 {
        (v + CELL_SIZE / 2) / (CELL_SIZE as int)
    } else {
        -((-v + CELL_SIZE / 2) / (CELL_SIZE as int))
    }
}

/// Snap a canvas coordinate to its grid index.
pub fn to_grid(v: i64) -> (g: i32)
    requires
        -MAX_COORD <= v <= MAX_COORD,
    ensures
        g == grid_of(v as int),
{
    let half: u64 = (CELL_SIZE / 2) as u64;
    let cell: u64 = CELL_SIZE as u64;
    if v >= 0 {
        let q: u64 = (v as u64 + half) / cell;
        q as i32
    } else {
        let q: u64 = ((-v) as u64 + half) / cell;
        -(q as i32)
    }
}

/// Map a grid index back to the canvas coordinate of its cell origin.
pub fn from_grid(g: i32) -> (v: i64)
    ensures
        v == CELL_SIZE * (g as int),
{
    (g as i64) * CELL_SIZE
}

/// The cell one step from `c` in direction `m`, entered with heading `m`.
pub open spec fn step_cell(c: Cell, m: Heading) -> Cell {
    match m {
        Heading::Up => Cell { x: c.x, y: (c.y - 1) as i32, heading: m },
        Heading::Down => Cell { x: c.x, y: (c.y + 1) as i32, heading: m },
        Heading::Left => Cell { x: (c.x - 1) as i32, y: c.y, heading: m },
        Heading::Right => Cell { x: (c.x + 1) as i32, y: c.y, heading: m },
        Heading::Unset => Cell { x: c.x, y: c.y, heading: m },
    }
}

/// Cost of moving in direction `m` out of a cell whose heading is `h`:
/// 1 for a straight continuation (or for the very first move, when `h` is
/// still `Unset`), and `1 + tp^3` for a turn.
pub open spec fn move_cost(h: Heading, m: Heading, tp: int) -> int {
    if h == Heading::Unset || h == m {
        1
    } else {
        1 + tp * tp * tp
    }
}

/// The candidate moves out of a cell with heading `h`, in the fixed probe
/// order Up, Down, Left, Right, with the exact reverse of `h` pruned: the
/// path may never immediately backtrack.
pub open spec fn allowed_moves(h: Heading) -> Seq<Heading> {
    match h {
        Heading::Unset => seq![Heading::Up, Heading::Down, Heading::Left, Heading::Right],
        Heading::Up => seq![Heading::Up, Heading::Left, Heading::Right],
        Heading::Down => seq![Heading::Down, Heading::Left, Heading::Right],
        Heading::Left => seq![Heading::Up, Heading::Down, Heading::Left],
        Heading::Right => seq![Heading::Up, Heading::Down, Heading::Right],
    }
}

pub open spec fn neighbor_entry(c: Cell, m: Heading, tp: int) -> (Cell, u64) {
    (step_cell(c, m), move_cost(c.heading, m, tp) as u64)
}

/// The successor states of a search cell, with their edge costs.
pub open spec fn neighbors_spec(c: Cell, tp: int) -> Seq<(Cell, u64)> {
    allowed_moves(c.heading).map_values(|m: Heading| neighbor_entry(c, m, tp))
}

/// Successor states for the A* search: the 4 cardinal moves, minus the one
/// that would reverse the current heading, each with its edge cost.
pub fn neighbors(cell: &Cell, turn_penalty: u64) -> (r: Vec<(Cell, u64)>)
    requires
        i32::MIN < cell.x < i32::MAX,
        i32::MIN < cell.y < i32::MAX,
        turn_penalty <= MAX_TURN_PENALTY,
    ensures
        r@ == neighbors_spec(*cell, turn_penalty as int),
{
    proof {
        assert(turn_penalty * turn_penalty <= 1_000_000_000_000 && turn_penalty * turn_penalty
            * turn_penalty <= 1_000_000_000_000_000_000) by (nonlinear_arith)
            requires
                turn_penalty <= 1_000_000,
        ;
    }
    let turn_cost: u64 = 1 + turn_penalty * turn_penalty * turn_penalty;
    let rev = cell.heading.reverse();
    let mut r: Vec<(Cell, u64)> = Vec::new();
    if rev != Heading::Up {
        let cost: u64 = if cell.heading == Heading::Unset || cell.heading == Heading::Up {
            1
        } else {
            turn_cost
        };
        r.push((Cell::new(cell.x, cell.y - 1, Heading::Up), cost));
    }
    if rev != Heading::Down {
        let cost: u64 = if cell.heading == Heading::Unset || cell.heading == Heading::Down {
            1
        } else {
            turn_cost
        };
        r.push((Cell::new(cell.x, cell.y + 1, Heading::Down), cost));
    }
    if rev != Heading::Left {
        let cost: u64 = if cell.heading == Heading::Unset || cell.heading == Heading::Left {
            1
        } else {
            turn_cost
        };
        r.push((Cell::new(cell.x - 1, cell.y, Heading::Left), cost));
    }
    if rev != Heading::Right {
        let cost: u64 = if cell.heading == Heading::Unset || cell.heading == Heading::Right {
            1
        } else {
            turn_cost
        };
        r.push((Cell::new(cell.x + 1, cell.y, Heading::Right), cost));
    }
    proof {
        assert(r@ =~= neighbors_spec(*cell, turn_penalty as int));
    }
    r
}

/// The heuristic for a cell: its Manhattan distance to the goal, plus a
/// squared turn penalty when the cell is aligned with the goal on neither
/// axis, so that at least one more turn is unavoidable.
pub open spec fn estimate_spec(c: Cell, ex: int, ey: int, tp: int) -> int {
    manhattan_spec(c.x as int, c.y as int, ex, ey) + if c.x == ex || c.y == ey {
        0
    } else {
        tp * tp
    }
}

/// A* heuristic: distance to the goal plus a penalty for a still-unavoidable
/// turn.
pub fn estimate(cell: &Cell, ex: i32, ey: i32, turn_penalty: u64) -> (h: u64)
    requires
        turn_penalty <= MAX_TURN_PENALTY,
    ensures
        h == estimate_spec(*cell, ex as int, ey as int, turn_penalty as int),
{
    proof {
        assert(turn_penalty * turn_penalty <= 1_000_000_000_000) by (nonlinear_arith)
            requires
                turn_penalty <= 1_000_000,
        ;
    }
    let dist = manhattan(cell.x, cell.y, ex, ey);
    if cell.x == ex || cell.y == ey {
        dist
    } else {
        dist + turn_penalty * turn_penalty
    }
}

/// The goal test: the grid position matches; the heading at the goal is
/// unconstrained.
fn is_goal(cell: &Cell, ex: i32, ey: i32) -> (b: bool)
    ensures
        b == (cell.x == ex && cell.y == ey),
{
    cell.x == ex && cell.y == ey
}

/// One legal search step: `b` is one cell away from `a` in the direction of
/// `b`'s heading, and that direction is not the exact reverse of `a`'s.
pub open spec fn step_ok(a: Cell, b: Cell) -> bool {
    b.heading != Heading::Unset && b.heading != reverse_spec(a.heading) && b == step_cell(
        a,
        b.heading,
    )
}

pub uninterp spec fn astar_route(start: Cell, ex: i32, ey: i32, turn_penalty: u64) -> Option<
    Seq<Cell>,
>;

/// Relies on `pathfinding::prelude::astar`: the returned path begins at the
/// start node, every later node comes from the successors closure applied to
/// the node before it, and the final node passes the success closure; `None`
/// comes back only when the search exhausts the frontier.  The search reads
/// no clock, no randomness and no seeded hasher (a `BinaryHeap` and an
/// insertion-ordered map with a fixed hasher), so its outcome is a function
/// of the arguments alone, named `astar_route` here.
#[verifier::external_body]
fn astar_search(start: &Cell, ex: i32, ey: i32, turn_penalty: u64) -> (r: Option<Vec<Cell>>)
    requires
        -100_000 < start.x < 100_000,
        -100_000 < start.y < 100_000,
        -100_000 < ex < 100_000,
        -100_000 < ey < 100_000,
        turn_penalty <= MAX_TURN_PENALTY,
    ensures
        (match r {
            Some(p) => astar_route(*start, ex, ey, turn_penalty) == Some(p@),
            None => astar_route(*start, ex, ey, turn_penalty) is None,
        }),
        r matches Some(p) ==> p@.len() >= 1 && p@[0] == *start && p@[p@.len() - 1].x == ex
            && p@[p@.len() - 1].y == ey && (forall|i: int|
            0 < i < p@.len() ==> #[trigger] step_ok(p@[i - 1], p@[i])),
{
    pathfinding::prelude::astar(
        start,
        |c: &Cell| neighbors(c, turn_penalty),
        |c: &Cell| estimate(c, ex, ey, turn_penalty),
        |c: &Cell| is_goal(c, ex, ey),
    ).map(|t| t.0)
}

/// Whether the cell at `i` of a search path marks a turn: its heading
/// differs from the previous cell's, and the previous heading was a real
/// direction (the very first move is never itself a turn).
pub open spec fn is_corner(path: Seq<Cell>, i: int) -> bool {
    path[i - 1].heading != path[i].heading && path[i - 1].heading != Heading::Unset
}

/// A corner coordinate snapped to a true waypoint coordinate when its grid
/// index matches the first or last cell of the path; the checks run in that
/// order, so a match with the last cell wins.
pub open spec fn snap_coord(g: int, first_g: int, last_g: int, sv: int, ev: int) -> int {
    if g == last_g {
        ev
    } else if g == first_g {
        sv
    } else {
        CELL_SIZE * g
    }
}

/// The corner point emitted for path index `i`, snapped against the true
/// departure point `s` and arrival point `e`.
pub open spec fn corner_at(path: Seq<Cell>, i: int, s: Point, e: Point) -> Point {
    Point {
        x: snap_coord(
            path[i].x as int,
            path[0].x as int,
            path[path.len() - 1].x as int,
            s.x as int,
            e.x as int,
        ) as i64,
        y: snap_coord(
            path[i].y as int,
            path[0].y as int,
            path[path.len() - 1].y as int,
            s.y as int,
            e.y as int,
        ) as i64,
    }
}

/// The corner points among the cells of `path` before index `n`.
pub open spec fn corners_upto(path: Seq<Cell>, s: Point, e: Point, n: int) -> Seq<Point>
    decreases n,
{
    if n <= 1 {
        Seq::empty()
    } else {
        corners_upto(path, s, e, n - 1) + if is_corner(path, n - 1) {
            seq![corner_at(path, n - 1, s, e)]
        } else {
            Seq::empty()
        }
    }
}

/// All corner points of a search path: one for every interior cell where
/// the heading changes.
pub open spec fn corners_spec(path: Seq<Cell>, s: Point, e: Point) -> Seq<Point> {
    corners_upto(path, s, e, path.len() - 1)
}

/// Reduce a raw cell path to its direction-change corner points, snapping
/// coordinates that line up with the path's first or last cell to the true
/// (non-quantized) departure/arrival coordinates.
pub fn extract_corners(path: &Vec<Cell>, start: Point, end: Point) -> (r: Vec<Point>)
    requires
        path@.len() >= 1,
    ensures
        r@ == corners_spec(path@, start, end),
{
    let n = path.len();
    let first = path[0];
    let last = path[n - 1];
    let mut corners: Vec<Point> = Vec::new();
    let mut i: usize = 1;
    while i < n - 1
        invariant
            1 <= i,
            n == path@.len(),
            1 <= n,
            n >= 2 ==> i <= n - 1,
            n == 1 ==> i == 1,
            first == path@[0],
            last == path@[n - 1],
            corners@ == corners_upto(path@, start, end, i as int),
        decreases n - i,
    {
        let prev_heading = path[i - 1].heading;
        if prev_heading != path[i].heading && prev_heading != Heading::Unset {
            let gx = path[i].x;
            let gy = path[i].y;
            let mut cx = from_grid(gx);
            let mut cy = from_grid(gy);
            if gx == first.x {
                cx = start.x;
            }
            if gy == first.y {
                cy = start.y;
            }
            if gx == last.x {
                cx = end.x;
            }
            if gy == last.y {
                cy = end.y;
            }
            corners.push(Point { x: cx, y: cy });
            proof {
                assert(corners@ =~= corners_upto(path@, start, end, i + 1));
            }
        } else {
            proof {
                assert(corners@ =~= corners_upto(path@, start, end, i + 1));
            }
        }
        i = i + 1;
    }
    corners
}

/// The midpoint of two coordinates, with the exact division truncated
/// toward zero.
pub open spec fn mid_trunc(a: int, b: int) -> int {
    if a + b >= 0 {
        (a + b) / 2
    } else {
        -((-(a + b)) / 2)
    }
}

fn mid_coord(a: i64, b: i64) -> (m: i64)
    requires
        -MAX_COORD <= a <= MAX_COORD,
        -MAX_COORD <= b <= MAX_COORD,
    ensures
        m == mid_trunc(a as int, b as int),
        -MAX_COORD <= m <= MAX_COORD,
{
    let s = a + b;
    if s >= 0 {
        ((s as u64) / 2) as i64
    } else {
        -(((-s) as u64 / 2) as i64)
    }
}

/// Two points whose direct segment is already effectively axis-aligned:
/// the travel on one of the axes is smaller than a grid cell.
pub open spec fn aligned_spec(s: Point, e: Point) -> bool {
    abs_int(e.x - s.x) < CELL_SIZE || abs_int(e.y - s.y) < CELL_SIZE
}

/// The departure heading: toward the end point along the dominant axis of
/// travel, preferring horizontal on ties.
pub open spec fn heading_spec(s: Point, e: Point) -> Heading {
    let dx = e.x - s.x;
    let dy = e.y - s.y;
    if abs_int(dx) >= abs_int(dy) {
        if dx > 0 {
            Heading::Right
        } else {
            Heading::Left
        }
    } else if dy > 0 {
        Heading::Down
    } else {
        Heading::Up
    }
}

pub open spec fn horizontal(h: Heading) -> bool {
    h == Heading::Left || h == Heading::Right
}

/// The departure waypoint: a perpendicular "dongle" off the start point,
/// centered between the endpoints on the axis of travel.
pub open spec fn departure_spec(s: Point, e: Point) -> Point {
    if horizontal(heading_spec(s, e)) {
        Point { x: mid_trunc(s.x as int, e.x as int) as i64, y: s.y }
    } else {
        Point { x: s.x, y: mid_trunc(s.y as int, e.y as int) as i64 }
    }
}

/// The arrival waypoint: the matching dongle off the end point.
pub open spec fn arrival_spec(s: Point, e: Point) -> Point {
    if horizontal(heading_spec(s, e)) {
        Point { x: mid_trunc(s.x as int, e.x as int) as i64, y: e.y }
    } else {
        Point { x: e.x, y: mid_trunc(s.y as int, e.y as int) as i64 }
    }
}

/// Derive the departure and arrival waypoints and the departure heading,
/// or `None` when the two points are already effectively aligned on one
/// axis and no intermediate points are needed.
pub fn derive_waypoints(start: Point, end: Point) -> (r: Option<(Point, Point, Heading)>)
    requires
        in_bounds(start),
        in_bounds(end),
    ensures
        (r is None) == aligned_spec(start, end),
        r matches Some(w) ==> w.0 == departure_spec(start, end) && w.1 == arrival_spec(start, end)
            && w.2 == heading_spec(start, end) && in_bounds(w.0) && in_bounds(w.1),
{
    let dx = end.x - start.x;
    let dy = end.y - start.y;
    let adx: i64 = if dx >= 0 {
        dx
    } else {
        -dx
    };
    let ady: i64 = if dy >= 0 {
        dy
    } else {
        -dy
    };
    if adx < CELL_SIZE {
        return None;  // Vertical line
    }
    if ady < CELL_SIZE {
        return None;  // Horizontal line
    }
    let heading = if adx >= ady {
        if dx > 0 {
            Heading::Right
        } else {
            Heading::Left
        }
    } else if dy > 0 {
        Heading::Down
    } else {
        Heading::Up
    };
    match heading {
        Heading::Right | Heading::Left => {
            // Horizontal departure: dongles at the horizontal midpoint
            let mid_x = mid_coord(start.x, end.x);
            Some(
                (Point { x: mid_x, y: start.y }, Point { x: mid_x, y: end.y }, heading),
            )
        },
        _ => {
            // Vertical departure: dongles at the vertical midpoint
            let mid_y = mid_coord(start.y, end.y);
            Some(
                (Point { x: start.x, y: mid_y }, Point { x: end.x, y: mid_y }, heading),
            )
        },
    }
}

/// The route between two waypoints: when their quantized cells share a row
/// or column they already form a single straight segment; otherwise the A*
/// search runs and its cell path is reduced to corner points.
pub open spec fn route_between_spec(dep: Point, arr: Point, h: Heading) -> Option<Seq<Point>> {
    let sx = grid_of(dep.x as int);
    let sy = grid_of(dep.y as int);
    let ex = grid_of(arr.x as int);
    let ey = grid_of(arr.y as int);
    if sx == ex || sy == ey {
        Some(seq![dep, arr])
    } else {
        let tp = manhattan_spec(sx, sy, ex, ey);
        match astar_route(
            Cell { x: sx as i32, y: sy as i32, heading: h },
            ex as i32,
            ey as i32,
            tp as u64,
        ) {
            Some(p) => Some(seq![dep] + corners_spec(p, dep, arr) + seq![arr]),
            None => Option::<Seq<Point>>::None,
        }
    }
}

/// Route between two waypoints with a given departure heading.  Returns the
/// ordered points departure, corners..., arrival; `None` only if the search
/// gives up, which cannot happen on an unbounded grid.
pub fn route_between(departure: Point, arrival: Point, heading: Heading) -> (r: Option<Vec<Point>>)
    requires
        in_bounds(departure),
        in_bounds(arrival),
    ensures
        (match r {
            Some(v) => route_between_spec(departure, arrival, heading) == Some(v@),
            None => route_between_spec(departure, arrival, heading) is None,
        }),
{
    let sx = to_grid(departure.x);
    let sy = to_grid(departure.y);
    let ex = to_grid(arrival.x);
    let ey = to_grid(arrival.y);
    // If waypoints are aligned, just return them
    if sx == ex || sy == ey {
        let mut v: Vec<Point> = Vec::new();
        v.push(departure);
        v.push(arrival);
        proof {
            assert(v@ =~= seq![departure, arrival]);
        }
        return Some(v);
    }
    let turn_penalty = manhattan(sx, sy, ex, ey);
    let start_cell = Cell::new(sx, sy, heading);
    match astar_search(&start_cell, ex, ey, turn_penalty) {
        Some(path) => {
            // Build result: departure + corners + arrival
            let corners = extract_corners(&path, departure, arrival);
            let mut out: Vec<Point> = Vec::new();
            out.push(departure);
            let mut j: usize = 0;
            while j < corners.len()
                invariant
                    j <= corners@.len(),
                    out@ == seq![departure] + corners@.subrange(0, j as int),
                decreases corners@.len() - j,
            {
                out.push(corners[j]);
                proof {
                    assert(out@ =~= seq![departure] + corners@.subrange(0, j + 1));
                }
                j = j + 1;
            }
            out.push(arrival);
            proof {
                assert(corners@.subrange(0, corners@.len() as int) =~= corners@);
                assert(out@ =~= seq![departure] + corners@ + seq![arrival]);
            }
            Some(out)
        },
        None => None,
    }
}

/// The routed point sequence for a pair of endpoints: empty when the direct
/// segment is already effectively axis-aligned, else the two waypoints,
/// which always share their dongle coordinate and so form one straight
/// connector between the two perpendicular stubs.
pub open spec fn elbow_spec(s: Point, e: Point) -> Seq<Point> {
    if aligned_spec(s, e) {
        Seq::empty()
    } else {
        seq![departure_spec(s, e), arrival_spec(s, e)]
    }
}

/// A segment of the drawn connector that is axis-aligned and not
/// degenerate: its two endpoints share exactly one coordinate.
pub open spec fn axis_aligned_step(a: Point, b: Point) -> bool {
    (a.x == b.x && a.y != b.y) || (a.y == b.y && a.x != b.x)
}

/// The full polyline the caller draws: the start point, the routed
/// waypoints, and the end point.
pub open spec fn chain_spec(s: Point, e: Point) -> Seq<Point> {
    seq![s] + elbow_spec(s, e) + seq![e]
}

/// The midpoint of two coordinates at least one grid cell apart lies
/// strictly between them.
proof fn lemma_mid_strictly_between(a: int, b: int)
    requires
        abs_int(b - a) >= CELL_SIZE,
    ensures
        a < b ==> a < mid_trunc(a, b) < b,
        b < a ==> b < mid_trunc(a, b) < a,
{
    let s = a + b;
    if s >= 0 {
        assert(s == 2 * (s / 2) + s % 2);
    } else {
        assert(-s == 2 * ((-s) / 2) + (-s) % 2);
    }
}

/// Axis-alignment: whenever the router returns waypoints, every
/// consecutive pair of the drawn connector start, departure, arrival, end
/// shares exactly one coordinate — no segment is diagonal and none is
/// degenerate.  (When the router returns no waypoints the lone direct
/// segment need not be axis-aligned: the endpoints merely lie within one
/// grid cell of alignment.)
pub proof fn lemma_axis_alignment(start: Point, end: Point)
    requires
        in_bounds(start),
        in_bounds(end),
        !aligned_spec(start, end),
    ensures
        chain_spec(start, end).len() == 4,
        forall|i: int|
            0 <= i && i + 1 < chain_spec(start, end).len() ==> axis_aligned_step(
                #[trigger] chain_spec(start, end)[i],
                chain_spec(start, end)[i + 1],
            ),
{
    if horizontal(heading_spec(start, end)) {
        lemma_mid_strictly_between(start.x as int, end.x as int);
    } else {
        lemma_mid_strictly_between(start.y as int, end.y as int);
    }
    let c = chain_spec(start, end);
    assert(c[0] == start && c[1] == departure_spec(start, end) && c[2] == arrival_spec(start, end)
        && c[3] == end);
}

/// Three consecutive connector points that double back: the middle segment
/// retraces the previous one along the same axis in the opposite direction.
pub open spec fn doubles_back(a: Point, b: Point, c: Point) -> bool {
    (a.y == b.y && b.y == c.y && ((b.x > a.x && c.x < b.x) || (b.x < a.x && c.x > b.x))) || (a.x
        == b.x && b.x == c.x && ((b.y > a.y && c.y < b.y) || (b.y < a.y && c.y > b.y)))
}

/// No-U-turn: no three consecutive points of the drawn connector reverse
/// direction along the same axis, for any pair of endpoints.  (Without
/// waypoints the connector has a single segment and no three consecutive
/// points at all.)
pub proof fn lemma_no_uturn(start: Point, end: Point)
    requires
        in_bounds(start),
        in_bounds(end),
    ensures
        forall|i: int|
            0 <= i && i + 2 < chain_spec(start, end).len() ==> !doubles_back(
                #[trigger] chain_spec(start, end)[i],
                chain_spec(start, end)[i + 1],
                chain_spec(start, end)[i + 2],
            ),
{
    if !aligned_spec(start, end) {
        lemma_axis_alignment(start, end);
        let c = chain_spec(start, end);
        assert(c[0] == start && c[1] == departure_spec(start, end) && c[2] == arrival_spec(
            start,
            end,
        ) && c[3] == end);
    }
}

/// Symmetry: routing the endpoints in the opposite order yields exactly
/// the reversed waypoint sequence — in particular the same number of
/// corner points and turns.
pub proof fn lemma_symmetry(a: Point, b: Point)
    requires
        in_bounds(a),
        in_bounds(b),
    ensures
        elbow_spec(b, a) == elbow_spec(a, b).reverse(),
{
    assert(elbow_spec(b, a) =~= elbow_spec(a, b).reverse());
}

/// Compute elbow path between two points.
/// Returns intermediate corner points (not including start and end).
pub fn compute_elbow_path(start: Point, end: Point) -> (r: Vec<Point>)
    requires
        in_bounds(start),
        in_bounds(end),
    ensures
        r@ == elbow_spec(start, end),
        aligned_spec(start, end) ==> r@ == Seq::<Point>::empty(),
{
    match derive_waypoints(start, end) {
        None => Vec::new(),
        Some((dep, arr, heading)) => {
            proof {
                // the waypoints share their dongle coordinate, so their grid
                // cells share a row or column and the route short-circuits
                assert(dep.x == arr.x || dep.y == arr.y);
            }
            match route_between(dep, arr, heading) {
                Some(v) => v,
                None => Vec::new(),  // unreachable: the waypoint cells share a row or column
            }
        },
    }
}

} // verus!

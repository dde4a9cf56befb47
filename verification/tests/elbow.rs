use drafftink_core::elbow::{
    compute_elbow_path, derive_waypoints, estimate, extract_corners, from_grid, manhattan,
    neighbors, route_between, to_grid, Cell, Heading, Point,
};

fn pt(x: i64, y: i64) -> Point {
    Point::new(x, y)
}

#[test]
fn example_horizontal_is_direct() {
    let r = compute_elbow_path(pt(0, 0), pt(100, 0));
    assert_eq!(r, vec![]);
}

#[test]
fn example_vertical_is_direct() {
    let r = compute_elbow_path(pt(0, 0), pt(0, 100));
    assert_eq!(r, vec![]);
}

#[test]
fn near_aligned_is_direct() {
    assert_eq!(compute_elbow_path(pt(0, 0), pt(15, 500)), vec![]);
    assert_eq!(compute_elbow_path(pt(0, 0), pt(19, 19)), vec![]);
    assert_eq!(compute_elbow_path(pt(3, 4), pt(3, 4)), vec![]);
}

#[test]
fn example_tie_prefers_horizontal() {
    let r = compute_elbow_path(pt(0, 0), pt(100, 100));
    assert_eq!(r, vec![pt(50, 0), pt(50, 100)]);
}

#[test]
fn example_dominant_horizontal() {
    let r = compute_elbow_path(pt(0, 0), pt(200, 40));
    assert_eq!(r, vec![pt(100, 0), pt(100, 40)]);
}

#[test]
fn dominant_vertical() {
    let r = compute_elbow_path(pt(0, 0), pt(40, 200));
    assert_eq!(r, vec![pt(0, 100), pt(40, 100)]);
}

#[test]
fn negative_midpoint_truncates_toward_zero() {
    let r = compute_elbow_path(pt(0, 0), pt(-101, -50));
    assert_eq!(r, vec![pt(-50, 0), pt(-50, -50)]);
}

#[test]
fn output_segments_share_exactly_one_coordinate() {
    let start = pt(-30, 70);
    let end = pt(400, -300);
    let r = compute_elbow_path(start, end);
    let mut chain = vec![start];
    chain.extend(r);
    chain.push(end);
    for w in chain.windows(2) {
        let same_x = w[0].x == w[1].x;
        let same_y = w[0].y == w[1].y;
        assert!(same_x != same_y, "segment not axis-aligned: {:?}", w);
    }
}

#[test]
fn output_never_doubles_back() {
    let start = pt(0, 0);
    let end = pt(100, 100);
    let r = compute_elbow_path(start, end);
    let mut chain = vec![start];
    chain.extend(r);
    chain.push(end);
    for w in chain.windows(3) {
        let horizontal_reversal = w[0].y == w[1].y
            && w[1].y == w[2].y
            && (w[1].x - w[0].x).signum() == -(w[2].x - w[1].x).signum();
        let vertical_reversal = w[0].x == w[1].x
            && w[1].x == w[2].x
            && (w[1].y - w[0].y).signum() == -(w[2].y - w[1].y).signum();
        assert!(!horizontal_reversal && !vertical_reversal);
    }
}

#[test]
fn symmetric_routes_are_reverses() {
    let a = pt(10, -20);
    let b = pt(-300, 140);
    let forward = compute_elbow_path(a, b);
    let mut backward = compute_elbow_path(b, a);
    assert_eq!(forward.len(), backward.len());
    backward.reverse();
    assert_eq!(forward, backward);
}

#[test]
fn routing_is_deterministic() {
    let a = pt(-7, 31);
    let b = pt(555, -823);
    assert_eq!(compute_elbow_path(a, b), compute_elbow_path(a, b));
}

#[test]
fn waypoints_on_aligned_points_are_none() {
    assert!(derive_waypoints(pt(0, 0), pt(100, 5)).is_none());
    assert!(derive_waypoints(pt(0, 0), pt(-19, 700)).is_none());
}

#[test]
fn waypoint_headings_follow_dominant_axis() {
    let (dep, arr, heading) = derive_waypoints(pt(0, 0), pt(100, 100)).unwrap();
    assert_eq!(heading, Heading::Right);
    assert_eq!((dep, arr), (pt(50, 0), pt(50, 100)));

    let (dep, arr, heading) = derive_waypoints(pt(0, 0), pt(40, 200)).unwrap();
    assert_eq!(heading, Heading::Down);
    assert_eq!((dep, arr), (pt(0, 100), pt(40, 100)));

    let (dep, arr, heading) = derive_waypoints(pt(0, 0), pt(30, -200)).unwrap();
    assert_eq!(heading, Heading::Up);
    assert_eq!((dep, arr), (pt(0, -100), pt(30, -100)));

    let (dep, arr, heading) = derive_waypoints(pt(0, 0), pt(-100, 60)).unwrap();
    assert_eq!(heading, Heading::Left);
    assert_eq!((dep, arr), (pt(-50, 0), pt(-50, 60)));
}

#[test]
fn forced_search_has_single_snapped_corner() {
    // Waypoints whose grid cells share neither a row nor a column force the
    // A* search; the lone turn is emitted as one corner whose x coordinate
    // is snapped to the arrival waypoint.
    let dep = pt(0, 0);
    let arr = pt(100, 60);
    let r = route_between(dep, arr, Heading::Right).unwrap();
    assert_eq!(r, vec![pt(0, 0), pt(100, 20), pt(100, 60)]);
}

#[test]
fn aligned_waypoints_skip_the_search() {
    let dep = pt(7, 0);
    let arr = pt(9, 300);
    // grid x is 0 for both, so the route is the straight segment
    let r = route_between(dep, arr, Heading::Down).unwrap();
    assert_eq!(r, vec![dep, arr]);
}

#[test]
fn grid_quantization_rounds_to_nearest() {
    assert_eq!(to_grid(0), 0);
    assert_eq!(to_grid(9), 0);
    assert_eq!(to_grid(10), 1);
    assert_eq!(to_grid(30), 2);
    assert_eq!(to_grid(-9), 0);
    assert_eq!(to_grid(-10), -1);
    assert_eq!(to_grid(-30), -2);
    assert_eq!(from_grid(5), 100);
    assert_eq!(from_grid(-3), -60);
}

#[test]
fn manhattan_distance_examples() {
    assert_eq!(manhattan(0, 0, 3, 4), 7);
    assert_eq!(manhattan(-2, -3, 2, 3), 10);
    assert_eq!(manhattan(5, 5, 5, 5), 0);
}

#[test]
fn neighbors_from_rest_offer_all_four_moves() {
    let c = Cell::new(0, 0, Heading::Unset);
    let n = neighbors(&c, 3);
    assert_eq!(
        n,
        vec![
            (Cell::new(0, -1, Heading::Up), 1),
            (Cell::new(0, 1, Heading::Down), 1),
            (Cell::new(-1, 0, Heading::Left), 1),
            (Cell::new(1, 0, Heading::Right), 1),
        ]
    );
}

#[test]
fn neighbors_prune_reverse_and_charge_turns() {
    let c = Cell::new(2, 5, Heading::Right);
    let n = neighbors(&c, 3);
    // no Left move, straight continuation costs 1, turns cost 1 + 3^3
    assert_eq!(
        n,
        vec![
            (Cell::new(2, 4, Heading::Up), 28),
            (Cell::new(2, 6, Heading::Down), 28),
            (Cell::new(3, 5, Heading::Right), 1),
        ]
    );
}

#[test]
fn estimate_charges_pending_turn() {
    let unaligned = Cell::new(0, 0, Heading::Unset);
    assert_eq!(estimate(&unaligned, 3, 4, 7), 7 + 49);
    let aligned = Cell::new(0, 4, Heading::Right);
    assert_eq!(estimate(&aligned, 3, 4, 7), 3);
}

#[test]
fn corner_extraction_snaps_to_waypoints() {
    // straight run right, then down: the heading change is recorded on the
    // first cell after the turn
    let path = vec![
        Cell::new(0, 0, Heading::Right),
        Cell::new(1, 0, Heading::Right),
        Cell::new(2, 0, Heading::Right),
        Cell::new(2, 1, Heading::Down),
        Cell::new(2, 2, Heading::Down),
    ];
    let corners = extract_corners(&path, pt(3, 1), pt(41, 44));
    // grid x of the corner matches the last cell, so x snaps to 41
    assert_eq!(corners, vec![pt(41, 20)]);
}

#[test]
fn corner_extraction_ignores_first_move() {
    // heading change right at the start, from the Unset sentinel: no corner
    let path = vec![
        Cell::new(0, 0, Heading::Unset),
        Cell::new(1, 0, Heading::Right),
        Cell::new(2, 0, Heading::Right),
    ];
    let corners = extract_corners(&path, pt(0, 0), pt(40, 0));
    assert_eq!(corners, vec![]);
}

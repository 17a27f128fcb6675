use grid2d::adjacent_cell;
use grid2d::is_corner;
use grid2d::is_edge;
use grid2d::neighborhood;
use grid2d::points;
use grid2d::Direction;
use grid2d::Neighborhood;
use grid2d::Topology;

#[test]
fn adjacent_bounded() {
    assert_eq!(adjacent_cell(Topology::Bounded, 3, 3, 1, 0, Direction::North), None);
    assert_eq!(adjacent_cell(Topology::Bounded, 3, 3, 1, 1, Direction::North), Some((1, 0)));

    assert_eq!(adjacent_cell(Topology::Bounded, 3, 3, 2, 2, Direction::South), None);
    assert_eq!(adjacent_cell(Topology::Bounded, 3, 3, 0, 0, Direction::South), Some((0, 1)));

    assert_eq!(adjacent_cell(Topology::Bounded, 3, 3, 2, 2, Direction::East), None);
    assert_eq!(adjacent_cell(Topology::Bounded, 3, 3, 1, 1, Direction::East), Some((2, 1)));

    assert_eq!(adjacent_cell(Topology::Bounded, 3, 3, 0, 0, Direction::West), None);
    assert_eq!(adjacent_cell(Topology::Bounded, 3, 3, 1, 1, Direction::West), Some((0, 1)));
}

#[test]
fn adjacent_torus() {
    assert_eq!(adjacent_cell(Topology::Torus, 3, 3, 1, 0, Direction::North), Some((1, 2)));
    assert_eq!(adjacent_cell(Topology::Torus, 3, 3, 1, 1, Direction::North), Some((1, 0)));

    assert_eq!(adjacent_cell(Topology::Torus, 3, 3, 2, 2, Direction::South), Some((2, 0)));
    assert_eq!(adjacent_cell(Topology::Torus, 3, 3, 0, 0, Direction::South), Some((0, 1)));

    assert_eq!(adjacent_cell(Topology::Torus, 3, 3, 2, 2, Direction::East), Some((0, 2)));
    assert_eq!(adjacent_cell(Topology::Torus, 3, 3, 1, 1, Direction::East), Some((2, 1)));

    assert_eq!(adjacent_cell(Topology::Torus, 3, 3, 0, 0, Direction::West), Some((2, 0)));
    assert_eq!(adjacent_cell(Topology::Torus, 3, 3, 1, 1, Direction::West), Some((0, 1)));
}

#[test]
fn edge() {
    assert!(is_edge(Topology::Bounded, 3, 3, 1, 0));
    assert!(is_edge(Topology::Bounded, 3, 3, 0, 1));
    assert!(is_edge(Topology::Bounded, 3, 3, 1, 2));
    assert!(is_edge(Topology::Bounded, 3, 3, 2, 1));

    assert!(!is_edge(Topology::Bounded, 3, 3, 1, 1));

    assert!(!is_edge(Topology::Torus, 3, 3, 2, 1));
}

#[test]
fn pts() {
    assert_eq!(points(3, 3).len(), 9);
}

#[test]
fn neighborino() {
    assert_eq!(
        neighborhood(Topology::Torus, 5, 5, 0, 0, Neighborhood::Square),
        [
            (0, 4),
            (0, 1),
            (1, 0),
            (4, 0),
            (1, 4),
            (1, 1),
            (4, 4),
            (4, 1)
        ],
    );
    assert_eq!(
        neighborhood(Topology::Bounded, 5, 5, 0, 0, Neighborhood::Square),
        [(0, 1), (1, 0), (1, 1)],
    );
}

#[test]
fn corner() {
    assert!(is_corner(Topology::Bounded, 3, 3, 0, 0));
    assert!(is_corner(Topology::Bounded, 3, 3, 2, 0));
    assert!(is_corner(Topology::Bounded, 3, 3, 0, 2));
    assert!(is_corner(Topology::Bounded, 3, 3, 2, 2));
    assert!(!is_corner(Topology::Bounded, 3, 3, 1, 0));
    assert!(!is_corner(Topology::Bounded, 3, 3, 1, 1));
    assert!(!is_corner(Topology::Torus, 3, 3, 0, 0));
}

#[test]
fn degenerate_one_by_one() {
    // on a 1x1 bounded grid the single cell is both edge and corner
    assert!(is_edge(Topology::Bounded, 1, 1, 0, 0));
    assert!(is_corner(Topology::Bounded, 1, 1, 0, 0));
    assert_eq!(adjacent_cell(Topology::Bounded, 1, 1, 0, 0, Direction::North), None);
    assert_eq!(adjacent_cell(Topology::Bounded, 1, 1, 0, 0, Direction::South), None);
    // a 1x1 torus wraps onto itself
    assert_eq!(adjacent_cell(Topology::Torus, 1, 1, 0, 0, Direction::East), Some((0, 0)));
    assert_eq!(adjacent_cell(Topology::Torus, 1, 1, 0, 0, Direction::North), Some((0, 0)));
    assert!(neighborhood(Topology::Bounded, 1, 1, 0, 0, Neighborhood::Square).is_empty());
}

#[test]
fn torus_wrap_asymmetry() {
    // pins the literal wrap rule: South and East wrap by width, West wraps to
    // width - 1, while only North wraps relative to height. On a non-square
    // torus a South move from the last row can leave the grid.
    assert_eq!(adjacent_cell(Topology::Torus, 5, 3, 0, 2, Direction::South), Some((0, 3)));
    assert_eq!(adjacent_cell(Topology::Torus, 5, 3, 0, 0, Direction::North), Some((0, 2)));
    assert_eq!(adjacent_cell(Topology::Torus, 5, 3, 0, 1, Direction::West), Some((4, 1)));
    assert_eq!(adjacent_cell(Topology::Torus, 5, 3, 4, 1, Direction::East), Some((0, 1)));
    assert_eq!(adjacent_cell(Topology::Torus, 3, 5, 0, 4, Direction::South), Some((0, 2)));
}

#[test]
fn torus_round_trip_square() {
    // on a square torus each move is undone by the opposite move
    for x in 0..4 {
        for y in 0..4 {
            let n = adjacent_cell(Topology::Torus, 4, 4, x, y, Direction::North).unwrap();
            assert_eq!(
                adjacent_cell(Topology::Torus, 4, 4, n.0, n.1, Direction::South),
                Some((x, y))
            );
            let s = adjacent_cell(Topology::Torus, 4, 4, x, y, Direction::South).unwrap();
            assert_eq!(
                adjacent_cell(Topology::Torus, 4, 4, s.0, s.1, Direction::North),
                Some((x, y))
            );
            let e = adjacent_cell(Topology::Torus, 4, 4, x, y, Direction::East).unwrap();
            assert_eq!(
                adjacent_cell(Topology::Torus, 4, 4, e.0, e.1, Direction::West),
                Some((x, y))
            );
            let w = adjacent_cell(Topology::Torus, 4, 4, x, y, Direction::West).unwrap();
            assert_eq!(
                adjacent_cell(Topology::Torus, 4, 4, w.0, w.1, Direction::East),
                Some((x, y))
            );
        }
    }
}

#[test]
fn points_order() {
    assert_eq!(
        points(2, 3),
        [(0, 0), (0, 1), (0, 2), (1, 0), (1, 1), (1, 2)],
    );
    assert!(points(0, 3).is_empty());
    assert!(points(3, 0).is_empty());
}

#[test]
fn orthogonal_and_diagonal() {
    assert_eq!(
        neighborhood(Topology::Bounded, 3, 3, 1, 1, Neighborhood::Orthogonal),
        [(1, 0), (1, 2), (2, 1), (0, 1)],
    );
    assert_eq!(
        neighborhood(Topology::Bounded, 3, 3, 0, 0, Neighborhood::Orthogonal),
        [(0, 1), (1, 0)],
    );
    assert_eq!(
        neighborhood(Topology::Bounded, 5, 5, 0, 0, Neighborhood::Diagonal),
        [(1, 1)],
    );
    assert_eq!(
        neighborhood(Topology::Torus, 5, 5, 0, 0, Neighborhood::Diagonal),
        [(1, 4), (1, 1), (4, 4), (4, 1)],
    );
    assert_eq!(
        neighborhood(Topology::Bounded, 3, 3, 1, 1, Neighborhood::Diagonal),
        [(2, 0), (2, 2), (0, 0), (0, 2)],
    );
}

//! A library for reasoning about positions on a 2D grid under different
//! boundary topologies.
//!
//! It answers four questions: which cell lies adjacent to a given cell in a
//! cardinal direction; whether a cell sits on the grid's edge or corner; what
//! the full set of grid coordinates is; and what cells form a given
//! neighborhood shape around a point. The library stores no cell values: every
//! operation is a pure function of the topology, the grid extent and a
//! coordinate.

use vstd::prelude::*;

pub mod laws;

verus! {

/// A type of topology
#[derive(Debug, Clone, Copy, PartialEq, Eq, Hash, Structural)]
pub enum Topology {
    /// A bounded grid, with no wrap-around
    Bounded,
    /// A grid that wraps around, preserving the axis not moved in
    Torus,
}

/// One of the four cardinal directions
#[derive(Debug, Clone, Copy, PartialEq, Eq, Hash, Structural)]
pub enum Direction {
    /// North.
    North,
    /// South.
    South,
    /// East.
    East,
    /// West.
    West,
}

/// Neighborhoods around a point. They do not contain the point itself
#[derive(Debug, Clone, Copy, PartialEq, Eq, Hash, Structural)]
pub enum Neighborhood {
    /// The points directly North, South, East, and West of a point.
    Orthogonal,
    /// The points directly diagonal to a point.
    Diagonal,
    /// The square directly around the point: orthogonal and diagonal together.
    Square,
}

/// The adjacent point in a given direction, as a mathematical function.
///
/// On a bounded grid a move off the edge is absent. On a torus every move is
/// present; the wrap moduli are deliberately asymmetric: a South move wraps by
/// `width` (not `height`), and a West move wraps to `width - 1`. This is the
/// library's observable, tested behaviour, kept as it is even though an
/// axis-appropriate torus would wrap y-moves by `height`.
pub open spec fn adjacent_spec(
    t: Topology,
    width: usize,
    height: usize,
    x: usize,
    y: usize,
    d: Direction,
) -> Option<(usize, usize)> {
    match t {
        Topology::Bounded => match d {
            Direction::North => if y == 0 {
                None
            } else {
                Some((x, (y - 1) as usize))
            },
            Direction::South => if y + 1 < height {
                Some((x, (y + 1) as usize))
            } else {
                None
            },
            Direction::East => if x + 1 < width {
                Some(((x + 1) as usize, y))
            } else {
                None
            },
            Direction::West => if x == 0 {
                None
            } else {
                Some(((x - 1) as usize, y))
            },
        },
        Topology::Torus => match d {
            Direction::North => if y == 0 {
                Some((x, (height - 1) as usize))
            } else {
                Some((x, (y - 1) as usize))
            },
            Direction::South => Some((x, ((y + 1) % (width as int)) as usize)),
            Direction::East => Some((((x + 1) % (width as int)) as usize, y)),
            Direction::West => if x == 0 {
                Some(((width - 1) as usize, y))
            } else {
                Some(((x - 1) as usize, y))
            },
        },
    }
}

/// The adjacency computation shared by `adjacent_cell` and `neighborhood`.
///
/// Under the torus's literal wrap rule a first move may leave `y` at or above
/// `height` (a South move wraps by `width`), and `neighborhood` feeds such a
/// point back in for the second leg of a diagonal, so this helper asks only
/// for what keeps the arithmetic in bounds.
fn adjacent_core(
    t: Topology,
    width: usize,
    height: usize,
    x: usize,
    y: usize,
    d: Direction,
) -> (r: Option<(usize, usize)>)
    requires
        1 <= width,
        1 <= height,
        x < usize::MAX,
        y < usize::MAX,
    ensures
        r == adjacent_spec(t, width, height, x, y, d),
{
    match t {
        Topology::Bounded => match d {
            Direction::North => if y == 0 {
                None
            } else {
                Some((x, y - 1))
            },
            Direction::South => if y + 1 < height {
                Some((x, y + 1))
            } else {
                None
            },
            Direction::East => if x + 1 < width {
                Some((x + 1, y))
            } else {
                None
            },
            Direction::West => if x == 0 {
                None
            } else {
                Some((x - 1, y))
            },
        },
        Topology::Torus => match d {
            Direction::North => if y == 0 {
                Some((x, height - 1))
            } else {
                Some((x, y - 1))
            },
            Direction::South => Some((x, (y + 1) % width)),
            Direction::East => Some(((x + 1) % width, y)),
            Direction::West => if x == 0 {
                Some((width - 1, y))
            } else {
                Some((x - 1, y))
            },
        },
    }
}

/// Get the adjacent point to a point in a given direction
pub fn adjacent_cell(
    t: Topology,
    width: usize,
    height: usize,
    x: usize,
    y: usize,
    d: Direction,
) -> (r: Option<(usize, usize)>)
    requires
        1 <= width,
        1 <= height,
        x < width,
        y < height,
    ensures
        r == adjacent_spec(t, width, height, x, y, d),
{
    adjacent_core(t, width, height, x, y, d)
}

/// Whether a point lies on an edge of a grid, as a mathematical function.
/// A torus wraps around and so has no edge.
pub open spec fn is_edge_spec(t: Topology, width: usize, height: usize, x: usize, y: usize) -> bool {
    t is Bounded && (x == 0 || x + 1 == width || y == 0 || y + 1 == height)
}

/// Whether a point is a corner of a grid, as a mathematical function: on a
/// boundary of both axes at once. A torus has no corner.
pub open spec fn is_corner_spec(t: Topology, width: usize, height: usize, x: usize, y: usize) -> bool {
    t is Bounded && (x == 0 || x + 1 == width) && (y == 0 || y + 1 == height)
}

/// Returns the points of a grid, in x-major ascending order: every y for
/// `x == 0` first, then every y for `x == 1`, and so on.
pub fn points(width: usize, height: usize) -> (r: Vec<(usize, usize)>)
    requires
        width * height <= usize::MAX,
    ensures
        r@.len() == width * height,
        forall|a: int, b: int|
            0 <= a < width && 0 <= b < height ==> #[trigger] r@[a * height + b] == ((a as usize, b as usize)),
{
    let mut r: Vec<(usize, usize)> = Vec::new();
    let mut x: usize = 0;
    while x < width
        invariant
            x <= width,
            width * height <= usize::MAX,
            r@.len() == x * height,
            forall|a: int, b: int|
                0 <= a < x && 0 <= b < height ==> #[trigger] r@[a * height + b] == ((a as usize, b as usize)),
        decreases width - x,
    {
        proof {
            // the column about to be filled still fits before width * height
            vstd::arithmetic::mul::lemma_mul_inequality(x + 1, width as int, height as int);
            vstd::arithmetic::mul::lemma_mul_is_distributive_add_other_way(
                height as int,
                x as int,
                1,
            );
        }
        let mut y: usize = 0;
        while y < height
            invariant
                y <= height,
                x < width,
                x * height + height <= usize::MAX,
                r@.len() == x * height + y,
                forall|a: int, b: int|
                    0 <= a < x && 0 <= b < height ==> #[trigger] r@[a * height + b] == (
                    (a as usize, b as usize)),
                forall|b: int| 0 <= b < y ==> #[trigger] r@[x * height + b] == ((x as usize, b as usize)),
            decreases height - y,
        {
            proof {
                // entries of earlier columns sit strictly before index
                // x * height, so the push leaves them where they are
                assert forall|a: int, b: int|
                    0 <= a < x && 0 <= b < height implies #[trigger] (a * height + b) < x
                    * height by {
                    vstd::arithmetic::mul::lemma_mul_inequality(a + 1, x as int, height as int);
                    vstd::arithmetic::mul::lemma_mul_is_distributive_add_other_way(
                        height as int,
                        a,
                        1,
                    );
                }
            }
            r.push((x, y));
            y = y + 1;
        }
        x = x + 1;
        proof {
            assert forall|a: int, b: int|
                0 <= a < x && 0 <= b < height implies #[trigger] r@[a * height + b] == (
            (a as usize, b as usize)) by {
                if a == x - 1 {
                    vstd::arithmetic::mul::lemma_mul_is_distributive_sub_other_way(
                        height as int,
                        a + 1,
                        1,
                    );
                }
            }
        }
    }
    r
}

/// The sequence a maybe-absent point contributes to a neighborhood: itself,
/// or nothing.
pub open spec fn opt_point_seq(o: Option<(usize, usize)>) -> Seq<(usize, usize)> {
    match o {
        Some(p) => seq![p],
        None => Seq::empty(),
    }
}

/// The second leg of a diagonal move: a step onward from the first leg's
/// result, absent whenever the first leg already was.
pub open spec fn second_leg_spec(
    t: Topology,
    width: usize,
    height: usize,
    first: Option<(usize, usize)>,
    d: Direction,
) -> Option<(usize, usize)> {
    match first {
        Some(p) => adjacent_spec(t, width, height, p.0, p.1, d),
        None => None,
    }
}

/// The orthogonal neighbors of a point: North, South, East, West, in that
/// order, with absent moves dropped.
pub open spec fn orthogonal_seq(
    t: Topology,
    width: usize,
    height: usize,
    x: usize,
    y: usize,
) -> Seq<(usize, usize)> {
    opt_point_seq(adjacent_spec(t, width, height, x, y, Direction::North)) + opt_point_seq(
        adjacent_spec(t, width, height, x, y, Direction::South),
    ) + opt_point_seq(adjacent_spec(t, width, height, x, y, Direction::East)) + opt_point_seq(
        adjacent_spec(t, width, height, x, y, Direction::West),
    )
}

/// The diagonal neighbors of a point, each reached by two orthogonal legs:
/// North-East, South-East, North-West, South-West, in that order. A diagonal
/// exists only when both of its legs do.
pub open spec fn diagonal_seq(
    t: Topology,
    width: usize,
    height: usize,
    x: usize,
    y: usize,
) -> Seq<(usize, usize)> {
    let n = adjacent_spec(t, width, height, x, y, Direction::North);
    let s = adjacent_spec(t, width, height, x, y, Direction::South);
    opt_point_seq(second_leg_spec(t, width, height, n, Direction::East)) + opt_point_seq(
        second_leg_spec(t, width, height, s, Direction::East),
    ) + opt_point_seq(second_leg_spec(t, width, height, n, Direction::West)) + opt_point_seq(
        second_leg_spec(t, width, height, s, Direction::West),
    )
}

/// The neighborhood of a point for a given shape, as a mathematical function:
/// the orthogonal neighbors, the diagonal ones, or both in that order.
pub open spec fn neighborhood_spec(
    t: Topology,
    width: usize,
    height: usize,
    x: usize,
    y: usize,
    n: Neighborhood,
) -> Seq<(usize, usize)> {
    match n {
        Neighborhood::Orthogonal => orthogonal_seq(t, width, height, x, y),
        Neighborhood::Diagonal => diagonal_seq(t, width, height, x, y),
        Neighborhood::Square => orthogonal_seq(t, width, height, x, y) + diagonal_seq(
            t,
            width,
            height,
            x,
            y,
        ),
    }
}

/// Appends a maybe-absent point, dropping an absent one.
fn push_opt(r: &mut Vec<(usize, usize)>, o: Option<(usize, usize)>)
    ensures
        final(r)@ == old(r)@ + opt_point_seq(o),
{
    if let Some(p) = o {
        r.push(p);
    }
    proof {
        assert(r@ =~= old(r)@ + opt_point_seq(o));
    }
}

/// A first move from an in-bounds point lands where the machine's integers
/// still have room for a further move, even where the torus's literal wrap
/// rule has taken `y` outside the grid.
proof fn lemma_first_leg_in_machine_range(
    t: Topology,
    width: usize,
    height: usize,
    x: usize,
    y: usize,
    d: Direction,
)
    requires
        1 <= width,
        1 <= height,
        x < width,
        y < height,
    ensures
        adjacent_spec(t, width, height, x, y, d) matches Some(p) ==> p.0 < usize::MAX && p.1
            < usize::MAX,
{
    let w = width as int;
    vstd::arithmetic::div_mod::lemma_mod_division_less_than_divisor((x + 1) as int, w);
    vstd::arithmetic::div_mod::lemma_mod_division_less_than_divisor((y + 1) as int, w);
}

/// Computes the second leg of a diagonal move.
fn second_leg(
    t: Topology,
    width: usize,
    height: usize,
    first: Option<(usize, usize)>,
    d: Direction,
) -> (r: Option<(usize, usize)>)
    requires
        1 <= width,
        1 <= height,
        first matches Some(p) ==> p.0 < usize::MAX && p.1 < usize::MAX,
    ensures
        r == second_leg_spec(t, width, height, first, d),
{
    match first {
        Some(p) => adjacent_core(t, width, height, p.0, p.1, d),
        None => None,
    }
}

/// Returns the points in a neighborhood around a point, omitting the point
/// itself and every move the topology reports as absent.
pub fn neighborhood(
    t: Topology,
    width: usize,
    height: usize,
    x: usize,
    y: usize,
    n: Neighborhood,
) -> (r: Vec<(usize, usize)>)
    requires
        1 <= width,
        1 <= height,
        x < width,
        y < height,
    ensures
        r@ == neighborhood_spec(t, width, height, x, y, n),
{
    let mut r: Vec<(usize, usize)> = Vec::new();
    match n {
        Neighborhood::Orthogonal => {
            push_opt(&mut r, adjacent_core(t, width, height, x, y, Direction::North));
            push_opt(&mut r, adjacent_core(t, width, height, x, y, Direction::South));
            push_opt(&mut r, adjacent_core(t, width, height, x, y, Direction::East));
            push_opt(&mut r, adjacent_core(t, width, height, x, y, Direction::West));
        },
        Neighborhood::Diagonal => {
            proof {
                lemma_first_leg_in_machine_range(t, width, height, x, y, Direction::North);
                lemma_first_leg_in_machine_range(t, width, height, x, y, Direction::South);
            }
            let no = adjacent_core(t, width, height, x, y, Direction::North);
            let so = adjacent_core(t, width, height, x, y, Direction::South);
            push_opt(&mut r, second_leg(t, width, height, no, Direction::East));
            push_opt(&mut r, second_leg(t, width, height, so, Direction::East));
            push_opt(&mut r, second_leg(t, width, height, no, Direction::West));
            push_opt(&mut r, second_leg(t, width, height, so, Direction::West));
        },
        Neighborhood::Square => {
            push_opt(&mut r, adjacent_core(t, width, height, x, y, Direction::North));
            push_opt(&mut r, adjacent_core(t, width, height, x, y, Direction::South));
            push_opt(&mut r, adjacent_core(t, width, height, x, y, Direction::East));
            push_opt(&mut r, adjacent_core(t, width, height, x, y, Direction::West));
            proof {
                lemma_first_leg_in_machine_range(t, width, height, x, y, Direction::North);
                lemma_first_leg_in_machine_range(t, width, height, x, y, Direction::South);
            }
            let no = adjacent_core(t, width, height, x, y, Direction::North);
            let so = adjacent_core(t, width, height, x, y, Direction::South);
            push_opt(&mut r, second_leg(t, width, height, no, Direction::East));
            push_opt(&mut r, second_leg(t, width, height, so, Direction::East));
            push_opt(&mut r, second_leg(t, width, height, no, Direction::West));
            push_opt(&mut r, second_leg(t, width, height, so, Direction::West));
        },
    }
    proof {
        assert(r@ =~= neighborhood_spec(t, width, height, x, y, n));
    }
    r
}

/// Is a given point on an edge of a grid
pub fn is_edge(t: Topology, width: usize, height: usize, x: usize, y: usize) -> (r: bool)
    requires
        x < width,
        y < height,
    ensures
        r == is_edge_spec(t, width, height, x, y),
{
    t == Topology::Bounded && (x == 0 || x + 1 == width || y == 0 || y + 1 == height)
}

/// Is a given point a corner of a grid
pub fn is_corner(t: Topology, width: usize, height: usize, x: usize, y: usize) -> (r: bool)
    requires
        x < width,
        y < height,
    ensures
        r == is_corner_spec(t, width, height, x, y),
{
    t == Topology::Bounded && (x == 0 || x + 1 == width) && (y == 0 || y + 1 == height)
}

} // verus!

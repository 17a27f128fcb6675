//! Laws of the grid topology, stated and proved once for all grids.

use vstd::prelude::*;

verus! {

use crate::Topology;
use crate::Direction;
use crate::adjacent_spec;

/// Law: on a bounded grid a move off the edge is absent, and every other move
/// is present and offset by exactly one on the moved axis.
pub proof fn lemma_bounded_adjacency(width: usize, height: usize, x: usize, y: usize)
    requires
        1 <= width,
        1 <= height,
        x < width,
        y < height,
    ensures
        y == 0 ==> adjacent_spec(Topology::Bounded, width, height, x, y, Direction::North) is None,
        y + 1 == height ==> adjacent_spec(Topology::Bounded, width, height, x, y, Direction::South) is None,
        x + 1 == width ==> adjacent_spec(Topology::Bounded, width, height, x, y, Direction::East) is None,
        x == 0 ==> adjacent_spec(Topology::Bounded, width, height, x, y, Direction::West) is None,
        y > 0 ==> adjacent_spec(Topology::Bounded, width, height, x, y, Direction::North)
            == Some((x, (y - 1) as usize)),
        y + 1 < height ==> adjacent_spec(Topology::Bounded, width, height, x, y, Direction::South)
            == Some((x, (y + 1) as usize)),
        x + 1 < width ==> adjacent_spec(Topology::Bounded, width, height, x, y, Direction::East)
            == Some((((x + 1) as usize), y)),
        x > 0 ==> adjacent_spec(Topology::Bounded, width, height, x, y, Direction::West)
            == Some((((x - 1) as usize), y)),
{
}

/// The direction that undoes a given one.
pub open spec fn opposite(d: Direction) -> Direction {
    match d {
        Direction::North => Direction::South,
        Direction::South => Direction::North,
        Direction::East => Direction::West,
        Direction::West => Direction::East,
    }
}

/// Law: on a torus every move is present.
pub proof fn lemma_torus_total(width: usize, height: usize, x: usize, y: usize, d: Direction)
    requires
        1 <= width,
        1 <= height,
        x < width,
        y < height,
    ensures
        adjacent_spec(Topology::Torus, width, height, x, y, d) is Some,
{
}

/// Law: on a square torus (`width == height`), a move in any direction
/// followed by a move in the opposite direction returns to the start.
///
/// The restriction to square grids is forced by the literal wrap rule: a South
/// move wraps by `width` while a North move wraps relative to `height`, so on
/// a non-square torus the two are not inverses (on a 5-wide, 3-high torus,
/// South from `y == 2` lands on `y == 3`, outside the grid).
pub proof fn lemma_torus_round_trip(width: usize, height: usize, x: usize, y: usize, d: Direction)
    requires
        1 <= width,
        width == height,
        x < width,
        y < height,
    ensures
        ({
            let mid = adjacent_spec(Topology::Torus, width, height, x, y, d);
            mid matches Some(p) && adjacent_spec(
                Topology::Torus,
                width,
                height,
                p.0,
                p.1,
                opposite(d),
            ) == Some((x, y))
        }),
{
    let w = width as int;
    match d {
        Direction::North => {
            // the North result's y is y - 1, or width - 1 when y == 0; the
            // South move back wraps it by width
            if y == 0 {
                vstd::arithmetic::div_mod::lemma_mod_self_0(w);
            } else {
                vstd::arithmetic::div_mod::lemma_small_mod(y as nat, width as nat);
            }
        },
        Direction::South => {
            if y + 1 < width {
                vstd::arithmetic::div_mod::lemma_small_mod((y + 1) as nat, width as nat);
            } else {
                vstd::arithmetic::div_mod::lemma_mod_self_0(w);
            }
        },
        Direction::East => {
            if x + 1 < width {
                vstd::arithmetic::div_mod::lemma_small_mod((x + 1) as nat, width as nat);
            } else {
                vstd::arithmetic::div_mod::lemma_mod_self_0(w);
            }
        },
        Direction::West => {
            if x == 0 {
                vstd::arithmetic::div_mod::lemma_mod_self_0(w);
            } else {
                vstd::arithmetic::div_mod::lemma_small_mod(x as nat, width as nat);
            }
        },
    }
}

/// Every index below `width * height` splits uniquely into a column and a row.
proof fn lemma_index_decompose(width: usize, height: usize, k: int)
    requires
        0 < height,
        0 <= k < width * height,
    ensures
        0 <= k / (height as int) < width,
        0 <= k % (height as int) < height,
        k == (k / (height as int)) * height + k % (height as int),
{
    let h = height as int;
    vstd::arithmetic::div_mod::lemma_fundamental_div_mod(k, h);
    vstd::arithmetic::div_mod::lemma_mod_division_less_than_divisor(k, h);
    assert(k / h < width) by {
        if k / h >= width {
            vstd::arithmetic::mul::lemma_mul_inequality(width as int, k / h, h);
            vstd::arithmetic::mul::lemma_mul_is_commutative(k / h, h);
        }
    }
    vstd::arithmetic::mul::lemma_mul_is_commutative(k / h, h);
}

/// Law: a sequence laid out as `points` promises — one entry at `a * height + b`
/// for every cell `(a, b)` — holds every cell of the grid exactly once, and
/// nothing else.
pub proof fn lemma_points_complete(width: usize, height: usize, s: Seq<(usize, usize)>)
    requires
        s.len() == width * height,
        forall|a: int, b: int|
            0 <= a < width && 0 <= b < height ==> #[trigger] s[a * height + b] == (
            (a as usize, b as usize)),
    ensures
        forall|k: int| 0 <= k < s.len() ==> (#[trigger] s[k]).0 < width && s[k].1 < height,
        forall|i: int, j: int| 0 <= i < j < s.len() ==> s[i] != s[j],
        forall|p: (usize, usize)| p.0 < width && p.1 < height ==> #[trigger] s.contains(p),
{
    let h = height as int;
    assert forall|k: int| 0 <= k < s.len() implies (#[trigger] s[k]).0 < width && s[k].1
        < height by {
        lemma_index_decompose(width, height, k);
        assert(s[(k / h) * h + k % h] == (((k / h) as usize, (k % h) as usize)));
    }
    assert forall|i: int, j: int| 0 <= i < j < s.len() implies s[i] != s[j] by {
        lemma_index_decompose(width, height, i);
        lemma_index_decompose(width, height, j);
        assert(s[(i / h) * h + i % h] == (((i / h) as usize, (i % h) as usize)));
        assert(s[(j / h) * h + j % h] == (((j / h) as usize, (j % h) as usize)));
    }
    assert forall|p: (usize, usize)| p.0 < width && p.1 < height implies #[trigger] s.contains(
        p,
    ) by {
        let k = (p.0 as int) * h + p.1 as int;
        assert(0 <= k < width * height) by {
            vstd::arithmetic::mul::lemma_mul_inequality(p.0 as int + 1, width as int, h);
            vstd::arithmetic::mul::lemma_mul_is_distributive_add_other_way(h, p.0 as int, 1);
            vstd::arithmetic::mul::lemma_mul_nonnegative(p.0 as int, h);
        }
        assert(s[k] == p);
        assert(s.contains(p));
    }
}

/// Law: a torus has no edge and no corner, whatever the coordinate.
pub proof fn lemma_torus_no_boundary(width: usize, height: usize, x: usize, y: usize)
    ensures
        !crate::is_edge_spec(Topology::Torus, width, height, x, y),
        !crate::is_corner_spec(Topology::Torus, width, height, x, y),
{
}

} // verus!

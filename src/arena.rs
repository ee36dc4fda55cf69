//! The fixed boxes of the arena: a floor grid and the four walls round it.
use vstd::prelude::*;

verus! {

/// Distance in world units between the centres of neighbouring grid cells.
pub const CELL_SPACING: i64 = 20;

/// The grid runs over cells `-ARENA_RADIUS ..= ARENA_RADIUS` on both axes.
pub const ARENA_RADIUS: i32 = 3;

/// Depth of the floor layer.
pub const FLOOR_DEPTH: i32 = -2;

/// Depth of the walls, the layer the player moves in.
pub const WALL_DEPTH: i32 = 0;

/// Half-extent of a fixed box across the plane of the grid.
pub const CUBE_HALF_WIDTH: u32 = 10;

/// Half-extent of every box along the depth axis.
pub const HALF_DEPTH: u32 = 1;

/// The colour a body is outlined in.
#[derive(Clone, Copy, Debug, PartialEq, Eq, Structural)]
pub enum Tint {
    Gray,
    Blue,
    Green,
}

/// Half-extents of an axis-aligned box.
#[derive(Clone, Copy, Debug, PartialEq, Eq, Structural)]
pub struct BoxShape {
    pub hx: u32,
    pub hy: u32,
    pub hz: u32,
}

/// What the overlay draws for a body: an unrotated rectangle centred on the
/// body, the full width and height of its box across the plane, in its colour.
#[derive(Clone, Copy, Debug, PartialEq, Eq, Structural)]
pub struct Outline {
    pub width: u64,
    pub height: u64,
    pub color: Tint,
}

/// The outline of a box of half-extents `shape`, drawn in `color`.
pub fn outline(shape: BoxShape, color: Tint) -> (r: Outline)
    ensures
        r.width == 2 * shape.hx as int,
        r.height == 2 * shape.hy as int,
        r.color == color,
{
    Outline { width: 2 * shape.hx as u64, height: 2 * shape.hy as u64, color }
}

/// A fixed box standing on one grid cell, at one depth.
#[derive(Clone, Copy, Debug, PartialEq, Eq, Structural)]
pub struct FixedCube {
    pub cell_x: i32,
    pub cell_y: i32,
    pub z: i32,
    pub color: Tint,
}

/// The fixed box on cell `(x, y)`.
pub open spec fn cube_at(x: int, y: int, z: i32, color: Tint) -> FixedCube {
    FixedCube { cell_x: x as i32, cell_y: y as i32, z, color }
}

/// The boxes of one column `x`, for `y` from `ylo` up to `yhi`.
pub open spec fn column(x: int, ylo: int, yhi: int, z: i32, color: Tint) -> Seq<FixedCube>
    decreases yhi - ylo + 1,
{
    if yhi < ylo {
        Seq::empty()
    } else {
        column(x, ylo, yhi - 1, z, color).push(cube_at(x, yhi, z, color))
    }
}

/// The boxes of the grid `xlo ..= xhi` by `ylo ..= yhi`, column after column.
pub open spec fn grid(xlo: int, xhi: int, ylo: int, yhi: int, z: i32, color: Tint) -> Seq<
    FixedCube,
>
    decreases xhi - xlo + 1,
{
    if xhi < xlo {
        Seq::empty()
    } else {
        grid(xlo, xhi - 1, ylo, yhi, z, color) + column(xhi, ylo, yhi, z, color)
    }
}

/// All fixed boxes of the arena: the floor, then the top, bottom, right and
/// left walls.
pub open spec fn arena_layout() -> Seq<FixedCube> {
    let r = ARENA_RADIUS as int;
    grid(-r, r, -r, r, FLOOR_DEPTH, Tint::Gray) + grid(-r, r, r, r, WALL_DEPTH, Tint::Blue) + grid(
        -r,
        r,
        -r,
        -r,
        WALL_DEPTH,
        Tint::Blue,
    ) + grid(r, r, -r, r, WALL_DEPTH, Tint::Blue) + grid(-r, -r, -r, r, WALL_DEPTH, Tint::Blue)
}

/// Whether cell `(x, y)` lies in the square of the arena.
pub open spec fn in_square(x: int, y: int) -> bool {
    -ARENA_RADIUS <= x <= ARENA_RADIUS && -ARENA_RADIUS <= y <= ARENA_RADIUS
}

/// Whether cell `(x, y)` lies on one of the four edges of that square.
pub open spec fn on_edge(x: int, y: int) -> bool {
    in_square(x, y) && (x == -ARENA_RADIUS || x == ARENA_RADIUS || y == -ARENA_RADIUS || y
        == ARENA_RADIUS)
}

impl FixedCube {
    /// Centre of the box in world coordinates.
    pub fn translation(&self) -> (r: (i64, i64, i64))
        ensures
            r == (
                (self.cell_x as int * CELL_SPACING) as i64,
                (self.cell_y as int * CELL_SPACING) as i64,
                self.z as i64,
            ),
    {
        (self.cell_x as i64 * CELL_SPACING, self.cell_y as i64 * CELL_SPACING, self.z as i64)
    }

    /// Every fixed box has the same shape.
    pub fn shape(&self) -> (r: BoxShape)
        ensures
            r == (BoxShape { hx: CUBE_HALF_WIDTH, hy: CUBE_HALF_WIDTH, hz: HALF_DEPTH }),
    {
        BoxShape { hx: CUBE_HALF_WIDTH, hy: CUBE_HALF_WIDTH, hz: HALF_DEPTH }
    }
}

/// Appends the boxes of the grid `xlo ..= xhi` by `ylo ..= yhi` at depth `z`,
/// column after column; an empty range appends nothing.
pub fn spawn_grid_of_cubes(
    out: &mut Vec<FixedCube>,
    xlo: i32,
    xhi: i32,
    ylo: i32,
    yhi: i32,
    z: i32,
    color: Tint,
)
    ensures
        final(out)@ == old(out)@ + grid(xlo as int, xhi as int, ylo as int, yhi as int, z, color),
        tiles(
            final(out)@.subrange(old(out)@.len() as int, final(out)@.len() as int),
            xlo as int,
            xhi as int,
            ylo as int,
            yhi as int,
            z,
            color,
        ),
{
    proof {
        grid_tiles(xlo as int, xhi as int, ylo as int, yhi as int, z, color);
    }
    let mut x: i64 = xlo as i64;
    while x <= xhi as i64
        invariant
            xlo <= x <= xhi as int + 1 || (x == xlo && xhi < xlo),
            out@ == old(out)@ + grid(xlo as int, x - 1, ylo as int, yhi as int, z, color),
        decreases xhi - x + 1,
    {
        let mut y: i64 = ylo as i64;
        while y <= yhi as i64
            invariant
                xlo <= x <= xhi,
                ylo <= y <= yhi as int + 1 || (y == ylo && yhi < ylo),
                out@ == old(out)@ + grid(xlo as int, x - 1, ylo as int, yhi as int, z, color)
                    + column(x as int, ylo as int, y - 1, z, color),
            decreases yhi - y + 1,
        {
            out.push(FixedCube { cell_x: x as i32, cell_y: y as i32, z, color });
            proof {
                let g = grid(xlo as int, x - 1, ylo as int, yhi as int, z, color);
                assert(column(x as int, ylo as int, y as int, z, color) == column(
                    x as int,
                    ylo as int,
                    y - 1,
                    z,
                    color,
                ).push(cube_at(x as int, y as int, z, color)));
                assert(out@ =~= old(out)@ + g + column(x as int, ylo as int, y as int, z, color));
            }
            y = y + 1;
        }
        proof {
            let g = grid(xlo as int, x - 1, ylo as int, yhi as int, z, color);
            if yhi < ylo {
                assert(column(x as int, ylo as int, y - 1, z, color) == column(
                    x as int,
                    ylo as int,
                    yhi as int,
                    z,
                    color,
                ));
            }
            assert(grid(xlo as int, x as int, ylo as int, yhi as int, z, color) == g + column(
                x as int,
                ylo as int,
                yhi as int,
                z,
                color,
            ));
            assert(out@ =~= old(out)@ + grid(xlo as int, x as int, ylo as int, yhi as int, z, color));
        }
        x = x + 1;
    }
    proof {
        if xhi < xlo {
            assert(grid(xlo as int, x - 1, ylo as int, yhi as int, z, color) =~= grid(
                xlo as int,
                xhi as int,
                ylo as int,
                yhi as int,
                z,
                color,
            ));
        }
        assert(out@.subrange(old(out)@.len() as int, out@.len() as int) =~= grid(
            xlo as int,
            xhi as int,
            ylo as int,
            yhi as int,
            z,
            color,
        ));
    }
}

/// All fixed boxes of the arena, in the order of `arena_layout`.
pub fn arena_cubes() -> (r: Vec<FixedCube>)
    ensures
        r@ == arena_layout(),
{
    let mut out: Vec<FixedCube> = Vec::new();
    // Floor
    spawn_grid_of_cubes(
        &mut out,
        -ARENA_RADIUS,
        ARENA_RADIUS,
        -ARENA_RADIUS,
        ARENA_RADIUS,
        FLOOR_DEPTH,
        Tint::Gray,
    );
    // Top wall
    spawn_grid_of_cubes(
        &mut out,
        -ARENA_RADIUS,
        ARENA_RADIUS,
        ARENA_RADIUS,
        ARENA_RADIUS,
        WALL_DEPTH,
        Tint::Blue,
    );
    // Bottom wall
    spawn_grid_of_cubes(
        &mut out,
        -ARENA_RADIUS,
        ARENA_RADIUS,
        -ARENA_RADIUS,
        -ARENA_RADIUS,
        WALL_DEPTH,
        Tint::Blue,
    );
    // Right wall
    spawn_grid_of_cubes(
        &mut out,
        ARENA_RADIUS,
        ARENA_RADIUS,
        -ARENA_RADIUS,
        ARENA_RADIUS,
        WALL_DEPTH,
        Tint::Blue,
    );
    // Left wall
    spawn_grid_of_cubes(
        &mut out,
        -ARENA_RADIUS,
        -ARENA_RADIUS,
        -ARENA_RADIUS,
        ARENA_RADIUS,
        WALL_DEPTH,
        Tint::Blue,
    );
    assert(out@ =~= arena_layout());
    out
}

/// The boxes of a column: one per `y` from `ylo` to `yhi`, in that order.
pub proof fn column_cells(x: int, ylo: int, yhi: int, z: i32, color: Tint)
    ensures
        column(x, ylo, yhi, z, color).len() == if yhi < ylo {
            0
        } else {
            yhi - ylo + 1
        },
        forall|k: int|
            0 <= k < column(x, ylo, yhi, z, color).len() ==> #[trigger] column(
                x,
                ylo,
                yhi,
                z,
                color,
            )[k] == cube_at(x, ylo + k, z, color),
    decreases yhi - ylo + 1,
{
    if yhi >= ylo {
        column_cells(x, ylo, yhi - 1, z, color);
    }
}

/// Whether some box of `g` stands on cell `(x, y)`.
pub open spec fn has_cell(g: Seq<FixedCube>, x: int, y: int) -> bool {
    exists|i: int| 0 <= i < g.len() && #[trigger] g[i].cell_x == x && g[i].cell_y == y
}

/// Whether the boxes of `g` all lie in the box `xlo ..= xhi` by `ylo ..= yhi`,
/// at depth `z` in colour `color`, cover every cell of it, and stand on
/// distinct cells.
pub open spec fn tiles(
    g: Seq<FixedCube>,
    xlo: int,
    xhi: int,
    ylo: int,
    yhi: int,
    z: i32,
    color: Tint,
) -> bool {
    &&& forall|i: int|
        0 <= i < g.len() ==> {
            &&& xlo <= #[trigger] g[i].cell_x <= xhi
            &&& ylo <= g[i].cell_y <= yhi
            &&& g[i].z == z
            &&& g[i].color == color
        }
    &&& forall|x: int, y: int| xlo <= x <= xhi && ylo <= y <= yhi ==> #[trigger] has_cell(g, x, y)
    &&& forall|i: int, j: int|
        0 <= i < g.len() && 0 <= j < g.len() && i != j ==> (#[trigger] g[i].cell_x != #[trigger] g[
            j
        ].cell_x || g[i].cell_y != g[j].cell_y)
}

/// A grid covers its box, cell by cell, once: it holds one box per cell.
pub proof fn grid_tiles(xlo: int, xhi: int, ylo: int, yhi: int, z: i32, color: Tint)
    requires
        i32::MIN <= xlo,
        xhi <= i32::MAX,
        i32::MIN <= ylo,
        yhi <= i32::MAX,
    ensures
        tiles(grid(xlo, xhi, ylo, yhi, z, color), xlo, xhi, ylo, yhi, z, color),
        grid(xlo, xhi, ylo, yhi, z, color).len() == if xhi < xlo || yhi < ylo {
            0
        } else {
            (xhi - xlo + 1) * (yhi - ylo + 1)
        },
    decreases xhi - xlo + 1,
{
    let g = grid(xlo, xhi, ylo, yhi, z, color);
    if xhi >= xlo {
        let p = grid(xlo, xhi - 1, ylo, yhi, z, color);
        let c = column(xhi, ylo, yhi, z, color);
        grid_tiles(xlo, xhi - 1, ylo, yhi, z, color);
        column_cells(xhi, ylo, yhi, z, color);
        assert(g == p + c);
        if yhi >= ylo {
            let ny = yhi - ylo + 1;
            assert((xhi - xlo) * ny + ny == (xhi - xlo + 1) * ny) by (nonlinear_arith);
        }
        assert forall|i: int| 0 <= i < g.len() implies {
            &&& xlo <= #[trigger] g[i].cell_x <= xhi
            &&& ylo <= g[i].cell_y <= yhi
            &&& g[i].z == z
            &&& g[i].color == color
        } by {
            if i >= p.len() {
                assert(g[i] == c[i - p.len()]);
            } else {
                assert(g[i] == p[i]);
            }
        }
        assert forall|x: int, y: int| xlo <= x <= xhi && ylo <= y <= yhi implies #[trigger] has_cell(
            g,
            x,
            y,
        ) by {
            if x == xhi {
                let i = p.len() + (y - ylo);
                assert(g[i] == c[y - ylo]);
                assert(g[i].cell_x == x && g[i].cell_y == y);
            } else {
                assert(has_cell(p, x, y));
                let i = choose|i: int| 0 <= i < p.len() && #[trigger] p[i].cell_x == x && p[i].cell_y == y;
                assert(g[i] == p[i]);
            }
        }
        assert forall|i: int, j: int| 0 <= i < g.len() && 0 <= j < g.len() && i != j implies (
        #[trigger] g[i].cell_x != #[trigger] g[j].cell_x || g[i].cell_y != g[j].cell_y) by {
            if i < p.len() && j < p.len() {
                assert(g[i] == p[i] && g[j] == p[j]);
                assert(p[i].cell_x != p[j].cell_x || p[i].cell_y != p[j].cell_y);
            } else if i >= p.len() && j >= p.len() {
                assert(g[i] == c[i - p.len()] && g[j] == c[j - p.len()]);
            } else if i < p.len() {
                assert(g[i] == p[i] && g[j] == c[j - p.len()]);
                assert(p[i].cell_x <= xhi - 1);
            } else {
                assert(g[j] == p[j] && g[i] == c[i - p.len()]);
                assert(p[j].cell_x <= xhi - 1);
            }
        }
    }
}

/// Whether some box of `g` at depth `z` stands on cell `(x, y)`.
pub open spec fn has_cube_at(g: Seq<FixedCube>, x: int, y: int, z: i32) -> bool {
    exists|i: int|
        0 <= i < g.len() && #[trigger] g[i].cell_x == x && g[i].cell_y == y && g[i].z == z
}

/// The arena's layout: every cell of the square has exactly one grey floor
/// box at the floor depth; every other box is a blue wall at the wall depth
/// standing on an edge of the square, and every edge cell has one, so no
/// cell inside the edges holds a wall. The four walls share the corner
/// cells, so the arena holds 49 floor boxes and 28 wall boxes.
pub proof fn arena_floor_and_walls()
    ensures
        arena_layout().len() == 77,
        forall|x: int, y: int|
            in_square(x, y) ==> #[trigger] has_cube_at(arena_layout(), x, y, FLOOR_DEPTH),
        forall|i: int, j: int|
            0 <= i < arena_layout().len() && 0 <= j < arena_layout().len() && #[trigger] arena_layout()[i].z
                == FLOOR_DEPTH && #[trigger] arena_layout()[j].z == FLOOR_DEPTH
                && arena_layout()[i].cell_x == arena_layout()[j].cell_x
                && arena_layout()[i].cell_y == arena_layout()[j].cell_y ==> i == j,
        forall|i: int|
            0 <= i < arena_layout().len() ==> {
                let c = #[trigger] arena_layout()[i];
                ||| c.z == FLOOR_DEPTH && c.color == Tint::Gray && in_square(
                    c.cell_x as int,
                    c.cell_y as int,
                )
                ||| c.z == WALL_DEPTH && c.color == Tint::Blue && on_edge(
                    c.cell_x as int,
                    c.cell_y as int,
                )
            },
        forall|x: int, y: int|
            on_edge(x, y) ==> #[trigger] has_cube_at(arena_layout(), x, y, WALL_DEPTH),
        forall|i: int|
            0 <= i < arena_layout().len() && in_square(
                #[trigger] arena_layout()[i].cell_x as int,
                arena_layout()[i].cell_y as int,
            ) && !on_edge(arena_layout()[i].cell_x as int, arena_layout()[i].cell_y as int)
                ==> arena_layout()[i].z == FLOOR_DEPTH,
{
    let r = ARENA_RADIUS as int;
    let f = grid(-r, r, -r, r, FLOOR_DEPTH, Tint::Gray);
    let t = grid(-r, r, r, r, WALL_DEPTH, Tint::Blue);
    let b = grid(-r, r, -r, -r, WALL_DEPTH, Tint::Blue);
    let rt = grid(r, r, -r, r, WALL_DEPTH, Tint::Blue);
    let l = grid(-r, -r, -r, r, WALL_DEPTH, Tint::Blue);
    grid_tiles(-r, r, -r, r, FLOOR_DEPTH, Tint::Gray);
    grid_tiles(-r, r, r, r, WALL_DEPTH, Tint::Blue);
    grid_tiles(-r, r, -r, -r, WALL_DEPTH, Tint::Blue);
    grid_tiles(r, r, -r, r, WALL_DEPTH, Tint::Blue);
    grid_tiles(-r, -r, -r, r, WALL_DEPTH, Tint::Blue);
    let a = arena_layout();
    let o1 = f.len() as int;
    let o2 = o1 + t.len();
    let o3 = o2 + b.len();
    let o4 = o3 + rt.len();
    assert(a == f + t + b + rt + l);
    assert(a.len() == o4 + l.len());
    assert((r - -r + 1) * (r - -r + 1) == 49) by (nonlinear_arith)
        requires
            r == 3,
    ;
    assert((r - -r + 1) * (r - r + 1) == 7) by (nonlinear_arith)
        requires
            r == 3,
    ;
    assert((r - r + 1) * (r - -r + 1) == 7) by (nonlinear_arith)
        requires
            r == 3,
    ;
    assert(f.len() == 49 && t.len() == 7 && b.len() == 7 && rt.len() == 7 && l.len() == 7);
    assert forall|i: int| 0 <= i < a.len() implies {
        ||| i < o1 && a[i] == f[i]
        ||| o1 <= i < o2 && a[i] == t[i - o1]
        ||| o2 <= i < o3 && a[i] == b[i - o2]
        ||| o3 <= i < o4 && a[i] == rt[i - o3]
        ||| o4 <= i && a[i] == l[i - o4]
    } by {}
    assert forall|i: int| 0 <= i < a.len() implies {
        let c = #[trigger] a[i];
        ||| c.z == FLOOR_DEPTH && c.color == Tint::Gray && in_square(
            c.cell_x as int,
            c.cell_y as int,
        )
        ||| c.z == WALL_DEPTH && c.color == Tint::Blue && on_edge(
            c.cell_x as int,
            c.cell_y as int,
        )
    } by {
        if i < o1 {
            assert(a[i] == f[i]);
            assert(in_square(f[i].cell_x as int, f[i].cell_y as int));
        } else if i < o2 {
            let k = i - o1;
            assert(a[i] == t[k]);
            assert(on_edge(t[k].cell_x as int, t[k].cell_y as int));
            assert(t[k].z == WALL_DEPTH && t[k].color == Tint::Blue);
        } else if i < o3 {
            let k = i - o2;
            assert(a[i] == b[k]);
            assert(on_edge(b[k].cell_x as int, b[k].cell_y as int));
            assert(b[k].z == WALL_DEPTH && b[k].color == Tint::Blue);
        } else if i < o4 {
            let k = i - o3;
            assert(a[i] == rt[k]);
            assert(on_edge(rt[k].cell_x as int, rt[k].cell_y as int));
            assert(rt[k].z == WALL_DEPTH && rt[k].color == Tint::Blue);
        } else {
            let k = i - o4;
            assert(a[i] == l[k]);
            assert(on_edge(l[k].cell_x as int, l[k].cell_y as int));
            assert(l[k].z == WALL_DEPTH && l[k].color == Tint::Blue);
        }
    }
    assert forall|x: int, y: int| in_square(x, y) implies #[trigger] has_cube_at(
        a,
        x,
        y,
        FLOOR_DEPTH,
    ) by {
        assert(has_cell(f, x, y));
        let i = choose|i: int| 0 <= i < f.len() && #[trigger] f[i].cell_x == x && f[i].cell_y == y;
        assert(a[i] == f[i]);
    }
    assert forall|x: int, y: int| on_edge(x, y) implies #[trigger] has_cube_at(
        a,
        x,
        y,
        WALL_DEPTH,
    ) by {
        if y == r {
            assert(has_cell(t, x, y));
            let i = choose|i: int| 0 <= i < t.len() && #[trigger] t[i].cell_x == x && t[i].cell_y == y;
            assert(a[o1 + i] == t[i]);
        } else if y == -r {
            assert(has_cell(b, x, y));
            let i = choose|i: int| 0 <= i < b.len() && #[trigger] b[i].cell_x == x && b[i].cell_y == y;
            assert(a[o2 + i] == b[i]);
        } else if x == r {
            assert(has_cell(rt, x, y));
            let i = choose|i: int|
                0 <= i < rt.len() && #[trigger] rt[i].cell_x == x && rt[i].cell_y == y;
            assert(a[o3 + i] == rt[i]);
        } else {
            assert(has_cell(l, x, y));
            let i = choose|i: int| 0 <= i < l.len() && #[trigger] l[i].cell_x == x && l[i].cell_y == y;
            assert(a[o4 + i] == l[i]);
        }
    }
    assert forall|i: int, j: int|
        0 <= i < a.len() && 0 <= j < a.len() && #[trigger] a[i].z == FLOOR_DEPTH && #[trigger] a[j].z
            == FLOOR_DEPTH && a[i].cell_x == a[j].cell_x && a[i].cell_y == a[j].cell_y implies i
        == j by {
        assert(i < o1 && j < o1);
        assert(a[i] == f[i] && a[j] == f[j]);
        if i != j {
            assert(f[i].cell_x != f[j].cell_x || f[i].cell_y != f[j].cell_y);
        }
    }
}

} // verus!

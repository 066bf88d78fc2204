//! A container that divides its area into equal cells and gives each child
//! a block of them.

use super::axis::{abs, BUDGET_LIMIT};
use super::linear::{default_padding, uniform, Padding};
use crate::event::Event;
use crate::types::{Point, Rect, Size};
use crate::window::{Window, WindowID};
use std::collections::HashMap;
use vstd::std_specs::hash::spec_hash_map_iter;
use vstd::std_specs::iter::IteratorSpec;
use vstd::prelude::*;

verus! {

broadcast use vstd::std_specs::hash::group_hash_axioms;

/// The gaps between the cells of a grid.
#[derive(Debug, Clone, Copy, PartialEq, Eq, Structural)]
pub struct Spacing {
    pub horizontal: i32,
    pub vertical: i32,
}

/// A container that divides its area into `grid_size.width` columns and
/// `grid_size.height` rows of equal cells. Each child that takes part is
/// assigned a rectangle in cell units.
pub struct Grid {
    grid_size: Size,
    layout: HashMap<usize, Rect>,
    padding: Padding,
    spacing: Spacing,
}

/// The state of a `Grid` as the contracts see it.
pub struct Cells {
    /// Columns and rows.
    pub grid_size: Size,
    /// The cell rectangle of each child, by the child's window handle.
    pub layout: Map<usize, Rect>,
    pub padding: Padding,
    pub spacing: Spacing,
}

/// An origin moved into the grid: no less than zero and, where the grid has
/// any cells along this axis, no more than the last of them.
pub open spec fn clamp_origin(origin: int, dim: int) -> int {
    let capped = if origin <= dim - 1 {
        origin
    } else {
        dim - 1
    };
    if capped >= 0 {
        capped
    } else {
        0
    }
}

/// A span cut off at the end of the grid, and never negative.
pub open spec fn clamp_span(span: int, origin: int, dim: int) -> int {
    let capped = if span <= dim - origin {
        span
    } else {
        dim - origin
    };
    if capped >= 0 {
        capped
    } else {
        0
    }
}

/// A cell rectangle moved and cut so that it lies within a grid of
/// `grid.width` columns and `grid.height` rows.
pub open spec fn clamp_cell(cell: Rect, grid: Size) -> Rect {
    let x = clamp_origin(cell.pos.x as int, grid.width as int);
    let y = clamp_origin(cell.pos.y as int, grid.height as int);
    Rect {
        pos: Point { x: x as i32, y: y as i32 },
        size: Size {
            width: clamp_span(cell.size.width as int, x, grid.width as int) as i32,
            height: clamp_span(cell.size.height as int, y, grid.height as int) as i32,
        },
    }
}

/// The cell rectangle lies within the grid.
pub open spec fn within_grid(cell: Rect, grid: Size) -> bool {
    &&& 0 <= cell.pos.x
    &&& 0 <= cell.pos.y
    &&& 0 <= cell.size.width
    &&& 0 <= cell.size.height
    &&& grid.width >= 1 ==> cell.pos.x < grid.width && cell.pos.x + cell.size.width <= grid.width
    &&& grid.height >= 1 ==> cell.pos.y < grid.height && cell.pos.y + cell.size.height
        <= grid.height
    &&& grid.width < 1 ==> cell.pos.x == 0 && cell.size.width == 0
    &&& grid.height < 1 ==> cell.pos.y == 0 && cell.size.height == 0
}

/// A clamped cell rectangle lies within the grid, and clamping it again
/// changes nothing.
pub proof fn law_clamp_cell(cell: Rect, grid: Size)
    ensures
        within_grid(clamp_cell(cell, grid), grid),
        clamp_cell(clamp_cell(cell, grid), grid) == clamp_cell(cell, grid),
        within_grid(cell, grid) ==> clamp_cell(cell, grid) == cell,
{
}

/// The quotient of `a` by `b`, rounded toward zero.
pub open spec fn quotient(a: int, b: int) -> int {
    if b > 0 {
        if a >= 0 {
            a / b
        } else {
            -((-a) / b)
        }
    } else {
        if a >= 0 {
            -(a / (-b))
        } else {
            (-a) / (-b)
        }
    }
}

/// The pixels of one axis that the cells share: the container's extent
/// without the padding and without the gaps between `dim` cells.
pub open spec fn usable(extent: int, lead: int, trail: int, spacing: int, dim: int) -> int {
    extent - lead - trail - spacing * (dim - 1)
}

/// The extent of one cell along one axis.
pub open spec fn cell_extent(extent: int, lead: int, trail: int, spacing: int, dim: int) -> int {
    quotient(usable(extent, lead, trail, spacing, dim), dim)
}

/// Where a block that starts at cell `origin` begins, in pixels.
pub open spec fn pixel_origin(lead: int, cell: int, spacing: int, origin: int) -> int {
    lead + origin * (cell + spacing)
}

/// How far a block of `span` cells reaches, in pixels: its cells and the
/// gaps between them.
pub open spec fn pixel_extent(cell: int, spacing: int, span: int) -> int {
    cell * span + spacing * (span - 1)
}

/// The pixel rectangle of the block of cells `cell` in a container of
/// `size`.
pub open spec fn cell_rect(
    size: Size,
    padding: Padding,
    spacing: Spacing,
    grid: Size,
    cell: Rect,
) -> Rect {
    let every_width = cell_extent(
        size.width as int,
        padding.left as int,
        padding.right as int,
        spacing.horizontal as int,
        grid.width as int,
    );
    let every_height = cell_extent(
        size.height as int,
        padding.top as int,
        padding.bottom as int,
        spacing.vertical as int,
        grid.height as int,
    );
    Rect {
        pos: Point {
            x: pixel_origin(
                padding.left as int,
                every_width,
                spacing.horizontal as int,
                cell.pos.x as int,
            ) as i32,
            y: pixel_origin(
                padding.top as int,
                every_height,
                spacing.vertical as int,
                cell.pos.y as int,
            ) as i32,
        },
        size: Size {
            width: pixel_extent(every_width, spacing.horizontal as int, cell.size.width as int) as i32,
            height: pixel_extent(every_height, spacing.vertical as int, cell.size.height as int) as i32,
        },
    }
}

/// The pixels that one axis of a grid speaks of, all taken as distances.
pub open spec fn grid_budget(extent: int, lead: int, trail: int, spacing: int, dim: int) -> int {
    abs(extent) + abs(lead) + abs(trail) + (abs(dim) + 1) * abs(spacing)
}

/// The block `origin`, `span` lies within `dim` cells.
pub open spec fn within_cells(origin: int, span: int, dim: int) -> bool {
    &&& 0 <= origin
    &&& 0 <= span
    &&& dim >= 1 ==> origin < dim && origin + span <= dim
    &&& dim < 1 ==> origin == 0 && span == 0
}

/// A quotient rounded toward zero is no larger than the dividend, even
/// when multiplied back.
pub proof fn lemma_quotient_bounds(a: int, b: int)
    requires
        b != 0,
    ensures
        abs(quotient(a, b)) * abs(b) <= abs(a),
        abs(quotient(a, b)) <= abs(a),
{
    let x = abs(a);
    let y = abs(b);
    let q = x / y;
    vstd::arithmetic::div_mod::lemma_fundamental_div_mod(x, y);
    vstd::arithmetic::div_mod::lemma_mod_bound(x, y);
    let r = x % y;
    assert(q >= 0 && q * y <= x && q <= x) by (nonlinear_arith)
        requires
            x == y * q + r,
            0 <= r < y,
            0 <= x,
    ;
}

/// A product is no larger than its factors' bounds multiplied.
pub proof fn lemma_product_bounded(k: int, v: int, most: int)
    requires
        abs(k) <= most,
    ensures
        abs(k * v) <= most * abs(v),
{
    assert(abs(k * v) <= most * abs(v)) by (nonlinear_arith)
        requires
            abs(k) <= most,
    ;
}

/// Within the budget of an axis, a block of cells within the grid lies at
/// pixel coordinates of 32 bits.
pub proof fn lemma_block_fits(
    extent: int,
    lead: int,
    trail: int,
    spacing: int,
    dim: int,
    origin: int,
    span: int,
)
    requires
        dim != 0,
        grid_budget(extent, lead, trail, spacing, dim) <= BUDGET_LIMIT,
        within_cells(origin, span, dim),
    ensures
        abs(spacing * (dim - 1)) <= BUDGET_LIMIT,
        abs(usable(extent, lead, trail, spacing, dim)) <= BUDGET_LIMIT,
        abs(cell_extent(extent, lead, trail, spacing, dim)) <= BUDGET_LIMIT,
        abs(origin * (cell_extent(extent, lead, trail, spacing, dim) + spacing)) <= 2
            * BUDGET_LIMIT,
        abs(cell_extent(extent, lead, trail, spacing, dim) * span) <= BUDGET_LIMIT,
        abs(spacing * (span - 1)) <= BUDGET_LIMIT,
        i32::MIN <= pixel_origin(
            lead,
            cell_extent(extent, lead, trail, spacing, dim),
            spacing,
            origin,
        ) <= i32::MAX,
        i32::MIN <= pixel_extent(cell_extent(extent, lead, trail, spacing, dim), spacing, span)
            <= i32::MAX,
{
    let u = usable(extent, lead, trail, spacing, dim);
    let q = cell_extent(extent, lead, trail, spacing, dim);
    let d = abs(dim);
    let g = abs(spacing);
    lemma_product_bounded(dim - 1, spacing, d + 1);
    lemma_quotient_bounds(u, dim);
    assert((d + 1) * g == d * g + g) by (nonlinear_arith);
    assert(0 <= d * g) by (nonlinear_arith)
        requires
            0 <= d,
            0 <= g,
    ;
    // the cells of the block and the gaps before it
    assert(abs(origin * q) <= abs(u) && abs(q * span) <= abs(u)) by (nonlinear_arith)
        requires
            abs(q) * d <= abs(u),
            0 <= origin <= d,
            0 <= span <= d,
    ;
    lemma_product_bounded(origin, spacing, d);
    lemma_product_bounded(span - 1, spacing, d + 1);
    assert(origin * (q + spacing) == origin * q + origin * spacing) by (nonlinear_arith);
}

/// The extent of one cell along one axis.
fn every(extent: i32, lead: i32, trail: i32, spacing: i32, dim: i32) -> (cell: i64)
    requires
        dim != 0,
        grid_budget(extent as int, lead as int, trail as int, spacing as int, dim as int)
            <= BUDGET_LIMIT,
    ensures
        cell == cell_extent(extent as int, lead as int, trail as int, spacing as int, dim as int),
{
    proof {
        lemma_block_fits(
            extent as int,
            lead as int,
            trail as int,
            spacing as int,
            dim as int,
            0,
            0,
        );
    }
    let between: i64 = spacing as i64 * (dim as i64 - 1);
    let u: i64 = extent as i64 - lead as i64 - trail as i64 - between;
    let d: i64 = dim as i64;
    if d > 0 {
        if u >= 0 {
            u / d
        } else {
            -((-u) / d)
        }
    } else {
        if u >= 0 {
            -(u / (-d))
        } else {
            (-u) / (-d)
        }
    }
}

/// A coordinate moved into `0..dim`, or to zero where that is empty.
fn clamped_origin(origin: i32, dim: i32) -> (c: i32)
    ensures
        c == clamp_origin(origin as int, dim as int),
{
    let capped: i64 = if origin as i64 <= dim as i64 - 1 {
        origin as i64
    } else {
        dim as i64 - 1
    };
    if capped >= 0 {
        capped as i32
    } else {
        0
    }
}

/// A span cut off at the end of the grid.
fn clamped_span(span: i32, origin: i32, dim: i32) -> (c: i32)
    ensures
        c == clamp_span(span as int, origin as int, dim as int),
{
    let capped: i64 = if span as i64 <= dim as i64 - origin as i64 {
        span as i64
    } else {
        dim as i64 - origin as i64
    };
    if capped >= 0 {
        capped as i32
    } else {
        0
    }
}

/// A cell rectangle moved and cut so that it lies within the grid.
pub fn clamp(cell: Rect, grid: Size) -> (c: Rect)
    ensures
        c == clamp_cell(cell, grid),
        within_grid(c, grid),
{
    let x = clamped_origin(cell.pos.x, grid.width);
    let y = clamped_origin(cell.pos.y, grid.height);
    let width = clamped_span(cell.size.width, x, grid.width);
    let height = clamped_span(cell.size.height, y, grid.height);
    Rect { pos: Point { x, y }, size: Size { width, height } }
}

/// The pixel origin and extent of a block of cells along one axis.
fn block(
    extent: i32,
    lead: i32,
    trail: i32,
    spacing: i32,
    dim: i32,
    cell: i64,
    origin: i32,
    span: i32,
) -> (at: (i32, i32))
    requires
        dim != 0,
        grid_budget(extent as int, lead as int, trail as int, spacing as int, dim as int)
            <= BUDGET_LIMIT,
        within_cells(origin as int, span as int, dim as int),
        cell == cell_extent(extent as int, lead as int, trail as int, spacing as int, dim as int),
    ensures
        at.0 == pixel_origin(lead as int, cell as int, spacing as int, origin as int),
        at.1 == pixel_extent(cell as int, spacing as int, span as int),
{
    proof {
        lemma_block_fits(
            extent as int,
            lead as int,
            trail as int,
            spacing as int,
            dim as int,
            origin as int,
            span as int,
        );
    }
    let start: i64 = lead as i64 + origin as i64 * (cell + spacing as i64);
    let reach: i64 = cell * span as i64 + spacing as i64 * (span as i64 - 1);
    (start as i32, reach as i32)
}

/// Every assignment of `layout`, clamped to a grid of `grid`.
pub open spec fn clamp_all(layout: Map<usize, Rect>, grid: Size) -> Map<usize, Rect> {
    layout.map_values(|cell: Rect| clamp_cell(cell, grid))
}

/// Clamps every assignment to a grid of `grid`.
fn clamped_all(layout: &HashMap<usize, Rect>, grid: Size) -> (clamped: HashMap<usize, Rect>)
    ensures
        clamped@ == clamp_all(layout@, grid),
{
    let mut clamped: HashMap<usize, Rect> = HashMap::new();
    for entry in it: layout.iter()
        invariant
            it.seq() == spec_hash_map_iter(layout).remaining(),
            forall|k: usize|
                #[trigger] clamped@.contains_key(k) ==> layout@.contains_key(k) && clamped@[k]
                    == clamp_cell(layout@[k], grid),
            forall|j: int|
                0 <= j < it.index() ==> clamped@.contains_key(*(#[trigger] it.seq()[j]).0),
    {
        let cell = clamp(*entry.1, grid);
        clamped.insert(*entry.0, cell);
    }
    assert(clamped@ =~= clamp_all(layout@, grid));
    clamped
}

impl Cells {
    /// Every assignment lies within the grid.
    pub open spec fn inside(self) -> bool {
        forall|k: usize|
            self.layout.contains_key(k) ==> within_grid(#[trigger] self.layout[k], self.grid_size)
    }
}

impl View for Grid {
    type V = Cells;

    closed spec fn view(&self) -> Cells {
        Cells {
            grid_size: self.grid_size,
            layout: self.layout@,
            padding: self.padding,
            spacing: self.spacing,
        }
    }
}

/// The placements of the first `i` children: each child that has a cell
/// rectangle, with the pixels of that rectangle.
pub open spec fn placed_cells_upto(children: Seq<Window>, cells: Cells, size: Size, i: int) -> Seq<
    (WindowID, Rect),
>
    decreases i,
{
    if i <= 0 {
        Seq::empty()
    } else {
        let before = placed_cells_upto(children, cells, size, i - 1);
        let id = children[i - 1].id;
        if cells.layout.contains_key(id.hwnd) {
            before.push(
                (
                    id,
                    cell_rect(
                        size,
                        cells.padding,
                        cells.spacing,
                        cells.grid_size,
                        cells.layout[id.hwnd],
                    ),
                ),
            )
        } else {
            before
        }
    }
}

/// What a pass over a grid asks of the windowing system: nothing where the
/// grid has no columns or no rows, else a rectangle for each child with a
/// cell rectangle.
pub open spec fn placed_cells(children: Seq<Window>, cells: Cells, size: Size) -> Seq<
    (WindowID, Rect),
> {
    if cells.grid_size.width == 0 || cells.grid_size.height == 0 {
        Seq::empty()
    } else {
        placed_cells_upto(children, cells, size, children.len() as int)
    }
}

/// A grid of `cells` can be laid out in `size` with 32-bit coordinates.
pub open spec fn partitionable(cells: Cells, size: Size) -> bool {
    cells.grid_size.width == 0 || cells.grid_size.height == 0 || (grid_budget(
        size.width as int,
        cells.padding.left as int,
        cells.padding.right as int,
        cells.spacing.horizontal as int,
        cells.grid_size.width as int,
    ) <= BUDGET_LIMIT && grid_budget(
        size.height as int,
        cells.padding.top as int,
        cells.padding.bottom as int,
        cells.spacing.vertical as int,
        cells.grid_size.height as int,
    ) <= BUDGET_LIMIT)
}

/// The absolute value of a coordinate.
fn distance(v: i32) -> (d: i64)
    ensures
        d == abs(v as int),
{
    if v < 0 {
        -(v as i64)
    } else {
        v as i64
    }
}

/// Whether one axis of a grid is within the budget.
fn axis_fits(extent: i32, lead: i32, trail: i32, spacing: i32, dim: i32) -> (ok: bool)
    ensures
        ok == (grid_budget(extent as int, lead as int, trail as int, spacing as int, dim as int)
            <= BUDGET_LIMIT),
{
    let d = distance(dim) + 1;
    let g = distance(spacing);
    assert(0 <= d * g <= 0x8000_0001 * 0x8000_0000) by (nonlinear_arith)
        requires
            0 <= d <= 0x8000_0001,
            0 <= g <= 0x8000_0000,
    ;
    let total: i64 = distance(extent) + distance(lead) + distance(trail) + d * g;
    total <= BUDGET_LIMIT as i64
}

impl Default for Grid {
    fn default() -> (grid: Grid)
        ensures
            grid@ == (Cells {
                grid_size: Size { width: 0, height: 0 },
                layout: Map::empty(),
                padding: default_padding(),
                spacing: Spacing { horizontal: 3, vertical: 3 },
            }),
            grid@.inside(),
    {
        Grid {
            grid_size: Size { width: 0, height: 0 },
            layout: HashMap::new(),
            padding: Padding { left: 5, top: 5, right: 5, bottom: 5 },
            spacing: Spacing { horizontal: 3, vertical: 3 },
        }
    }
}

impl Grid {
    /// An assignment is clamped when it is stored and whenever the grid is
    /// given a new size, so every stored assignment lies within the grid.
    #[verifier::type_invariant]
    spec fn assignments_inside(self) -> bool {
        forall|k: usize|
            self.layout@.contains_key(k) ==> within_grid(
                #[trigger] self.layout@[k],
                self.grid_size,
            )
    }

    /// Hands the assignments out to be changed and leaves none behind;
    /// who takes them puts the changed ones back.
    fn take_layout(&mut self) -> (layout: HashMap<usize, Rect>)
        ensures
            layout@ == old(self)@.layout,
            old(self)@.inside(),
            final(self)@ == (Cells { layout: Map::empty(), ..old(self)@ }),
    {
        proof {
            use_type_invariant(&*self);
        }
        let mut spare = Grid {
            grid_size: self.grid_size,
            layout: HashMap::new(),
            padding: self.padding,
            spacing: self.spacing,
        };
        core::mem::swap(self, &mut spare);
        let Grid { layout, .. } = spare;
        layout
    }

    /// Whether `update` may be called with this size.
    pub open spec fn updatable(&self, size: Size) -> bool {
        partitionable(self@, size)
    }

    /// Create a new `Grid` without cells and without children, with 5
    /// pixels of padding on each side and 3 pixels between cells.
    pub fn new() -> (grid: Grid)
        ensures
            grid@ == (Cells {
                grid_size: Size { width: 0, height: 0 },
                layout: Map::empty(),
                padding: default_padding(),
                spacing: Spacing { horizontal: 3, vertical: 3 },
            }),
            grid@.inside(),
    {
        Grid {
            grid_size: Size { width: 0, height: 0 },
            layout: HashMap::new(),
            padding: Padding { left: 5, top: 5, right: 5, bottom: 5 },
            spacing: Spacing { horizontal: 3, vertical: 3 },
        }
    }

    pub fn set_padding(&mut self, padding: i32)
        ensures
            final(self)@ == (Cells { padding: uniform(padding), ..old(self)@ }),
            final(self)@.inside(),
    {
        proof {
            use_type_invariant(&*self);
        }
        self.padding = Padding { left: padding, top: padding, right: padding, bottom: padding };
    }

    pub fn set_spacing(&mut self, spacing: i32)
        ensures
            final(self)@ == (Cells {
                spacing: Spacing { horizontal: spacing, vertical: spacing },
                ..old(self)@
            }),
            final(self)@.inside(),
    {
        proof {
            use_type_invariant(&*self);
        }
        self.spacing = Spacing { horizontal: spacing, vertical: spacing };
    }

    pub fn set_left_padding(&mut self, padding: i32)
        ensures
            final(self)@ == (Cells {
                padding: Padding { left: padding, ..old(self)@.padding },
                ..old(self)@
            }),
            final(self)@.inside(),
    {
        proof {
            use_type_invariant(&*self);
        }
        self.padding.left = padding;
    }

    pub fn set_top_padding(&mut self, padding: i32)
        ensures
            final(self)@ == (Cells {
                padding: Padding { top: padding, ..old(self)@.padding },
                ..old(self)@
            }),
            final(self)@.inside(),
    {
        proof {
            use_type_invariant(&*self);
        }
        self.padding.top = padding;
    }

    pub fn set_right_padding(&mut self, padding: i32)
        ensures
            final(self)@ == (Cells {
                padding: Padding { right: padding, ..old(self)@.padding },
                ..old(self)@
            }),
            final(self)@.inside(),
    {
        proof {
            use_type_invariant(&*self);
        }
        self.padding.right = padding;
    }

    pub fn set_bottom_padding(&mut self, padding: i32)
        ensures
            final(self)@ == (Cells {
                padding: Padding { bottom: padding, ..old(self)@.padding },
                ..old(self)@
            }),
            final(self)@.inside(),
    {
        proof {
            use_type_invariant(&*self);
        }
        self.padding.bottom = padding;
    }

    pub fn set_horizontal_spacing(&mut self, spacing: i32)
        ensures
            final(self)@ == (Cells {
                spacing: Spacing { horizontal: spacing, ..old(self)@.spacing },
                ..old(self)@
            }),
            final(self)@.inside(),
    {
        proof {
            use_type_invariant(&*self);
        }
        self.spacing.horizontal = spacing;
    }

    pub fn set_vertical_spacing(&mut self, spacing: i32)
        ensures
            final(self)@ == (Cells {
                spacing: Spacing { vertical: spacing, ..old(self)@.spacing },
                ..old(self)@
            }),
            final(self)@.inside(),
    {
        proof {
            use_type_invariant(&*self);
        }
        self.spacing.vertical = spacing;
    }

    /// Assigns the child `window` the block of cells `rect`, clamped to the
    /// grid as it is now. An earlier assignment of the child is replaced.
    pub fn add_layout(&mut self, window: WindowID, rect: Rect)
        ensures
            final(self)@ == (Cells {
                layout: old(self)@.layout.insert(
                    window.hwnd,
                    clamp_cell(rect, old(self)@.grid_size),
                ),
                ..old(self)@
            }),
            final(self)@.inside(),
    {
        let cell = clamp(rect, self.grid_size);
        let mut layout = self.take_layout();
        layout.insert(window.hwnd, cell);
        *self = Grid {
            grid_size: self.grid_size,
            layout,
            padding: self.padding,
            spacing: self.spacing,
        };
    }

    /// Takes the child `window` out of the layout.
    pub fn remove_layout(&mut self, window: WindowID)
        ensures
            final(self)@ == (Cells { layout: old(self)@.layout.remove(window.hwnd), ..old(self)@ }),
            final(self)@.inside(),
    {
        let mut layout = self.take_layout();
        layout.remove(&window.hwnd);
        *self = Grid {
            grid_size: self.grid_size,
            layout,
            padding: self.padding,
            spacing: self.spacing,
        };
    }

    /// Sets the number of columns (`size.width`) and rows (`size.height`).
    /// No assignment is lost: each is clamped to the new grid, so that it
    /// lies within it.
    pub fn set_size(&mut self, size: Size)
        ensures
            final(self)@ == (Cells {
                grid_size: size,
                layout: clamp_all(old(self)@.layout, size),
                ..old(self)@
            }),
            final(self)@.inside(),
    {
        let layout = clamped_all(&self.layout, size);
        *self = Grid { grid_size: size, layout, padding: self.padding, spacing: self.spacing };
    }

    /// Whether `update` may be called with this size.
    pub fn can_update(&self, size: Size) -> (ok: bool)
        ensures
            ok == self.updatable(size),
    {
        self.grid_size.width == 0 || self.grid_size.height == 0 || (axis_fits(
            size.width,
            self.padding.left,
            self.padding.right,
            self.spacing.horizontal,
            self.grid_size.width,
        ) && axis_fits(
            size.height,
            self.padding.top,
            self.padding.bottom,
            self.spacing.vertical,
            self.grid_size.height,
        ))
    }

    /// Lays the grid out in a container of `size` whose direct children are
    /// `children`: every child with an assignment receives the pixels of
    /// its block of cells. A grid without columns or without rows asks for
    /// nothing.
    pub fn update(&self, size: Size, children: &Vec<Window>) -> (placements: Vec<
        (WindowID, Rect),
    >)
        requires
            self.updatable(size),
        ensures
            placements@ == placed_cells(children@, self@, size),
            self@.inside(),
    {
        proof {
            use_type_invariant(self);
        }
        let mut placements: Vec<(WindowID, Rect)> = Vec::new();
        if self.grid_size.width == 0 || self.grid_size.height == 0 {
            return placements;
        }
        let every_width = every(
            size.width,
            self.padding.left,
            self.padding.right,
            self.spacing.horizontal,
            self.grid_size.width,
        );
        let every_height = every(
            size.height,
            self.padding.top,
            self.padding.bottom,
            self.spacing.vertical,
            self.grid_size.height,
        );
        let mut i: usize = 0;
        while i < children.len()
            invariant
                i <= children.len(),
                self.grid_size.width != 0,
                self.grid_size.height != 0,
                self.updatable(size),
                every_width == cell_extent(
                    size.width as int,
                    self.padding.left as int,
                    self.padding.right as int,
                    self.spacing.horizontal as int,
                    self.grid_size.width as int,
                ),
                every_height == cell_extent(
                    size.height as int,
                    self.padding.top as int,
                    self.padding.bottom as int,
                    self.spacing.vertical as int,
                    self.grid_size.height as int,
                ),
                placements@ == placed_cells_upto(children@, self@, size, i as int),
            decreases children.len() - i,
        {
            let id = children[i].id;
            if let Some(assigned) = self.layout.get(&id.hwnd) {
                proof {
                    use_type_invariant(self);
                }
                let cell = *assigned;
                let (x, width) = block(
                    size.width,
                    self.padding.left,
                    self.padding.right,
                    self.spacing.horizontal,
                    self.grid_size.width,
                    every_width,
                    cell.pos.x,
                    cell.size.width,
                );
                let (y, height) = block(
                    size.height,
                    self.padding.top,
                    self.padding.bottom,
                    self.spacing.vertical,
                    self.grid_size.height,
                    every_height,
                    cell.pos.y,
                    cell.size.height,
                );
                placements.push((id, Rect { pos: Point { x, y }, size: Size { width, height } }));
            }
            i += 1;
        }
        placements
    }

    /// Reacts to an event of the container's window: a resize lays the
    /// grid out anew in the size that the event carries, any other event
    /// asks for nothing.
    pub fn on_event(&self, event: &Event, children: &Vec<Window>) -> (placements: Vec<
        (WindowID, Rect),
    >)
        requires
            event is WindowResized ==> self.updatable(event->size),
        ensures
            placements@ == if event is WindowResized {
                placed_cells(children@, self@, event->size)
            } else {
                Seq::empty()
            },
    {
        match event {
            Event::WindowResized { size, .. } => self.update(*size, children),
            _ => Vec::new(),
        }
    }

    /// Takes the grid through a trigger: its state changes as the trigger
    /// says, and the grid is laid out anew at once, in the new size if the
    /// trigger brings one and in `last`, the size last known, if not. The
    /// result is `None` where the layout cannot be computed in 32-bit
    /// coordinates; then nothing is to be written.
    pub fn react(&mut self, trigger: GridTrigger, last: Size, children: &Vec<Window>) -> (placements:
        Option<Vec<(WindowID, Rect)>>)
        ensures
            final(self)@ == old(self)@.after(trigger),
            placements is Some <==> partitionable(final(self)@, trigger.extent(last)),
            placements is Some ==> placements->0@ == placed_cells(
                children@,
                final(self)@,
                trigger.extent(last),
            ),
            final(self)@.inside(),
    {
        let mut size = last;
        match trigger {
            GridTrigger::AddLayout(id, cell) => self.add_layout(id, cell),
            GridTrigger::RemoveLayout(id) => self.remove_layout(id),
            GridTrigger::SetPadding(p) => self.set_padding(p),
            GridTrigger::SetLeftPadding(p) => self.set_left_padding(p),
            GridTrigger::SetTopPadding(p) => self.set_top_padding(p),
            GridTrigger::SetRightPadding(p) => self.set_right_padding(p),
            GridTrigger::SetBottomPadding(p) => self.set_bottom_padding(p),
            GridTrigger::SetSpacing(s) => self.set_spacing(s),
            GridTrigger::SetHorizontalSpacing(s) => self.set_horizontal_spacing(s),
            GridTrigger::SetVerticalSpacing(s) => self.set_vertical_spacing(s),
            GridTrigger::SetSize(grid) => self.set_size(grid),
            GridTrigger::Resized(new) => {
                size = new;
            },
        }
        proof {
            use_type_invariant(&*self);
        }
        if !self.can_update(size) {
            return None;
        }
        Some(self.update(size, children))
    }
}

/// What makes a `Grid` lay itself out anew: a change of its state, or a new
/// size of its window.
#[derive(Debug, Clone, Copy, PartialEq, Eq, Structural)]
pub enum GridTrigger {
    /// A child is assigned a block of cells.
    AddLayout(WindowID, Rect),
    /// A child leaves the layout.
    RemoveLayout(WindowID),
    /// The same padding on all four sides.
    SetPadding(i32),
    SetLeftPadding(i32),
    SetTopPadding(i32),
    SetRightPadding(i32),
    SetBottomPadding(i32),
    /// The same gap between columns and between rows.
    SetSpacing(i32),
    SetHorizontalSpacing(i32),
    SetVerticalSpacing(i32),
    /// The grid has the columns and rows given.
    SetSize(Size),
    /// The window of the container has the size given.
    Resized(Size),
}

impl Cells {
    /// The state of a grid after a trigger. A new size of the window leaves
    /// it as it is.
    pub open spec fn after(self, trigger: GridTrigger) -> Cells {
        match trigger {
            GridTrigger::AddLayout(id, cell) => Cells {
                layout: self.layout.insert(id.hwnd, clamp_cell(cell, self.grid_size)),
                ..self
            },
            GridTrigger::RemoveLayout(id) => Cells { layout: self.layout.remove(id.hwnd), ..self },
            GridTrigger::SetPadding(p) => Cells { padding: uniform(p), ..self },
            GridTrigger::SetLeftPadding(p) => Cells {
                padding: Padding { left: p, ..self.padding },
                ..self
            },
            GridTrigger::SetTopPadding(p) => Cells {
                padding: Padding { top: p, ..self.padding },
                ..self
            },
            GridTrigger::SetRightPadding(p) => Cells {
                padding: Padding { right: p, ..self.padding },
                ..self
            },
            GridTrigger::SetBottomPadding(p) => Cells {
                padding: Padding { bottom: p, ..self.padding },
                ..self
            },
            GridTrigger::SetSpacing(s) => Cells {
                spacing: Spacing { horizontal: s, vertical: s },
                ..self
            },
            GridTrigger::SetHorizontalSpacing(s) => Cells {
                spacing: Spacing { horizontal: s, ..self.spacing },
                ..self
            },
            GridTrigger::SetVerticalSpacing(s) => Cells {
                spacing: Spacing { vertical: s, ..self.spacing },
                ..self
            },
            GridTrigger::SetSize(grid) => Cells {
                grid_size: grid,
                layout: clamp_all(self.layout, grid),
                ..self
            },
            GridTrigger::Resized(_) => self,
        }
    }
}

impl GridTrigger {
    /// The size in which the grid is laid out after the trigger.
    pub open spec fn extent(self, last: Size) -> Size {
        match self {
            GridTrigger::Resized(size) => size,
            _ => last,
        }
    }
}

/// Blocks tile an axis: a block ends one gap before the cell after it
/// begins.
pub proof fn law_blocks_tile(lead: int, cell: int, spacing: int, origin: int, span: int)
    ensures
        pixel_origin(lead, cell, spacing, origin) + pixel_extent(cell, spacing, span) + spacing
            == pixel_origin(lead, cell, spacing, origin + span),
{
    assert(origin * (cell + spacing) + (cell * span + spacing * (span - 1)) + spacing == (origin
        + span) * (cell + spacing)) by (nonlinear_arith);
}

/// Where the container has room for its padding and gaps, the cells stay
/// inside it: the first begins at the leading padding, and the last ends
/// no later than the trailing padding begins.
pub proof fn law_cells_within_container(
    extent: int,
    lead: int,
    trail: int,
    spacing: int,
    dim: int,
)
    requires
        dim >= 1,
        usable(extent, lead, trail, spacing, dim) >= 0,
    ensures
        pixel_origin(lead, cell_extent(extent, lead, trail, spacing, dim), spacing, 0) == lead,
        0 <= cell_extent(extent, lead, trail, spacing, dim),
        pixel_origin(lead, cell_extent(extent, lead, trail, spacing, dim), spacing, dim - 1)
            + cell_extent(extent, lead, trail, spacing, dim) <= extent - trail,
{
    let u = usable(extent, lead, trail, spacing, dim);
    let q = cell_extent(extent, lead, trail, spacing, dim);
    lemma_quotient_bounds(u, dim);
    assert(q >= 0) by (nonlinear_arith)
        requires
            q == u / dim,
            u >= 0,
            dim >= 1,
    ;
    assert((dim - 1) * (q + spacing) + q == q * dim + spacing * (dim - 1)) by (nonlinear_arith);
}

/// Whatever happens to a grid, its assignments stay within it: a new
/// assignment is clamped to the grid, and a new size of the grid clamps all
/// assignments, losing none.
pub proof fn law_assignments_stay_inside(cells: Cells, trigger: GridTrigger)
    requires
        cells.inside(),
    ensures
        cells.after(trigger).inside(),
        trigger is SetSize ==> cells.after(trigger).layout.dom() == cells.layout.dom(),
{
    let after = cells.after(trigger);
    assert forall|k: usize| after.layout.contains_key(k) implies within_grid(
        #[trigger] after.layout[k],
        after.grid_size,
    ) by {
        match trigger {
            GridTrigger::AddLayout(id, cell) => {
                law_clamp_cell(cell, cells.grid_size);
            },
            GridTrigger::SetSize(grid) => {
                law_clamp_cell(cells.layout[k], grid);
            },
            _ => {
                assert(cells.layout.contains_key(k));
            },
        }
    }
    if trigger is SetSize {
        assert(after.layout.dom() =~= cells.layout.dom());
    }
}

} // verus!

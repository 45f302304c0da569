use vstd::prelude::*;

verus! {

/// Screen pixels covered by one lattice cell along each axis.
pub const PIXEL_DISTANCE: u32 = 4;

/// Side of the square tile of lattice cells that one workgroup of the
/// field-setting kernel covers.
pub const FIELD_TILE: u32 = 16;

/// Bytes of one lattice cell's record in the field buffer.
pub const FIELD_CELL_STRIDE: u64 = 16;

/// `a / b` rounded up.
pub open spec fn ceil_div(a: int, b: int) -> int {
    (a + b - 1) / b
}

/// Integer division rounded up, for a positive divisor.
pub fn div_ceil(a: u32, b: u32) -> (r: u32)
    requires
        b > 0,
    ensures
        r == ceil_div(a as int, b as int),
{
    let q = a / b;
    if a % b == 0 {
        assert(ceil_div(a as int, b as int) == q) by (nonlinear_arith)
            requires
                b > 0,
                a % b == 0,
                q == a / b,
        {
        }
        q
    } else {
        assert(ceil_div(a as int, b as int) == q + 1 && q + 1 <= a) by (nonlinear_arith)
            requires
                b > 0,
                a % b != 0,
                q == a / b,
        {
        }
        q + 1
    }
}


/// A two-dimensional size in whole units (pixels or lattice cells).
#[derive(Clone, Copy, Debug, PartialEq, Eq, Structural)]
pub struct Extent2 {
    pub x: u32,
    pub y: u32,
}

/// Lattice cells needed to cover a canvas at `PIXEL_DISTANCE` pixels per cell.
pub open spec fn spec_lattice_size(canvas_size: Extent2) -> Extent2 {
    Extent2 {
        x: ceil_div(canvas_size.x as int, PIXEL_DISTANCE as int) as u32,
        y: ceil_div(canvas_size.y as int, PIXEL_DISTANCE as int) as u32,
    }
}

/// Dispatch size of the field-setting kernel: one workgroup per tile of the lattice.
pub open spec fn spec_field_workgroup_count(lattice_size: Extent2) -> (u32, u32, u32) {
    (
        ceil_div(lattice_size.x as int, FIELD_TILE as int) as u32,
        ceil_div(lattice_size.y as int, FIELD_TILE as int) as u32,
        1,
    )
}

/// Bytes of a field buffer that holds one record per lattice cell.
pub open spec fn spec_field_buffer_size(lattice_size: Extent2) -> int {
    lattice_size.x * lattice_size.y * FIELD_CELL_STRIDE
}

/// Number of lattice cells that cover a canvas of `canvas_size` pixels.
pub fn lattice_size(canvas_size: Extent2) -> (r: Extent2)
    ensures
        r == spec_lattice_size(canvas_size),
        r.x as int == ceil_div(canvas_size.x as int, PIXEL_DISTANCE as int),
        r.y as int == ceil_div(canvas_size.y as int, PIXEL_DISTANCE as int),
{
    Extent2 { x: div_ceil(canvas_size.x, PIXEL_DISTANCE), y: div_ceil(canvas_size.y, PIXEL_DISTANCE) }
}

/// Workgroup count of the field-setting stage for a lattice of `lattice_size` cells.
pub fn field_workgroup_count(lattice_size: Extent2) -> (r: (u32, u32, u32))
    ensures
        r == spec_field_workgroup_count(lattice_size),
        r.0 as int == ceil_div(lattice_size.x as int, FIELD_TILE as int),
        r.1 as int == ceil_div(lattice_size.y as int, FIELD_TILE as int),
        r.2 == 1,
{
    (div_ceil(lattice_size.x, FIELD_TILE), div_ceil(lattice_size.y, FIELD_TILE), 1)
}

/// Size in bytes of the field buffer for a lattice of `lattice_size` cells, or
/// `None` where that size does not fit in 64 bits.
pub fn field_buffer_size(lattice_size: Extent2) -> (r: Option<u64>)
    ensures
        r is Some <==> spec_field_buffer_size(lattice_size) <= u64::MAX,
        r matches Some(n) ==> n as int == spec_field_buffer_size(lattice_size),
{
    let x = lattice_size.x as u64;
    let y = lattice_size.y as u64;
    assert(x * y <= u64::MAX) by (nonlinear_arith)
        requires
            x <= u32::MAX,
            y <= u32::MAX,
    {
    }
    let cells = x * y;
    cells.checked_mul(FIELD_CELL_STRIDE)
}

/// The integer part of the field uniform: what the kernels read to address the
/// lattice and map it onto the canvas.
#[derive(Clone, Copy, Debug, PartialEq, Eq, Structural)]
pub struct FieldLayout {
    /// Number of lattice cells along each axis.
    pub lattice_size: Extent2,
    /// Screen pixels per lattice cell along each axis.
    pub lattice_pixel_size: u32,
    /// Resolution of the render target in pixels.
    pub canvas_size: Extent2,
    /// Selector read by the field-generation kernel.
    pub speed_ty: i32,
}

impl FieldLayout {
    /// The layout that `for_canvas` derives from a canvas size.
    pub open spec fn spec_for_canvas(canvas_size: Extent2) -> FieldLayout {
        FieldLayout {
            lattice_size: spec_lattice_size(canvas_size),
            lattice_pixel_size: PIXEL_DISTANCE,
            canvas_size,
            speed_ty: 0,
        }
    }

    /// A layout is consistent when it is the one derived from its own canvas size.
    pub open spec fn wf(self) -> bool {
        self == Self::spec_for_canvas(self.canvas_size)
    }

    /// Derives the lattice geometry from the canvas size, the single source of
    /// truth for every stage's coordinate space.
    pub fn for_canvas(canvas_size: Extent2) -> (r: FieldLayout)
        ensures
            r == Self::spec_for_canvas(canvas_size),
            r.wf(),
    {
        FieldLayout {
            lattice_size: lattice_size(canvas_size),
            lattice_pixel_size: PIXEL_DISTANCE,
            canvas_size,
            speed_ty: 0,
        }
    }

    /// Workgroup count of the field-setting stage for this layout.
    pub fn field_workgroup_count(&self) -> (r: (u32, u32, u32))
        ensures
            r == spec_field_workgroup_count(self.lattice_size),
    {
        field_workgroup_count(self.lattice_size)
    }

    /// Size in bytes of the field buffer for this layout, or `None` where that
    /// size does not fit in 64 bits.
    pub fn field_buffer_size(&self) -> (r: Option<u64>)
        ensures
            r is Some <==> spec_field_buffer_size(self.lattice_size) <= u64::MAX,
            r matches Some(n) ==> n as int == spec_field_buffer_size(self.lattice_size),
    {
        field_buffer_size(self.lattice_size)
    }
}

/// For every canvas size, the lattice has `ceil(W / r) * ceil(H / r)` cells at
/// `r = PIXEL_DISTANCE` pixels per cell, and the field buffer holds exactly one
/// record of `FIELD_CELL_STRIDE` bytes per cell.
pub proof fn lemma_field_buffer_exact(canvas_size: Extent2)
    ensures
        ({
            let layout = FieldLayout::spec_for_canvas(canvas_size);
            &&& layout.lattice_size.x == ceil_div(canvas_size.x as int, PIXEL_DISTANCE as int)
            &&& layout.lattice_size.y == ceil_div(canvas_size.y as int, PIXEL_DISTANCE as int)
            &&& spec_field_buffer_size(layout.lattice_size) == ceil_div(
                canvas_size.x as int,
                PIXEL_DISTANCE as int,
            ) * ceil_div(canvas_size.y as int, PIXEL_DISTANCE as int) * FIELD_CELL_STRIDE
        }),
{
    let cx = ceil_div(canvas_size.x as int, PIXEL_DISTANCE as int);
    let cy = ceil_div(canvas_size.y as int, PIXEL_DISTANCE as int);
    assert(0 <= cx <= u32::MAX && 0 <= cy <= u32::MAX) by (nonlinear_arith)
        requires
            cx == (canvas_size.x + 3) / 4,
            cy == (canvas_size.y + 3) / 4,
            canvas_size.x <= u32::MAX,
            canvas_size.y <= u32::MAX,
    {
    }
}

} // verus!

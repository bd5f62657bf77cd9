//! The order in which the pixels of an image are written.
//!
//! Pixels are computed in any order, each from its position in the output:
//! positions count row by row from the top left. Within the image a pixel is
//! named by its column from the left and its row from the bottom, which is
//! how the camera counts.
use vstd::prelude::*;

verus! {

/// A pixel: its column `i` from the left and its row `j` from the bottom.
#[derive(Clone, Copy, Debug, PartialEq, Eq, Structural)]
pub struct Pixel {
    pub i: u32,
    pub j: u32,
}

/// The pixel at `position` of an image `nx` wide and `ny` high.
pub open spec fn spec_pixel_at(position: u32, nx: u32, ny: u32) -> Pixel {
    Pixel { i: position % nx, j: (ny - 1 - position / nx) as u32 }
}

/// The place in the output of the pixel in column `i` of row `j`.
pub open spec fn spec_position_of(pixel: Pixel, nx: u32, ny: u32) -> int {
    (ny - 1 - pixel.j) * nx + pixel.i
}

/// The pixel that is written at `position`.
#[verifier::when_used_as_spec(spec_pixel_at)]
pub fn pixel_at(position: u32, nx: u32, ny: u32) -> (r: Pixel)
    requires
        nx > 0,
        position < nx * ny,
    ensures
        r == spec_pixel_at(position, nx, ny),
        r.i < nx,
        r.j < ny,
        spec_position_of(r, nx, ny) == position,
{
    proof {
        law_positions_round_trip(position, nx, ny);
    }
    Pixel { i: position % nx, j: ny - 1 - position / nx }
}

/// The number of pixels of an image, if it fits.
pub fn pixel_count(nx: u32, ny: u32) -> (r: Option<u32>)
    ensures
        r is Some <==> nx * ny <= u32::MAX,
        (r matches Some(n) ==> n == nx * ny),
{
    nx.checked_mul(ny)
}

/// Every position names one pixel of the image, and that pixel's place is the
/// position again.
pub proof fn law_positions_round_trip(position: u32, nx: u32, ny: u32)
    requires
        nx > 0,
        position < nx * ny,
    ensures
        pixel_at(position, nx, ny).i < nx,
        position / nx < ny,
        pixel_at(position, nx, ny).j < ny,
        spec_position_of(pixel_at(position, nx, ny), nx, ny) == position,
{
    let q = position / nx;
    let r = position % nx;
    assert(position == q * nx + r) by {
        vstd::arithmetic::div_mod::lemma_fundamental_div_mod(position as int, nx as int);
        assert(q * nx == nx * q) by (nonlinear_arith);
    }
    assert(q < ny) by (nonlinear_arith)
        requires
            position == q * nx + r,
            0 <= r,
            position < nx * ny,
            nx > 0,
    ;
}

/// Every pixel of the image has a place in the output, and that place names
/// the pixel again.
pub proof fn law_pixels_round_trip(pixel: Pixel, nx: u32, ny: u32)
    requires
        pixel.i < nx,
        pixel.j < ny,
        nx * ny <= u32::MAX,
    ensures
        0 <= spec_position_of(pixel, nx, ny) < nx * ny,
        pixel_at(spec_position_of(pixel, nx, ny) as u32, nx, ny) == pixel,
{
    let row: int = ny - 1 - pixel.j;
    let position: int = row * nx + pixel.i;
    assert(0 <= row * nx && row * nx + nx <= nx * ny) by (nonlinear_arith)
        requires
            0 <= row < ny,
            nx > 0,
    ;
    vstd::arithmetic::div_mod::lemma_fundamental_div_mod_converse(
        position,
        nx as int,
        row,
        pixel.i as int,
    );
}

/// The output runs through the rows from the top to the bottom, and through
/// each row from the left to the right.
pub proof fn law_rows_top_down(p: u32, q: u32, nx: u32, ny: u32)
    requires
        nx > 0,
        p < q,
        q < nx * ny,
    ensures
        pixel_at(p, nx, ny).j > pixel_at(q, nx, ny).j || (pixel_at(p, nx, ny).j == pixel_at(
            q,
            nx,
            ny,
        ).j && pixel_at(p, nx, ny).i < pixel_at(q, nx, ny).i),
{
    law_positions_round_trip(p, nx, ny);
    law_positions_round_trip(q, nx, ny);
    let jp = pixel_at(p, nx, ny).j;
    let jq = pixel_at(q, nx, ny).j;
    let ip = pixel_at(p, nx, ny).i;
    let iq = pixel_at(q, nx, ny).i;
    if jp < jq {
        assert((ny - 1 - jp) * nx >= (ny - 1 - jq) * nx + nx) by (nonlinear_arith)
            requires
                jp < jq,
                jq < ny,
                nx > 0,
        ;
    }
}

} // verus!

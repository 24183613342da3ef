//! Verified core of a sphere path tracer: pixel packing and frame buffers,
//! nearest-hit selection over ordered ray parameters, and the depth-bounded
//! control of a light path.

pub mod material;
pub mod param;
pub mod radiance;
pub mod sample;
pub mod sphere;
pub mod vec;
pub mod world;

use vstd::prelude::*;
use crate::vec::{Vec3i, channels, red_of, green_of, blue_of};

verus! {

/// The packed colour white.
pub const WHITE: u32 = 0xff_ffff;

/// Place of pixel `(x, y)` in a row-major buffer of rows `width` long, the
/// top row first.
pub open spec fn pixel_index(width: int, x: int, y: int) -> int {
    y * width + x
}

/// A channel that rises with `i` from 0 towards 255 over `n` steps.
pub open spec fn ramp(i: int, n: int) -> int {
    255 * i / n
}

/// Colour of pixel `(x, y)` in the test gradient: red rises with the row,
/// green with the column, and there is no blue.
pub open spec fn gradient_pixel(width: int, height: int, x: int, y: int) -> int {
    ramp(y, height) * 65536 + ramp(x, width) * 256
}

proof fn lemma_ramp_bounds(i: int, n: int)
    requires
        0 <= i < n,
    ensures
        0 <= ramp(i, n) <= 254,
{
    assert(0 <= 255 * i / n <= 254) by (nonlinear_arith)
        requires
            0 <= i < n,
    ;
}

proof fn lemma_pixel_index_bounds(width: int, height: int, x: int, y: int)
    requires
        0 <= x < width,
        0 <= y < height,
    ensures
        0 <= pixel_index(width, x, y) < width * height,
        pixel_index(width, x, y) + (width - x) <= width * height,
{
    assert(y * width + width <= height * width) by (nonlinear_arith)
        requires
            0 <= y < height,
            0 <= width,
    ;
    assert(0 <= y * width) by (nonlinear_arith)
        requires
            0 <= y,
            0 <= width,
    ;
    assert(height * width == width * height) by (nonlinear_arith);
}

/// A buffer of `width * height` pixels, all white.
pub fn blank_screen(width: usize, height: usize) -> (buffer: Vec<u32>)
    requires
        width * height <= usize::MAX,
    ensures
        buffer@ == Seq::new((width * height) as nat, |i: int| WHITE),
{
    let n: usize = width * height;
    let mut buffer: Vec<u32> = Vec::new();
    let mut i: usize = 0;
    while i < n
        invariant
            i <= n,
            buffer@ == Seq::new(i as nat, |j: int| WHITE),
        decreases n - i,
    {
        buffer.push(WHITE);
        i = i + 1;
    }
    buffer
}

fn ramp_channel(i: usize, n: usize) -> (c: u32)
    requires
        i < n,
    ensures
        c == ramp(i as int, n as int),
        c <= 254,
{
    proof {
        lemma_ramp_bounds(i as int, n as int);
    }
    let scaled: u128 = 255u128 * (i as u128);
    let c: u128 = scaled / (n as u128);
    c as u32
}

/// A buffer of `width * height` pixels, row by row from the top, that holds
/// the test gradient.
pub fn gradient(width: usize, height: usize) -> (buffer: Vec<u32>)
    requires
        width * height <= usize::MAX,
    ensures
        buffer@.len() == width * height,
        forall|x: int, y: int|
            0 <= x < width && 0 <= y < height ==> #[trigger] buffer@[pixel_index(
                width as int,
                x,
                y,
            )] == gradient_pixel(width as int, height as int, x, y),
{
    let mut buffer: Vec<u32> = Vec::new();
    let mut y: usize = 0;
    while y < height
        invariant
            y <= height,
            width * height <= usize::MAX,
            buffer@.len() == y * width,
            forall|i: int, j: int|
                0 <= i < width && 0 <= j < y ==> #[trigger] buffer@[pixel_index(width as int, i, j)]
                    == gradient_pixel(width as int, height as int, i, j),
        decreases height - y,
    {
        let red: u32 = ramp_channel(y, height);
        let mut x: usize = 0;
        while x < width
            invariant
                x <= width,
                y < height,
                red == ramp(y as int, height as int),
                red <= 254,
                width * height <= usize::MAX,
                buffer@.len() == pixel_index(width as int, x as int, y as int),
                forall|i: int, j: int|
                    0 <= i < width && 0 <= j < y ==> #[trigger] buffer@[pixel_index(
                        width as int,
                        i,
                        j,
                    )] == gradient_pixel(width as int, height as int, i, j),
                forall|i: int|
                    0 <= i < x ==> #[trigger] buffer@[pixel_index(width as int, i, y as int)]
                        == gradient_pixel(width as int, height as int, i, y as int),
            decreases width - x,
        {
            let green: u32 = ramp_channel(x, width);
            let color: Vec3i = Vec3i::new(red, green, 0);
            let hex: u32 = color.to_hex();
            proof {
                assert forall|i: int, j: int| 0 <= i < width && 0 <= j < y implies pixel_index(
                    width as int,
                    i,
                    j,
                ) < buffer@.len() by {
                    lemma_pixel_index_bounds(width as int, y as int, i, j);
                    assert(y * width == width * y) by (nonlinear_arith);
                    assert(0 <= y * width) by (nonlinear_arith)
                        requires
                            0 <= y,
                            0 <= width,
                    ;
                }
            }
            buffer.push(hex);
            x = x + 1;
        }
        proof {
            assert((y + 1) * width == y * width + width) by (nonlinear_arith);
        }
        y = y + 1;
    }
    proof {
        assert(height * width == width * height) by (nonlinear_arith);
    }
    buffer
}

/// Every index of the buffer is the place of exactly one pixel: that in
/// column `i % width` of row `i / width`.
pub proof fn lemma_pixel_index_onto(width: int, height: int, i: int)
    requires
        0 <= width,
        0 <= i < width * height,
    ensures
        0 <= i % width < width,
        0 <= i / width < height,
        pixel_index(width, i % width, i / width) == i,
{
    assert(0 < width && 0 < height) by (nonlinear_arith)
        requires
            0 <= width,
            0 <= i < width * height,
    ;
    vstd::arithmetic::div_mod::lemma_fundamental_div_mod(i, width);
    vstd::arithmetic::div_mod::lemma_mod_bound(i, width);
    let q = i / width;
    let r = i % width;
    assert(0 <= q < height) by (nonlinear_arith)
        requires
            i == width * q + r,
            0 <= r < width,
            0 <= i < width * height,
            0 < width,
    ;
    assert(q * width == width * q) by (nonlinear_arith);
}

/// The bytes of an image: for each pixel of `buffer` in turn its red, green
/// and blue channel.
pub fn vec_from_hex(buffer: Vec<u32>) -> (bytes: Vec<u8>)
    ensures
        bytes@.len() == 3 * buffer@.len(),
        forall|i: int|
            0 <= i < buffer@.len() ==> {
                &&& bytes@[3 * i] == red_of(#[trigger] buffer@[i])
                &&& bytes@[3 * i + 1] == green_of(buffer@[i])
                &&& bytes@[3 * i + 2] == blue_of(buffer@[i])
            },
{
    let mut bytes: Vec<u8> = Vec::new();
    let mut k: usize = 0;
    while k < buffer.len()
        invariant
            k <= buffer@.len(),
            bytes@.len() == 3 * k,
            forall|i: int|
                0 <= i < k ==> {
                    &&& bytes@[3 * i] == red_of(#[trigger] buffer@[i])
                    &&& bytes@[3 * i + 1] == green_of(buffer@[i])
                    &&& bytes@[3 * i + 2] == blue_of(buffer@[i])
                },
        decreases buffer@.len() - k,
    {
        let rgb: (u8, u8, u8) = channels(buffer[k]);
        bytes.push(rgb.0);
        bytes.push(rgb.1);
        bytes.push(rgb.2);
        k = k + 1;
    }
    bytes
}

} // verus!

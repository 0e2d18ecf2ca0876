//! The pixel surface: a mutable byte region mapped over a kernel-owned
//! framebuffer, addressed as rows of `pitch` bytes holding `width` four-byte
//! pixels. All writes go through checked pixel coordinates; the byte layout
//! is `offset(x, y) = y * pitch + 4 * x`.

use vstd::prelude::*;
use crate::drm::DrmError;

verus! {

/// One pixel: four 8-bit channels, stored in the surface in exactly this
/// byte order (red, green, blue, alpha; plain overwrite, no blending).
#[derive(Clone, Copy, PartialEq, Eq, Structural, Debug)]
pub struct Color {
    pub r: u8,
    pub g: u8,
    pub b: u8,
    pub a: u8,
}

impl Color {
    pub fn new(r: u8, g: u8, b: u8, a: u8) -> (c: Color)
        ensures
            c == (Color { r, g, b, a }),
    {
        Color { r, g, b, a }
    }
}

/// A drawing request that names a pixel outside the surface is refused
/// before anything is written.
#[derive(Clone, Copy, PartialEq, Eq, Structural, Debug)]
pub enum DrawError {
    OutOfRange,
}

/// Declares memmap's mutable memory mapping so that a surface can hold one.
#[verifier::external_type_specification]
#[verifier::external_body]
pub struct ExMmapMut(memmap::MmapMut);

/// The bytes a mapping holds, in order.
pub uninterp spec fn region_bytes(m: memmap::MmapMut) -> Seq<u8>;

/// Relies on memmap::MmapMut's Deref to `[u8]`: the slice's length is the
/// mapping's length, which is fixed when the mapping is made.
#[verifier::external_body]
fn region_len(m: &memmap::MmapMut) -> (n: usize)
    ensures
        n == region_bytes(*m).len(),
{
    m.len()
}

/// Relies on indexing through memmap::MmapMut's Deref: returns the byte at
/// index `i` of the mapped region.
#[verifier::external_body]
fn region_read(m: &memmap::MmapMut, i: usize) -> (b: u8)
    requires
        i < region_bytes(*m).len(),
    ensures
        b == region_bytes(*m)[i as int],
{
    m[i]
}

/// Relies on indexing through memmap::MmapMut's DerefMut: stores `b` at
/// index `i` of the mapped region and leaves every other byte as it was.
#[verifier::external_body]
fn region_write(m: &mut memmap::MmapMut, i: usize, b: u8)
    requires
        i < region_bytes(*old(m)).len(),
    ensures
        region_bytes(*final(m)) == region_bytes(*old(m)).update(i as int, b),
{
    m[i] = b;
}

/// Byte offset of the pixel at (x, y) in a surface with the given row pitch.
pub open spec fn pix_off(pitch: int, x: int, y: int) -> int {
    y * pitch + 4 * x
}

/// Whether (x, y) lies on a surface of the given width and height.
pub open spec fn in_range(w: int, h: int, x: int, y: int) -> bool {
    0 <= x < w && 0 <= y < h
}

/// The pixel stored at (x, y): four consecutive bytes starting at its offset.
pub open spec fn pixel_of(s: Seq<u8>, pitch: int, x: int, y: int) -> Color {
    Color {
        r: s[pix_off(pitch, x, y)],
        g: s[pix_off(pitch, x, y) + 1],
        b: s[pix_off(pitch, x, y) + 2],
        a: s[pix_off(pitch, x, y) + 3],
    }
}

/// The byte region after the pixel at (x, y) is overwritten with `c`.
pub open spec fn with_pixel(s: Seq<u8>, pitch: int, x: int, y: int, c: Color) -> Seq<u8> {
    s.update(pix_off(pitch, x, y), c.r)
        .update(pix_off(pitch, x, y) + 1, c.g)
        .update(pix_off(pitch, x, y) + 2, c.b)
        .update(pix_off(pitch, x, y) + 3, c.a)
}

/// The four bytes of a pixel inside the surface lie inside the region.
proof fn lemma_off_in_bounds(s_len: int, pitch: int, w: int, h: int, x: int, y: int)
    requires
        4 * w <= pitch,
        h * pitch <= s_len,
        in_range(w, h, x, y),
    ensures
        0 <= pix_off(pitch, x, y),
        pix_off(pitch, x, y) + 4 <= h * pitch,
        pix_off(pitch, x, y) + 4 <= s_len,
{
    assert(0 <= y * pitch) by (nonlinear_arith)
        requires
            0 <= y,
            0 <= pitch,
    ;
    assert(y * pitch + pitch == (y + 1) * pitch) by (nonlinear_arith);
    assert((y + 1) * pitch <= h * pitch) by (nonlinear_arith)
        requires
            y + 1 <= h,
            0 <= pitch,
    ;
}

/// Two distinct in-range pixels occupy disjoint four-byte spans.
proof fn lemma_off_disjoint(pitch: int, w: int, h: int, x: int, y: int, i: int, j: int)
    requires
        4 * w <= pitch,
        in_range(w, h, x, y),
        in_range(w, h, i, j),
        !(i == x && j == y),
    ensures
        pix_off(pitch, x, y) + 4 <= pix_off(pitch, i, j) || pix_off(pitch, i, j) + 4 <= pix_off(
            pitch,
            x,
            y,
        ),
{
    if j == y {
        assert(y * pitch == j * pitch);
    } else if j < y {
        assert(j * pitch + pitch == (j + 1) * pitch) by (nonlinear_arith);
        assert((j + 1) * pitch <= y * pitch) by (nonlinear_arith)
            requires
                j + 1 <= y,
                0 <= pitch,
        ;
    } else {
        assert(y * pitch + pitch == (y + 1) * pitch) by (nonlinear_arith);
        assert((y + 1) * pitch <= j * pitch) by (nonlinear_arith)
            requires
                y + 1 <= j,
                0 <= pitch,
        ;
    }
}

/// Law: writing a pixel then reading the same coordinate returns exactly the
/// written color, every other pixel of the surface reads as before, and the
/// region keeps its length.
pub proof fn lemma_pixel_write_read(
    s: Seq<u8>,
    pitch: int,
    w: int,
    h: int,
    x: int,
    y: int,
    i: int,
    j: int,
    c: Color,
)
    requires
        4 * w <= pitch,
        h * pitch <= s.len(),
        in_range(w, h, x, y),
        in_range(w, h, i, j),
    ensures
        with_pixel(s, pitch, x, y, c).len() == s.len(),
        i == x && j == y ==> pixel_of(with_pixel(s, pitch, x, y, c), pitch, i, j) == c,
        !(i == x && j == y) ==> pixel_of(with_pixel(s, pitch, x, y, c), pitch, i, j) == pixel_of(
            s,
            pitch,
            i,
            j,
        ),
{
    lemma_off_in_bounds(s.len() as int, pitch, w, h, x, y);
    lemma_off_in_bounds(s.len() as int, pitch, w, h, i, j);
    if !(i == x && j == y) {
        lemma_off_disjoint(pitch, w, h, x, y, i, j);
    }
}

/// The mapped surface: the byte region plus its cached geometry. A surface
/// is well formed when every row holds `width` four-byte pixels within its
/// `pitch` bytes and the region holds `height` whole rows.
pub struct FrameBuffer {
    pub frame: memmap::MmapMut,
    pub width: u32,
    pub height: u32,
    pub pitch: u32,
}

impl FrameBuffer {
    /// Geometry and region agree: rows fit their pitch, the region holds all rows.
    pub open spec fn wf(self) -> bool {
        4 * self.width <= self.pitch && self.height * self.pitch <= region_bytes(
            self.frame,
        ).len() && self.height * self.pitch <= usize::MAX
    }

    /// The surface's bytes.
    pub open spec fn bytes(self) -> Seq<u8> {
        region_bytes(self.frame)
    }

    /// The pixel stored at (x, y).
    pub open spec fn pixel(self, x: int, y: int) -> Color {
        pixel_of(self.bytes(), self.pitch as int, x, y)
    }

    /// Geometry and region length carried unchanged across a drawing call.
    pub open spec fn same_shape(self, other: Self) -> bool {
        self.width == other.width && self.height == other.height && self.pitch == other.pitch
            && self.bytes().len() == other.bytes().len()
    }

    /// Wraps a mapped region as a surface, after checking that the region is
    /// large enough for `height` rows of `pitch` bytes each holding `width`
    /// four-byte pixels; a region too small for the geometry is refused.
    pub fn new(frame: memmap::MmapMut, width: u32, height: u32, pitch: u32) -> (r: Result<
        FrameBuffer,
        DrmError,
    >)
        ensures
            (r is Ok) <==> (4 * width <= pitch && height * pitch <= region_bytes(frame).len()),
            r matches Ok(fb) ==> fb.wf() && fb.width == width && fb.height == height && fb.pitch
                == pitch && fb.bytes() == region_bytes(frame),
            r matches Err(e) ==> e == DrmError::MappingFailed,
    {
        let len = region_len(&frame);
        proof {
            assert((height as int) * (pitch as int) <= 0xffff_ffff * 0xffff_ffff)
                by (nonlinear_arith)
                requires
                    height <= 0xffff_ffffu32,
                    pitch <= 0xffff_ffffu32,
            ;
        }
        if 4 * (width as u64) <= (pitch as u64) && (height as u64) * (pitch as u64) <= (
        len as u64) {
            Ok(FrameBuffer { frame, width, height, pitch })
        } else {
            Err(DrmError::MappingFailed)
        }
    }

    pub fn width(&self) -> (w: u32)
        ensures
            w == self.width,
    {
        self.width
    }

    pub fn height(&self) -> (h: u32)
        ensures
            h == self.height,
    {
        self.height
    }

    pub fn pitch(&self) -> (p: u32)
        ensures
            p == self.pitch,
    {
        self.pitch
    }

    /// Writes the pixel at in-range (x, y): its four bytes are overwritten
    /// with the color's channels, every other pixel keeps its value.
    pub(crate) fn set_unchecked(&mut self, x: u32, y: u32, c: &Color)
        requires
            old(self).wf(),
            x < old(self).width,
            y < old(self).height,
        ensures
            final(self).wf(),
            old(self).same_shape(*final(self)),
            final(self).bytes() == with_pixel(
                old(self).bytes(),
                old(self).pitch as int,
                x as int,
                y as int,
                *c,
            ),
            final(self).pixel(x as int, y as int) == *c,
            forall|i: int, j: int|
                in_range(old(self).width as int, old(self).height as int, i, j) && !(i == x as int
                    && j == y as int) ==> final(self).pixel(i, j) == old(self).pixel(i, j),
    {
        proof {
            lemma_off_in_bounds(
                old(self).bytes().len() as int,
                self.pitch as int,
                self.width as int,
                self.height as int,
                x as int,
                y as int,
            );
        }
        let row: usize = (y as usize) * (self.pitch as usize);
        let off: usize = row + 4 * (x as usize);
        region_write(&mut self.frame, off, c.r);
        region_write(&mut self.frame, off + 1, c.g);
        region_write(&mut self.frame, off + 2, c.b);
        region_write(&mut self.frame, off + 3, c.a);
        proof {
            assert forall|i: int, j: int|
                in_range(old(self).width as int, old(self).height as int, i, j) && !(i == x as int
                    && j == y as int) implies final(self).pixel(i, j) == old(self).pixel(i, j) by {
                lemma_pixel_write_read(
                    old(self).bytes(),
                    old(self).pitch as int,
                    old(self).width as int,
                    old(self).height as int,
                    x as int,
                    y as int,
                    i,
                    j,
                    *c,
                );
            }
            lemma_pixel_write_read(
                old(self).bytes(),
                old(self).pitch as int,
                old(self).width as int,
                old(self).height as int,
                x as int,
                y as int,
                x as int,
                y as int,
                *c,
            );
        }
    }

    /// Writes the pixel at (x, y); a coordinate outside the surface is
    /// refused and the surface is left exactly as it was.
    pub fn set(&mut self, x: u32, y: u32, c: &Color) -> (r: Result<(), DrawError>)
        requires
            old(self).wf(),
        ensures
            final(self).wf(),
            old(self).same_shape(*final(self)),
            (r is Ok) <==> in_range(
                old(self).width as int,
                old(self).height as int,
                x as int,
                y as int,
            ),
            r is Ok ==> final(self).bytes() == with_pixel(
                old(self).bytes(),
                old(self).pitch as int,
                x as int,
                y as int,
                *c,
            ),
            r is Ok ==> final(self).pixel(x as int, y as int) == *c && forall|i: int, j: int|
                in_range(old(self).width as int, old(self).height as int, i, j) && !(i == x as int
                    && j == y as int) ==> final(self).pixel(i, j) == old(self).pixel(i, j),
            r matches Err(e) ==> e == DrawError::OutOfRange && final(self).bytes() == old(
                self,
            ).bytes(),
    {
        if x < self.width && y < self.height {
            self.set_unchecked(x, y, c);
            Ok(())
        } else {
            Err(DrawError::OutOfRange)
        }
    }

    /// Reads the pixel at (x, y) back from the mapped bytes; a coordinate
    /// outside the surface yields nothing.
    pub fn get(&self, x: u32, y: u32) -> (r: Option<Color>)
        requires
            self.wf(),
        ensures
            r == if in_range(self.width as int, self.height as int, x as int, y as int) {
                Some(self.pixel(x as int, y as int))
            } else {
                None::<Color>
            },
    {
        if x < self.width && y < self.height {
            proof {
                lemma_off_in_bounds(
                    self.bytes().len() as int,
                    self.pitch as int,
                    self.width as int,
                    self.height as int,
                    x as int,
                    y as int,
                );
            }
            let row: usize = (y as usize) * (self.pitch as usize);
            let off: usize = row + 4 * (x as usize);
            let r = region_read(&self.frame, off);
            let g = region_read(&self.frame, off + 1);
            let b = region_read(&self.frame, off + 2);
            let a = region_read(&self.frame, off + 3);
            Some(Color { r, g, b, a })
        } else {
            None
        }
    }
}

} // verus!

//! Drawing primitives over the pixel surface: point, vertical and horizontal
//! lines, filled rectangle, full-surface clear. A rectangle is painted as a
//! run of vertical lines; every primitive either paints exactly its pixels
//! or refuses the whole request, leaving the surface untouched.

use vstd::prelude::*;
use crate::surface::Color;
use crate::surface::DrawError;
use crate::surface::FrameBuffer;
use crate::surface::in_range;

verus! {

/// Whether (i, j) lies in the rectangle of width `w` and height `h` whose
/// top-left corner is (x, y).
pub open spec fn in_rect(x: int, y: int, w: int, h: int, i: int, j: int) -> bool {
    x <= i < x + w && y <= j < y + h
}

/// The drawing layer: owns the surface it paints on.
pub struct GFX {
    pub fb: FrameBuffer,
}

impl GFX {
    pub open spec fn wf(self) -> bool {
        self.fb.wf()
    }

    /// The pixel stored at (x, y) of the owned surface.
    pub open spec fn pixel(self, x: int, y: int) -> Color {
        self.fb.pixel(x, y)
    }

    pub open spec fn same_shape(self, other: Self) -> bool {
        self.fb.same_shape(other.fb)
    }

    /// Takes ownership of an already mapped surface to draw on.
    pub fn new(fb: FrameBuffer) -> (g: GFX)
        ensures
            g.fb == fb,
    {
        GFX { fb }
    }

    pub fn width(&self) -> (w: u32)
        ensures
            w == self.fb.width,
    {
        self.fb.width()
    }

    pub fn height(&self) -> (h: u32)
        ensures
            h == self.fb.height,
    {
        self.fb.height()
    }

    /// Paints the vertical run of `h` pixels starting at in-range (x, y).
    fn vline_unchecked(&mut self, x: u32, y: u32, h: u32, c: &Color)
        requires
            old(self).wf(),
            x < old(self).fb.width,
            y + h <= old(self).fb.height,
        ensures
            final(self).wf(),
            old(self).same_shape(*final(self)),
            forall|i: int, j: int|
                in_range(old(self).fb.width as int, old(self).fb.height as int, i, j)
                    ==> final(self).pixel(i, j) == if in_rect(
                    x as int,
                    y as int,
                    1,
                    h as int,
                    i,
                    j,
                ) {
                    *c
                } else {
                    old(self).pixel(i, j)
                },
    {
        let mut l: u32 = 0;
        while l < h
            invariant
                self.wf(),
                old(self).same_shape(*self),
                x < self.fb.width,
                y + h <= self.fb.height,
                l <= h,
                forall|i: int, j: int|
                    in_range(self.fb.width as int, self.fb.height as int, i, j)
                        ==> self.pixel(i, j) == if in_rect(x as int, y as int, 1, l as int, i, j) {
                        *c
                    } else {
                        old(self).pixel(i, j)
                    },
            decreases h - l,
        {
            let ghost prev = *self;
            self.fb.set_unchecked(x, y + l, c);
            proof {
                assert forall|i: int, j: int|
                    in_range(self.fb.width as int, self.fb.height as int, i, j) implies self.pixel(
                    i,
                    j,
                ) == if in_rect(x as int, y as int, 1, l as int + 1, i, j) {
                    *c
                } else {
                    old(self).pixel(i, j)
                } by {
                    assert(prev.pixel(i, j) == if in_rect(x as int, y as int, 1, l as int, i, j) {
                        *c
                    } else {
                        old(self).pixel(i, j)
                    });
                    if i == x as int && j == y as int + l as int {
                        assert(self.pixel(i, j) == *c);
                    } else {
                        assert(self.pixel(i, j) == prev.pixel(i, j));
                    }
                }
            }
            l = l + 1;
        }
    }

    /// Paints the rectangle `[x, x+w) x [y, y+h)` as `w` vertical lines.
    fn fill_unchecked(&mut self, x: u32, y: u32, w: u32, h: u32, c: &Color)
        requires
            old(self).wf(),
            x + w <= old(self).fb.width,
            y + h <= old(self).fb.height,
        ensures
            final(self).wf(),
            old(self).same_shape(*final(self)),
            forall|i: int, j: int|
                in_range(old(self).fb.width as int, old(self).fb.height as int, i, j)
                    ==> final(self).pixel(i, j) == if in_rect(
                    x as int,
                    y as int,
                    w as int,
                    h as int,
                    i,
                    j,
                ) {
                    *c
                } else {
                    old(self).pixel(i, j)
                },
    {
        let mut l: u32 = 0;
        while l < w
            invariant
                self.wf(),
                old(self).same_shape(*self),
                x + w <= self.fb.width,
                y + h <= self.fb.height,
                l <= w,
                forall|i: int, j: int|
                    in_range(self.fb.width as int, self.fb.height as int, i, j)
                        ==> self.pixel(i, j) == if in_rect(x as int, y as int, l as int, h as int, i, j) {
                        *c
                    } else {
                        old(self).pixel(i, j)
                    },
            decreases w - l,
        {
            self.vline_unchecked(x + l, y, h, c);
            l = l + 1;
        }
    }

    /// Paints the single pixel at (x, y); a coordinate outside the surface
    /// is refused and nothing is written.
    pub fn point(&mut self, x: u32, y: u32, c: &Color) -> (r: Result<(), DrawError>)
        requires
            old(self).wf(),
        ensures
            final(self).wf(),
            old(self).same_shape(*final(self)),
            (r is Ok) <==> in_range(
                old(self).fb.width as int,
                old(self).fb.height as int,
                x as int,
                y as int,
            ),
            r is Ok ==> forall|i: int, j: int|
                in_range(old(self).fb.width as int, old(self).fb.height as int, i, j)
                    ==> final(self).pixel(i, j) == if i == x as int && j == y as int {
                    *c
                } else {
                    old(self).pixel(i, j)
                },
            r matches Err(e) ==> e == DrawError::OutOfRange && final(self).fb.bytes() == old(
                self,
            ).fb.bytes(),
    {
        self.fb.set(x, y, c)
    }

    /// Paints the `height` pixels straight down from (x, y); a run that
    /// would leave the surface is refused whole, and an empty run always
    /// succeeds without writing.
    pub fn vertical_line(&mut self, x: u32, y: u32, height: u32, c: &Color) -> (r: Result<
        (),
        DrawError,
    >)
        requires
            old(self).wf(),
        ensures
            final(self).wf(),
            old(self).same_shape(*final(self)),
            (r is Ok) <==> (height == 0 || (x < old(self).fb.width && y + height <= old(
                self,
            ).fb.height)),
            r is Ok ==> forall|i: int, j: int|
                in_range(old(self).fb.width as int, old(self).fb.height as int, i, j)
                    ==> final(self).pixel(i, j) == if in_rect(
                    x as int,
                    y as int,
                    1,
                    height as int,
                    i,
                    j,
                ) {
                    *c
                } else {
                    old(self).pixel(i, j)
                },
            r matches Err(e) ==> e == DrawError::OutOfRange && final(self).fb.bytes() == old(
                self,
            ).fb.bytes(),
    {
        if height == 0 {
            return Ok(());
        }
        if x < self.fb.width() && (y as u64) + (height as u64) <= (self.fb.height() as u64) {
            self.vline_unchecked(x, y, height, c);
            Ok(())
        } else {
            Err(DrawError::OutOfRange)
        }
    }

    /// Paints the `width` pixels straight right from (x, y); a run that
    /// would leave the surface is refused whole, and an empty run always
    /// succeeds without writing.
    pub fn horizontal_line(&mut self, x: u32, y: u32, width: u32, c: &Color) -> (r: Result<
        (),
        DrawError,
    >)
        requires
            old(self).wf(),
        ensures
            final(self).wf(),
            old(self).same_shape(*final(self)),
            (r is Ok) <==> (width == 0 || (y < old(self).fb.height && x + width <= old(
                self,
            ).fb.width)),
            r is Ok ==> forall|i: int, j: int|
                in_range(old(self).fb.width as int, old(self).fb.height as int, i, j)
                    ==> final(self).pixel(i, j) == if in_rect(
                    x as int,
                    y as int,
                    width as int,
                    1,
                    i,
                    j,
                ) {
                    *c
                } else {
                    old(self).pixel(i, j)
                },
            r matches Err(e) ==> e == DrawError::OutOfRange && final(self).fb.bytes() == old(
                self,
            ).fb.bytes(),
    {
        if width == 0 {
            return Ok(());
        }
        if y < self.fb.height() && (x as u64) + (width as u64) <= (self.fb.width() as u64) {
            self.fill_unchecked(x, y, width, 1, c);
            Ok(())
        } else {
            Err(DrawError::OutOfRange)
        }
    }

    /// Paints exactly the pixels of `[x, x+width) x [y, y+height)` and no
    /// others; a rectangle that would leave the surface is refused whole,
    /// and an empty rectangle always succeeds without writing.
    pub fn rectangle(&mut self, x: u32, y: u32, width: u32, height: u32, c: &Color) -> (r: Result<
        (),
        DrawError,
    >)
        requires
            old(self).wf(),
        ensures
            final(self).wf(),
            old(self).same_shape(*final(self)),
            (r is Ok) <==> (width == 0 || height == 0 || (x + width <= old(self).fb.width && y
                + height <= old(self).fb.height)),
            r is Ok ==> forall|i: int, j: int|
                in_range(old(self).fb.width as int, old(self).fb.height as int, i, j)
                    ==> final(self).pixel(i, j) == if in_rect(
                    x as int,
                    y as int,
                    width as int,
                    height as int,
                    i,
                    j,
                ) {
                    *c
                } else {
                    old(self).pixel(i, j)
                },
            r matches Err(e) ==> e == DrawError::OutOfRange && final(self).fb.bytes() == old(
                self,
            ).fb.bytes(),
    {
        if width == 0 || height == 0 {
            return Ok(());
        }
        if (x as u64) + (width as u64) <= (self.fb.width() as u64) && (y as u64) + (height as u64)
            <= (self.fb.height() as u64) {
            self.fill_unchecked(x, y, width, height, c);
            Ok(())
        } else {
            Err(DrawError::OutOfRange)
        }
    }

    /// Paints the fixed self-test pattern in white: a 100-pixel vertical
    /// line and a 100-pixel horizontal line from the origin, and a
    /// 100-by-100 square at (10, 10); refused whole on a surface smaller
    /// than 110 by 110.
    pub fn test(&mut self) -> (r: Result<(), DrawError>)
        requires
            old(self).wf(),
        ensures
            final(self).wf(),
            old(self).same_shape(*final(self)),
            (r is Ok) <==> (110 <= old(self).fb.width && 110 <= old(self).fb.height),
            r is Ok ==> forall|i: int, j: int|
                in_range(old(self).fb.width as int, old(self).fb.height as int, i, j)
                    ==> final(self).pixel(i, j) == if in_rect(0, 0, 1, 100, i, j) || in_rect(
                    0,
                    0,
                    100,
                    1,
                    i,
                    j,
                ) || in_rect(10, 10, 100, 100, i, j) {
                    (Color { r: 255u8, g: 255u8, b: 255u8, a: 255u8 })
                } else {
                    old(self).pixel(i, j)
                },
            r matches Err(e) ==> e == DrawError::OutOfRange && final(self).fb.bytes() == old(
                self,
            ).fb.bytes(),
    {
        if !(self.fb.width() >= 110 && self.fb.height() >= 110) {
            return Err(DrawError::OutOfRange);
        }
        let c = Color::new(255, 255, 255, 255);
        let r1 = self.vertical_line(0, 0, 100, &c);
        proof {
            assert(r1 is Ok);
        }
        let ghost g1 = *self;
        let r2 = self.horizontal_line(0, 0, 100, &c);
        proof {
            assert(r2 is Ok);
        }
        let ghost g2 = *self;
        let r3 = self.rectangle(10, 10, 100, 100, &c);
        proof {
            assert(r3 is Ok);
            assert forall|i: int, j: int|
                in_range(old(self).fb.width as int, old(self).fb.height as int, i, j) implies self.pixel(
                i,
                j,
            ) == if in_rect(0, 0, 1, 100, i, j) || in_rect(0, 0, 100, 1, i, j) || in_rect(
                10,
                10,
                100,
                100,
                i,
                j,
            ) {
                (Color { r: 255u8, g: 255u8, b: 255u8, a: 255u8 })
            } else {
                old(self).pixel(i, j)
            } by {
                assert(g1.pixel(i, j) == if in_rect(0, 0, 1, 100, i, j) {
                    c
                } else {
                    old(self).pixel(i, j)
                });
                assert(g2.pixel(i, j) == if in_rect(0, 0, 100, 1, i, j) {
                    c
                } else {
                    g1.pixel(i, j)
                });
                assert(self.pixel(i, j) == if in_rect(10, 10, 100, 100, i, j) {
                    c
                } else {
                    g2.pixel(i, j)
                });
            }
        }
        Ok(())
    }

    /// Paints every pixel of the surface with the one color.
    pub fn clear(&mut self, c: &Color)
        requires
            old(self).wf(),
        ensures
            final(self).wf(),
            old(self).same_shape(*final(self)),
            forall|i: int, j: int|
                in_range(old(self).fb.width as int, old(self).fb.height as int, i, j)
                    ==> final(self).pixel(i, j) == *c,
    {
        let w = self.fb.width();
        let h = self.fb.height();
        self.fill_unchecked(0, 0, w, h, c);
    }
}

} // verus!

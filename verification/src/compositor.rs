//! The window compositor: an ordered, append-only list of rectangular
//! windows. Rendering repaints every window's border — a top bar, one-pixel
//! side strips below it and a one-pixel bottom strip — and deliberately
//! leaves each window's content area untouched.

use vstd::prelude::*;
use crate::gfx::GFX;
use crate::gfx::in_rect;
use crate::surface::Color;
use crate::surface::DrawError;
use crate::surface::in_range;

verus! {

/// Height in pixels of a window's top bar.
pub const TOP_BAR: u32 = 25;

/// Width in pixels of a window's side and bottom border strips.
pub const BORDER: u32 = 1;

/// The border color.
pub open spec fn border_color() -> Color {
    Color { r: 255, g: 255, b: 255, a: 255 }
}

/// A compositor window: a position and a size, nothing else. Insertion
/// order is the paint order; there is no content buffer.
#[derive(Clone, Copy, PartialEq, Eq, Structural, Debug)]
pub struct Window {
    pub x: u32,
    pub y: u32,
    pub width: u32,
    pub height: u32,
}

/// A window can be rendered when its border fits the surface: at least one
/// pixel wide, tall enough for the top bar, and inside the surface.
pub open spec fn window_fits(win: Window, w: int, h: int) -> bool {
    BORDER <= win.width && TOP_BAR <= win.height && win.x + win.width <= w && win.y + win.height
        <= h
}

/// The pixels of a window's border: top bar, left and right strips below
/// the bar, bottom strip. The interior is not covered.
pub open spec fn border_covers(win: Window, i: int, j: int) -> bool {
    let x = win.x as int;
    let y = win.y as int;
    let wd = win.width as int;
    let hg = win.height as int;
    in_rect(x, y, wd, TOP_BAR as int, i, j) || in_rect(
        x,
        y + TOP_BAR,
        BORDER as int,
        hg - TOP_BAR,
        i,
        j,
    ) || in_rect(x + wd - BORDER, y + TOP_BAR, BORDER as int, hg - TOP_BAR, i, j) || in_rect(
        x,
        y + hg - BORDER,
        wd,
        BORDER as int,
        i,
        j,
    )
}

/// Whether some window of the list covers (i, j) with its border.
pub open spec fn covered_by_any(ws: Seq<Window>, i: int, j: int) -> bool {
    exists|k: int| 0 <= k < ws.len() && border_covers(ws[k], i, j)
}

impl Window {
    /// Whether this window's border fits a surface of the given size.
    pub fn fits(&self, w: u32, h: u32) -> (b: bool)
        ensures
            b == window_fits(*self, w as int, h as int),
    {
        BORDER <= self.width && TOP_BAR <= self.height && (self.x as u64) + (self.width as u64)
            <= (w as u64) && (self.y as u64) + (self.height as u64) <= (h as u64)
    }

    /// Paints this window's border and nothing else; a window whose border
    /// does not fit the surface is refused whole.
    pub fn render(&self, gfx: &mut GFX) -> (r: Result<(), DrawError>)
        requires
            old(gfx).wf(),
        ensures
            final(gfx).wf(),
            old(gfx).same_shape(*final(gfx)),
            (r is Ok) <==> window_fits(*self, old(gfx).fb.width as int, old(gfx).fb.height as int),
            r is Ok ==> forall|i: int, j: int|
                in_range(old(gfx).fb.width as int, old(gfx).fb.height as int, i, j)
                    ==> final(gfx).pixel(i, j) == if border_covers(*self, i, j) {
                    border_color()
                } else {
                    old(gfx).pixel(i, j)
                },
            r matches Err(e) ==> e == DrawError::OutOfRange && final(gfx).fb.bytes() == old(
                gfx,
            ).fb.bytes(),
    {
        if !self.fits(gfx.width(), gfx.height()) {
            return Err(DrawError::OutOfRange);
        }
        let c = Color::new(255, 255, 255, 255);
        let r1 = gfx.rectangle(self.x, self.y, self.width, TOP_BAR, &c);
        proof {
            assert(r1 is Ok);
        }
        let ghost g1 = *gfx;
        let r2 = gfx.rectangle(self.x, self.y + TOP_BAR, BORDER, self.height - TOP_BAR, &c);
        proof {
            assert(r2 is Ok);
        }
        let ghost g2 = *gfx;
        let r3 = gfx.rectangle(
            self.x + self.width - BORDER,
            self.y + TOP_BAR,
            BORDER,
            self.height - TOP_BAR,
            &c,
        );
        proof {
            assert(r3 is Ok);
        }
        let ghost g3 = *gfx;
        let r4 = gfx.rectangle(self.x, self.y + self.height - BORDER, self.width, BORDER, &c);
        proof {
            assert(r4 is Ok);
            assert forall|i: int, j: int|
                in_range(old(gfx).fb.width as int, old(gfx).fb.height as int, i, j) implies gfx.pixel(
                i,
                j,
            ) == if border_covers(*self, i, j) {
                border_color()
            } else {
                old(gfx).pixel(i, j)
            } by {
                assert(g1.pixel(i, j) == if in_rect(
                    self.x as int,
                    self.y as int,
                    self.width as int,
                    TOP_BAR as int,
                    i,
                    j,
                ) {
                    c
                } else {
                    old(gfx).pixel(i, j)
                });
                assert(g2.pixel(i, j) == if in_rect(
                    self.x as int,
                    self.y as int + TOP_BAR,
                    BORDER as int,
                    self.height - TOP_BAR,
                    i,
                    j,
                ) {
                    c
                } else {
                    g1.pixel(i, j)
                });
                assert(g3.pixel(i, j) == if in_rect(
                    self.x as int + self.width - BORDER,
                    self.y as int + TOP_BAR,
                    BORDER as int,
                    self.height - TOP_BAR,
                    i,
                    j,
                ) {
                    c
                } else {
                    g2.pixel(i, j)
                });
                assert(gfx.pixel(i, j) == if in_rect(
                    self.x as int,
                    self.y as int + self.height - BORDER,
                    self.width as int,
                    BORDER as int,
                    i,
                    j,
                ) {
                    c
                } else {
                    g3.pixel(i, j)
                });
            }
        }
        Ok(())
    }
}

/// The compositor: the drawing layer plus the ordered window list.
pub struct Compositor {
    pub gfx: GFX,
    pub windows: Vec<Window>,
}

impl Compositor {
    /// Starts with no windows over an already set up drawing layer.
    pub fn new(gfx: GFX) -> (c: Compositor)
        ensures
            c.gfx == gfx,
            c.windows@.len() == 0,
    {
        Compositor { gfx, windows: Vec::new() }
    }

    /// Appends one window at the fixed placeholder geometry.
    pub fn add_window(&mut self)
        ensures
            final(self).gfx == old(self).gfx,
            final(self).windows@ == old(self).windows@.push(
                Window { x: 20, y: 20, width: 500, height: 300 },
            ),
    {
        self.windows.push(Window { x: 20, y: 20, width: 500, height: 300 });
    }

    /// Repaints every window's border, first window first; nothing is
    /// painted unless every window's border fits the surface.
    pub fn render(&mut self) -> (r: Result<(), DrawError>)
        requires
            old(self).gfx.wf(),
        ensures
            final(self).gfx.wf(),
            old(self).gfx.same_shape(final(self).gfx),
            final(self).windows@ == old(self).windows@,
            (r is Ok) <==> (forall|k: int|
                0 <= k < old(self).windows@.len() ==> window_fits(
                    old(self).windows@[k],
                    old(self).gfx.fb.width as int,
                    old(self).gfx.fb.height as int,
                )),
            r is Ok ==> forall|i: int, j: int|
                in_range(old(self).gfx.fb.width as int, old(self).gfx.fb.height as int, i, j)
                    ==> final(self).gfx.pixel(i, j) == if covered_by_any(
                    old(self).windows@,
                    i,
                    j,
                ) {
                    border_color()
                } else {
                    old(self).gfx.pixel(i, j)
                },
            r matches Err(e) ==> e == DrawError::OutOfRange && final(self).gfx.fb.bytes() == old(
                self,
            ).gfx.fb.bytes(),
    {
        let w = self.gfx.width();
        let h = self.gfx.height();
        let n = self.windows.len();
        let mut k: usize = 0;
        while k < n
            invariant
                old(self).gfx.wf(),
                n == self.windows@.len(),
                k <= n,
                *self == *old(self),
                w == self.gfx.fb.width,
                h == self.gfx.fb.height,
                forall|t: int|
                    0 <= t < k ==> window_fits(self.windows@[t], w as int, h as int),
            decreases n - k,
        {
            if !self.windows[k].fits(w, h) {
                return Err(DrawError::OutOfRange);
            }
            k = k + 1;
        }
        let mut k: usize = 0;
        while k < n
            invariant
                old(self).gfx.wf(),
                self.gfx.wf(),
                n == self.windows@.len(),
                k <= n,
                self.windows@ == old(self).windows@,
                old(self).gfx.same_shape(self.gfx),
                w == self.gfx.fb.width,
                h == self.gfx.fb.height,
                forall|t: int|
                    0 <= t < n ==> window_fits(self.windows@[t], w as int, h as int),
                forall|i: int, j: int|
                    in_range(w as int, h as int, i, j) ==> self.gfx.pixel(i, j)
                        == if covered_by_any(self.windows@.take(k as int), i, j) {
                        border_color()
                    } else {
                        old(self).gfx.pixel(i, j)
                    },
            decreases n - k,
        {
            let win = self.windows[k];
            let ghost prev = self.gfx;
            let r = win.render(&mut self.gfx);
            proof {
                assert(r is Ok);
                assert forall|i: int, j: int|
                    in_range(w as int, h as int, i, j) implies self.gfx.pixel(i, j)
                    == if covered_by_any(self.windows@.take(k as int + 1), i, j) {
                    border_color()
                } else {
                    old(self).gfx.pixel(i, j)
                } by {
                    assert(prev.pixel(i, j) == if covered_by_any(
                        self.windows@.take(k as int),
                        i,
                        j,
                    ) {
                        border_color()
                    } else {
                        old(self).gfx.pixel(i, j)
                    });
                    let taken = self.windows@.take(k as int + 1);
                    if border_covers(win, i, j) {
                        assert(taken[k as int] == win);
                        assert(covered_by_any(taken, i, j));
                        assert(self.gfx.pixel(i, j) == border_color());
                    } else {
                        assert(self.gfx.pixel(i, j) == prev.pixel(i, j));
                        if covered_by_any(taken, i, j) {
                            let t = choose|t: int|
                                0 <= t < taken.len() && border_covers(taken[t], i, j);
                            assert(t < k as int);
                            assert(self.windows@.take(k as int)[t] == taken[t]);
                            assert(covered_by_any(self.windows@.take(k as int), i, j));
                        } else {
                            if covered_by_any(self.windows@.take(k as int), i, j) {
                                let t = choose|t: int|
                                    0 <= t < k as int && border_covers(
                                        self.windows@.take(k as int)[t],
                                        i,
                                        j,
                                    );
                                assert(taken[t] == self.windows@.take(k as int)[t]);
                                assert(covered_by_any(taken, i, j));
                            }
                        }
                    }
                }
            }
            k = k + 1;
        }
        proof {
            assert(self.windows@.take(n as int) == self.windows@);
        }
        Ok(())
    }
}

} // verus!

use vstd::arithmetic::div_mod::lemma_fundamental_div_mod_converse;
use vstd::prelude::*;

use crate::colors::Rgb;

verus! {

/// Screen column of logical `x`: the origin sits at column `width / 2`.
pub open spec fn screen_x(width: int, x: int) -> int {
    width / 2 + x
}

/// Screen row of logical `y`: larger `y` lies nearer the top row.
pub open spec fn screen_y(height: int, y: int) -> int {
    height / 2 - y - 1
}

/// Whether logical `(x, y)` maps inside a `width` by `height` screen.
pub open spec fn in_domain(width: int, height: int, x: int, y: int) -> bool {
    0 <= screen_x(width, x) < width && 0 <= screen_y(height, y) < height
}

/// Row-major buffer index of logical `(x, y)`.
pub open spec fn slot_index(width: int, height: int, x: int, y: int) -> int {
    screen_x(width, x) + width * screen_y(height, y)
}

/// Logical `x` of the buffer slot `k`.
pub open spec fn logical_x(width: int, k: int) -> int {
    k % width - width / 2
}

/// Logical `y` of the buffer slot `k`.
pub open spec fn logical_y(width: int, height: int, k: int) -> int {
    height / 2 - 1 - k / width
}

/// A sequence of `n` copies of `value`.
pub open spec fn filled(n: nat, value: u32) -> Seq<u32> {
    Seq::new(n, |i: int| value)
}

/// Pixel extents of a canvas.
#[derive(Clone, Copy, Debug, PartialEq, Eq, Structural)]
pub struct Dimensions {
    pub width: usize,
    pub height: usize,
}

/// Why a canvas could not be made.
#[derive(Clone, Copy, Debug, PartialEq, Eq, Structural)]
pub enum CanvasError {
    /// The width or the height is zero: such a canvas has no pixel to address.
    InvalidDimensions,
}

/// What a canvas holds, seen as values.
pub struct CanvasView {
    pub title: Seq<char>,
    pub width: nat,
    pub height: nat,
    pub pixels: Seq<u32>,
}

/// A fixed-size pixel buffer, row-major with the top-left pixel first, together
/// with the title of the window that shows it.
pub struct Canvas {
    title: String,
    buffer: Vec<u32>,
    dimensions: Dimensions,
}

impl View for Canvas {
    type V = CanvasView;

    closed spec fn view(&self) -> CanvasView {
        CanvasView {
            title: self.title@,
            width: self.dimensions.width as nat,
            height: self.dimensions.height as nat,
            pixels: self.buffer@,
        }
    }
}

impl Canvas {
    /// Both extents are positive and the buffer holds one slot per pixel.
    pub open spec fn wf(&self) -> bool {
        &&& self@.width > 0
        &&& self@.height > 0
        &&& self@.pixels.len() == self@.width * self@.height
    }

    /// Makes a canvas of `width` by `height` pixels, all black (0), for a window
    /// titled `name`. A zero extent is refused.
    pub fn new(name: &str, width: usize, height: usize) -> (r: Result<Canvas, CanvasError>)
        requires
            width * height <= usize::MAX,
        ensures
            (width == 0 || height == 0) <==> r is Err,
            r is Err ==> r == Err::<Canvas, CanvasError>(CanvasError::InvalidDimensions),
            r matches Ok(c) ==> {
                &&& c.wf()
                &&& c@.title == name@
                &&& c@.width == width
                &&& c@.height == height
                &&& c@.pixels == filled((width * height) as nat, 0)
            },
    {
        if width == 0 || height == 0 {
            return Err(CanvasError::InvalidDimensions);
        }
        let n: usize = width * height;
        let mut buffer: Vec<u32> = Vec::with_capacity(n);
        let mut i: usize = 0;
        while i < n
            invariant
                i <= n,
                buffer@ == filled(i as nat, 0),
            decreases n - i,
        {
            buffer.push(0);
            i = i + 1;
            assert(buffer@ =~= filled(i as nat, 0));
        }
        Ok(Canvas { title: name.to_owned(), buffer, dimensions: Dimensions { width, height } })
    }

    pub fn dimensions(&self) -> (r: Dimensions)
        ensures
            r.width == self@.width,
            r.height == self@.height,
    {
        self.dimensions
    }

    /// The title of the window that shows this canvas.
    pub fn title(&self) -> (r: &str)
        ensures
            r@ == self@.title,
    {
        self.title.as_str()
    }

    /// The pixel buffer, row-major from the top-left pixel.
    pub fn buffer(&self) -> (r: &Vec<u32>)
        ensures
            r@ == self@.pixels,
    {
        &self.buffer
    }

    /// Sets every pixel to `color`.
    pub fn clear_canvas(&mut self, color: &Rgb)
        requires
            old(self).wf(),
        ensures
            final(self).wf(),
            final(self)@.title == old(self)@.title,
            final(self)@.width == old(self)@.width,
            final(self)@.height == old(self)@.height,
            final(self)@.pixels == filled(old(self)@.pixels.len(), color.spec_packed()),
    {
        let col = color.packed();
        let n = self.buffer.len();
        let mut i: usize = 0;
        while i < n
            invariant
                i <= n,
                n == self.buffer@.len(),
                self.title == old(self).title,
                self.dimensions == old(self).dimensions,
                self.buffer@.len() == old(self).buffer@.len(),
                forall|k: int| 0 <= k < i ==> self.buffer@[k] == col,
            decreases n - i,
        {
            self.buffer.set(i, col);
            i = i + 1;
        }
        assert(self.buffer@ =~= filled(n as nat, col));
    }

    /// Sets the pixel at logical `(x, y)`, where `(0, 0)` is the center, `x` grows
    /// to the right and `y` grows upwards. A point that falls off the canvas is
    /// ignored.
    pub fn put_pixel(&mut self, x: i32, y: i32, color: &Rgb)
        requires
            old(self).wf(),
        ensures
            final(self).wf(),
            final(self)@.title == old(self)@.title,
            final(self)@.width == old(self)@.width,
            final(self)@.height == old(self)@.height,
            final(self)@.pixels == if in_domain(old(self)@.width as int, old(self)@.height as int, x as int, y as int) {
                old(self)@.pixels.update(
                    slot_index(old(self)@.width as int, old(self)@.height as int, x as int, y as int),
                    color.spec_packed(),
                )
            } else {
                old(self)@.pixels
            },
    {
        let w = self.dimensions.width;
        let h = self.dimensions.height;
        let half_w = w / 2;
        let half_h = h / 2;
        let sx: usize;
        if x >= 0 {
            let mag = x as usize;
            if mag >= w - half_w {
                return;
            }
            sx = half_w + mag;
        } else {
            let mag = (-(x as i64)) as usize;
            if mag > half_w {
                return;
            }
            sx = half_w - mag;
        }
        let sy: usize;
        if y >= 0 {
            let mag = y as usize;
            if mag >= half_h {
                return;
            }
            sy = half_h - mag - 1;
        } else {
            let mag = (-(y as i64)) as usize;
            if mag > h - half_h {
                return;
            }
            sy = half_h + (mag - 1);
        }
        assert(sx as int == screen_x(w as int, x as int));
        assert(sy as int == screen_y(h as int, y as int));
        let n = self.buffer.len();
        assert(n == w * h);
        assert(w * sy + sx < w * h && w * sy <= w * h) by (nonlinear_arith)
            requires
                sx < w,
                sy < h,
        ;
        let idx = sx + w * sy;
        self.buffer.set(idx, color.packed());
    }
}

/// Two in-domain logical points that share a buffer slot are the same point,
/// and that slot lies inside the buffer.
pub proof fn lemma_slot_index_unique(width: int, height: int, x1: int, y1: int, x2: int, y2: int)
    requires
        width > 0,
        height > 0,
        in_domain(width, height, x1, y1),
        in_domain(width, height, x2, y2),
        slot_index(width, height, x1, y1) == slot_index(width, height, x2, y2),
    ensures
        x1 == x2,
        y1 == y2,
{
    let k = slot_index(width, height, x1, y1);
    let (t1, t2) = (screen_y(height, y1), screen_y(height, y2));
    assert(width * t1 == t1 * width && width * t2 == t2 * width) by (nonlinear_arith);
    lemma_fundamental_div_mod_converse(k, width, screen_y(height, y1), screen_x(width, x1));
    lemma_fundamental_div_mod_converse(k, width, screen_y(height, y2), screen_x(width, x2));
}

/// An in-domain logical point has a slot inside the buffer, and the slot's
/// logical coordinates give the point back.
pub proof fn lemma_point_to_slot(width: int, height: int, x: int, y: int)
    requires
        width > 0,
        height > 0,
        in_domain(width, height, x, y),
    ensures
        0 <= slot_index(width, height, x, y) < width * height,
        logical_x(width, slot_index(width, height, x, y)) == x,
        logical_y(width, height, slot_index(width, height, x, y)) == y,
{
    let sx = screen_x(width, x);
    let sy = screen_y(height, y);
    assert(0 <= sx + width * sy < width * height) by (nonlinear_arith)
        requires
            0 <= sx < width,
            0 <= sy < height,
    ;
    assert(sx + width * sy == sy * width + sx) by (nonlinear_arith);
    lemma_fundamental_div_mod_converse(sx + width * sy, width, sy, sx);
}

/// Every buffer slot is the slot of the in-domain point given by its logical
/// coordinates.
pub proof fn lemma_slot_to_point(width: int, height: int, k: int)
    requires
        width > 0,
        height > 0,
        0 <= k < width * height,
    ensures
        in_domain(width, height, logical_x(width, k), logical_y(width, height, k)),
        slot_index(width, height, logical_x(width, k), logical_y(width, height, k)) == k,
{
    let q = k / width;
    let r = k % width;
    assert(k == width * q + r && 0 <= r < width) by {
        vstd::arithmetic::div_mod::lemma_fundamental_div_mod(k, width);
    }
    assert(0 <= q < height) by (nonlinear_arith)
        requires
            k == width * q + r,
            0 <= r < width,
            0 <= k < width * height,
    ;
}

/// The coordinate transform is a bijection: distinct in-domain points have
/// distinct slots, every slot of a point lies in the buffer, and every slot of
/// the buffer is the slot of the in-domain point given by its logical
/// coordinates.
pub proof fn lemma_transform_bijective(width: int, height: int)
    requires
        width > 0,
        height > 0,
    ensures
        forall|x1: int, y1: int, x2: int, y2: int|
            in_domain(width, height, x1, y1) && in_domain(width, height, x2, y2)
                && #[trigger] slot_index(width, height, x1, y1) == #[trigger] slot_index(width, height, x2, y2)
                ==> x1 == x2 && y1 == y2,
        forall|x: int, y: int|
            in_domain(width, height, x, y) ==> 0 <= #[trigger] slot_index(width, height, x, y) < width * height,
        forall|k: int|
            0 <= k < width * height ==> {
                &&& in_domain(width, height, #[trigger] logical_x(width, k), logical_y(width, height, k))
                &&& slot_index(width, height, logical_x(width, k), logical_y(width, height, k)) == k
            },
{
    assert forall|x1: int, y1: int, x2: int, y2: int|
        in_domain(width, height, x1, y1) && in_domain(width, height, x2, y2)
            && #[trigger] slot_index(width, height, x1, y1) == #[trigger] slot_index(width, height, x2, y2)
            implies x1 == x2 && y1 == y2 by {
        lemma_slot_index_unique(width, height, x1, y1, x2, y2);
    }
    assert forall|x: int, y: int| in_domain(width, height, x, y) implies
        0 <= #[trigger] slot_index(width, height, x, y) < width * height by {
        lemma_point_to_slot(width, height, x, y);
    }
    assert forall|k: int| 0 <= k < width * height implies {
        &&& in_domain(width, height, #[trigger] logical_x(width, k), logical_y(width, height, k))
        &&& slot_index(width, height, logical_x(width, k), logical_y(width, height, k)) == k
    } by {
        lemma_slot_to_point(width, height, k);
    }
}

/// On a canvas of even width and height, the points that map inside are
/// exactly those with `x` in `[-width/2, width/2 - 1]` and `y` in
/// `[-height/2, height/2 - 1]`; any other point is ignored by `put_pixel`.
pub proof fn lemma_even_domain(width: int, height: int, x: int, y: int)
    requires
        width > 0,
        height > 0,
        width % 2 == 0,
        height % 2 == 0,
    ensures
        in_domain(width, height, x, y) <==> (-(width / 2) <= x <= width / 2 - 1 && -(height / 2)
            <= y <= height / 2 - 1),
{
}

/// Filling a buffer that is already filled with a value changes nothing, so
/// clearing twice to one color leaves what clearing once left.
pub proof fn lemma_clear_idempotent(n: nat, value: u32)
    ensures
        filled(filled(n, value).len(), value) == filled(n, value),
{
    assert(filled(filled(n, value).len(), value) =~= filled(n, value));
}

} // verus!

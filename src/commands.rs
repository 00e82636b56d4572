use vstd::prelude::*;

use crate::canvas::{in_domain, lemma_point_to_slot, lemma_slot_index_unique, slot_index, Canvas};
use crate::colors::Rgb;

verus! {

pub open spec fn abs(v: int) -> int {
    if v < 0 {
        -v
    } else {
        v
    }
}

/// The points that the red-screen routine paints: both coordinates strictly
/// inside the half extents, so the leftmost column and the bottom row of an
/// even canvas stay as they were.
pub open spec fn in_red_region(width: int, height: int, x: int, y: int) -> bool {
    abs(x) < width / 2 && abs(y) < height / 2
}

/// The points painted once every column pair below `i` is done, and column
/// pair `i` is done for the rows below `j`.
spec fn painted_before(height: int, i: int, j: int, x: int, y: int) -> bool {
    (abs(x) < i && abs(y) < height / 2) || (abs(x) == i && abs(y) < j)
}

/// The drawing routines that a run can select by name.
#[derive(Clone, Copy, Debug, PartialEq, Eq, Structural)]
pub enum Command {
    RedScreen,
}

impl Command {
    /// The routine whose key is exactly `name`, if any.
    pub fn from_name(name: &str) -> (r: Option<Command>)
        ensures
            r == (if name@ == "red_screen"@ {
                Some(Command::RedScreen)
            } else {
                None
            }),
    {
        let given = name.to_owned();
        let key = "red_screen".to_owned();
        if given == key {
            Some(Command::RedScreen)
        } else {
            None
        }
    }
}

/// The drawing routine that fills the canvas with red, working outward from
/// the center in all four quadrants.
pub struct RedScreen;

impl RedScreen {
    /// The color this routine paints with.
    pub fn color() -> (r: Rgb)
        ensures
            r.red == 255,
            r.green == 0,
            r.blue == 0,
    {
        Rgb::new(255, 0, 0)
    }

    /// Paints red every point `(x, y)` with `|x| < width / 2` and
    /// `|y| < height / 2`, and leaves every other pixel as it was.
    pub fn draw(canvas: &mut Canvas)
        requires
            old(canvas).wf(),
            old(canvas)@.width / 2 <= i32::MAX,
            old(canvas)@.height / 2 <= i32::MAX,
        ensures
            final(canvas).wf(),
            final(canvas)@.title == old(canvas)@.title,
            final(canvas)@.width == old(canvas)@.width,
            final(canvas)@.height == old(canvas)@.height,
            forall|x: int, y: int|
                in_domain(old(canvas)@.width as int, old(canvas)@.height as int, x, y)
                    ==> final(canvas)@.pixels[#[trigger] slot_index(
                    old(canvas)@.width as int,
                    old(canvas)@.height as int,
                    x,
                    y,
                )] == if in_red_region(old(canvas)@.width as int, old(canvas)@.height as int, x, y) {
                    packed_red()
                } else {
                    old(canvas)@.pixels[slot_index(
                        old(canvas)@.width as int,
                        old(canvas)@.height as int,
                        x,
                        y,
                    )]
                },
    {
        let dims = canvas.dimensions();
        let ghost w = dims.width as int;
        let ghost h = dims.height as int;
        let half_w = (dims.width / 2) as i32;
        let half_h = (dims.height / 2) as i32;
        let red = RedScreen::color();
        let mut i: i32 = 0;
        while i < half_w
            invariant
                0 <= i <= half_w,
                half_w as int == w / 2,
                half_h as int == h / 2,
                red.spec_packed() == packed_red(),
                canvas.wf(),
                canvas@.title == old(canvas)@.title,
                canvas@.width == w,
                canvas@.height == h,
                w == old(canvas)@.width,
                h == old(canvas)@.height,
                forall|x: int, y: int|
                    in_domain(w, h, x, y) ==> canvas@.pixels[#[trigger] slot_index(w, h, x, y)]
                        == if painted_before(h, i as int, 0, x, y) {
                        packed_red()
                    } else {
                        old(canvas)@.pixels[slot_index(w, h, x, y)]
                    },
            decreases half_w - i,
        {
            let mut j: i32 = 0;
            while j < half_h
                invariant
                    0 <= i < half_w,
                    0 <= j <= half_h,
                    half_w as int == w / 2,
                    half_h as int == h / 2,
                    red.spec_packed() == packed_red(),
                    canvas.wf(),
                    canvas@.title == old(canvas)@.title,
                    canvas@.width == w,
                    canvas@.height == h,
                    w == old(canvas)@.width,
                    h == old(canvas)@.height,
                    forall|x: int, y: int|
                        in_domain(w, h, x, y) ==> canvas@.pixels[#[trigger] slot_index(w, h, x, y)]
                            == if painted_before(h, i as int, j as int, x, y) {
                            packed_red()
                        } else {
                            old(canvas)@.pixels[slot_index(w, h, x, y)]
                        },
                decreases half_h - j,
            {
                let ghost before = canvas@.pixels;
                canvas.put_pixel(i, j, &red);
                canvas.put_pixel(i, -j, &red);
                canvas.put_pixel(-i, j, &red);
                canvas.put_pixel(-i, -j, &red);
                proof {
                    let (a, b) = (i as int, j as int);
                    lemma_point_to_slot(w, h, a, b);
                    lemma_point_to_slot(w, h, a, -b);
                    lemma_point_to_slot(w, h, -a, b);
                    lemma_point_to_slot(w, h, -a, -b);
                    assert forall|x: int, y: int| in_domain(w, h, x, y) implies canvas@.pixels[
                        #[trigger] slot_index(w, h, x, y)] == if painted_before(h, a, b + 1, x, y) {
                        packed_red()
                    } else {
                        old(canvas)@.pixels[slot_index(w, h, x, y)]
                    } by {
                        lemma_point_to_slot(w, h, x, y);
                        let k = slot_index(w, h, x, y);
                        if k == slot_index(w, h, a, b) {
                            lemma_slot_index_unique(w, h, x, y, a, b);
                        }
                        if k == slot_index(w, h, a, -b) {
                            lemma_slot_index_unique(w, h, x, y, a, -b);
                        }
                        if k == slot_index(w, h, -a, b) {
                            lemma_slot_index_unique(w, h, x, y, -a, b);
                        }
                        if k == slot_index(w, h, -a, -b) {
                            lemma_slot_index_unique(w, h, x, y, -a, -b);
                        }
                        assert(before[k] == if painted_before(h, a, b, x, y) {
                            packed_red()
                        } else {
                            old(canvas)@.pixels[k]
                        });
                    }
                }
                j = j + 1;
            }
            i = i + 1;
        }
    }
}

/// The packed value of pure red.
pub open spec fn packed_red() -> u32 {
    0xff0000
}

} // verus!

//! A frame buffer for one drawable surface that accumulates a minimal dirty
//! rectangle over the pixels written since the last flush.
//!
//! The buffer holds native pixels in row-major order. A colour write first
//! translates the colour, then stores it only if it differs from the pixel
//! already there: a redundant same-valued write changes nothing, in
//! particular it never grows the dirty rectangle. The rectangle itself is
//! the componentwise minimum and maximum over every coordinate that actually
//! changed, grown one write at a time, and cleared explicitly after a flush.
//!
//! The ghost field `touched` records exactly the coordinates whose pixel
//! value actually changed since the last reset; the invariant ties the two
//! rectangle corners to that set, which makes the rectangle provably the
//! smallest axis-aligned box over all changed coordinates.

use vstd::prelude::*;

use crate::color::{rgb_of, ZxBrightness, ZxColor, Rgb};
use crate::color::colour_conv;

verus! {

/// Which drawable surface a frame buffer serves: the full-resolution screen
/// or the degenerate one-pixel border strip.
#[derive(Clone, Copy, PartialEq, Eq, Structural, Debug)]
pub enum FrameBufferSource {
    Screen,
    Border,
}

/// The mathematical state of a frame buffer: its width, its pixels in
/// row-major order, the set of coordinates whose pixel actually changed
/// since the last reset, and the two corners of the dirty rectangle.
#[verifier::ext_equal]
pub ghost struct FbState {
    pub width: int,
    pub pixels: Seq<Rgb>,
    pub touched: Set<(usize, usize)>,
    pub top_left: Option<(usize, usize)>,
    pub bottom_right: Option<(usize, usize)>,
}

/// The top-left corner after growing a dirty rectangle to cover (x, y):
/// the componentwise minimum, or (x, y) itself if no rectangle exists yet.
pub open spec fn grown_top_left(tl: Option<(usize, usize)>, x: usize, y: usize) -> (usize, usize) {
    match tl {
        None => (x, y),
        Some(p) => ((if x < p.0 { x } else { p.0 }), (if y < p.1 { y } else { p.1 })),
    }
}

/// The bottom-right corner after growing a dirty rectangle to cover (x, y):
/// the componentwise maximum, or (x, y) itself if no rectangle exists yet.
pub open spec fn grown_bottom_right(br: Option<(usize, usize)>, x: usize, y: usize) -> (usize, usize) {
    match br {
        None => (x, y),
        Some(p) => ((if x > p.0 { x } else { p.0 }), (if y > p.1 { y } else { p.1 })),
    }
}

impl FbState {
    /// Number of pixel rows.
    pub open spec fn height(self) -> int {
        self.pixels.len() as int / self.width
    }

    /// The buffer is a non-empty whole number of rows of well-formed pixels.
    pub open spec fn geom_inv(self) -> bool {
        &&& self.width >= 1
        &&& self.pixels.len() >= 1
        &&& self.pixels.len() as int % self.width == 0
        &&& forall|i: int| 0 <= i < self.pixels.len() ==> (#[trigger] self.pixels[i]).wf()
    }

    /// The dirty rectangle is exactly the bounding box of the changed
    /// coordinates: both corners absent while nothing changed; otherwise
    /// every changed coordinate lies within the corners and each of the four
    /// corner components is attained by some changed coordinate.
    pub open spec fn dirty_inv(self) -> bool {
        &&& forall|p: (usize, usize)| #[trigger] self.touched.contains(p) ==> p.0 < self.width
            && p.1 < self.height()
        &&& match (self.top_left, self.bottom_right) {
            (None, None) => forall|p: (usize, usize)| !(#[trigger] self.touched.contains(p)),
            (Some(tl), Some(br)) => {
                &&& tl.0 <= br.0 && tl.1 <= br.1
                &&& forall|p: (usize, usize)| #[trigger] self.touched.contains(p) ==> tl.0 <= p.0
                    && p.0 <= br.0 && tl.1 <= p.1 && p.1 <= br.1
                &&& exists|p: (usize, usize)| #[trigger] self.touched.contains(p) && p.0 == tl.0
                &&& exists|p: (usize, usize)| #[trigger] self.touched.contains(p) && p.1 == tl.1
                &&& exists|p: (usize, usize)| #[trigger] self.touched.contains(p) && p.0 == br.0
                &&& exists|p: (usize, usize)| #[trigger] self.touched.contains(p) && p.1 == br.1
            },
            _ => false,
        }
    }

    pub open spec fn inv(self) -> bool {
        self.geom_inv() && self.dirty_inv()
    }
}

/// The state after one colour write at (x, y): unchanged if the pixel
/// already holds the translated colour, otherwise the pixel is replaced,
/// the coordinate joins the changed set, and the rectangle grows to cover
/// the coordinate.
pub open spec fn set_pixel_model(
    s: FbState,
    x: usize,
    y: usize,
    colour: ZxColor,
    brightness: ZxBrightness,
) -> FbState {
    let np = rgb_of(colour, brightness);
    let idx = y * s.width + x;
    if s.pixels[idx] == np {
        s
    } else {
        FbState {
            width: s.width,
            pixels: s.pixels.update(idx, np),
            touched: s.touched.insert((x, y)),
            top_left: Some(grown_top_left(s.top_left, x, y)),
            bottom_right: Some(grown_bottom_right(s.bottom_right, x, y)),
        }
    }
}

/// The state after writing `colours[k..]` at consecutive positions
/// (x + k, y), (x + k + 1, y), ... — one colour write each, in order.
pub open spec fn run_model(
    s: FbState,
    x: usize,
    y: usize,
    colours: Seq<ZxColor>,
    brightness: ZxBrightness,
    k: int,
) -> FbState
    decreases colours.len() - k,
{
    if k < 0 || k >= colours.len() {
        s
    } else {
        run_model(
            set_pixel_model(s, (x + k) as usize, y, colours[k], brightness),
            x,
            y,
            colours,
            brightness,
            k + 1,
        )
    }
}

/// The screen surface's initial pixel. It lies outside the palette's
/// fifteen native values (no palette channel carries 1), so the first
/// colour written to any screen cell is an actual change.
pub open spec fn screen_placeholder() -> Rgb {
    Rgb { r: 1, g: 0, b: 0 }
}

/// A row-major index (x, y) with x < w and y < h addresses a cell of a
/// buffer of w * h pixels.
proof fn lemma_row_major_in_range(x: int, y: int, w: int, len: int)
    requires
        w >= 1,
        0 <= x < w,
        0 <= y < len / w,
        len % w == 0,
    ensures
        0 <= y * w + x < len,
{
    vstd::arithmetic::div_mod::lemma_fundamental_div_mod(len, w);
    let h = len / w;
    assert(0 <= y * w + x && y * w + x < w * h) by (nonlinear_arith)
        requires
            w >= 1,
            0 <= x < w,
            0 <= y < h,
    ;
}

/// A frame buffer for one drawable surface, with dirty-rectangle tracking.
pub struct FrameBuffer {
    /// Native pixels of the surface, row-major.
    pub buffer: Vec<Rgb>,
    /// Number of pixels per row.
    pub buffer_width: usize,
    /// Top-left corner of the dirty rectangle, if any pixel changed since
    /// the last reset.
    pub bounding_box_top_left: Option<(usize, usize)>,
    /// Bottom-right corner of the dirty rectangle, if any pixel changed
    /// since the last reset.
    pub bounding_box_bottom_right: Option<(usize, usize)>,
    /// Ghost record of the coordinates whose pixel value actually changed
    /// since the last reset.
    pub touched: Ghost<Set<(usize, usize)>>,
}

impl View for FrameBuffer {
    type V = FbState;

    open spec fn view(&self) -> FbState {
        FbState {
            width: self.buffer_width as int,
            pixels: self.buffer@,
            touched: self.touched@,
            top_left: self.bounding_box_top_left,
            bottom_right: self.bounding_box_bottom_right,
        }
    }
}

impl FrameBuffer {
    pub open spec fn inv(&self) -> bool {
        self@.inv()
    }

    /// Creates the surface's buffer: width * height placeholder pixels for
    /// the screen, a single placeholder pixel for the border strip. No
    /// pixel has changed yet, so there is no dirty rectangle.
    pub fn new(width: usize, height: usize, source: FrameBufferSource) -> (r: FrameBuffer)
        requires
            source is Screen ==> width >= 1 && height >= 1 && width * height <= usize::MAX,
        ensures
            r.inv(),
            r@.touched == Set::<(usize, usize)>::empty(),
            r@.top_left is None,
            r@.bottom_right is None,
            r.bounding_box_top_left is None,
            r.bounding_box_bottom_right is None,
            match source {
                FrameBufferSource::Screen => {
                    &&& r@.width == width
                    &&& r@.height() == height
                    &&& r@.pixels.len() == width * height
                    &&& forall|i: int| 0 <= i < r@.pixels.len() ==> r@.pixels[i]
                        == screen_placeholder()
                },
                FrameBufferSource::Border => {
                    &&& r@.width == 1
                    &&& r@.pixels.len() == 1
                    &&& r@.pixels[0] == rgb_of(ZxColor::White, ZxBrightness::Bright)
                },
            },
    {
        match source {
            FrameBufferSource::Screen => {
                let n = width * height;
                let placeholder = Rgb { r: 1, g: 0, b: 0 };
                let mut buffer: Vec<Rgb> = Vec::new();
                let mut i: usize = 0;
                while i < n
                    invariant
                        i <= n,
                        n == width * height,
                        buffer@.len() == i,
                        placeholder == screen_placeholder(),
                        forall|j: int| 0 <= j < i ==> buffer@[j] == screen_placeholder(),
                    decreases n - i,
                {
                    buffer.push(placeholder);
                    i += 1;
                }
                let fb = FrameBuffer {
                    buffer,
                    buffer_width: width,
                    bounding_box_top_left: None,
                    bounding_box_bottom_right: None,
                    touched: Ghost(Set::empty()),
                };
                proof {
                    assert(n >= 1) by (nonlinear_arith)
                        requires
                            width >= 1,
                            height >= 1,
                            n == width * height,
                    ;
                    vstd::arithmetic::div_mod::lemma_mod_multiples_basic(
                        height as int,
                        width as int,
                    );
                    vstd::arithmetic::div_mod::lemma_div_multiples_vanish(
                        height as int,
                        width as int,
                    );
                    assert(width * height == height * width) by (nonlinear_arith);
                    assert(fb@.geom_inv());
                    assert(fb@.dirty_inv());
                    assert(fb@.height() == height);
                }
                fb
            },
            FrameBufferSource::Border => {
                let placeholder = colour_conv(&ZxColor::White, ZxBrightness::Bright);
                let mut buffer: Vec<Rgb> = Vec::new();
                buffer.push(placeholder);
                let fb = FrameBuffer {
                    buffer,
                    buffer_width: 1,
                    bounding_box_top_left: None,
                    bounding_box_bottom_right: None,
                    touched: Ghost(Set::empty()),
                };
                proof {
                    assert(fb@.geom_inv());
                    assert(fb@.dirty_inv());
                }
                fb
            },
        }
    }

    /// Grows the dirty rectangle to cover (x, y) and records the coordinate
    /// as changed. Called exactly when a pixel actually changed.
    fn mark_dirty(&mut self, x: usize, y: usize)
        requires
            old(self).inv(),
            x < old(self)@.width,
            y < old(self)@.height(),
        ensures
            final(self).inv(),
            final(self)@.width == old(self)@.width,
            final(self)@.pixels == old(self)@.pixels,
            final(self)@.touched == old(self)@.touched.insert((x, y)),
            final(self)@.top_left == Some(grown_top_left(old(self)@.top_left, x, y)),
            final(self)@.bottom_right == Some(grown_bottom_right(old(self)@.bottom_right, x, y)),
    {
        let ghost old_state = self@;
        let (min_x, min_y) = match self.bounding_box_top_left {
            Some(p) => p,
            None => (x, y),
        };
        let (max_x, max_y) = match self.bounding_box_bottom_right {
            Some(p) => p,
            None => (x, y),
        };
        let new_min_x = if x < min_x { x } else { min_x };
        let new_min_y = if y < min_y { y } else { min_y };
        let new_max_x = if x > max_x { x } else { max_x };
        let new_max_y = if y > max_y { y } else { max_y };
        self.bounding_box_top_left = Some((new_min_x, new_min_y));
        self.bounding_box_bottom_right = Some((new_max_x, new_max_y));
        proof {
            self.touched@ = self.touched@.insert((x, y));
            let s = self@;
            assert(s.touched.contains((x, y)));
            assert forall|p: (usize, usize)| #[trigger] s.touched.contains(p) implies p.0 < s.width
                && p.1 < s.height() by {
                if p != (x, y) {
                    assert(old_state.touched.contains(p));
                }
            }
            assert forall|p: (usize, usize)| #[trigger] s.touched.contains(p) implies new_min_x
                <= p.0 && p.0 <= new_max_x && new_min_y <= p.1 && p.1 <= new_max_y by {
                if p != (x, y) {
                    assert(old_state.touched.contains(p));
                }
            }
            if old_state.top_left is Some {
                if new_min_x == x {
                    assert(s.touched.contains((x, y)) && (x, y).0 == new_min_x);
                } else {
                    let pw = choose|p: (usize, usize)|
                        #[trigger] old_state.touched.contains(p) && p.0 == min_x;
                    assert(s.touched.contains(pw) && pw.0 == new_min_x);
                }
                if new_min_y == y {
                    assert(s.touched.contains((x, y)) && (x, y).1 == new_min_y);
                } else {
                    let pw = choose|p: (usize, usize)|
                        #[trigger] old_state.touched.contains(p) && p.1 == min_y;
                    assert(s.touched.contains(pw) && pw.1 == new_min_y);
                }
                if new_max_x == x {
                    assert(s.touched.contains((x, y)) && (x, y).0 == new_max_x);
                } else {
                    let pw = choose|p: (usize, usize)|
                        #[trigger] old_state.touched.contains(p) && p.0 == max_x;
                    assert(s.touched.contains(pw) && pw.0 == new_max_x);
                }
                if new_max_y == y {
                    assert(s.touched.contains((x, y)) && (x, y).1 == new_max_y);
                } else {
                    let pw = choose|p: (usize, usize)|
                        #[trigger] old_state.touched.contains(p) && p.1 == max_y;
                    assert(s.touched.contains(pw) && pw.1 == new_max_y);
                }
            } else {
                assert(new_min_x == x && new_min_y == y && new_max_x == x && new_max_y == y);
                assert(s.touched.contains((x, y)) && (x, y).0 == new_min_x);
            }
        }
    }

    /// Writes one colour at (x, y): translates it to a native pixel and
    /// stores it only if it differs from the pixel already there; on an
    /// actual change the coordinate joins the changed set and the dirty
    /// rectangle grows to cover it. A redundant same-valued write leaves
    /// the whole state unchanged.
    pub fn set_color(&mut self, x: usize, y: usize, color: ZxColor, brightness: ZxBrightness)
        requires
            old(self).inv(),
            x < old(self)@.width,
            y < old(self)@.height(),
        ensures
            final(self).inv(),
            final(self)@ == set_pixel_model(old(self)@, x, y, color, brightness),
            final(self).bounding_box_top_left == final(self)@.top_left,
            final(self).bounding_box_bottom_right == final(self)@.bottom_right,
    {
        // A vector's length fits in a machine word, so the row-major
        // index below does too.
        let n = self.buffer.len();
        proof {
            lemma_row_major_in_range(
                x as int,
                y as int,
                self@.width,
                self@.pixels.len() as int,
            );
        }
        let idx = y * self.buffer_width + x;
        let new_colour = colour_conv(&color, brightness);
        if self.buffer[idx] != new_colour {
            self.buffer.set(idx, new_colour);
            proof {
                assert forall|i: int| 0 <= i < self@.pixels.len() implies (
                #[trigger] self@.pixels[i]).wf() by {
                    if i != idx {
                        assert(old(self)@.pixels[i].wf());
                    }
                }
                assert(self@.touched == old(self)@.touched);
                assert(self@.height() == old(self)@.height());
                assert(forall|p: (usize, usize)| #[trigger] self@.touched.contains(p)
                    ==> p.0 < self@.width && p.1 < self@.height());
                assert(self@.dirty_inv());
            }
            self.mark_dirty(x, y);
        }
    }

    /// Writes eight horizontally consecutive colours starting at (x, y),
    /// exactly as eight sequential single-colour writes: pixels among the
    /// eight that already hold their translated colour change nothing.
    pub fn set_colors(&mut self, x: usize, y: usize, colours: [ZxColor; 8], brightness: ZxBrightness)
        requires
            old(self).inv(),
            x + 7 < old(self)@.width,
            y < old(self)@.height(),
        ensures
            final(self).inv(),
            final(self)@ == run_model(old(self)@, x, y, colours@, brightness, 0),
            final(self).bounding_box_top_left == final(self)@.top_left,
            final(self).bounding_box_bottom_right == final(self)@.bottom_right,
    {
        let ghost s0 = self@;
        let mut i: usize = 0;
        while i < 8
            invariant
                i <= 8,
                self.inv(),
                self@.width == s0.width,
                self@.pixels.len() == s0.pixels.len(),
                x + 7 < s0.width,
                y < s0.height(),
                run_model(s0, x, y, colours@, brightness, 0) == run_model(
                    self@,
                    x,
                    y,
                    colours@,
                    brightness,
                    i as int,
                ),
                self.bounding_box_top_left == self@.top_left,
                self.bounding_box_bottom_right == self@.bottom_right,
            decreases 8 - i,
        {
            let ghost before = self@;
            proof {
                lemma_row_major_in_range(
                    x + i,
                    y as int,
                    self@.width,
                    self@.pixels.len() as int,
                );
            }
            self.set_color(x + i, y, colours[i], brightness);
            proof {
                assert(self@ == set_pixel_model(before, (x + i) as usize, y, colours@[i as int], brightness));
                assert(run_model(before, x, y, colours@, brightness, i as int) == run_model(
                    self@,
                    x,
                    y,
                    colours@,
                    brightness,
                    i as int + 1,
                ));
            }
            i += 1;
        }
    }


    /// Clears the dirty state: no coordinate counts as changed and neither
    /// rectangle corner exists, until another actual change occurs. The
    /// pixels themselves keep their values.
    pub fn reset_bounding_box(&mut self)
        ensures
            final(self)@.dirty_inv(),
            old(self).inv() ==> final(self).inv(),
            final(self)@.width == old(self)@.width,
            final(self)@.pixels == old(self)@.pixels,
            final(self)@.touched == Set::<(usize, usize)>::empty(),
            final(self)@.top_left is None,
            final(self)@.bottom_right is None,
            final(self).bounding_box_top_left is None,
            final(self).bounding_box_bottom_right is None,
    {
        self.bounding_box_bottom_right = None;
        self.bounding_box_top_left = None;
        proof {
            self.touched@ = Set::empty();
        }
    }

    /// The pixels of the inclusive rectangle between the two corners, in
    /// row-major order: ascending y, then ascending x. Reading mutates
    /// nothing, and the same corners always yield the same pixels.
    pub fn get_region_pixel_iter(
        &self,
        top_left: (usize, usize),
        bottom_right: (usize, usize),
    ) -> (r: Vec<Rgb>)
        requires
            self.inv(),
            top_left.0 <= bottom_right.0 < self@.width,
            top_left.1 <= bottom_right.1 < self@.height(),
        ensures
            r@.len() == (bottom_right.0 - top_left.0 + 1) * (bottom_right.1 - top_left.1 + 1),
            forall|i: int| 0 <= i < r@.len() ==> #[trigger] r@[i] == self@.pixels[(top_left.1 + i
                / (bottom_right.0 - top_left.0 + 1)) * self@.width + top_left.0 + i % (
            bottom_right.0 - top_left.0 + 1)],
    {
        let ghost rw = bottom_right.0 - top_left.0 + 1;
        let n = self.buffer.len();
        let mut r: Vec<Rgb> = Vec::new();
        let mut yy = top_left.1;
        while yy <= bottom_right.1
            invariant
                self.inv(),
                n == self@.pixels.len(),
                top_left.0 <= bottom_right.0 < self@.width,
                top_left.1 <= bottom_right.1 < self@.height(),
                top_left.1 <= yy <= bottom_right.1 + 1,
                rw == bottom_right.0 - top_left.0 + 1,
                r@.len() == (yy - top_left.1) * rw,
                forall|i: int| 0 <= i < r@.len() ==> #[trigger] r@[i] == self@.pixels[(top_left.1
                    + i / rw) * self@.width + top_left.0 + i % rw],
            decreases bottom_right.1 + 1 - yy,
        {
            let mut xx = top_left.0;
            while xx <= bottom_right.0
                invariant
                    self.inv(),
                    n == self@.pixels.len(),
                    top_left.0 <= bottom_right.0 < self@.width,
                    top_left.1 <= bottom_right.1 < self@.height(),
                    top_left.1 <= yy <= bottom_right.1,
                    top_left.0 <= xx <= bottom_right.0 + 1,
                    rw == bottom_right.0 - top_left.0 + 1,
                    r@.len() == (yy - top_left.1) * rw + (xx - top_left.0),
                    forall|i: int| 0 <= i < r@.len() ==> #[trigger] r@[i] == self@.pixels[(
                    top_left.1 + i / rw) * self@.width + top_left.0 + i % rw],
                decreases bottom_right.0 + 1 - xx,
            {
                proof {
                    lemma_row_major_in_range(
                        xx as int,
                        yy as int,
                        self@.width,
                        self@.pixels.len() as int,
                    );
                }
                let pixel = self.buffer[yy * self.buffer_width + xx];
                r.push(pixel);
                proof {
                    let ln = r@.len() - 1;
                    vstd::arithmetic::div_mod::lemma_fundamental_div_mod_converse(
                        ln as int,
                        rw,
                        yy - top_left.1,
                        xx - top_left.0,
                    );
                }
                xx += 1;
            }
            proof {
                assert((yy - top_left.1 + 1) * rw == (yy - top_left.1) * rw + rw)
                    by (nonlinear_arith);
            }
            yy += 1;
        }
        proof {
            assert((bottom_right.1 - top_left.1 + 1) * rw == rw * (bottom_right.1 - top_left.1
                + 1)) by (nonlinear_arith);
        }
        r
    }
}

/// The spec form of `covers`: every changed coordinate of `s` lies within
/// the inclusive axis-aligned rectangle of the two corners.
pub open spec fn covers(s: Set<(usize, usize)>, tl: (usize, usize), br: (usize, usize)) -> bool {
    forall|p: (usize, usize)| #[trigger] s.contains(p) ==> tl.0 <= p.0 && p.0 <= br.0 && tl.1
        <= p.1 && p.1 <= br.1
}

/// Law: after any sequence of colour writes, the dirty rectangle is the
/// smallest axis-aligned rectangle containing every coordinate whose pixel
/// value actually changed since the last reset — it covers them all, and
/// any rectangle that covers them all contains it. While nothing changed,
/// neither corner exists.
pub proof fn lemma_dirty_rect_tight(fb: &FrameBuffer)
    requires
        fb.inv(),
    ensures
        fb@.top_left is None ==> fb@.bottom_right is None && (forall|p: (usize, usize)| !(
        #[trigger] fb@.touched.contains(p))),
        fb@.top_left is Some ==> fb@.bottom_right is Some && covers(
            fb@.touched,
            fb@.top_left.unwrap(),
            fb@.bottom_right.unwrap(),
        ) && (forall|tl2: (usize, usize), br2: (usize, usize)| #[trigger] covers(
            fb@.touched,
            tl2,
            br2,
        ) ==> tl2.0 <= fb@.top_left.unwrap().0 && tl2.1 <= fb@.top_left.unwrap().1
            && fb@.bottom_right.unwrap().0 <= br2.0 && fb@.bottom_right.unwrap().1 <= br2.1),
{
    if fb@.top_left is Some {
        let tl = fb@.top_left.unwrap();
        let br = fb@.bottom_right.unwrap();
        assert forall|tl2: (usize, usize), br2: (usize, usize)| #[trigger] covers(
            fb@.touched,
            tl2,
            br2,
        ) implies tl2.0 <= tl.0 && tl2.1 <= tl.1 && br.0 <= br2.0 && br.1 <= br2.1 by {
            let pa = choose|p: (usize, usize)| #[trigger] fb@.touched.contains(p) && p.0 == tl.0;
            let pb = choose|p: (usize, usize)| #[trigger] fb@.touched.contains(p) && p.1 == tl.1;
            let pc = choose|p: (usize, usize)| #[trigger] fb@.touched.contains(p) && p.0 == br.0;
            let pd = choose|p: (usize, usize)| #[trigger] fb@.touched.contains(p) && p.1 == br.1;
            assert(fb@.touched.contains(pa) && fb@.touched.contains(pb) && fb@.touched.contains(pc)
                && fb@.touched.contains(pd));
        }
    }
}

} // verus!

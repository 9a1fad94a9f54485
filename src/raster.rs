//! Pixel grids and the geometric operations (flips and quarter turns) on them.
use vstd::prelude::*;

verus! {

/// One pixel: red, green, blue and alpha, eight bits each.
pub type Pixel = [u8; 4];

/// A decoded image held as plain values: `pixels` lists the pixels row by
/// row, top row first, so that pixel (x, y) stands at `y * width + x`.
pub struct Raster {
    pub width: u32,
    pub height: u32,
    pub pixels: Vec<Pixel>,
}

/// The mathematical picture a [`Raster`] stands for.
pub struct Picture {
    pub width: nat,
    pub height: nat,
    pub pixels: Seq<Pixel>,
}

impl Picture {
    /// The pixel list holds exactly one pixel per position.
    pub open spec fn wf(self) -> bool {
        self.pixels.len() == self.width * self.height
    }

    /// The pixel at column `x` of row `y`.
    pub open spec fn at(self, x: int, y: int) -> Pixel {
        self.pixels[y * (self.width as int) + x]
    }
}

impl View for Raster {
    type V = Picture;

    open spec fn view(&self) -> Picture {
        Picture { width: self.width as nat, height: self.height as nat, pixels: self.pixels@ }
    }
}

impl Raster {
    pub open spec fn wf(&self) -> bool {
        self@.wf()
    }
}

/// A geometric operation; rotations are clockwise.
#[derive(Clone, Copy, Debug, PartialEq, Eq, Structural)]
pub enum Op {
    FlipHorizontal,
    FlipVertical,
    Rotate90,
    Rotate180,
    Rotate270,
}

/// Width of the result of `op` on a `w` × `h` picture.
pub open spec fn out_width(op: Op, w: nat, h: nat) -> nat {
    match op {
        Op::Rotate90 | Op::Rotate270 => h,
        _ => w,
    }
}

/// Height of the result of `op` on a `w` × `h` picture.
pub open spec fn out_height(op: Op, w: nat, h: nat) -> nat {
    match op {
        Op::Rotate90 | Op::Rotate270 => w,
        _ => h,
    }
}

/// Column of the source pixel that lands at (x, y) of the result.
pub open spec fn source_x(op: Op, w: int, h: int, x: int, y: int) -> int {
    match op {
        Op::FlipHorizontal => w - 1 - x,
        Op::FlipVertical => x,
        Op::Rotate90 => y,
        Op::Rotate180 => w - 1 - x,
        Op::Rotate270 => w - 1 - y,
    }
}

/// Row of the source pixel that lands at (x, y) of the result.
pub open spec fn source_y(op: Op, w: int, h: int, x: int, y: int) -> int {
    match op {
        Op::FlipHorizontal => y,
        Op::FlipVertical => h - 1 - y,
        Op::Rotate90 => h - 1 - x,
        Op::Rotate180 => h - 1 - y,
        Op::Rotate270 => x,
    }
}

/// The pixel that lands at position `i` of the result's pixel list.
pub open spec fn moved_pixel(op: Op, p: Picture, i: int) -> Pixel {
    let ow = out_width(op, p.width, p.height) as int;
    let w = p.width as int;
    let h = p.height as int;
    p.at(source_x(op, w, h, i % ow, i / ow), source_y(op, w, h, i % ow, i / ow))
}

/// The picture that `op` makes of `p`.
pub open spec fn transformed(op: Op, p: Picture) -> Picture {
    let ow = out_width(op, p.width, p.height);
    let oh = out_height(op, p.width, p.height);
    Picture { width: ow, height: oh, pixels: Seq::new(ow * oh, |i: int| moved_pixel(op, p, i)) }
}

proof fn lemma_split_index(i: int, w: int, h: int)
    requires
        0 <= i < w * h,
        w >= 0,
        h >= 0,
    ensures
        w > 0,
        0 <= i % w < w,
        0 <= i / w < h,
{
    assert(w > 0) by (nonlinear_arith)
        requires
            0 <= i < w * h,
            w >= 0,
            h >= 0,
    ;
    vstd::arithmetic::div_mod::lemma_fundamental_div_mod(i, w);
    vstd::arithmetic::div_mod::lemma_mod_pos_bound(i, w);
    vstd::arithmetic::div_mod::lemma_div_pos_is_pos(i, w);
    let q = i / w;
    let r = i % w;
    assert(q < h) by (nonlinear_arith)
        requires
            i == w * q + r,
            0 <= r,
            i < w * h,
            w > 0,
    ;
}

proof fn lemma_index_bound(x: int, y: int, w: int, h: int)
    requires
        0 <= x < w,
        0 <= y < h,
    ensures
        0 <= y * w + x < w * h,
{
    assert(0 <= y * w + x < w * h) by (nonlinear_arith)
        requires
            0 <= x < w,
            0 <= y < h,
    ;
}

fn source_coord(op: Op, w: u32, h: u32, x: u32, y: u32) -> (r: (u32, u32))
    requires
        x < out_width(op, w as nat, h as nat),
        y < out_height(op, w as nat, h as nat),
    ensures
        r.0 as int == source_x(op, w as int, h as int, x as int, y as int),
        r.1 as int == source_y(op, w as int, h as int, x as int, y as int),
        r.0 < w,
        r.1 < h,
{
    match op {
        Op::FlipHorizontal => (w - 1 - x, y),
        Op::FlipVertical => (x, h - 1 - y),
        Op::Rotate90 => (y, h - 1 - x),
        Op::Rotate180 => (w - 1 - x, h - 1 - y),
        Op::Rotate270 => (w - 1 - y, x),
    }
}

/// Applies one geometric operation, producing a new raster.
pub fn apply_op(img: &Raster, op: Op) -> (r: Raster)
    requires
        img.wf(),
    ensures
        r.wf(),
        r@ == transformed(op, img@),
{
    let w = img.width;
    let h = img.height;
    let (ow, oh): (u32, u32) = match op {
        Op::Rotate90 | Op::Rotate270 => (h, w),
        _ => (w, h),
    };
    let n: usize = img.pixels.len();
    assert(n == ow as int * oh as int) by (nonlinear_arith)
        requires
            n == w as int * h as int,
            (ow == w && oh == h) || (ow == h && oh == w),
    ;
    let mut out: Vec<Pixel> = Vec::with_capacity(n);
    let mut i: usize = 0;
    while i < n
        invariant
            img.wf(),
            w == img.width,
            h == img.height,
            n == img.pixels.len(),
            n == ow as int * oh as int,
            ow as nat == out_width(op, w as nat, h as nat),
            oh as nat == out_height(op, w as nat, h as nat),
            i <= n,
            out.len() == i,
            forall|j: int| 0 <= j < i ==> out@[j] == #[trigger] moved_pixel(op, img@, j),
        decreases n - i,
    {
        proof {
            lemma_split_index(i as int, ow as int, oh as int);
        }
        let ox = (i % (ow as usize)) as u32;
        let oy = (i / (ow as usize)) as u32;
        let (sx, sy) = source_coord(op, w, h, ox, oy);
        proof {
            lemma_index_bound(sx as int, sy as int, w as int, h as int);
        }
        let k: usize = sy as usize * w as usize + sx as usize;
        out.push(img.pixels[k]);
        i += 1;
    }
    let r = Raster { width: ow, height: oh, pixels: out };
    assert(r@.pixels =~= transformed(op, img@).pixels);
    r
}

} // verus!

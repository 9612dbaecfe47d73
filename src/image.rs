use vstd::prelude::*;
use crate::ppm::{ppm_file, push_header, push_pixel};

verus! {

/// A pixel colour quantised to integer channels (0 to 255 for colours in range).
#[derive(Clone, Copy, Debug, PartialEq, Eq, Structural)]
pub struct Rgb {
    pub r: i32,
    pub g: i32,
    pub b: i32,
}

/// The colour every pixel of a new image starts with.
pub open spec fn black() -> Rgb {
    Rgb { r: 0, g: 0, b: 0 }
}

/// Where the pixel in column `x` and row `y` (row 0 on top) stands in row-major order.
pub open spec fn pixel_index(width: nat, x: nat, y: nat) -> nat {
    y * width + x
}

/// A rectangular grid of pixels, stored row by row starting at the top row.
pub struct Image {
    data: Vec<Rgb>,
    size: (u32, u32),
}

impl Image {
    /// Number of columns.
    pub closed spec fn width(&self) -> nat {
        self.size.0 as nat
    }

    /// Number of rows.
    pub closed spec fn height(&self) -> nat {
        self.size.1 as nat
    }

    /// All pixels in row-major order, top row first.
    pub closed spec fn pixels(&self) -> Seq<Rgb> {
        self.data@
    }

    /// There is exactly one pixel for each column of each row, and every
    /// row-major index fits in a `usize`.
    pub open spec fn wf(&self) -> bool {
        &&& self.pixels().len() == self.width() * self.height()
        &&& self.width() * self.height() <= usize::MAX
    }

    /// A `w` by `h` image with every pixel black.
    pub fn new(w: u32, h: u32) -> (r: Image)
        requires
            w as int * h as int <= usize::MAX,
        ensures
            r.wf(),
            r.width() == w,
            r.height() == h,
            r.pixels() == Seq::new(w as nat * h as nat, |i: int| black()),
    {
        let n: usize = (w as usize) * (h as usize);
        let mut data: Vec<Rgb> = Vec::new();
        let mut i: usize = 0;
        while i < n
            invariant
                i <= n,
                data@ == Seq::new(i as nat, |k: int| black()),
            decreases n - i,
        {
            data.push(Rgb { r: 0, g: 0, b: 0 });
            i = i + 1;
            assert(data@ =~= Seq::new(i as nat, |k: int| black()));
        }
        Image { data, size: (w, h) }
    }

    /// Replaces the pixel in column `x` and row `y` (row 0 on top).
    pub fn set_pixel(&mut self, x: u32, y: u32, color: &Rgb)
        requires
            old(self).wf(),
            x < old(self).width(),
            y < old(self).height(),
        ensures
            final(self).wf(),
            final(self).width() == old(self).width(),
            final(self).height() == old(self).height(),
            final(self).pixels() == old(self).pixels().update(
                pixel_index(old(self).width(), x as nat, y as nat) as int,
                *color,
            ),
    {
        let w = self.size.0 as usize;
        proof {
            let (xi, yi, wi, hi) = (x as int, y as int, w as int, self.size.1 as int);
            assert(0 <= yi * wi && yi * wi + xi < wi * hi) by (nonlinear_arith)
                requires
                    0 <= xi < wi,
                    0 <= yi < hi,
            ;
        }
        let i: usize = x as usize + (y as usize) * w;
        self.data.set(i, *color);
    }

    /// The plain-text PPM file of the image: a `P3` header, then one `R G B`
    /// line per pixel in row-major order, top row first.
    pub fn encode_ppm(&self) -> (r: Vec<u8>)
        requires
            self.wf(),
        ensures
            r@ == ppm_file(self.width(), self.height(), self.pixels()),
    {
        let mut out: Vec<u8> = Vec::new();
        push_header(&mut out, self.size.0, self.size.1);
        let mut i: usize = 0;
        while i < self.data.len()
            invariant
                i <= self.data@.len(),
                out@ == ppm_file(self.width(), self.height(), self.data@.take(i as int)),
            decreases self.data@.len() - i,
        {
            push_pixel(&mut out, &self.data[i]);
            assert(self.data@.take(i + 1).drop_last() =~= self.data@.take(i as int));
            i = i + 1;
            assert(out@ =~= ppm_file(self.width(), self.height(), self.data@.take(i as int)));
        }
        assert(self.data@.take(i as int) =~= self.data@);
        out
    }
}

} // verus!

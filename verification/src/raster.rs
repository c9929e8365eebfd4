//! RGBA pictures: their mathematical model, their byte layout, and cropping.

use vstd::prelude::*;

verus! {

/// One pixel: red, green, blue and alpha channel.
#[derive(Clone, Copy, Debug, PartialEq, Eq, Structural)]
pub struct Rgba {
    pub r: u8,
    pub g: u8,
    pub b: u8,
    pub a: u8,
}

/// An axis-aligned box of pixels.
#[derive(Clone, Copy, Debug, PartialEq, Eq, Structural)]
pub struct BoundingBox {
    pub x: u32,
    pub y: u32,
    pub width: u32,
    pub height: u32,
}

/// The mathematical picture: `height` rows of `width` pixels each.
#[verifier::ext_equal]
pub struct Picture {
    pub width: int,
    pub height: int,
    pub rows: Seq<Seq<Rgba>>,
}

impl Picture {
    /// The picture whose pixel at column `x` of row `y` is `f(x, y)`.
    pub open spec fn tabulate(width: int, height: int, f: spec_fn(int, int) -> Rgba) -> Picture {
        Picture {
            width,
            height,
            rows: Seq::new(height as nat, |y: int| Seq::new(width as nat, |x: int| f(x, y))),
        }
    }

    /// The pixel at column `x` of row `y`.
    pub open spec fn pixel(self, x: int, y: int) -> Rgba {
        self.rows[y][x]
    }

    /// Whether `(x, y)` is a pixel of the picture.
    pub open spec fn has(self, x: int, y: int) -> bool {
        0 <= x < self.width && 0 <= y < self.height
    }

    /// The rows agree with `width` and `height`.
    pub open spec fn wf(self) -> bool {
        &&& 0 <= self.width
        &&& self.rows.len() == self.height
        &&& forall|y: int| 0 <= y < self.height ==> (#[trigger] self.rows[y]).len() == self.width
    }

    /// Whether `area` lies inside the picture.
    pub open spec fn holds(self, area: BoundingBox) -> bool {
        area.x + area.width <= self.width && area.y + area.height <= self.height
    }

    /// The part of the picture inside `area`.
    pub open spec fn crop(self, area: BoundingBox) -> Picture {
        Picture::tabulate(
            area.width as int,
            area.height as int,
            |x: int, y: int| self.pixel(area.x + x, area.y + y),
        )
    }
}

/// Two pictures of one size with the same pixels are equal.
pub proof fn lemma_same_pixels(a: Picture, b: Picture)
    requires
        a.wf(),
        b.wf(),
        a.width == b.width,
        a.height == b.height,
        forall|x: int, y: int| a.has(x, y) ==> #[trigger] a.pixel(x, y) == b.pixel(x, y),
    ensures
        a == b,
{
    assert forall|y: int| 0 <= y < a.height implies a.rows[y] =~= b.rows[y] by {
        assert forall|x: int| 0 <= x < a.width implies a.rows[y][x] == b.rows[y][x] by {
            assert(a.has(x, y));
            assert(a.pixel(x, y) == b.pixel(x, y));
        }
    }
    assert(a.rows =~= b.rows);
}

/// The byte at column `k` of row `j`, where each row takes `stride` bytes.
pub open spec fn byte_at(data: Seq<u8>, stride: int, j: int, k: int) -> u8 {
    data[j * stride + k]
}

/// The pixel at column `x` of row `y` of an image `width` pixels wide.
pub open spec fn pixel_at(data: Seq<u8>, width: int, x: int, y: int) -> Rgba {
    Rgba {
        r: byte_at(data, 4 * width, y, 4 * x),
        g: byte_at(data, 4 * width, y, 4 * x + 1),
        b: byte_at(data, 4 * width, y, 4 * x + 2),
        a: byte_at(data, 4 * width, y, 4 * x + 3),
    }
}

/// Byte `k` of row `j` lies before the end of row `j`, and that before the end of row `h - 1`.
proof fn lemma_index_in_rows(stride: int, h: int, j: int, k: int)
    by (nonlinear_arith)
    requires
        0 <= j < h,
        0 <= k < stride,
    ensures
        0 <= j * stride,
        0 <= j * stride + k < (j + 1) * stride <= h * stride,
        (j + 1) * stride == j * stride + stride,
{
}

/// An image of `width` times `height` pixels, stored row by row with four bytes per pixel.
#[derive(Debug, PartialEq, Eq)]
pub struct RgbaImage {
    pub width: u32,
    pub height: u32,
    pub data: Vec<u8>,
}

impl View for RgbaImage {
    type V = Picture;

    open spec fn view(&self) -> Picture {
        Picture::tabulate(
            self.width as int,
            self.height as int,
            |x: int, y: int| pixel_at(self.data@, self.width as int, x, y),
        )
    }
}

impl RgbaImage {
    /// The buffer holds exactly the image's pixels, and the bytes of a row can be counted.
    pub open spec fn wf(self) -> bool {
        &&& 4 * self.width <= usize::MAX
        &&& self.data@.len() == self.height * (4 * self.width)
    }

    /// A transparent black image.
    pub fn new(width: u32, height: u32) -> (image: RgbaImage)
        requires
            4 * width <= usize::MAX,
            height * (4 * width) <= isize::MAX,
        ensures
            image.wf(),
            image.width == width,
            image.height == height,
            image@ == Picture::tabulate(
                width as int,
                height as int,
                |x: int, y: int| (Rgba { r: 0, g: 0, b: 0, a: 0 }),
            ),
    {
        proof {
            lemma_product_parts(height as int, width as int);
        }
        let size: usize = if width == 0 || height == 0 {
            0
        } else {
            height as usize * (4 * width as usize)
        };
        let data: Vec<u8> = vec![0u8; size];
        let image = RgbaImage { width, height, data };
        proof {
            let blank = Picture::tabulate(
                width as int,
                height as int,
                |x: int, y: int| (Rgba { r: 0, g: 0, b: 0, a: 0 }),
            );
            assert forall|x: int, y: int| image@.has(x, y) implies #[trigger] image@.pixel(x, y)
                == blank.pixel(x, y) by {
                lemma_index_in_rows(4 * width, height as int, y, 4 * x);
                lemma_index_in_rows(4 * width, height as int, y, 4 * x + 3);
            }
            lemma_same_pixels(image@, blank);
        }
        image
    }

    /// The image with the given buffer, if the buffer holds exactly its pixels.
    pub fn from_raw(width: u32, height: u32, data: Vec<u8>) -> (image: Option<RgbaImage>)
        ensures
            image is Some <==> (RgbaImage { width, height, data }).wf(),
            image matches Some(i) ==> i == (RgbaImage { width, height, data }),
    {
        let image = RgbaImage { width, height, data };
        if image.is_whole() {
            Some(image)
        } else {
            None
        }
    }

    /// Whether the buffer holds exactly the image's pixels, for callers that cannot prove it.
    pub fn is_whole(&self) -> (whole: bool)
        ensures
            whole == self.wf(),
    {
        proof {
            lemma_stride_product(self.height as int, self.width as int);
        }
        4 * self.width as u128 <= usize::MAX as u128 && self.data.len() as u128 == self.height as u128
            * (4 * self.width as u128)
    }

    /// Whether `area` lies inside the image.
    pub fn contains(&self, area: &BoundingBox) -> (inside: bool)
        ensures
            inside == self@.holds(*area),
    {
        area.x as u64 + area.width as u64 <= self.width as u64 && area.y as u64
            + area.height as u64 <= self.height as u64
    }

    /// Width and height in pixels.
    pub fn dimensions(&self) -> (size: (u32, u32))
        ensures
            size == (self.width, self.height),
    {
        (self.width, self.height)
    }

    /// The pixel at column `x` of row `y`.
    pub fn get_pixel(&self, x: u32, y: u32) -> (pixel: Rgba)
        requires
            self.wf(),
            x < self.width,
            y < self.height,
        ensures
            pixel == self@.pixel(x as int, y as int),
    {
        proof {
            lemma_index_in_rows(4 * self.width, self.height as int, y as int, 4 * x + 3);
            lemma_index_in_rows(4 * self.width, self.height as int, y as int, 4 * x as int);
            lemma_product_parts(self.height as int, self.width as int);
            assert(self.data.len() == self.height * (4 * self.width));
        }
        let stride: usize = 4 * self.width as usize;
        let start: usize = y as usize * stride + 4 * x as usize;
        Rgba {
            r: self.data[start],
            g: self.data[start + 1],
            b: self.data[start + 2],
            a: self.data[start + 3],
        }
    }

    /// A copy of the part of the image inside `area`.
    pub fn crop(&self, area: &BoundingBox) -> (part: RgbaImage)
        requires
            self.wf(),
            self@.holds(*area),
        ensures
            part.wf(),
            part.width == area.width,
            part.height == area.height,
            part@ == self@.crop(*area),
    {
        let mut data: Vec<u8> = Vec::new();
        let ghost w: int = self.width as int;
        let ghost stride: int = 4 * area.width;
        if area.width > 0 {
            let mut j: u32 = 0;
            while j < area.height
                invariant
                    j <= area.height,
                    area.width > 0,
                    self.wf(),
                    self@.holds(*area),
                    w == self.width,
                    stride == 4 * area.width,
                    data@.len() == j * stride,
                    forall|jj: int, kk: int|
                        0 <= jj < j && 0 <= kk < stride ==> #[trigger] byte_at(
                            data@,
                            stride,
                            jj,
                            kk,
                        ) == byte_at(self.data@, 4 * w, area.y + jj, 4 * area.x + kk),
                decreases area.height - j,
            {
                proof {
                    lemma_index_in_rows(
                        4 * w,
                        self.height as int,
                        area.y + j,
                        4 * area.x + stride - 1,
                    );
                    lemma_product_parts(self.height as int, w);
                    assert(self.data.len() == self.height * (4 * w));
                }
                let start: usize = (area.y + j) as usize * (4 * self.width as usize) + 4
                    * area.x as usize;
                let mut k: usize = 0;
                while k < 4 * area.width as usize
                    invariant
                        j < area.height,
                        self.wf(),
                        stride == 4 * area.width,
                        4 * area.width <= usize::MAX,
                        0 <= k <= stride,
                        w == self.width,
                        start == (area.y + j) * (4 * w) + 4 * area.x,
                        start + stride <= self.data.len(),
                        data@.len() == j * stride + k,
                        forall|jj: int, kk: int|
                            (0 <= jj < j && 0 <= kk < stride) || (jj == j && 0 <= kk < k)
                                ==> #[trigger] byte_at(data@, stride, jj, kk) == byte_at(
                                self.data@,
                                4 * w,
                                area.y + jj,
                                4 * area.x + kk,
                            ),
                    decreases stride - k,
                {
                    let ghost before = data@;
                    data.push(self.data[start + k]);
                    proof {
                        assert forall|jj: int, kk: int|
                            (0 <= jj < j && 0 <= kk < stride) || (jj == j && 0 <= kk < k
                                + 1) implies #[trigger] byte_at(data@, stride, jj, kk) == byte_at(
                            self.data@,
                            4 * w,
                            area.y + jj,
                            4 * area.x + kk,
                        ) by {
                            if jj < j {
                                lemma_index_in_rows(stride, j as int, jj, kk);
                            } else {
                                lemma_index_in_rows(stride, j + 1, jj, kk);
                            }
                            if jj < j || kk < k {
                                assert(byte_at(before, stride, jj, kk) == byte_at(
                                    data@,
                                    stride,
                                    jj,
                                    kk,
                                ));
                            }
                        }
                    }
                    k = k + 1;
                }
                proof {
                    lemma_index_in_rows(stride, area.height as int, j as int, 0);
                }
                j = j + 1;
            }
        } else {
            proof {
                lemma_product_parts(area.height as int, area.width as int);
            }
        }
        let part = RgbaImage { width: area.width, height: area.height, data };
        proof {
            let model = self@.crop(*area);
            assert forall|x: int, y: int| part@.has(x, y) implies #[trigger] part@.pixel(x, y)
                == model.pixel(x, y) by {
                assert(4 * (area.x + x) == 4 * area.x + 4 * x);
                assert(self@.pixel(area.x + x, area.y + y) == pixel_at(
                    self.data@,
                    w,
                    area.x + x,
                    area.y + y,
                ));
            }
            lemma_same_pixels(part@, model);
        }
        part
    }
}

/// The size of a buffer in bytes fits 128 bits.
proof fn lemma_stride_product(height: int, width: int)
    by (nonlinear_arith)
    requires
        0 <= height <= u32::MAX,
        0 <= width <= u32::MAX,
    ensures
        0 <= height * (4 * width) <= u128::MAX,
{
}

/// A product that fits a machine word has factors that fit it, unless it is zero.
proof fn lemma_product_parts(height: int, width: int)
    by (nonlinear_arith)
    requires
        height >= 0,
        width >= 0,
    ensures
        width == 0 || height == 0 ==> height * (4 * width) == 0,
        width > 0 && height > 0 ==> 4 * width <= height * (4 * width),
{
}

} // verus!

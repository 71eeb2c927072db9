//! Packed 8-bit RGB images: decoding, and cutting out a region.

use vstd::prelude::*;

verus! {

/// An RGB image with 8-bit channels, stored row by row, three bytes a pixel.
pub struct Raster {
    width: u32,
    height: u32,
    data: Vec<u8>,
}

/// What the `image` crate decodes from an encoded image file: its width, its
/// height and its pixels as packed RGB, or nothing where it cannot decode it.
pub uninterp spec fn decoded_rgb8(bytes: Seq<u8>) -> Option<(u32, u32, Seq<u8>)>;

/// Decodes an encoded image (`image::load_from_memory`), converts it to 8-bit
/// RGB (`DynamicImage::to_rgb8`) and hands out its width, height and bytes.
/// The result is named, not described: what the decoders produce is the
/// `image` crate's.
#[verifier::external_body]
fn decode_rgb8(bytes: &[u8]) -> (res: Option<(u32, u32, Vec<u8>)>)
    ensures
        match res {
            Some((w, h, d)) => decoded_rgb8(bytes@) == Some((w, h, d@)),
            None => decoded_rgb8(bytes@) is None,
        },
{
    match image::load_from_memory(bytes) {
        Ok(img) => {
            let rgb = img.to_rgb8();
            let (w, h) = rgb.dimensions();
            Some((w, h, rgb.into_raw()))
        },
        Err(_) => None,
    }
}

impl Raster {
    #[verifier::type_invariant]
    spec fn inv(self) -> bool {
        self.data@.len() == self.width * self.height * 3
    }

    pub closed spec fn spec_width(&self) -> u32 {
        self.width
    }

    pub closed spec fn spec_height(&self) -> u32 {
        self.height
    }

    /// The packed pixels, row by row.
    pub closed spec fn bytes(&self) -> Seq<u8> {
        self.data@
    }

    /// Channel `c` of pixel `(x, y)`.
    pub open spec fn sample(&self, x: int, y: int, c: int) -> u8 {
        self.bytes()[(y * self.spec_width() + x) * 3 + c]
    }

    /// An image from packed RGB bytes; `None` unless they are exactly
    /// `width * height` pixels.
    pub fn from_raw(width: u32, height: u32, data: Vec<u8>) -> (res: Option<Raster>)
        ensures
            res is Some <==> data@.len() == width * height * 3,
            res matches Some(r) ==> r.spec_width() == width && r.spec_height() == height && r.bytes() == data@,
    {
        let n = data.len();
        let w = width as u128;
        let h = height as u128;
        assert(w * h * 3 <= 0x1_0000_0000 * 0x1_0000_0000 * 3) by (nonlinear_arith)
            requires
                w < 0x1_0000_0000,
                h < 0x1_0000_0000,
        ;
        if (n as u128) == w * h * 3 {
            Some(Raster { width, height, data })
        } else {
            None
        }
    }

    /// An image from a top-down 32-bit BGRA bitmap (what a screen capture
    /// delivers): each pixel's blue, green and red bytes, reordered to RGB;
    /// the fourth byte is dropped.
    pub fn from_bgra(width: u32, height: u32, buf: &[u8]) -> (res: Raster)
        requires
            buf@.len() >= width * height * 4,
        ensures
            res.spec_width() == width,
            res.spec_height() == height,
            forall|x: int, y: int, c: int|
                0 <= x < width && 0 <= y < height && 0 <= c < 3
                    ==> #[trigger] res.sample(x, y, c) == buf@[(y * width + x) * 4 + (2 - c)],
    {
        let bl = buf.len();
        let n = (width as usize) * (height as usize);
        assert(n == width * height);
        let mut data: Vec<u8> = Vec::new();
        let mut k: usize = 0;
        while k < n
            invariant
                k <= n,
                n == width * height,
                bl == buf@.len(),
                bl >= n * 4,
                data@.len() == k * 3,
                forall|p: int, c: int|
                    0 <= p < k && 0 <= c < 3 ==> #[trigger] data@[p * 3 + c] == buf@[p * 4 + (2 - c)],
            decreases n - k,
        {
            let i = k * 4;
            data.push(buf[i + 2]);
            data.push(buf[i + 1]);
            data.push(buf[i]);
            k += 1;
        }
        let res = Raster { width, height, data };
        assert forall|x: int, y: int, c: int|
            0 <= x < width && 0 <= y < height && 0 <= c < 3
                implies #[trigger] res.sample(x, y, c) == buf@[(y * width + x) * 4 + (2 - c)] by {
            assert(0 <= y * width + x < width * height) by (nonlinear_arith)
                requires
                    0 <= x < width,
                    0 <= y < height,
            ;
        }
        res
    }

    /// Decodes an encoded image file (PNG or JPEG) to RGB.
    pub fn decode(bytes: &[u8]) -> (res: Option<Raster>)
        ensures
            match decoded_rgb8(bytes@) {
                Some((w, h, d)) => if d.len() == w * h * 3 {
                    res matches Some(r) && r.spec_width() == w && r.spec_height() == h && r.bytes() == d
                } else {
                    res is None
                },
                None => res is None,
            },
    {
        match decode_rgb8(bytes) {
            Some((w, h, d)) => Raster::from_raw(w, h, d),
            None => None,
        }
    }

    pub fn width(&self) -> (res: u32)
        ensures
            res == self.spec_width(),
    {
        self.width
    }

    pub fn height(&self) -> (res: u32)
        ensures
            res == self.spec_height(),
    {
        self.height
    }

    /// The packed pixels.
    pub fn as_raw(&self) -> (res: &[u8])
        ensures
            res@ == self.bytes(),
            res@.len() == self.spec_width() * self.spec_height() * 3,
    {
        proof {
            use_type_invariant(self);
        }
        self.data.as_slice()
    }

    /// The packed pixels, giving up the image.
    pub fn into_raw(self) -> (res: Vec<u8>)
        ensures
            res@ == self.bytes(),
    {
        self.data
    }

    /// The region `width`×`height` whose top-left pixel is `(x, y)`, clipped
    /// to the image as `image::imageops::crop_imm` clips it.
    pub fn crop(&self, x: u32, y: u32, width: u32, height: u32) -> (res: Raster)
        ensures
            res.spec_width() == crop_extent(x, width, self.spec_width()),
            res.spec_height() == crop_extent(y, height, self.spec_height()),
            forall|i: int, j: int, c: int|
                0 <= i < res.spec_width() && 0 <= j < res.spec_height() && 0 <= c < 3
                    ==> #[trigger] res.sample(i, j, c) == self.sample(crop_start(x, self.spec_width()) + i, crop_start(y, self.spec_height()) + j, c),
    {
        proof {
            use_type_invariant(self);
        }
        let x0 = if x < self.width { x } else { self.width };
        let y0 = if y < self.height { y } else { self.height };
        let cw = if width < self.width - x0 { width } else { self.width - x0 };
        let ch = if height < self.height - y0 { height } else { self.height - y0 };
        let iw = self.width as usize;
        let dl = self.data.len();
        let mut data: Vec<u8> = Vec::new();
        let mut j: u32 = 0;
        while j < ch
            invariant
                j <= ch,
                y0 + ch <= self.height,
                x0 + cw <= self.width,
                iw == self.width,
                dl == self.data@.len(),
                self.data@.len() == self.width * self.height * 3,
                data@.len() == (j as int) * (cw as int) * 3,
                forall|jj: int, i: int, c: int|
                    0 <= jj < j && 0 <= i < cw && 0 <= c < 3
                        ==> #[trigger] data@[((jj * cw + i) * 3 + c) as int] == self.data@[(((y0 + jj) * self.width + x0 + i) * 3 + c) as int],
            decreases ch - j,
        {
            let mut i: u32 = 0;
            while i < cw
                invariant
                    j < ch,
                    i <= cw,
                    y0 + ch <= self.height,
                    x0 + cw <= self.width,
                    iw == self.width,
                    dl == self.data@.len(),
                    self.data@.len() == self.width * self.height * 3,
                    data@.len() == ((j as int) * (cw as int) + i) * 3,
                    forall|jj: int, ii: int, c: int|
                        ((0 <= jj < j && 0 <= ii < cw) || (jj == j && 0 <= ii < i)) && 0 <= c < 3
                            ==> #[trigger] data@[((jj * cw + ii) * 3 + c) as int] == self.data@[(((y0 + jj) * self.width + x0 + ii) * 3 + c) as int],
                decreases cw - i,
            {
                proof {
                    assert(((y0 + j) * self.width + x0 + i) * 3 + 2 < self.data@.len()) by (nonlinear_arith)
                        requires
                            j < ch,
                            i < cw,
                            y0 + ch <= self.width * 0 + self.height,
                            x0 + cw <= self.width,
                            self.data@.len() == self.width * self.height * 3,
                    ;
                }
                let base = (((y0 + j) as usize) * iw + (x0 + i) as usize) * 3;
                let ghost before = data@;
                data.push(self.data[base]);
                data.push(self.data[base + 1]);
                data.push(self.data[base + 2]);
                proof {
                    let k = (j as int) * (cw as int) + i;
                    assert forall|jj: int, ii: int, c: int|
                        ((0 <= jj < j && 0 <= ii < cw) || (jj == j && 0 <= ii < i + 1)) && 0 <= c < 3
                            implies #[trigger] data@[((jj * cw + ii) * 3 + c) as int] == self.data@[(((y0 + jj) * self.width + x0 + ii) * 3 + c) as int] by {
                        if jj == j && ii == i {
                            assert((jj * cw + ii) * 3 + c == k * 3 + c);
                        } else {
                            assert((jj * cw + ii) < k) by (nonlinear_arith)
                                requires
                                    (0 <= jj < j && 0 <= ii < cw) || (jj == j && 0 <= ii < i),
                                    k == (j as int) * (cw as int) + i,
                            ;
                            assert((jj * cw + ii) * 3 + c < k * 3);
                            assert(data@[((jj * cw + ii) * 3 + c) as int] == before[((jj * cw + ii) * 3 + c) as int]);
                        }
                    }
                }
                i += 1;
            }
            assert(((j as int) * (cw as int) + cw) * 3 == ((j + 1) as int) * (cw as int) * 3) by (nonlinear_arith);
            j += 1;
        }
        assert((ch as int) * (cw as int) * 3 == (cw as int) * (ch as int) * 3) by (nonlinear_arith);
        let res = Raster { width: cw, height: ch, data };
        assert forall|i: int, jj: int, c: int|
            0 <= i < res.spec_width() && 0 <= jj < res.spec_height() && 0 <= c < 3
                implies #[trigger] res.sample(i, jj, c) == self.sample(crop_start(x, self.spec_width()) + i, crop_start(y, self.spec_height()) + jj, c) by {
            assert(res.sample(i, jj, c) == data@[((jj * cw + i) * 3 + c) as int]);
        }
        res
    }
}

/// Where a crop starts along one axis: clipped to the image's extent.
pub open spec fn crop_start(start: u32, extent: u32) -> int {
    if start < extent { start as int } else { extent as int }
}

/// How far a crop reaches along one axis: clipped to what remains of the image.
pub open spec fn crop_extent(start: u32, len: u32, extent: u32) -> u32 {
    let s = crop_start(start, extent);
    if len < extent - s { len } else { (extent - s) as u32 }
}

} // verus!

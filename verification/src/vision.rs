//! The exact integer side of zero-mean normalised cross-correlation template
//! matching: transform sizes, transposition, integral images and their
//! window sums, and per-channel template sums.

use vstd::prelude::*;

verus! {

/// `m` with every factor `f` divided out.
pub open spec fn strip(m: nat, f: nat) -> nat
    decreases m,
{
    if f >= 2 && m > 0 && m % f == 0 {
        proof {
            assert(m / f < m) by (nonlinear_arith)
                requires
                    f >= 2,
                    m > 0,
            ;
        }
        strip(m / f, f)
    } else {
        m
    }
}

/// `m` has no prime factor other than 2, 3 and 5.
pub open spec fn smooth(m: nat) -> bool {
    strip(strip(strip(m, 2), 3), 5) == 1
}

/// Divides every factor `f` out of `m`.
fn strip_factor(m: usize, f: usize) -> (res: usize)
    requires
        m >= 1,
        f >= 2,
    ensures
        res == strip(m as nat, f as nat),
        res >= 1,
{
    let ghost m0 = m;
    let mut m = m;
    while m % f == 0
        invariant
            m >= 1,
            f >= 2,
            strip(m as nat, f as nat) == strip(m0 as nat, f as nat),
        decreases m,
    {
        assert(m / f < m) by (nonlinear_arith)
            requires
                m >= 1,
                f >= 2,
        ;
        assert(m / f >= 1) by (nonlinear_arith)
            requires
                m >= 1,
                f >= 2,
                m % f == 0,
        ;
        m = m / f;
    }
    m
}

/// Whether `m` has no prime factor other than 2, 3 and 5.
fn is_smooth(m: usize) -> (res: bool)
    requires
        m >= 1,
    ensures
        res == smooth(m as nat),
{
    let a = strip_factor(m, 2);
    let b = strip_factor(a, 3);
    let c = strip_factor(b, 5);
    c == 1
}

/// The smallest length `>= n` whose only prime factors are 2, 3 and 5: a
/// length that the fast Fourier transform handles well.
pub fn next_fast_len(n: usize) -> (res: usize)
    requires
        n >= 1,
        exists|m: nat| n <= m <= usize::MAX && smooth(m),
    ensures
        n <= res,
        smooth(res as nat),
        forall|k: nat| n <= k < res ==> !smooth(k),
{
    let ghost bound = choose|m: nat| n <= m <= usize::MAX && smooth(m);
    let mut k = n;
    loop
        invariant
            1 <= n <= k <= bound <= usize::MAX,
            smooth(bound),
            forall|j: nat| n <= j < k ==> !smooth(j),
        decreases bound - k,
    {
        if is_smooth(k) {
            return k;
        }
        k = k + 1;
    }
}

} // verus!

verus! {

/// `b` holds, as a row-major `h`×`w` matrix, the transpose of the row-major
/// `w`×`h` matrix that `a` holds.
pub open spec fn transposed<T>(a: Seq<T>, b: Seq<T>, w: int, h: int) -> bool {
    forall|y: int, x: int| 0 <= y < h && 0 <= x < w ==> #[trigger] b[x * h + y] == a[y * w + x]
}

/// Writes the transpose of the row-major `w`×`h` matrix in `src` into `dst`
/// as a row-major `h`×`w` matrix; the rest of `dst` is left alone.
pub fn transpose<T: Copy>(src: &[T], dst: &mut [T], w: usize, h: usize)
    requires
        w * h <= src@.len(),
        w * h <= old(dst)@.len(),
    ensures
        final(dst)@.len() == old(dst)@.len(),
        transposed(src@, final(dst)@, w as int, h as int),
        forall|i: int| w * h <= i < old(dst)@.len() ==> #[trigger] final(dst)@[i] == old(dst)@[i],
{
    let sl = src.len();
    let mut y: usize = 0;
    while y < h
        invariant
            y <= h,
            src@.len() == sl,
            w * h <= src@.len(),
            w * h <= dst@.len(),
            dst@.len() == old(dst)@.len(),
            forall|yy: int, x: int|
                0 <= yy < y && 0 <= x < w ==> #[trigger] dst@[x * h + yy] == src@[yy * w + x],
            forall|i: int| w * h <= i < old(dst)@.len() ==> #[trigger] dst@[i] == old(dst)@[i],
        decreases h - y,
    {
        let mut x: usize = 0;
        while x < w
            invariant
                y < h,
                x <= w,
                src@.len() == sl,
                w * h <= src@.len(),
                w * h <= dst@.len(),
                dst@.len() == old(dst)@.len(),
                forall|yy: int, xx: int|
                    (0 <= yy < y && 0 <= xx < w) || (yy == y && 0 <= xx < x) ==> #[trigger] dst@[xx * h + yy] == src@[yy * w + xx],
                forall|i: int| w * h <= i < old(dst)@.len() ==> #[trigger] dst@[i] == old(dst)@[i],
            decreases w - x,
        {
            proof {
                lemma_grid_index(x as int, y as int, w as int, h as int);
            }
            let d = x * h + y;
            let s = y * w + x;
            dst[d] = src[s];
            proof {
                assert forall|yy: int, xx: int|
                    (0 <= yy < y && 0 <= xx < w) || (yy == y && 0 <= xx < x + 1) implies #[trigger] dst@[xx * h + yy] == src@[yy * w + xx] by {
                    if xx * h + yy == d {
                        lemma_grid_unique(xx, yy, x as int, y as int, h as int);
                    }
                    if yy < y || xx < x {
                        lemma_grid_index(xx, yy, w as int, h as int);
                    }
                }
            }
            x += 1;
        }
        y += 1;
    }
}

/// Transposing twice gives back the matrix: a `w`×`h` matrix transposed into
/// `b` and back into `c` agrees with the original on all `w * h` entries.
pub proof fn lemma_transpose_twice<T>(a: Seq<T>, b: Seq<T>, c: Seq<T>, w: int, h: int)
    requires
        0 <= w,
        0 <= h,
        transposed(a, b, w, h),
        transposed(b, c, h, w),
    ensures
        forall|i: int| 0 <= i < w * h ==> #[trigger] c[i] == a[i],
{
    assert forall|i: int| 0 <= i < w * h implies #[trigger] c[i] == a[i] by {
        let y = i / w;
        let x = i % w;
        assert(0 <= x < w && 0 <= y < h && i == y * w + x) by (nonlinear_arith)
            requires
                0 <= i < w * h,
                0 <= w,
                0 <= h,
                y == i / w,
                x == i % w,
        ;
        assert(b[x * h + y] == a[y * w + x]);
        assert(c[y * w + x] == b[x * h + y]);
    }
}

/// Positions inside a `w`×`h` grid index inside `w * h`, both ways.
proof fn lemma_grid_index(x: int, y: int, w: int, h: int)
    requires
        0 <= x < w,
        0 <= y < h,
    ensures
        0 <= x * h + y < w * h,
        0 <= y * w + x < w * h,
{
    assert(0 <= x * h + y < w * h) by (nonlinear_arith)
        requires
            0 <= x < w,
            0 <= y < h,
    ;
    assert(0 <= y * w + x < w * h) by (nonlinear_arith)
        requires
            0 <= x < w,
            0 <= y < h,
    ;
}

/// Distinct grid positions have distinct column-major indices.
proof fn lemma_grid_unique(x1: int, y1: int, x2: int, y2: int, h: int)
    requires
        0 <= y1 < h,
        0 <= y2 < h,
        0 <= x1,
        0 <= x2,
        x1 * h + y1 == x2 * h + y2,
    ensures
        x1 == x2,
        y1 == y2,
{
    assert(x1 == x2 && y1 == y2) by (nonlinear_arith)
        requires
            0 <= y1 < h,
            0 <= y2 < h,
            0 <= x1,
            0 <= x2,
            x1 * h + y1 == x2 * h + y2,
    ;
}

} // verus!

verus! {

/// The largest value one pixel contributes: three squared 8-bit channels.
pub open spec fn max_pixel_value() -> int {
    195075int
}

/// What pixel `(x, y)` of a packed RGB image `sw` pixels wide contributes to
/// an integral image: one channel's value for `Some(c)`, the sum of the
/// squares of all three channels for `None`.
pub open spec fn pixel_value(raw: Seq<u8>, sw: int, ch: Option<usize>, x: int, y: int) -> int {
    let base = (y * sw + x) * 3;
    match ch {
        Some(c) => raw[base + c] as int,
        None => (raw[base] as int) * (raw[base] as int) + (raw[base + 1] as int) * (raw[base + 1] as int) + (raw[base + 2] as int) * (raw[base + 2] as int),
    }
}

/// Sum of the pixel values of row `y` over columns `x0 .. x1`.
pub open spec fn row_sum(raw: Seq<u8>, sw: int, ch: Option<usize>, y: int, x0: int, x1: int) -> int
    decreases x1 - x0,
{
    if x1 <= x0 {
        0
    } else {
        row_sum(raw, sw, ch, y, x0, x1 - 1) + pixel_value(raw, sw, ch, x1 - 1, y)
    }
}

/// Sum of the pixel values over columns `x0 .. x1` and rows `y0 .. y1`.
pub open spec fn rect_sum(raw: Seq<u8>, sw: int, ch: Option<usize>, x0: int, x1: int, y0: int, y1: int) -> int
    decreases y1 - y0,
{
    if y1 <= y0 {
        0
    } else {
        rect_sum(raw, sw, ch, x0, x1, y0, y1 - 1) + row_sum(raw, sw, ch, y1 - 1, x0, x1)
    }
}

/// Entry `(x, y)` of a row-major table `w` entries wide.
pub open spec fn at(s: Seq<u128>, w: int, x: int, y: int) -> u128 {
    s[y * w + x]
}

/// The integral-image identity: a window's sum is four corner lookups of the
/// sums over all windows that start at the origin.
pub proof fn lemma_window_from_corners(raw: Seq<u8>, sw: int, ch: Option<usize>, x0: int, x1: int, y0: int, y1: int)
    requires
        0 <= x0 <= x1,
        0 <= y0 <= y1,
    ensures
        rect_sum(raw, sw, ch, 0, x1, 0, y1) - rect_sum(raw, sw, ch, 0, x1, 0, y0)
            - rect_sum(raw, sw, ch, 0, x0, 0, y1) + rect_sum(raw, sw, ch, 0, x0, 0, y0)
            == rect_sum(raw, sw, ch, x0, x1, y0, y1),
    decreases y1 - y0,
{
    if y1 > y0 {
        lemma_window_from_corners(raw, sw, ch, x0, x1, y0, y1 - 1);
        lemma_row_split(raw, sw, ch, y1 - 1, x0, x1);
    }
}

/// A row from the origin splits into its part before `x0` and the rest.
proof fn lemma_row_split(raw: Seq<u8>, sw: int, ch: Option<usize>, y: int, x0: int, x1: int)
    requires
        0 <= x0 <= x1,
    ensures
        row_sum(raw, sw, ch, y, 0, x1) == row_sum(raw, sw, ch, y, 0, x0) + row_sum(raw, sw, ch, y, x0, x1),
    decreases x1 - x0,
{
    if x1 > x0 {
        lemma_row_split(raw, sw, ch, y, x0, x1 - 1);
    }
}

/// Pixel values stay between 0 and three squared 8-bit channels.
proof fn lemma_pixel_bound(raw: Seq<u8>, sw: int, ch: Option<usize>, x: int, y: int)
    ensures
        0 <= pixel_value(raw, sw, ch, x, y) <= max_pixel_value(),
{
    let base = (y * sw + x) * 3;
    let r = raw[base] as int;
    let g = raw[base + 1] as int;
    let b = raw[base + 2] as int;
    assert(0 <= r * r <= 255 * 255) by (nonlinear_arith)
        requires
            0 <= r <= 255,
    ;
    assert(0 <= g * g <= 255 * 255) by (nonlinear_arith)
        requires
            0 <= g <= 255,
    ;
    assert(0 <= b * b <= 255 * 255) by (nonlinear_arith)
        requires
            0 <= b <= 255,
    ;
}

/// A window sum is at most its area times the largest pixel value.
proof fn lemma_rect_bound(raw: Seq<u8>, sw: int, ch: Option<usize>, x0: int, x1: int, y0: int, y1: int)
    requires
        0 <= x0 <= x1,
        0 <= y0 <= y1,
    ensures
        0 <= rect_sum(raw, sw, ch, x0, x1, y0, y1) <= (x1 - x0) * (y1 - y0) * max_pixel_value(),
    decreases y1 - y0,
{
    if y1 > y0 {
        lemma_rect_bound(raw, sw, ch, x0, x1, y0, y1 - 1);
        lemma_row_bound(raw, sw, ch, y1 - 1, x0, x1);
        let a = x1 - x0;
        assert(a * (y1 - 1 - y0) * max_pixel_value() + a * max_pixel_value() == a * (y1 - y0) * max_pixel_value()) by (nonlinear_arith);
    }
}

proof fn lemma_row_bound(raw: Seq<u8>, sw: int, ch: Option<usize>, y: int, x0: int, x1: int)
    requires
        0 <= x0 <= x1,
    ensures
        0 <= row_sum(raw, sw, ch, y, x0, x1) <= (x1 - x0) * max_pixel_value(),
    decreases x1 - x0,
{
    if x1 > x0 {
        lemma_row_bound(raw, sw, ch, y, x0, x1 - 1);
        lemma_pixel_bound(raw, sw, ch, x1 - 1, y);
    }
}

} // verus!

verus! {

/// An integral image of a packed RGB image: entry `(x, y)`, for `x <= sw` and
/// `y <= sh`, is the sum of the pixel values of the window from the origin to
/// `(x, y)`. Every such sum is an integer; it is kept exactly.
pub struct Integral {
    sum: Vec<u128>,
    w: usize,
    sw: usize,
    sh: usize,
    raw: Ghost<Seq<u8>>,
    ch: Ghost<Option<usize>>,
}

impl Integral {
    /// The image the table was built from.
    pub closed spec fn image(&self) -> Seq<u8> {
        self.raw@
    }

    /// The channel it sums (`None`: the sum of squares of all three).
    pub closed spec fn channel(&self) -> Option<usize> {
        self.ch@
    }

    /// The image's width in pixels.
    pub closed spec fn width(&self) -> nat {
        self.sw as nat
    }

    /// The image's height in pixels.
    pub closed spec fn height(&self) -> nat {
        self.sh as nat
    }

    pub closed spec fn wf(&self) -> bool {
        &&& self.w == self.sw + 1
        &&& self.sum@.len() == self.w * (self.sh + 1)
        &&& self.w * (self.sh + 1) <= usize::MAX
        &&& self.sw * self.sh <= usize::MAX
        &&& forall|x: int, y: int|
            0 <= x <= self.sw && 0 <= y <= self.sh ==> #[trigger] at(self.sum@, self.w as int, x, y)
                == rect_sum(self.raw@, self.sw as int, self.ch@, 0, x, 0, y)
    }

    /// Builds the table for channel `channel` (`Some(c)`: the channel's
    /// values; `None`: the sum of the squares of all three) of the packed RGB
    /// image `raw`, `sw` pixels wide and `sh` high; bytes past the image's
    /// `sw * sh` pixels are not read.
    pub fn new(raw: &[u8], sw: usize, sh: usize, channel: Option<usize>) -> (res: Self)
        requires
            raw@.len() >= sw * sh * 3,
            (sw + 1) * (sh + 1) <= usize::MAX,
            channel matches Some(c) ==> c < 3,
        ensures
            res.wf(),
            res.image() == raw@,
            res.channel() == channel,
            res.width() == sw,
            res.height() == sh,
    {
        assert(sw + 1 <= (sw + 1) * (sh + 1) && sh + 1 <= (sw + 1) * (sh + 1) && sw * sh <= usize::MAX) by (nonlinear_arith)
            requires
                (sw + 1) * (sh + 1) <= usize::MAX,
        ;
        let rl = raw.len();
        let w = sw + 1;
        let total = w * (sh + 1);
        assert(w <= total) by (nonlinear_arith)
            requires
                total == w * (sh + 1),
                w >= 1,
        ;
        let mut sum: Vec<u128> = Vec::new();
        let mut i: usize = 0;
        while i < total
            invariant
                i <= total,
                sum@.len() == i,
                forall|k: int| 0 <= k < i ==> #[trigger] sum@[k] == 0,
            decreases total - i,
        {
            sum.push(0);
            i += 1;
        }
        let ghost r = raw@;
        let ghost swi = sw as int;
        // Row 0 and column 0 hold the empty sums.
        assert forall|x: int| 0 <= x <= sw implies #[trigger] at(sum@, w as int, x, 0) == rect_sum(r, swi, channel, 0, x, 0, 0) by {
            assert(0 * (w as int) + x == x);
        }
        let mut y: usize = 0;
        while y < sh
            invariant
                y <= sh,
                w == sw + 1,
                total == w * (sh + 1),
                sw * sh <= usize::MAX,
                (sw + 1) * (sh + 1) <= usize::MAX,
                raw@ == r,
                swi == sw,
                r.len() >= sw * sh * 3,
                r.len() == rl,
                channel matches Some(c) ==> c < 3,
                sum@.len() == total,
                forall|x: int, yy: int|
                    0 <= x <= sw && 0 <= yy <= y ==> #[trigger] at(sum@, w as int, x, yy) == rect_sum(r, swi, channel, 0, x, 0, yy),
                forall|k: int| (y + 1) * w <= k < total ==> #[trigger] sum@[k] == 0,
            decreases sh - y,
        {
            let mut row: u128 = 0;
            assert(y * sw * 3 <= rl) by (nonlinear_arith)
                requires
                    y < sh,
                    rl >= sw * sh * 3,
            ;
            let base = y * sw * 3;
            proof {
                lemma_rect_no_columns(r, swi, channel, 0, y as int + 1);
                assert((y + 1) * w <= total && (y + 1) * w + w <= total + w) by (nonlinear_arith)
                    requires
                        y < sh,
                        total == w * (sh + 1),
                ;
                assert(at(sum@, w as int, 0, y + 1) == 0) by {
                    assert((y + 1) * w + 0 < total) by (nonlinear_arith)
                        requires
                            y < sh,
                            total == w * (sh + 1),
                            w >= 1,
                    ;
                }
            }
            let mut x: usize = 0;
            while x < sw
                invariant
                    y < sh,
                    x <= sw,
                    w == sw + 1,
                    total == w * (sh + 1),
                    sw * sh <= usize::MAX,
                    (sw + 1) * (sh + 1) <= usize::MAX,
                    raw@ == r,
                    swi == sw,
                    r.len() >= sw * sh * 3,
                    r.len() == rl,
                    base == y * sw * 3,
                    channel matches Some(c) ==> c < 3,
                    sum@.len() == total,
                    row == row_sum(r, swi, channel, y as int, 0, x as int),
                    forall|xx: int, yy: int|
                        0 <= xx <= sw && 0 <= yy <= y ==> #[trigger] at(sum@, w as int, xx, yy) == rect_sum(r, swi, channel, 0, xx, 0, yy),
                    forall|xx: int|
                        0 <= xx <= x ==> #[trigger] at(sum@, w as int, xx, y + 1) == rect_sum(r, swi, channel, 0, xx, 0, y + 1),
                    forall|k: int| (y + 1) * w + x + 1 <= k < total ==> #[trigger] sum@[k] == 0,
                decreases sw - x,
            {
                proof {
                    assert(base + x * 3 + 2 < r.len() && base + x * 3 == (y * sw + x) * 3) by (nonlinear_arith)
                        requires
                            y < sh,
                            x < sw,
                            base == y * sw * 3,
                            r.len() >= sw * sh * 3,
                    ;
                    lemma_pixel_bound(r, swi, channel, x as int, y as int);
                    lemma_row_bound(r, swi, channel, y as int, 0, x as int);
                    lemma_rect_bound(r, swi, channel, 0, x + 1, 0, y as int);
                    assert((x + 1) * (y as int) * max_pixel_value() <= 0x1_0000_0000_0000_0000 * 0x1_0000_0000_0000_0000) by (nonlinear_arith)
                        requires
                            x < sw,
                            y < sh,
                            sw * sh <= usize::MAX,
                            usize::MAX < 0x1_0000_0000_0000_0000,
                    ;
                    assert(x * max_pixel_value() <= 0x1_0000_0000_0000_0000 * 0x1_0000_0000) by (nonlinear_arith)
                        requires
                            x < sw,
                            sw * sh <= usize::MAX,
                            usize::MAX < 0x1_0000_0000_0000_0000,
                    ;
                }
                let v: u128 = match channel {
                    Some(c) => raw[base + x * 3 + c] as u128,
                    None => {
                        let r0 = raw[base + x * 3] as u128;
                        let g0 = raw[base + x * 3 + 1] as u128;
                        let b0 = raw[base + x * 3 + 2] as u128;
                        r0 * r0 + g0 * g0 + b0 * b0
                    },
                };
                assert(v == pixel_value(r, swi, channel, x as int, y as int));
                proof {
                    lemma_row_bound(r, swi, channel, y as int, 0, x + 1);
                    lemma_rect_bound(r, swi, channel, 0, x + 1, 0, y + 1);
                    assert((x + 1) * (y + 1) * max_pixel_value() <= 0x1_0000_0000_0000_0000 * 0x1_0000_0000) by (nonlinear_arith)
                        requires
                            x < sw,
                            y < sh,
                            sw * sh <= usize::MAX,
                            usize::MAX < 0x1_0000_0000_0000_0000,
                    ;
                    assert((x + 1) * max_pixel_value() <= (x + 1) * (y + 1) * max_pixel_value()) by (nonlinear_arith)
                        requires
                            x >= 0,
                            y >= 0,
                    ;
                }
                row = row + v;
                proof {
                    lemma_index_in_table(x as int + 1, y as int, w as int, sh as int);
                    lemma_index_in_table(x as int + 1, y as int + 1, w as int, sh as int);
                }
                let above = sum[y * w + x + 1];
                assert(above == at(sum@, w as int, x + 1, y as int));
                assert(rect_sum(r, swi, channel, 0, x + 1, 0, y + 1) == rect_sum(r, swi, channel, 0, x + 1, 0, y as int) + row_sum(r, swi, channel, y as int, 0, x + 1));
                let ghost before = sum@;
                sum.set((y + 1) * w + x + 1, above + row);
                proof {
                    let k = (y + 1) * w + x + 1;
                    assert(at(sum@, w as int, x + 1, y + 1) == above + row);
                    assert(rect_sum(r, swi, channel, 0, x + 1, 0, y + 1) == rect_sum(r, swi, channel, 0, x + 1, 0, y as int) + row_sum(r, swi, channel, y as int, 0, x + 1));
                    assert forall|xx: int, yy: int|
                        0 <= xx <= sw && 0 <= yy <= y implies #[trigger] at(sum@, w as int, xx, yy) == rect_sum(r, swi, channel, 0, xx, 0, yy) by {
                        lemma_index_in_table(xx, yy, w as int, sh as int);
                        assert(yy * w + xx < (y + 1) * w) by (nonlinear_arith)
                            requires
                                0 <= xx < w,
                                0 <= yy <= y,
                        ;
                        assert(at(before, w as int, xx, yy) == at(sum@, w as int, xx, yy));
                    }
                    assert forall|xx: int| 0 <= xx <= x + 1 implies #[trigger] at(sum@, w as int, xx, y + 1) == rect_sum(r, swi, channel, 0, xx, 0, y + 1) by {
                        if xx <= x {
                            assert(at(before, w as int, xx, y + 1) == at(sum@, w as int, xx, y + 1));
                        }
                    }
                }
                x += 1;
            }
            assert((y + 1) * w + sw + 1 == (y + 2) * w) by (nonlinear_arith)
                requires
                    w == sw + 1,
            ;
            y += 1;
        }
        Integral { sum, w, sw, sh, raw: Ghost(raw@), ch: Ghost(channel) }
    }

    /// The sum of the pixel values of the `tw`×`th` window whose top-left
    /// pixel is `(x, y)`.
    pub fn window(&self, x: usize, y: usize, tw: usize, th: usize) -> (res: u128)
        requires
            self.wf(),
            x + tw <= self.width(),
            y + th <= self.height(),
        ensures
            res == rect_sum(self.image(), self.width() as int, self.channel(), x as int, (x + tw) as int, y as int, (y + th) as int),
    {
        let ghost r = self.raw@;
        let ghost sw = self.sw as int;
        let ghost ch = self.ch@;
        proof {
            lemma_index_in_table(x as int, y as int, self.w as int, self.sh as int);
            lemma_index_in_table((x + tw) as int, y as int, self.w as int, self.sh as int);
            lemma_index_in_table(x as int, (y + th) as int, self.w as int, self.sh as int);
            lemma_index_in_table((x + tw) as int, (y + th) as int, self.w as int, self.sh as int);
            lemma_window_from_corners(r, sw, ch, x as int, (x + tw) as int, y as int, (y + th) as int);
            lemma_rect_bound(r, sw, ch, 0, (x + tw) as int, 0, (y + th) as int);
            lemma_rect_bound(r, sw, ch, 0, x as int, 0, y as int);
            lemma_rect_bound(r, sw, ch, x as int, (x + tw) as int, y as int, (y + th) as int);
            lemma_rect_bound(r, sw, ch, 0, x as int, y as int, (y + th) as int);
            lemma_window_from_corners(r, sw, ch, 0, x as int, y as int, (y + th) as int);
            assert(((x + tw) as int) * ((y + th) as int) * max_pixel_value() <= 0x1_0000_0000_0000_0000 * 0x1_0000_0000) by (nonlinear_arith)
                requires
                    x + tw <= self.sw,
                    y + th <= self.sh,
                    self.sw * self.sh <= usize::MAX,
                    usize::MAX < 0x1_0000_0000_0000_0000,
            ;
            assert((x as int) * (y as int) * max_pixel_value() <= 0x1_0000_0000_0000_0000 * 0x1_0000_0000) by (nonlinear_arith)
                requires
                    x <= self.sw,
                    y <= self.sh,
                    self.sw * self.sh <= usize::MAX,
                    usize::MAX < 0x1_0000_0000_0000_0000,
            ;
        }
        let a = self.sum[y * self.w + x];
        let b = self.sum[y * self.w + x + tw];
        let c = self.sum[(y + th) * self.w + x];
        let d = self.sum[(y + th) * self.w + x + tw];
        assert(a == at(self.sum@, self.w as int, x as int, y as int));
        assert(b == at(self.sum@, self.w as int, (x + tw) as int, y as int));
        assert(c == at(self.sum@, self.w as int, x as int, (y + th) as int));
        assert(d == at(self.sum@, self.w as int, (x + tw) as int, (y + th) as int));
        d + a - b - c
    }
}

/// A window without columns sums to nothing.
proof fn lemma_rect_no_columns(raw: Seq<u8>, sw: int, ch: Option<usize>, x: int, y1: int)
    requires
        0 <= y1,
    ensures
        rect_sum(raw, sw, ch, x, x, 0, y1) == 0,
    decreases y1,
{
    if y1 > 0 {
        lemma_rect_no_columns(raw, sw, ch, x, y1 - 1);
    }
}

/// Table entry `(x, y)` lies inside a table `w` wide and `h + 1` high.
proof fn lemma_index_in_table(x: int, y: int, w: int, h: int)
    requires
        0 <= x < w,
        0 <= y <= h,
    ensures
        0 <= y * w + x < w * (h + 1),
{
    assert(0 <= y * w + x < w * (h + 1)) by (nonlinear_arith)
        requires
            0 <= x < w,
            0 <= y <= h,
    ;
}

} // verus!

verus! {

/// Sum of channel `c` over the first `n` pixels of a packed RGB image.
pub open spec fn channel_sum(raw: Seq<u8>, c: int, n: int) -> int
    decreases n,
{
    if n <= 0 {
        0
    } else {
        channel_sum(raw, c, n - 1) + raw[(n - 1) * 3 + c]
    }
}

/// Sum of the squares of channel `c` over the first `n` pixels.
pub open spec fn channel_sq_sum(raw: Seq<u8>, c: int, n: int) -> int
    decreases n,
{
    if n <= 0 {
        0
    } else {
        channel_sq_sum(raw, c, n - 1) + raw[(n - 1) * 3 + c] * raw[(n - 1) * 3 + c]
    }
}

/// The template's channel sum and the integral image's window sum agree:
/// summing channel `c` over the first `y * w + x` pixels of an image `w`
/// pixels wide is summing the first `y` rows and `x` pixels of row `y`.
pub proof fn lemma_channel_sum_rows(raw: Seq<u8>, c: usize, w: int, x: int, y: int)
    requires
        0 <= x <= w,
        0 <= y,
    ensures
        channel_sum(raw, c as int, y * w + x) == rect_sum(raw, w, Some(c), 0, w, 0, y) + row_sum(raw, w, Some(c), y, 0, x),
    decreases y, x,
{
    if x > 0 {
        lemma_channel_sum_rows(raw, c, w, x - 1, y);
        assert(y * w + x - 1 == y * w + (x - 1));
    } else if y > 0 {
        lemma_channel_sum_rows(raw, c, w, w, y - 1);
        assert((y - 1) * w + w == y * w) by (nonlinear_arith);
    } else {
        assert(y * w + x == 0) by (nonlinear_arith)
            requires
                y == 0,
                x == 0,
        ;
    }
}

/// Summing a channel over a whole `w`×`h` image pixel by pixel gives the
/// integral image's sum over its full window.
pub proof fn lemma_channel_sum_is_window(raw: Seq<u8>, c: usize, w: int, h: int)
    requires
        0 <= w,
        0 <= h,
    ensures
        channel_sum(raw, c as int, w * h) == rect_sum(raw, w, Some(c), 0, w, 0, h),
{
    lemma_channel_sum_rows(raw, c, w, 0, h);
    assert(h * w + 0 == w * h) by (nonlinear_arith);
}

/// The sum and the sum of squares of channel `c` over all `n` pixels of a
/// packed RGB image: the template statistics of the correlation score.
pub fn channel_sums(raw: &[u8], n: usize, c: usize) -> (res: (u128, u128))
    requires
        raw@.len() == n * 3,
        c < 3,
    ensures
        res.0 == channel_sum(raw@, c as int, n as int),
        res.1 == channel_sq_sum(raw@, c as int, n as int),
{
    let rl = raw.len();
    let mut s: u128 = 0;
    let mut q: u128 = 0;
    let mut i: usize = 0;
    while i < n
        invariant
            i <= n,
            c < 3,
            rl == raw@.len() == n * 3,
            s == channel_sum(raw@, c as int, i as int),
            q == channel_sq_sum(raw@, c as int, i as int),
            s <= i * 255,
            q <= i * 65025,
        decreases n - i,
    {
        let v = raw[i * 3 + c] as u128;
        assert(v * v <= 65025) by (nonlinear_arith)
            requires
                v <= 255,
        ;
        s = s + v;
        q = q + v * v;
        i += 1;
    }
    (s, q)
}

/// The positions at which a `tw`×`th` template fits in a `sw`×`sh` scene:
/// `(sw - tw + 1, sh - th + 1)`, or `None` where the template is empty or
/// larger than the scene.
pub fn match_region(sw: usize, sh: usize, tw: usize, th: usize) -> (res: Option<(usize, usize)>)
    ensures
        res is None <==> (tw > sw || th > sh || tw == 0 || th == 0),
        res matches Some((ow, oh)) ==> ow == sw - tw + 1 && oh == sh - th + 1,
{
    if tw > sw || th > sh || tw == 0 || th == 0 {
        None
    } else {
        Some((sw - tw + 1, sh - th + 1))
    }
}

} // verus!

verus! {

/// `n` zeros.
fn zeros(n: usize) -> (res: Vec<u8>)
    ensures
        res@.len() == n,
        forall|i: int| 0 <= i < n ==> #[trigger] res@[i] == 0,
{
    let mut v: Vec<u8> = Vec::new();
    let mut i: usize = 0;
    while i < n
        invariant
            i <= n,
            v@.len() == i,
            forall|k: int| 0 <= k < i ==> #[trigger] v@[k] == 0,
        decreases n - i,
    {
        v.push(0);
        i += 1;
    }
    v
}

/// Channel `c` of a packed RGB image `w`×`h`, laid out in the top-left corner
/// of a zero-padded `fw`×`fh` table (the scene's input to the transform).
pub fn channel_plane(raw: &[u8], w: usize, h: usize, c: usize, fw: usize, fh: usize) -> (res: Vec<u8>)
    requires
        raw@.len() == w * h * 3,
        c < 3,
        w <= fw,
        h <= fh,
        fw * fh <= usize::MAX,
    ensures
        res@.len() == fw * fh,
        forall|y: int, x: int| 0 <= y < fh && 0 <= x < fw ==> #[trigger] res@[y * fw + x]
            == if y < h && x < w { raw@[(y * w + x) * 3 + c] } else { 0u8 },
{
    let rl = raw.len();
    let mut out = zeros(fw * fh);
    assert forall|yy: int, x: int| 0 <= yy < fh && 0 <= x < fw implies #[trigger] out@[yy * fw + x] == 0u8 by {
        lemma_grid_index(yy, x, fh as int, fw as int);
    }
    let mut y: usize = 0;
    while y < h
        invariant
            y <= h <= fh,
            w <= fw,
            c < 3,
            rl == raw@.len() == w * h * 3,
            fw * fh <= usize::MAX,
            out@.len() == fw * fh,
            forall|yy: int, x: int| 0 <= yy < fh && 0 <= x < fw ==> #[trigger] out@[yy * fw + x]
                == if yy < y && x < w { raw@[(yy * w + x) * 3 + c] } else { 0u8 },
        decreases h - y,
    {
        let mut x: usize = 0;
        while x < w
            invariant
                y < h <= fh,
                x <= w <= fw,
                c < 3,
                rl == raw@.len() == w * h * 3,
                fw * fh <= usize::MAX,
                out@.len() == fw * fh,
                forall|yy: int, xx: int| 0 <= yy < fh && 0 <= xx < fw ==> #[trigger] out@[yy * fw + xx]
                    == if yy < y && xx < w { raw@[(yy * w + xx) * 3 + c] } else if yy == y && xx < x { raw@[(yy * w + xx) * 3 + c] } else { 0u8 },
            decreases w - x,
        {
            proof {
                lemma_grid_index(y as int, x as int, fh as int, fw as int);
                assert((y * w + x) * 3 + c < w * h * 3) by (nonlinear_arith)
                    requires
                        y < h,
                        x < w,
                        c < 3,
                ;
            }
            let d = y * fw + x;
            let v = raw[(y * w + x) * 3 + c];
            out.set(d, v);
            proof {
                assert forall|yy: int, xx: int| 0 <= yy < fh && 0 <= xx < fw implies #[trigger] out@[yy * fw + xx]
                    == if yy < y && xx < w { raw@[(yy * w + xx) * 3 + c] } else if yy == y && xx < x + 1 { raw@[(yy * w + xx) * 3 + c] } else { 0u8 } by {
                    lemma_grid_index(yy, xx, fh as int, fw as int);
                    if yy * fw + xx == d {
                        lemma_grid_unique(yy, xx, y as int, x as int, fw as int);
                    }
                }
            }
            x += 1;
        }
        y += 1;
    }
    out
}

/// Channel `c` of a packed RGB template `tw`×`th`, turned by half a circle
/// (flipped in both directions) and laid out in the top-left corner of a
/// zero-padded `fw`×`fh` table: correlating with the template is convolving
/// with this table.
pub fn flipped_plane(raw: &[u8], tw: usize, th: usize, c: usize, fw: usize, fh: usize) -> (res: Vec<u8>)
    requires
        raw@.len() == tw * th * 3,
        c < 3,
        tw <= fw,
        th <= fh,
        fw * fh <= usize::MAX,
    ensures
        res@.len() == fw * fh,
        forall|y: int, x: int| 0 <= y < fh && 0 <= x < fw ==> #[trigger] res@[y * fw + x]
            == if y < th && x < tw { raw@[((th - 1 - y) * tw + (tw - 1 - x)) * 3 + c] } else { 0u8 },
{
    let rl = raw.len();
    let mut out = zeros(fw * fh);
    assert forall|yy: int, x: int| 0 <= yy < fh && 0 <= x < fw implies #[trigger] out@[yy * fw + x] == 0u8 by {
        lemma_grid_index(yy, x, fh as int, fw as int);
    }
    let mut y: usize = 0;
    while y < th
        invariant
            y <= th <= fh,
            tw <= fw,
            c < 3,
            rl == raw@.len() == tw * th * 3,
            fw * fh <= usize::MAX,
            out@.len() == fw * fh,
            forall|yy: int, x: int| 0 <= yy < fh && 0 <= x < fw ==> #[trigger] out@[yy * fw + x]
                == if yy < y && x < tw { raw@[((th - 1 - yy) * tw + (tw - 1 - x)) * 3 + c] } else { 0u8 },
        decreases th - y,
    {
        let mut x: usize = 0;
        while x < tw
            invariant
                y < th <= fh,
                x <= tw <= fw,
                c < 3,
                rl == raw@.len() == tw * th * 3,
                fw * fh <= usize::MAX,
                out@.len() == fw * fh,
                forall|yy: int, xx: int| 0 <= yy < fh && 0 <= xx < fw ==> #[trigger] out@[yy * fw + xx]
                    == if yy < y && xx < tw { raw@[((th - 1 - yy) * tw + (tw - 1 - xx)) * 3 + c] } else if yy == y && xx < x { raw@[((th - 1 - yy) * tw + (tw - 1 - xx)) * 3 + c] } else { 0u8 },
            decreases tw - x,
        {
            proof {
                lemma_grid_index(y as int, x as int, fh as int, fw as int);
                assert(((th - 1 - y) * tw + (tw - 1 - x)) * 3 + c < tw * th * 3) by (nonlinear_arith)
                    requires
                        y < th,
                        x < tw,
                        c < 3,
                ;
            }
            let d = y * fw + x;
            let v = raw[((th - 1 - y) * tw + (tw - 1 - x)) * 3 + c];
            out.set(d, v);
            proof {
                assert forall|yy: int, xx: int| 0 <= yy < fh && 0 <= xx < fw implies #[trigger] out@[yy * fw + xx]
                    == if yy < y && xx < tw { raw@[((th - 1 - yy) * tw + (tw - 1 - xx)) * 3 + c] } else if yy == y && xx < x + 1 { raw@[((th - 1 - yy) * tw + (tw - 1 - xx)) * 3 + c] } else { 0u8 } by {
                    lemma_grid_index(yy, xx, fh as int, fw as int);
                    if yy * fw + xx == d {
                        lemma_grid_unique(yy, xx, y as int, x as int, fw as int);
                    }
                }
            }
            x += 1;
        }
        y += 1;
    }
    out
}

} // verus!

//! Screen coordinates for synthetic mouse input.

use vstd::prelude::*;

verus! {

/// Integer division rounding toward zero, as Rust's `/` on signed integers.
pub open spec fn div_toward_zero(a: int, b: int) -> int {
    if a >= 0 {
        a / b
    } else {
        -((-a) / b)
    }
}

/// The absolute coordinate (0 ..= 65535 across the screen) of pixel
/// coordinate `v` on a screen `extent` pixels across; an extent below 1 counts
/// as 1.
pub open spec fn absolute(v: int, extent: int) -> int {
    div_toward_zero(v * 65535, if extent < 1 { 1 } else { extent })
}

/// Converts pixel coordinates on a `w`×`h` screen to the 0 ..= 65535 scale
/// of absolute mouse input.
pub fn to_absolute(x: i32, y: i32, w: i32, h: i32) -> (res: (i32, i32))
    requires
        i32::MIN <= x * 65535 <= i32::MAX,
        i32::MIN <= y * 65535 <= i32::MAX,
    ensures
        res.0 == absolute(x as int, w as int),
        res.1 == absolute(y as int, h as int),
{
    let wd: i32 = if w < 1 { 1 } else { w };
    let hd: i32 = if h < 1 { 1 } else { h };
    let xs = x * 65535;
    let ys = y * 65535;
    (xs / wd, ys / hd)
}

} // verus!

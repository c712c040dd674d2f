//! Model of the compute kernel that the filter pipeline dispatches over a
//! frame.
//!
//! A frame is a packed 4-byte-per-pixel (RGBx-style) byte sequence of a
//! negotiated width and height. The kernel is a 3x3 convolution applied to
//! every pixel and channel, with coordinates clamped at the frame border;
//! each output byte is the absolute value of the convolution sum, truncated
//! to a byte. Two distinguished kernels matter to the pipeline's laws: the
//! copy kernel (identity) and the edge kernel (horizontal differences).

use vstd::arithmetic::div_mod::lemma_fundamental_div_mod_converse;
use vstd::prelude::*;

verus! {

/// Index of one channel byte inside a packed frame.
pub open spec fn byte_index(w: int, x: int, y: int, c: int) -> int {
    (y * w + x) * 4 + c
}

/// One channel of one pixel of a packed frame.
pub open spec fn px(data: Seq<u8>, w: int, x: int, y: int, c: int) -> u8 {
    data[byte_index(w, x, y, c)]
}

/// A coordinate clamped into `[0, n)`.
pub open spec fn clamp_coord(i: int, n: int) -> int {
    if i < 0 {
        0
    } else if i >= n {
        n - 1
    } else {
        i
    }
}

/// The absolute value of the convolution sum, truncated to one byte.
pub open spec fn abs_byte(v: int) -> u8 {
    (if v < 0 {
        -v
    } else {
        v
    } % 256) as u8
}

/// One term of the convolution at pixel `(x, y)`, channel `c`: coefficient
/// `(i, j)` of the kernel times the clamped neighbor pixel.
pub open spec fn conv_term(
    k: Seq<i32>,
    data: Seq<u8>,
    w: int,
    h: int,
    x: int,
    y: int,
    c: int,
    i: int,
    j: int,
) -> int {
    (k[3 * j + i] as int) * (px(
        data,
        w,
        clamp_coord(x + i - 1, w),
        clamp_coord(y + j - 1, h),
        c,
    ) as int)
}

/// The full 3x3 convolution sum at pixel `(x, y)`, channel `c`.
pub open spec fn conv(
    k: Seq<i32>,
    data: Seq<u8>,
    w: int,
    h: int,
    x: int,
    y: int,
    c: int,
) -> int {
    conv_term(k, data, w, h, x, y, c, 0, 0) + conv_term(k, data, w, h, x, y, c, 1, 0)
        + conv_term(k, data, w, h, x, y, c, 2, 0) + conv_term(k, data, w, h, x, y, c, 0, 1)
        + conv_term(k, data, w, h, x, y, c, 1, 1) + conv_term(k, data, w, h, x, y, c, 2, 1)
        + conv_term(k, data, w, h, x, y, c, 0, 2) + conv_term(k, data, w, h, x, y, c, 1, 2)
        + conv_term(k, data, w, h, x, y, c, 2, 2)
}

/// The frame produced by dispatching kernel `k` over the whole input frame.
pub open spec fn filtered(k: Seq<i32>, data: Seq<u8>, w: int, h: int) -> Seq<u8> {
    Seq::new(
        (w * h * 4) as nat,
        |n: int| abs_byte(conv(k, data, w, h, (n / 4) % w, (n / 4) / w, n % 4)),
    )
}

/// The kernel whose effect is "copy": only the center coefficient is set.
pub open spec fn is_copy_kernel(k: Seq<i32>) -> bool {
    &&& k.len() == 9
    &&& k[4] == 1
    &&& forall|i: int| 0 <= i < 9 && i != 4 ==> k[i] == 0
}

/// The edge-filter kernel: each row is `-1, 0, 1`.
pub open spec fn is_edge_kernel(k: Seq<i32>) -> bool {
    &&& k.len() == 9
    &&& k[0] == -1 && k[1] == 0 && k[2] == 1
    &&& k[3] == -1 && k[4] == 0 && k[5] == 1
    &&& k[6] == -1 && k[7] == 0 && k[8] == 1
}

/// Every pixel of the frame is equal (each channel agrees with the same
/// channel of pixel `(0, 0)`).
pub open spec fn is_uniform(data: Seq<u8>, w: int, h: int) -> bool {
    forall|x: int, y: int, c: int|
        0 <= x < w && 0 <= y < h && 0 <= c < 4 ==> #[trigger] px(data, w, x, y, c) == px(
            data,
            w,
            0,
            0,
            c,
        )
}

/// A 3x3 convolution kernel with small integer coefficients, stored row by
/// row.
pub struct Kernel3 {
    pub coeffs: Vec<i32>,
}

impl Kernel3 {
    /// The kernel is well-formed: nine coefficients, each small enough that
    /// a convolution sum over byte-valued pixels cannot overflow.
    pub open spec fn wf(&self) -> bool {
        &&& self.coeffs.len() == 9
        &&& forall|i: int| 0 <= i < 9 ==> -16 <= #[trigger] self.coeffs[i] <= 16
    }

    /// Builds the kernel whose effect is "copy".
    pub fn copy_kernel() -> (k: Kernel3)
        ensures
            k.wf(),
            is_copy_kernel(k.coeffs@),
    {
        let mut v: Vec<i32> = Vec::new();
        v.push(0);
        v.push(0);
        v.push(0);
        v.push(0);
        v.push(1);
        v.push(0);
        v.push(0);
        v.push(0);
        v.push(0);
        Kernel3 { coeffs: v }
    }

    /// Builds the edge-filter kernel (horizontal differences).
    pub fn edge_kernel() -> (k: Kernel3)
        ensures
            k.wf(),
            is_edge_kernel(k.coeffs@),
    {
        let mut v: Vec<i32> = Vec::new();
        v.push(-1);
        v.push(0);
        v.push(1);
        v.push(-1);
        v.push(0);
        v.push(1);
        v.push(-1);
        v.push(0);
        v.push(1);
        Kernel3 { coeffs: v }
    }
}

/// Clamps `base + delta - 1` into `[0, n)`, where `delta` ranges over the
/// kernel window `{0, 1, 2}`.
fn clamped(base: usize, delta: usize, n: usize) -> (r: usize)
    requires
        n >= 1,
        delta <= 2,
        base < n,
    ensures
        r == clamp_coord(base + delta - 1, n as int),
        r < n,
{
    if delta == 0 {
        if base == 0 {
            0
        } else {
            base - 1
        }
    } else {
        let t = base + (delta - 1);
        if t >= n {
            n - 1
        } else {
            t
        }
    }
}

/// Reads one channel byte of one pixel.
fn load_px(data: &Vec<u8>, w: usize, h: usize, x: usize, y: usize, c: usize) -> (r: u8)
    requires
        data.len() == w * h * 4,
        x < w,
        y < h,
        c < 4,
    ensures
        r == px(data@, w as int, x as int, y as int, c as int),
{
    proof {
        assert((y * w + x) * 4 + c < w * h * 4) by (nonlinear_arith)
            requires
                x < w,
                y < h,
                c < 4,
        ;
    }
    data[(y * w + x) * 4 + c]
}

/// One kernel coefficient times one pixel byte, with its bound.
fn tap_value(co: i32, p: u8) -> (r: i32)
    requires
        -16 <= co <= 16,
    ensures
        r as int == (co as int) * (p as int),
        -4080 <= r <= 4080,
{
    proof {
        assert(-4080 <= (co as int) * (p as int) <= 4080) by (nonlinear_arith)
            requires
                -16 <= co <= 16,
                0 <= p <= 255,
        ;
    }
    co * (p as i32)
}

/// Computes the convolution sum at pixel `(x, y)`, channel `c`.
fn conv_at(k: &Kernel3, data: &Vec<u8>, w: usize, h: usize, x: usize, y: usize, c: usize) -> (r:
    i32)
    requires
        k.wf(),
        data.len() == w * h * 4,
        w >= 1,
        h >= 1,
        x < w,
        y < h,
        c < 4,
    ensures
        r as int == conv(k.coeffs@, data@, w as int, h as int, x as int, y as int, c as int),
        -36720 <= r <= 36720,
{
    let t00 = tap_value(k.coeffs[0], load_px(data, w, h, clamped(x, 0, w), clamped(y, 0, h), c));
    let t10 = tap_value(k.coeffs[1], load_px(data, w, h, clamped(x, 1, w), clamped(y, 0, h), c));
    let t20 = tap_value(k.coeffs[2], load_px(data, w, h, clamped(x, 2, w), clamped(y, 0, h), c));
    let t01 = tap_value(k.coeffs[3], load_px(data, w, h, clamped(x, 0, w), clamped(y, 1, h), c));
    let t11 = tap_value(k.coeffs[4], load_px(data, w, h, clamped(x, 1, w), clamped(y, 1, h), c));
    let t21 = tap_value(k.coeffs[5], load_px(data, w, h, clamped(x, 2, w), clamped(y, 1, h), c));
    let t02 = tap_value(k.coeffs[6], load_px(data, w, h, clamped(x, 0, w), clamped(y, 2, h), c));
    let t12 = tap_value(k.coeffs[7], load_px(data, w, h, clamped(x, 1, w), clamped(y, 2, h), c));
    let t22 = tap_value(k.coeffs[8], load_px(data, w, h, clamped(x, 2, w), clamped(y, 2, h), c));
    t00 + t10 + t20 + t01 + t11 + t21 + t02 + t12 + t22
}

/// Truncates the absolute value of a convolution sum to one byte.
fn abs_byte_of(v: i32) -> (r: u8)
    requires
        -36720 <= v <= 36720,
    ensures
        r == abs_byte(v as int),
{
    let a: i32 = if v < 0 {
        -v
    } else {
        v
    };
    (a % 256) as u8
}

/// Dispatches the kernel over the whole frame: every output byte is the
/// truncated absolute convolution sum at its pixel and channel.
pub fn apply_kernel(k: &Kernel3, data: &Vec<u8>, w: usize, h: usize) -> (r: Vec<u8>)
    requires
        k.wf(),
        w >= 1,
        h >= 1,
        data.len() == w * h * 4,
    ensures
        r@ == filtered(k.coeffs@, data@, w as int, h as int),
{
    let ghost target = filtered(k.coeffs@, data@, w as int, h as int);
    let mut out: Vec<u8> = Vec::new();
    let mut y: usize = 0;
    while y < h
        invariant
            k.wf(),
            w >= 1,
            h >= 1,
            data.len() == w * h * 4,
            y <= h,
            out.len() == y * w * 4,
            target == filtered(k.coeffs@, data@, w as int, h as int),
            forall|n: int| 0 <= n < out.len() ==> out@[n] == target[n],
        decreases h - y,
    {
        let mut x: usize = 0;
        while x < w
            invariant
                k.wf(),
                w >= 1,
                h >= 1,
                data.len() == w * h * 4,
                y < h,
                x <= w,
                out.len() == y * w * 4 + x * 4,
                target == filtered(k.coeffs@, data@, w as int, h as int),
                forall|n: int| 0 <= n < out.len() ==> out@[n] == target[n],
            decreases w - x,
        {
            let mut c: usize = 0;
            while c < 4
                invariant
                    k.wf(),
                    w >= 1,
                    h >= 1,
                    data.len() == w * h * 4,
                    y < h,
                    x < w,
                    c <= 4,
                    out.len() == y * w * 4 + x * 4 + c,
                    target == filtered(k.coeffs@, data@, w as int, h as int),
                    forall|n: int| 0 <= n < out.len() ==> out@[n] == target[n],
                decreases 4 - c,
            {
                proof {
                    assert(y * w * 4 + x * 4 + c < w * h * 4) by (nonlinear_arith)
                        requires
                            x < w,
                            y < h,
                            c < 4,
                    ;
                }
                let v = conv_at(k, data, w, h, x, y, c);
                let b = abs_byte_of(v);
                proof {
                    let n: int = (y as int) * (w as int) * 4 + (x as int) * 4 + (c as int);
                    let m: int = (y as int) * (w as int) + (x as int);
                    assert(n == m * 4 + c) by (nonlinear_arith)
                        requires
                            n == (y as int) * (w as int) * 4 + (x as int) * 4 + (c as int),
                            m == (y as int) * (w as int) + (x as int),
                    ;
                    lemma_fundamental_div_mod_converse(n, 4, m, c as int);
                    lemma_fundamental_div_mod_converse(m, w as int, y as int, x as int);
                    assert(target[n as int] == abs_byte(
                        conv(k.coeffs@, data@, w as int, h as int, x as int, y as int, c as int),
                    ));
                }
                out.push(b);
                c = c + 1;
            }
            x = x + 1;
        }
        proof {
            assert(y * w * 4 + w * 4 == (y + 1) * w * 4) by (nonlinear_arith);
        }
        y = y + 1;
    }
    proof {
        assert((h as int) * (w as int) * 4 == (w as int) * (h as int) * 4) by (nonlinear_arith);
        assert(out@ =~= target);
    }
    out
}

/// Law: dispatching the copy kernel leaves every frame unchanged; in
/// particular a uniform input frame produces an identical output frame.
pub proof fn lemma_copy_kernel_identity(k: Seq<i32>, data: Seq<u8>, w: int, h: int)
    requires
        is_copy_kernel(k),
        w >= 1,
        h >= 1,
        data.len() == w * h * 4,
    ensures
        filtered(k, data, w, h) == data,
{
    let out = filtered(k, data, w, h);
    assert forall|n: int| 0 <= n < w * h * 4 implies out[n] == data[n] by {
        let m = n / 4;
        let c = n % 4;
        let x = m % w;
        let y = m / w;
        vstd::arithmetic::div_mod::lemma_fundamental_div_mod(n, 4);
        vstd::arithmetic::div_mod::lemma_fundamental_div_mod(m, w);
        assert(0 <= c < 4) by (nonlinear_arith)
            requires
                c == n % 4,
        ;
        assert(0 <= x < w) by (nonlinear_arith)
            requires
                w >= 1,
                x == m % w,
        ;
        assert(0 <= m < w * h) by (nonlinear_arith)
            requires
                0 <= n < w * h * 4,
                m == n / 4,
        ;
        assert(0 <= y < h) by (nonlinear_arith)
            requires
                w >= 1,
                0 <= m < w * h,
                y == m / w,
        ;
        // The convolution with the copy kernel reduces to its center term.
        let s = conv(k, data, w, h, x, y, c);
        assert(clamp_coord(x + 1 - 1, w) == x);
        assert(clamp_coord(y + 1 - 1, h) == y);
        assert(conv_term(k, data, w, h, x, y, c, 1, 1) == px(data, w, x, y, c) as int);
        assert(s == px(data, w, x, y, c) as int);
        assert(byte_index(w, x, y, c) == n) by (nonlinear_arith)
            requires
                n == 4 * m + c,
                m == w * y + x,
        ;
        assert(out[n] == abs_byte(s));
        assert(abs_byte(px(data, w, x, y, c) as int) == px(data, w, x, y, c));
    }
    assert(out =~= data);
}

/// Law: dispatching the edge kernel over a uniform frame (every pixel
/// equal) produces an all-zero output frame: no edges.
pub proof fn lemma_edge_kernel_uniform_zero(k: Seq<i32>, data: Seq<u8>, w: int, h: int)
    requires
        is_edge_kernel(k),
        is_uniform(data, w, h),
        w >= 1,
        h >= 1,
        data.len() == w * h * 4,
    ensures
        forall|n: int| 0 <= n < w * h * 4 ==> filtered(k, data, w, h)[n] == 0,
{
    let out = filtered(k, data, w, h);
    assert forall|n: int| 0 <= n < w * h * 4 implies out[n] == 0 by {
        let m = n / 4;
        let c = n % 4;
        let x = m % w;
        let y = m / w;
        vstd::arithmetic::div_mod::lemma_fundamental_div_mod(n, 4);
        vstd::arithmetic::div_mod::lemma_fundamental_div_mod(m, w);
        assert(0 <= c < 4) by (nonlinear_arith)
            requires
                c == n % 4,
        ;
        assert(0 <= x < w) by (nonlinear_arith)
            requires
                w >= 1,
                x == m % w,
        ;
        assert(0 <= m < w * h) by (nonlinear_arith)
            requires
                0 <= n < w * h * 4,
                m == n / 4,
        ;
        assert(0 <= y < h) by (nonlinear_arith)
            requires
                w >= 1,
                0 <= m < w * h,
                y == m / w,
        ;
        // Every clamped neighbor of a uniform frame has the same value, so
        // each kernel row contributes -v + 0 + v == 0.
        let v = px(data, w, 0, 0, c) as int;
        let xl = clamp_coord(x - 1, w);
        let xr = clamp_coord(x + 1, w);
        let yu = clamp_coord(y - 1, h);
        let yd = clamp_coord(y + 1, h);
        assert(clamp_coord(x + 0 - 1, w) == xl && clamp_coord(x + 1 - 1, w) == x && clamp_coord(
            x + 2 - 1,
            w,
        ) == xr);
        assert(clamp_coord(y + 0 - 1, h) == yu && clamp_coord(y + 1 - 1, h) == y && clamp_coord(
            y + 2 - 1,
            h,
        ) == yd);
        assert(0 <= xl < w && 0 <= xr < w && 0 <= yu < h && 0 <= yd < h);
        assert(px(data, w, xl, yu, c) as int == v);
        assert(px(data, w, x, yu, c) as int == v);
        assert(px(data, w, xr, yu, c) as int == v);
        assert(px(data, w, xl, y, c) as int == v);
        assert(px(data, w, x, y, c) as int == v);
        assert(px(data, w, xr, y, c) as int == v);
        assert(px(data, w, xl, yd, c) as int == v);
        assert(px(data, w, x, yd, c) as int == v);
        assert(px(data, w, xr, yd, c) as int == v);
        assert(conv_term(k, data, w, h, x, y, c, 0, 0) == -1 * v);
        assert(conv_term(k, data, w, h, x, y, c, 1, 0) == 0 * v);
        assert(conv_term(k, data, w, h, x, y, c, 2, 0) == 1 * v);
        assert(conv_term(k, data, w, h, x, y, c, 0, 1) == -1 * v);
        assert(conv_term(k, data, w, h, x, y, c, 1, 1) == 0 * v);
        assert(conv_term(k, data, w, h, x, y, c, 2, 1) == 1 * v);
        assert(conv_term(k, data, w, h, x, y, c, 0, 2) == -1 * v);
        assert(conv_term(k, data, w, h, x, y, c, 1, 2) == 0 * v);
        assert(conv_term(k, data, w, h, x, y, c, 2, 2) == 1 * v);
        assert(conv(k, data, w, h, x, y, c) == 0);
        assert(out[n] == abs_byte(0));
    }
}

} // verus!

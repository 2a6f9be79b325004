use vstd::prelude::*;
use crate::color::packed_rgb;
use vstd::arithmetic::div_mod::{lemma_div_is_ordered, lemma_fundamental_div_mod_converse};
use vstd::arithmetic::mul::lemma_mul_inequality;

verus! {

/// Largest emission value the blur accepts per pixel; keeps every
/// kernel-weighted accumulation inside a 64-bit word.
pub const BLOOM_VALUE_LIMIT: u32 = 0x100_0000;

/// Largest kernel weight total the blur accepts, for the same reason.
pub const KERNEL_SUM_LIMIT: u64 = 0x100_0000;

/// How much of the blurred emission is added onto each color channel:
/// four fifths, the bloom strength.
pub const BLOOM_STRENGTH_NUM: u64 = 4;

pub const BLOOM_STRENGTH_DEN: u64 = 5;

/// Sum of the first `n` kernel weights.
pub open spec fn kernel_prefix_sum(kernel: Seq<u32>, n: int) -> int
    decreases n,
{
    if n <= 0 {
        0
    } else {
        kernel_prefix_sum(kernel, n - 1) + kernel[n - 1]
    }
}

/// Sum of all kernel weights: the normalizer of the blur.
pub open spec fn kernel_total(kernel: Seq<u32>) -> int {
    kernel_prefix_sum(kernel, kernel.len() as int)
}

/// Division with rounding to nearest (ties away from the halfway point
/// rounded up), for non-negative operands.
pub open spec fn round_div(a: int, s: int) -> int {
    (a + s / 2) / s
}

/// Prefix sums of non-negative weights never decrease.
pub proof fn lemma_kernel_prefix_sum_mono(kernel: Seq<u32>, i: int, j: int)
    requires
        0 <= i <= j <= kernel.len(),
    ensures
        kernel_prefix_sum(kernel, i) <= kernel_prefix_sum(kernel, j),
        0 <= kernel_prefix_sum(kernel, i),
    decreases j,
{
    if j > 0 {
        if i <= j - 1 {
            lemma_kernel_prefix_sum_mono(kernel, i, j - 1);
        } else {
            lemma_kernel_prefix_sum_mono(kernel, i - 1, j - 1);
        }
    }
}

/// One channel after the bloom blend: the blurred emission, scaled by the
/// bloom strength, is added and the channel saturates at 255.
pub open spec fn bloom_channel(ch: int, intensity: int) -> int {
    let lifted = ch + (intensity * BLOOM_STRENGTH_NUM) / (BLOOM_STRENGTH_DEN as int);
    if lifted > 255 {
        255
    } else {
        lifted
    }
}

/// A packed color after the bloom blend of `intensity` onto it.
pub open spec fn blend_bloom_spec(base: u32, intensity: u32) -> int {
    packed_rgb(
        bloom_channel(((base / 0x10000) % 0x100) as int, intensity as int),
        bloom_channel(((base / 0x100) % 0x100) as int, intensity as int),
        bloom_channel((base % 0x100) as int, intensity as int),
    )
}

/// Additively blend a blurred emission value into one packed color,
/// channel-wise, saturating at 255. Bits above the low 24 are dropped.
pub fn blend_bloom(base_color: u32, bloom_intensity: u32) -> (blended: u32)
    ensures
        blended == blend_bloom_spec(base_color, bloom_intensity),
        blended < 0x1000000,
{
    let r: u64 = ((base_color / 0x10000) % 0x100) as u64;
    let g: u64 = ((base_color / 0x100) % 0x100) as u64;
    let b: u64 = (base_color % 0x100) as u64;
    let lift: u64 = (bloom_intensity as u64) * BLOOM_STRENGTH_NUM / BLOOM_STRENGTH_DEN;
    let new_r: u64 = if r + lift > 255 { 255 } else { r + lift };
    let new_g: u64 = if g + lift > 255 { 255 } else { g + lift };
    let new_b: u64 = if b + lift > 255 { 255 } else { b + lift };
    (new_r * 0x10000 + new_g * 0x100 + new_b) as u32
}

/// Bloom blending is monotonic in the emission: for a fixed channel value,
/// more emission never darkens the channel, and the channel never leaves
/// [0, 255].
pub proof fn lemma_bloom_blend_monotonic(ch: int, i1: int, i2: int)
    requires
        0 <= ch <= 255,
        0 <= i1 <= i2,
    ensures
        bloom_channel(ch, i1) <= bloom_channel(ch, i2),
        0 <= bloom_channel(ch, i1) <= 255,
        0 <= bloom_channel(ch, i2) <= 255,
{
    lemma_mul_inequality(i1, i2, BLOOM_STRENGTH_NUM as int);
    lemma_div_is_ordered(i1 * BLOOM_STRENGTH_NUM, i2 * BLOOM_STRENGTH_NUM, BLOOM_STRENGTH_DEN as int);
    crate::fx::lemma_div_pos(i1 * BLOOM_STRENGTH_NUM, BLOOM_STRENGTH_DEN as int);
}

/// Whether the throttled reduced-kernel bloom is due this frame: at
/// least `interval` frames have passed since the last recompute. The
/// interval exists to amortize the O(kernel x pixels) blur cost.
pub fn bloom_due(time: u32, last_update: u32, interval: u32) -> (due: bool)
    requires
        last_update <= time,
    ensures
        due == (time - last_update >= interval),
{
    time - last_update >= interval
}

/// Blend a blurred emissive buffer into a parallel color buffer: every
/// pixel with any blurred emission is lifted by `blend_bloom`, the rest
/// stay untouched.
pub fn apply_bloom(original: &mut Vec<u32>, bloom: &Vec<u32>, width: usize, height: usize)
    requires
        old(original)@.len() == bloom@.len(),
    ensures
        final(original)@.len() == old(original)@.len(),
        forall|i: int|
            0 <= i < final(original)@.len() ==> final(original)@[i] == (if bloom@[i] > 0u32 {
                blend_bloom_spec(old(original)@[i], bloom@[i]) as u32
            } else {
                old(original)@[i]
            }),
{
    let n = original.len();
    let mut i: usize = 0;
    while i < n
        invariant
            i <= n,
            original@.len() == n,
            bloom@.len() == n,
            forall|j: int|
                i <= j < n ==> original@[j] == old(original)@[j],
            forall|j: int|
                0 <= j < i ==> original@[j] == (if bloom@[j] > 0u32 {
                    blend_bloom_spec(old(original)@[j], bloom@[j]) as u32
                } else {
                    old(original)@[j]
                }),
        decreases n - i,
    {
        let original_color = original[i];
        let bloom_intensity = bloom[i];
        if bloom_intensity > 0 {
            let blended = blend_bloom(original_color, bloom_intensity);
            original.set(i, blended);
        }
        i = i + 1;
    }
}

/// Index of the kernel tap that lands on the sampled pixel itself.
pub open spec fn kernel_half(kernel: Seq<u32>) -> int {
    kernel.len() as int / 2
}

/// A flat row-major index for an in-bounds pixel is inside the buffer.
pub proof fn lemma_flat_index_in_range(width: int, height: int, x: int, y: int)
    requires
        0 <= x < width,
        0 <= y < height,
    ensures
        0 <= y * width + x < width * height,
{
    assert(0 <= y * width + x < width * height) by (nonlinear_arith)
        requires
            0 <= x < width,
            0 <= y < height,
    ;
}

/// The `k`-th addend of the horizontal convolution at `(x, y)`: the pixel
/// `kernel_half` taps to the left of `x` plus `k`, weighted; out-of-range
/// samples contribute nothing.
pub open spec fn row_tap(buf: Seq<u32>, width: int, y: int, x: int, kernel: Seq<u32>, k: int) -> int {
    let sx = x + k - kernel_half(kernel);
    if 0 <= sx < width {
        buf[y * width + sx] * kernel[k]
    } else {
        0
    }
}

/// Sum of the first `n` addends of the horizontal convolution at `(x, y)`.
pub open spec fn row_acc(buf: Seq<u32>, width: int, y: int, x: int, kernel: Seq<u32>, n: int) -> int
    decreases n,
{
    if n <= 0 {
        0
    } else {
        row_acc(buf, width, y, x, kernel, n - 1) + row_tap(buf, width, y, x, kernel, n - 1)
    }
}

/// The horizontally blurred value at `(x, y)`: the full weighted sum,
/// normalized by the kernel total with rounding.
pub open spec fn row_out(buf: Seq<u32>, width: int, y: int, x: int, kernel: Seq<u32>) -> int {
    round_div(row_acc(buf, width, y, x, kernel, kernel.len() as int), kernel_total(kernel))
}

/// One whole horizontal blur pass, row-major.
pub open spec fn row_pass(buf: Seq<u32>, width: int, height: int, kernel: Seq<u32>) -> Seq<u32> {
    Seq::new(buf.len(), |i: int| row_out(buf, width, i / width, i % width, kernel) as u32)
}

/// The `k`-th addend of the vertical convolution at `(x, y)`.
pub open spec fn col_tap(
    buf: Seq<u32>,
    width: int,
    height: int,
    y: int,
    x: int,
    kernel: Seq<u32>,
    k: int,
) -> int {
    let sy = y + k - kernel_half(kernel);
    if 0 <= sy < height {
        buf[sy * width + x] * kernel[k]
    } else {
        0
    }
}

/// Sum of the first `n` addends of the vertical convolution at `(x, y)`.
pub open spec fn col_acc(
    buf: Seq<u32>,
    width: int,
    height: int,
    y: int,
    x: int,
    kernel: Seq<u32>,
    n: int,
) -> int
    decreases n,
{
    if n <= 0 {
        0
    } else {
        col_acc(buf, width, height, y, x, kernel, n - 1) + col_tap(buf, width, height, y, x, kernel, n - 1)
    }
}

/// The vertically blurred value at `(x, y)`.
pub open spec fn col_out(buf: Seq<u32>, width: int, height: int, y: int, x: int, kernel: Seq<u32>) -> int {
    round_div(col_acc(buf, width, height, y, x, kernel, kernel.len() as int), kernel_total(kernel))
}

/// One whole vertical blur pass, row-major.
pub open spec fn col_pass(buf: Seq<u32>, width: int, height: int, kernel: Seq<u32>) -> Seq<u32> {
    Seq::new(buf.len(), |i: int| col_out(buf, width, height, i / width, i % width, kernel) as u32)
}

/// The two-pass separable blur: rows first, then columns.
pub open spec fn blur_spec(buf: Seq<u32>, width: int, height: int, kernel: Seq<u32>) -> Seq<u32> {
    col_pass(row_pass(buf, width, height, kernel), width, height, kernel)
}

/// Sum all kernel weights.
fn kernel_sum(kernel: &Vec<u32>) -> (s: u64)
    requires
        kernel_total(kernel@) <= KERNEL_SUM_LIMIT,
    ensures
        s == kernel_total(kernel@),
{
    let n = kernel.len();
    let mut s: u64 = 0;
    let mut k: usize = 0;
    while k < n
        invariant
            k <= n,
            n == kernel@.len(),
            kernel_total(kernel@) <= KERNEL_SUM_LIMIT,
            s == kernel_prefix_sum(kernel@, k as int),
        decreases n - k,
    {
        proof {
            lemma_kernel_prefix_sum_mono(kernel@, k + 1, n as int);
        }
        s = s + kernel[k] as u64;
        k = k + 1;
    }
    s
}

/// A partial weighted sum of values bounded by `limit` is bounded by
/// `limit` times the partial weight sum.
proof fn lemma_row_acc_bound(buf: Seq<u32>, width: int, height: int, y: int, x: int, kernel: Seq<u32>, n: int)
    requires
        buf.len() == width * height,
        0 <= y < height,
        0 <= n <= kernel.len(),
        forall|i: int| 0 <= i < buf.len() ==> buf[i] <= BLOOM_VALUE_LIMIT,
    ensures
        0 <= row_acc(buf, width, y, x, kernel, n) <= BLOOM_VALUE_LIMIT * kernel_prefix_sum(kernel, n),
    decreases n,
{
    if n > 0 {
        lemma_row_acc_bound(buf, width, height, y, x, kernel, n - 1);
        let sx = x + (n - 1) - kernel_half(kernel);
        if 0 <= sx < width {
            lemma_flat_index_in_range(width, height, sx, y);
            assert(buf[y * width + sx] * kernel[n - 1] <= BLOOM_VALUE_LIMIT * kernel[n - 1])
                by (nonlinear_arith)
                requires
                    0 <= buf[y * width + sx] <= BLOOM_VALUE_LIMIT,
                    0 <= kernel[n - 1],
            ;
            assert(row_tap(buf, width, y, x, kernel, n - 1) >= 0) by (nonlinear_arith)
                requires
                    row_tap(buf, width, y, x, kernel, n - 1) == buf[y * width + sx] * kernel[n - 1],
                    0 <= buf[y * width + sx],
                    0 <= kernel[n - 1],
            ;
        }
        assert(BLOOM_VALUE_LIMIT * kernel_prefix_sum(kernel, n - 1) + BLOOM_VALUE_LIMIT * kernel[
            n - 1
        ] == BLOOM_VALUE_LIMIT * kernel_prefix_sum(kernel, n)) by (nonlinear_arith)
            requires
                kernel_prefix_sum(kernel, n) == kernel_prefix_sum(kernel, n - 1) + kernel[n - 1],
        ;
    }
}

/// Same bound for the vertical pass.
proof fn lemma_col_acc_bound(buf: Seq<u32>, width: int, height: int, y: int, x: int, kernel: Seq<u32>, n: int)
    requires
        buf.len() == width * height,
        0 <= x < width,
        0 <= n <= kernel.len(),
        forall|i: int| 0 <= i < buf.len() ==> buf[i] <= BLOOM_VALUE_LIMIT,
    ensures
        0 <= col_acc(buf, width, height, y, x, kernel, n) <= BLOOM_VALUE_LIMIT * kernel_prefix_sum(kernel, n),
    decreases n,
{
    if n > 0 {
        lemma_col_acc_bound(buf, width, height, y, x, kernel, n - 1);
        let sy = y + (n - 1) - kernel_half(kernel);
        if 0 <= sy < height {
            lemma_flat_index_in_range(width, height, x, sy);
            assert(buf[sy * width + x] * kernel[n - 1] <= BLOOM_VALUE_LIMIT * kernel[n - 1])
                by (nonlinear_arith)
                requires
                    0 <= buf[sy * width + x] <= BLOOM_VALUE_LIMIT,
                    0 <= kernel[n - 1],
            ;
            assert(col_tap(buf, width, height, y, x, kernel, n - 1) >= 0) by (nonlinear_arith)
                requires
                    col_tap(buf, width, height, y, x, kernel, n - 1) == buf[sy * width + x] * kernel[n - 1],
                    0 <= buf[sy * width + x],
                    0 <= kernel[n - 1],
            ;
        }
        assert(BLOOM_VALUE_LIMIT * kernel_prefix_sum(kernel, n - 1) + BLOOM_VALUE_LIMIT * kernel[
            n - 1
        ] == BLOOM_VALUE_LIMIT * kernel_prefix_sum(kernel, n)) by (nonlinear_arith)
            requires
                kernel_prefix_sum(kernel, n) == kernel_prefix_sum(kernel, n - 1) + kernel[n - 1],
        ;
    }
}

/// A weighted sum bounded by `limit` times the kernel total normalizes,
/// with rounding, to at most `limit`.
proof fn lemma_round_div_bound(acc: int, total: int, limit: int)
    requires
        0 <= acc <= limit * total,
        1 <= total,
        0 <= limit,
    ensures
        0 <= round_div(acc, total) <= limit,
{
    lemma_fundamental_div_mod_converse(limit * total + total / 2, total, limit, total / 2);
    lemma_div_is_ordered(acc + total / 2, limit * total + total / 2, total);
    crate::fx::lemma_div_pos(acc + total / 2, total);
}

/// One horizontal blur pass over a row-major buffer.
fn blur_rows(buf: &Vec<u32>, width: usize, height: usize, kernel: &Vec<u32>) -> (out: Vec<u32>)
    requires
        buf@.len() == width * height,
        width <= 0x4000_0000,
        height <= 0x4000_0000,
        1 <= kernel@.len() <= 0x10000,
        1 <= kernel_total(kernel@) <= KERNEL_SUM_LIMIT,
        forall|i: int| 0 <= i < buf@.len() ==> buf@[i] <= BLOOM_VALUE_LIMIT,
    ensures
        out@ =~= row_pass(buf@, width as int, height as int, kernel@),
        out@.len() == buf@.len(),
        forall|i: int| 0 <= i < out@.len() ==> out@[i] <= BLOOM_VALUE_LIMIT,
{
    let n = buf.len();
    let klen = kernel.len();
    let half: usize = klen / 2;
    let ksum: u64 = kernel_sum(kernel);
    let ghost gpass = row_pass(buf@, width as int, height as int, kernel@);
    let mut out: Vec<u32> = Vec::new();
    let mut y: usize = 0;
    while y < height
        invariant
            y <= height,
            out@.len() == y * width,
            n == buf@.len(),
            n == width * height,
            width <= 0x4000_0000,
            height <= 0x4000_0000,
            klen == kernel@.len(),
            1 <= klen <= 0x10000,
            half == klen / 2,
            ksum == kernel_total(kernel@),
            1 <= ksum <= KERNEL_SUM_LIMIT,
            forall|i: int| 0 <= i < n ==> buf@[i] <= BLOOM_VALUE_LIMIT,
            gpass == row_pass(buf@, width as int, height as int, kernel@),
            forall|j: int| 0 <= j < out@.len() ==> out@[j] == gpass[j],
            forall|j: int| 0 <= j < out@.len() ==> out@[j] <= BLOOM_VALUE_LIMIT,
        decreases height - y,
    {
        proof {
            lemma_mul_inequality(y as int + 1, height as int, width as int);
            assert((y + 1) * width == y * width + width) by (nonlinear_arith);
            assert(height * width == width * height) by (nonlinear_arith);
        }
        let mut x: usize = 0;
        while x < width
            invariant
                x <= width,
                y < height,
                out@.len() == y * width + x,
                y * width + width <= n,
                n == buf@.len(),
                n == width * height,
                width <= 0x4000_0000,
                height <= 0x4000_0000,
                klen == kernel@.len(),
                1 <= klen <= 0x10000,
                half == klen / 2,
                ksum == kernel_total(kernel@),
                1 <= ksum <= KERNEL_SUM_LIMIT,
                forall|i: int| 0 <= i < n ==> buf@[i] <= BLOOM_VALUE_LIMIT,
                gpass == row_pass(buf@, width as int, height as int, kernel@),
                forall|j: int| 0 <= j < out@.len() ==> out@[j] == gpass[j],
                forall|j: int| 0 <= j < out@.len() ==> out@[j] <= BLOOM_VALUE_LIMIT,
            decreases width - x,
        {
            let mut acc: u64 = 0;
            let mut k: usize = 0;
            while k < klen
                invariant
                    k <= klen,
                    x < width,
                    y < height,
                    y * width + width <= n,
                    n == buf@.len(),
                    n == width * height,
                width <= 0x4000_0000,
                height <= 0x4000_0000,
                    klen == kernel@.len(),
                    1 <= klen <= 0x10000,
                    half == klen / 2,
                    ksum == kernel_total(kernel@),
                    1 <= ksum <= KERNEL_SUM_LIMIT,
                    forall|i: int| 0 <= i < n ==> buf@[i] <= BLOOM_VALUE_LIMIT,
                    acc == row_acc(buf@, width as int, y as int, x as int, kernel@, k as int),
                    acc <= (BLOOM_VALUE_LIMIT as int) * kernel_prefix_sum(kernel@, k as int),
                decreases klen - k,
            {
                let sx: i64 = x as i64 + k as i64 - half as i64;
                if sx >= 0 && sx < width as i64 {
                    proof {
                        lemma_flat_index_in_range(width as int, height as int, sx as int, y as int);
                    }
                    let idx: usize = y * width + sx as usize;
                    proof {
                        assert((buf@[idx as int] as int) * (kernel@[k as int] as int) < 0x100_0000_0000_0000)
                            by (nonlinear_arith)
                            requires
                                buf@[idx as int] <= 0x100_0000,
                                kernel@[k as int] < 0x1_0000_0000,
                        ;
                    }
                    let term: u64 = (buf[idx] as u64) * (kernel[k] as u64);
                    proof {
                        assert(acc + term == row_acc(
                            buf@,
                            width as int,
                            y as int,
                            x as int,
                            kernel@,
                            k + 1,
                        ));
                        lemma_row_acc_bound(
                            buf@,
                            width as int,
                            height as int,
                            y as int,
                            x as int,
                            kernel@,
                            k + 1,
                        );
                        lemma_kernel_prefix_sum_mono(kernel@, k + 1, klen as int);
                        assert((BLOOM_VALUE_LIMIT as int) * kernel_prefix_sum(kernel@, k + 1) <= (
                        BLOOM_VALUE_LIMIT as int) * kernel_total(kernel@)) by (nonlinear_arith)
                            requires
                                kernel_prefix_sum(kernel@, k + 1) <= kernel_total(kernel@),
                        ;
                    }
                    acc = acc + term;
                } else {
                    proof {
                        assert(acc == row_acc(buf@, width as int, y as int, x as int, kernel@, k + 1));
                    }
                }
                k = k + 1;
                proof {
                    lemma_kernel_prefix_sum_mono(kernel@, k as int, klen as int);
                    lemma_row_acc_bound(
                        buf@,
                        width as int,
                        height as int,
                        y as int,
                        x as int,
                        kernel@,
                        k as int,
                    );
                }
            }
            proof {
                lemma_kernel_prefix_sum_mono(kernel@, klen as int, klen as int);
                assert((BLOOM_VALUE_LIMIT as int) * kernel_total(kernel@) <= 0x1000000000000)
                    by (nonlinear_arith)
                    requires
                        0 <= kernel_total(kernel@) <= KERNEL_SUM_LIMIT,
                ;
                lemma_round_div_bound(acc as int, ksum as int, BLOOM_VALUE_LIMIT as int);
            }
            let v: u32 = ((acc + ksum / 2) / ksum) as u32;
            proof {
                lemma_fundamental_div_mod_converse(
                    y * width + x,
                    width as int,
                    y as int,
                    x as int,
                );
                assert(gpass[y * width + x] == v);
            }
            out.push(v);
            x = x + 1;
        }
        proof {
            assert(y * width + width == (y + 1) * width) by (nonlinear_arith);
        }
        y = y + 1;
    }
    proof {
        assert(out@.len() == gpass.len()) by (nonlinear_arith)
            requires
                out@.len() == height * width,
                gpass.len() == width * height,
        ;
    }
    out
}

/// One vertical blur pass over a row-major buffer.
fn blur_cols(buf: &Vec<u32>, width: usize, height: usize, kernel: &Vec<u32>) -> (out: Vec<u32>)
    requires
        buf@.len() == width * height,
        width <= 0x4000_0000,
        height <= 0x4000_0000,
        1 <= kernel@.len() <= 0x10000,
        1 <= kernel_total(kernel@) <= KERNEL_SUM_LIMIT,
        forall|i: int| 0 <= i < buf@.len() ==> buf@[i] <= BLOOM_VALUE_LIMIT,
    ensures
        out@ =~= col_pass(buf@, width as int, height as int, kernel@),
        out@.len() == buf@.len(),
        forall|i: int| 0 <= i < out@.len() ==> out@[i] <= BLOOM_VALUE_LIMIT,
{
    let n = buf.len();
    let klen = kernel.len();
    let half: usize = klen / 2;
    let ksum: u64 = kernel_sum(kernel);
    let ghost gpass = col_pass(buf@, width as int, height as int, kernel@);
    let mut out: Vec<u32> = Vec::new();
    let mut y: usize = 0;
    while y < height
        invariant
            y <= height,
            out@.len() == y * width,
            n == buf@.len(),
            n == width * height,
            width <= 0x4000_0000,
            height <= 0x4000_0000,
            klen == kernel@.len(),
            1 <= klen <= 0x10000,
            half == klen / 2,
            ksum == kernel_total(kernel@),
            1 <= ksum <= KERNEL_SUM_LIMIT,
            forall|i: int| 0 <= i < n ==> buf@[i] <= BLOOM_VALUE_LIMIT,
            gpass == col_pass(buf@, width as int, height as int, kernel@),
            forall|j: int| 0 <= j < out@.len() ==> out@[j] == gpass[j],
            forall|j: int| 0 <= j < out@.len() ==> out@[j] <= BLOOM_VALUE_LIMIT,
        decreases height - y,
    {
        proof {
            lemma_mul_inequality(y as int + 1, height as int, width as int);
            assert((y + 1) * width == y * width + width) by (nonlinear_arith);
            assert(height * width == width * height) by (nonlinear_arith);
        }
        let mut x: usize = 0;
        while x < width
            invariant
                x <= width,
                y < height,
                out@.len() == y * width + x,
                y * width + width <= n,
                n == buf@.len(),
                n == width * height,
                width <= 0x4000_0000,
                height <= 0x4000_0000,
                klen == kernel@.len(),
                1 <= klen <= 0x10000,
                half == klen / 2,
                ksum == kernel_total(kernel@),
                1 <= ksum <= KERNEL_SUM_LIMIT,
                forall|i: int| 0 <= i < n ==> buf@[i] <= BLOOM_VALUE_LIMIT,
                gpass == col_pass(buf@, width as int, height as int, kernel@),
                forall|j: int| 0 <= j < out@.len() ==> out@[j] == gpass[j],
                forall|j: int| 0 <= j < out@.len() ==> out@[j] <= BLOOM_VALUE_LIMIT,
            decreases width - x,
        {
            let mut acc: u64 = 0;
            let mut k: usize = 0;
            while k < klen
                invariant
                    k <= klen,
                    x < width,
                    y < height,
                    n == buf@.len(),
                    n == width * height,
                width <= 0x4000_0000,
                height <= 0x4000_0000,
                    klen == kernel@.len(),
                    1 <= klen <= 0x10000,
                    half == klen / 2,
                    ksum == kernel_total(kernel@),
                    1 <= ksum <= KERNEL_SUM_LIMIT,
                    forall|i: int| 0 <= i < n ==> buf@[i] <= BLOOM_VALUE_LIMIT,
                    acc == col_acc(buf@, width as int, height as int, y as int, x as int, kernel@, k as int),
                    acc <= (BLOOM_VALUE_LIMIT as int) * kernel_prefix_sum(kernel@, k as int),
                decreases klen - k,
            {
                let sy: i64 = y as i64 + k as i64 - half as i64;
                if sy >= 0 && sy < height as i64 {
                    proof {
                        lemma_flat_index_in_range(width as int, height as int, x as int, sy as int);
                    }
                    let idx: usize = (sy as usize) * width + x;
                    proof {
                        assert((buf@[idx as int] as int) * (kernel@[k as int] as int) < 0x100_0000_0000_0000)
                            by (nonlinear_arith)
                            requires
                                buf@[idx as int] <= 0x100_0000,
                                kernel@[k as int] < 0x1_0000_0000,
                        ;
                    }
                    let term: u64 = (buf[idx] as u64) * (kernel[k] as u64);
                    proof {
                        assert(acc + term == col_acc(
                            buf@,
                            width as int,
                            height as int,
                            y as int,
                            x as int,
                            kernel@,
                            k + 1,
                        ));
                        lemma_col_acc_bound(
                            buf@,
                            width as int,
                            height as int,
                            y as int,
                            x as int,
                            kernel@,
                            k + 1,
                        );
                        lemma_kernel_prefix_sum_mono(kernel@, k + 1, klen as int);
                        assert((BLOOM_VALUE_LIMIT as int) * kernel_prefix_sum(kernel@, k + 1) <= (
                        BLOOM_VALUE_LIMIT as int) * kernel_total(kernel@)) by (nonlinear_arith)
                            requires
                                kernel_prefix_sum(kernel@, k + 1) <= kernel_total(kernel@),
                        ;
                    }
                    acc = acc + term;
                } else {
                    proof {
                        assert(acc == col_acc(
                            buf@,
                            width as int,
                            height as int,
                            y as int,
                            x as int,
                            kernel@,
                            k + 1,
                        ));
                    }
                }
                k = k + 1;
                proof {
                    lemma_kernel_prefix_sum_mono(kernel@, k as int, klen as int);
                    lemma_col_acc_bound(
                        buf@,
                        width as int,
                        height as int,
                        y as int,
                        x as int,
                        kernel@,
                        k as int,
                    );
                }
            }
            proof {
                lemma_round_div_bound(acc as int, ksum as int, BLOOM_VALUE_LIMIT as int);
            }
            let v: u32 = ((acc + ksum / 2) / ksum) as u32;
            proof {
                lemma_fundamental_div_mod_converse(
                    y * width + x,
                    width as int,
                    y as int,
                    x as int,
                );
                assert(gpass[y * width + x] == v);
            }
            out.push(v);
            x = x + 1;
        }
        proof {
            assert(y * width + width == (y + 1) * width) by (nonlinear_arith);
        }
        y = y + 1;
    }
    proof {
        assert(out@.len() == gpass.len()) by (nonlinear_arith)
            requires
                out@.len() == height * width,
                gpass.len() == width * height,
        ;
    }
    out
}

/// Two-pass separable blur of a row-major buffer, normalized by the sum of
/// the kernel weights: rows first, then columns, as `blur_spec` states.
pub fn gaussian_blur(buffer: &mut Vec<u32>, width: usize, height: usize, kernel: &Vec<u32>)
    requires
        old(buffer)@.len() == width * height,
        width <= 0x4000_0000,
        height <= 0x4000_0000,
        1 <= kernel@.len() <= 0x10000,
        1 <= kernel_total(kernel@) <= KERNEL_SUM_LIMIT,
        forall|i: int| 0 <= i < old(buffer)@.len() ==> old(buffer)@[i] <= BLOOM_VALUE_LIMIT,
    ensures
        final(buffer)@ =~= blur_spec(old(buffer)@, width as int, height as int, kernel@),
        final(buffer)@.len() == old(buffer)@.len(),
        forall|i: int| 0 <= i < final(buffer)@.len() ==> final(buffer)@[i] <= BLOOM_VALUE_LIMIT,
{
    let rows = blur_rows(buffer, width, height, kernel);
    let cols = blur_cols(&rows, width, height, kernel);
    *buffer = cols;
}

/// Over a constant row, every in-range tap contributes `c` times its
/// weight, so the full accumulation is `c` times the partial weight sum.
proof fn lemma_row_acc_constant(
    buf: Seq<u32>,
    width: int,
    height: int,
    y: int,
    x: int,
    kernel: Seq<u32>,
    n: int,
    c: u32,
)
    requires
        buf.len() == width * height,
        0 <= y < height,
        0 <= n <= kernel.len(),
        forall|i: int| 0 <= i < buf.len() ==> buf[i] == c,
        kernel_half(kernel) <= x,
        x + kernel.len() - kernel_half(kernel) <= width,
    ensures
        row_acc(buf, width, y, x, kernel, n) == c * kernel_prefix_sum(kernel, n),
    decreases n,
{
    if n <= 0 {
        assert(c * kernel_prefix_sum(kernel, n) == 0) by (nonlinear_arith)
            requires
                kernel_prefix_sum(kernel, n) == 0,
        ;
    } else {
        lemma_row_acc_constant(buf, width, height, y, x, kernel, n - 1, c);
        let sx = x + (n - 1) - kernel_half(kernel);
        assert(0 <= sx < width);
        lemma_flat_index_in_range(width, height, sx, y);
        assert(row_tap(buf, width, y, x, kernel, n - 1) == c * kernel[n - 1]);
        assert(c * kernel_prefix_sum(kernel, n - 1) + c * kernel[n - 1] == c * kernel_prefix_sum(
            kernel,
            n,
        )) by (nonlinear_arith)
            requires
                kernel_prefix_sum(kernel, n) == kernel_prefix_sum(kernel, n - 1) + kernel[n - 1],
        ;
    }
}

/// Same, vertically: if the whole column `x` holds `c`, the accumulation is
/// `c` times the partial weight sum.
proof fn lemma_col_acc_constant(
    buf: Seq<u32>,
    width: int,
    height: int,
    y: int,
    x: int,
    kernel: Seq<u32>,
    n: int,
    c: u32,
)
    requires
        buf.len() == width * height,
        0 <= x < width,
        0 <= n <= kernel.len(),
        forall|sy: int| 0 <= sy < height ==> buf[#[trigger] (sy * width + x)] == c,
        kernel_half(kernel) <= y,
        y + kernel.len() - kernel_half(kernel) <= height,
    ensures
        col_acc(buf, width, height, y, x, kernel, n) == c * kernel_prefix_sum(kernel, n),
    decreases n,
{
    if n <= 0 {
        assert(c * kernel_prefix_sum(kernel, n) == 0) by (nonlinear_arith)
            requires
                kernel_prefix_sum(kernel, n) == 0,
        ;
    } else {
        lemma_col_acc_constant(buf, width, height, y, x, kernel, n - 1, c);
        let sy = y + (n - 1) - kernel_half(kernel);
        assert(0 <= sy < height);
        assert(col_tap(buf, width, height, y, x, kernel, n - 1) == c * kernel[n - 1]);
        assert(c * kernel_prefix_sum(kernel, n - 1) + c * kernel[n - 1] == c * kernel_prefix_sum(
            kernel,
            n,
        )) by (nonlinear_arith)
            requires
                kernel_prefix_sum(kernel, n) == kernel_prefix_sum(kernel, n - 1) + kernel[n - 1],
        ;
    }
}

/// `c` times the kernel total, normalized by that same total with
/// rounding, is `c` again.
proof fn lemma_round_div_exact(c: int, total: int)
    requires
        0 <= c,
        1 <= total,
    ensures
        round_div(c * total, total) == c,
{
    lemma_fundamental_div_mod_converse(c * total + total / 2, total, c, total / 2);
}

/// Blurring a constant buffer returns the same constant at every interior
/// pixel: one whose kernel window stays inside the buffer on both axes.
/// (Boundary pixels lose out-of-range taps but are still normalized by the
/// full kernel sum, so they may deviate.)
pub proof fn lemma_blur_preserves_constant(
    buf: Seq<u32>,
    width: int,
    height: int,
    kernel: Seq<u32>,
    c: u32,
    x: int,
    y: int,
)
    requires
        buf.len() == width * height,
        forall|i: int| 0 <= i < buf.len() ==> buf[i] == c,
        1 <= kernel.len(),
        1 <= kernel_total(kernel),
        kernel_half(kernel) <= x,
        x + kernel.len() - kernel_half(kernel) <= width,
        kernel_half(kernel) <= y,
        y + kernel.len() - kernel_half(kernel) <= height,
    ensures
        0 <= y * width + x < buf.len(),
        blur_spec(buf, width, height, kernel)[y * width + x] == c,
{
    let klen = kernel.len() as int;
    let half = kernel_half(kernel);
    let total = kernel_total(kernel);
    let rows = row_pass(buf, width, height, kernel);
    assert(0 <= x < width && 0 <= y < height);
    lemma_flat_index_in_range(width, height, x, y);

    // The horizontal pass leaves the whole column `x` at `c`.
    assert forall|sy: int| 0 <= sy < height implies rows[#[trigger] (sy * width + x)] == c by {
        lemma_flat_index_in_range(width, height, x, sy);
        lemma_fundamental_div_mod_converse(sy * width + x, width, sy, x);
        lemma_row_acc_constant(buf, width, height, sy, x, kernel, klen, c);
        lemma_round_div_exact(c as int, total);
        assert(row_out(buf, width, sy, x, kernel) == c);
    }

    // The vertical pass then reads only that column at the interior pixel.
    lemma_fundamental_div_mod_converse(y * width + x, width, y, x);
    lemma_col_acc_constant(rows, width, height, y, x, kernel, klen, c);
    lemma_round_div_exact(c as int, total);
    assert(col_out(rows, width, height, y, x, kernel) == c);
}

} // verus!

//! Shaping captured audio: down-mixing, conversion, resampling to 16 kHz and
//! WAV framing.

use vstd::prelude::*;
use crate::wav::{wav_mono16, wav_decode, encode_wav, lemma_wav_len, read_ok};

verus! {

/// The sample rate that every transcription engine receives.
pub const TARGET_SR: u32 = 16_000;

/// Integer division rounding toward zero, as Rust's `/` on signed integers.
pub open spec fn div_trunc(n: int, d: int) -> int {
    if n >= 0 {
        n / d
    } else {
        -((-n) / d)
    }
}

/// The sum of the samples of `s`.
pub open spec fn seq_sum(s: Seq<i16>) -> int
    decreases s.len(),
{
    if s.len() == 0 {
        0
    } else {
        seq_sum(s.drop_last()) + s.last()
    }
}

pub open spec fn min_int(a: int, b: int) -> int {
    if a <= b {
        a
    } else {
        b
    }
}

/// The number of frames of `len` interleaved samples with `channels`
/// channels; a last, incomplete frame counts.
pub open spec fn frame_count(len: int, channels: int) -> int {
    len / channels + if len % channels == 0 {
        0int
    } else {
        1int
    }
}

proof fn lemma_frame_start(n: int, c: int, k: int)
    requires
        c >= 1,
        n >= 0,
        0 <= k < frame_count(n, c),
    ensures
        0 <= k * c < n,
        k * c + c >= n ==> k + 1 == frame_count(n, c),
{
    assert(n == c * (n / c) + n % c) by (nonlinear_arith)
        requires
            c >= 1,
            n >= 0,
    ;
    assert(0 <= n % c < c) by (nonlinear_arith)
        requires
            c >= 1,
    ;
    assert(0 <= k * c) by (nonlinear_arith)
        requires
            k >= 0,
            c >= 1,
    ;
    if n % c == 0 {
        assert(k * c < n) by (nonlinear_arith)
            requires
                k < n / c,
                n == c * (n / c),
                c >= 1,
        ;
        assert(k * c + c <= n) by (nonlinear_arith)
            requires
                k < n / c,
                n == c * (n / c),
                c >= 1,
        ;
        if k * c + c >= n {
            assert(k + 1 == n / c) by (nonlinear_arith)
                requires
                    k < n / c,
                    k * c + c >= n,
                    n == c * (n / c),
                    c >= 1,
            ;
        }
    } else {
        assert(k * c < n) by (nonlinear_arith)
            requires
                k <= n / c,
                n == c * (n / c) + n % c,
                n % c > 0,
                c >= 1,
        ;
        if k * c + c <= n {
            assert(k < n / c) by (nonlinear_arith)
                requires
                    k * c + c <= n,
                    n == c * (n / c) + n % c,
                    n % c < c,
                    c >= 1,
            ;
        }
        if k * c + c >= n {
            assert(k == n / c) by (nonlinear_arith)
                requires
                    k <= n / c,
                    k * c + c >= n,
                    n == c * (n / c) + n % c,
                    n % c > 0,
                    c >= 1,
            ;
        }
    }
}

/// The mono sample of frame `k`: the sum of its samples divided by the
/// channel count, rounded toward zero (an incomplete last frame is still
/// divided by the full channel count).
pub open spec fn frame_average(data: Seq<i16>, channels: int, k: int) -> i16 {
    div_trunc(
        seq_sum(data.subrange(k * channels, min_int((k + 1) * channels, data.len() as int))),
        channels,
    ) as i16
}

/// Interleaved samples mixed down to one channel.
pub open spec fn downmixed(data: Seq<i16>, channels: int) -> Seq<i16> {
    Seq::new(
        frame_count(data.len() as int, channels) as nat,
        |k: int| frame_average(data, channels, k),
    )
}

proof fn lemma_div_trunc_i16(n: int, m: int, c: int)
    requires
        1 <= m <= c,
        -32768 * m <= n <= 32767 * m,
    ensures
        -32768 <= div_trunc(n, c) <= 32767,
{
    if n >= 0 {
        assert(n <= 32767 * c) by (nonlinear_arith)
            requires
                n <= 32767 * m,
                m <= c,
        ;
        assert(n / c <= 32767) by (nonlinear_arith)
            requires
                0 <= n <= 32767 * c,
                c >= 1,
        ;
        assert(n / c >= 0) by (nonlinear_arith)
            requires
                0 <= n,
                c >= 1,
        ;
    } else {
        assert(-n <= 32768 * c) by (nonlinear_arith)
            requires
                -32768 * m <= n,
                m <= c,
        ;
        assert((-n) / c <= 32768) by (nonlinear_arith)
            requires
                0 <= -n <= 32768 * c,
                c >= 1,
        ;
        assert((-n) / c >= 0) by (nonlinear_arith)
            requires
                0 <= -n,
                c >= 1,
        ;
    }
}

/// Rust's `/` on non-negative or negative `i128`, rounding toward zero.
fn div_trunc_i128(n: i128, d: i128) -> (r: i128)
    requires
        d > 0,
        -0x1_0000_0000_0000_0000_0000 <= n <= 0x1_0000_0000_0000_0000_0000,
    ensures
        r == div_trunc(n as int, d as int),
{
    if n >= 0 {
        n / d
    } else {
        let m: i128 = -n;
        -(m / d)
    }
}

/// Mixes interleaved samples of `channels` channels down to mono: each frame
/// becomes the average of its samples.
pub fn downmix_i16(data: &[i16], channels: usize) -> (r: Vec<i16>)
    requires
        channels >= 1,
    ensures
        r@ == downmixed(data@, channels as int),
{
    let n = data.len();
    let c = channels;
    assert(n % c != 0 ==> n / c < usize::MAX) by (nonlinear_arith)
        requires
            c >= 1,
            n <= usize::MAX,
    ;
    let frames: usize = n / c + if n % c == 0 {
        0
    } else {
        1
    };
    let mut out: Vec<i16> = Vec::new();
    for k in 0..frames
        invariant
            n == data@.len(),
            c == channels,
            c >= 1,
            frames == frame_count(n as int, c as int),
            out@.len() == k,
            forall|t: int| 0 <= t < k ==> out@[t] == #[trigger] frame_average(data@, c as int, t),
    {
        proof {
            lemma_frame_start(n as int, c as int, k as int);
        }
        let start: usize = k * c;
        let end: usize = if n - start < c {
            n
        } else {
            start + c
        };
        assert(end as int == min_int((k + 1) * c, n as int)) by (nonlinear_arith)
            requires
                start == k * c,
                end == (if n - start < c { n as int } else { start + c }),
        ;
        let mut sum: i128 = 0;
        let mut j: usize = start;
        while j < end
            invariant
                n == data@.len(),
                start <= j <= end <= n,
                end - start <= c,
                sum == seq_sum(data@.subrange(start as int, j as int)),
                -32768 * (j - start) <= sum <= 32767 * (j - start),
            decreases end - j,
        {
            assert(data@.subrange(start as int, j + 1).drop_last() =~= data@.subrange(
                start as int,
                j as int,
            ));
            sum = sum + data[j] as i128;
            j = j + 1;
        }
        proof {
            let m = end - start;
            assert(m >= 1);
            assert(-0x1_0000_0000_0000_0000_0000 <= sum <= 0x1_0000_0000_0000_0000_0000) by (nonlinear_arith)
                requires
                    -32768 * m <= sum <= 32767 * m,
                    m <= 0xffff_ffff_ffff_ffff,
            ;
            lemma_div_trunc_i16(sum as int, m as int, c as int);
        }
        let avg = div_trunc_i128(sum, c as i128);
        out.push(avg as i16);
    }
    assert(out@ =~= downmixed(data@, channels as int));
    out
}


/// The number of samples that resampling `len` samples from `src` Hz to
/// `dst` Hz gives: `len * dst / src`, rounded down.
pub open spec fn resampled_len(len: int, src: int, dst: int) -> int {
    if src == dst || len == 0 {
        len
    } else {
        len * dst / src
    }
}

/// Output sample `i` of the linear interpolation: the input is read at the
/// position `i * src / dst`; between the two input samples around it the
/// value is interpolated linearly and rounded toward zero (positions past
/// the end read the last sample).
pub open spec fn interpolated(input: Seq<i16>, src: int, dst: int, i: int) -> i16 {
    let q = i * src / dst;
    let r = i * src % dst;
    let last = input.len() - 1;
    let a = input[min_int(q, last)] as int;
    let b = input[min_int(q + 1, last)] as int;
    div_trunc(a * dst + (b - a) * r, dst) as i16
}

/// `input`, sampled at `src` Hz, resampled to `dst` Hz by linear
/// interpolation; unchanged when the rates agree or when it is empty.
pub open spec fn resampled(input: Seq<i16>, src: int, dst: int) -> Seq<i16> {
    if src == dst || input.len() == 0 {
        input
    } else {
        Seq::new(
            resampled_len(input.len() as int, src, dst) as nat,
            |i: int| interpolated(input, src, dst, i),
        )
    }
}

proof fn lemma_interpolation_bounds(a: int, b: int, r: int, d: int)
    requires
        d >= 1,
        0 <= r < d,
        -32768 <= a <= 32767,
        -32768 <= b <= 32767,
    ensures
        a * d + (b - a) * r == a * (d - r) + b * r,
        min_int(a, b) * d <= a * d + (b - a) * r <= if a <= b {
            b
        } else {
            a
        } * d,
        -32768 <= div_trunc(a * d + (b - a) * r, d) <= 32767,
        min_int(a, b) <= div_trunc(a * d + (b - a) * r, d) <= if a <= b {
            b
        } else {
            a
        },
{
    let n = a * d + (b - a) * r;
    assert(n == a * (d - r) + b * r) by (nonlinear_arith)
        requires
            n == a * d + (b - a) * r,
    ;
    let lo = min_int(a, b);
    let hi = if a <= b {
        b
    } else {
        a
    };
    assert(lo * d <= n <= hi * d) by (nonlinear_arith)
        requires
            n == a * (d - r) + b * r,
            0 <= r < d,
            lo <= a <= hi,
            lo <= b <= hi,
            lo == a || lo == b,
    ;
    if n >= 0 {
        assert(n / d <= hi) by (nonlinear_arith)
            requires
                0 <= n <= hi * d,
                d >= 1,
        ;
        assert(n / d >= lo) by (nonlinear_arith)
            requires
                0 <= n,
                lo * d <= n,
                d >= 1,
        ;
    } else {
        assert((-n) / d <= -lo) by (nonlinear_arith)
            requires
                0 < -n,
                lo * d <= n,
                d >= 1,
        ;
        assert((-n) / d >= -hi) by (nonlinear_arith)
            requires
                0 < -n,
                n <= hi * d,
                d >= 1,
        ;
    }
}

/// Resamples `input` from `src_sr` Hz to `dst_sr` Hz by linear
/// interpolation.
pub fn resample_linear(input: &[i16], src_sr: u32, dst_sr: u32) -> (r: Vec<i16>)
    requires
        src_sr == dst_sr || src_sr > 0,
        src_sr == dst_sr || input@.len() * dst_sr / (src_sr as int) <= usize::MAX,
    ensures
        r@ == resampled(input@, src_sr as int, dst_sr as int),
{
    let n = input.len();
    if src_sr == dst_sr || n == 0 {
        return vstd::slice::slice_to_vec(input);
    }
    let src = src_sr as u128;
    let dst = dst_sr as u128;
    assert((n as u128) * dst <= 0xffff_ffff_ffff_ffff * 0xffff_ffff) by (nonlinear_arith)
        requires
            n <= 0xffff_ffff_ffff_ffff,
            dst <= 0xffff_ffff,
    ;
    let out_len_wide: u128 = (n as u128) * dst / src;
    let out_len = out_len_wide as usize;
    let mut out: Vec<i16> = Vec::new();
    for i in 0..out_len
        invariant
            n == input@.len(),
            n > 0,
            src_sr > 0,
            src_sr != dst_sr,
            src == src_sr,
            dst == dst_sr,
            out_len == resampled_len(n as int, src_sr as int, dst_sr as int),
            out@.len() == i,
            forall|t: int|
                0 <= t < i ==> out@[t] == #[trigger] interpolated(
                    input@,
                    src_sr as int,
                    dst_sr as int,
                    t,
                ),
    {
        assert(dst >= 1) by (nonlinear_arith)
            requires
                i < out_len,
                out_len as int == (n as int) * (dst as int) / (src as int),
                src >= 1,
        ;
        assert(i * src <= 0xffff_ffff_ffff_ffff * 0xffff_ffff) by (nonlinear_arith)
            requires
                i <= 0xffff_ffff_ffff_ffff,
                src <= 0xffff_ffff,
        ;
        let pos: u128 = (i as u128) * src;
        let q: u128 = pos / dst;
        let rem: u128 = pos % dst;
        let last: usize = n - 1;
        let ia: usize = if q < last as u128 {
            q as usize
        } else {
            last
        };
        let ib: usize = if q + 1 < last as u128 {
            (q + 1) as usize
        } else {
            last
        };
        let a = input[ia] as i128;
        let b = input[ib] as i128;
        proof {
            lemma_interpolation_bounds(a as int, b as int, rem as int, dst as int);
            assert(rem < 0x1_0000_0000);
            assert(-0x1_0000_0000_0000 <= a * dst <= 0x1_0000_0000_0000) by (nonlinear_arith)
                requires
                    -32768 <= a <= 32767,
                    dst <= 0xffff_ffff,
            ;
            assert(-0x1_0000_0000_0000 <= (b - a) * rem <= 0x1_0000_0000_0000) by (nonlinear_arith)
                requires
                    -65535 <= b - a <= 65535,
                    rem <= 0xffff_ffff,
            ;
        }
        let num: i128 = a * (dst as i128) + (b - a) * (rem as i128);
        let v = div_trunc_i128(num, dst as i128);
        out.push(v as i16);
    }
    assert(out@ =~= resampled(input@, src_sr as int, dst_sr as int));
    out
}


/// Mixing down one channel changes nothing.
pub proof fn law_mono_downmix_is_identity(data: Seq<i16>)
    ensures
        downmixed(data, 1) == data,
{
    assert forall|k: int| 0 <= k < data.len() implies #[trigger] frame_average(data, 1, k) == data[k] by {
        let f = data.subrange(k, k + 1);
        assert(f.drop_last().len() == 0);
        assert(seq_sum(f.drop_last()) == 0);
        assert(f.last() == data[k]);
    }
    assert(downmixed(data, 1) =~= data);
}

/// Resampling is linear interpolation: every output sample lies between the
/// two input samples around its position.
pub proof fn law_resampling_stays_between_neighbours(input: Seq<i16>, src: int, dst: int, i: int)
    requires
        src > 0,
        dst > 0,
        src != dst,
        input.len() > 0,
        0 <= i < resampled_len(input.len() as int, src, dst),
    ensures
        ({
            let q = i * src / dst;
            let last = input.len() - 1;
            let a = input[min_int(q, last)] as int;
            let b = input[min_int(q + 1, last)] as int;
            &&& min_int(a, b) <= resampled(input, src, dst)[i]
            &&& resampled(input, src, dst)[i] <= if a <= b {
                b
            } else {
                a
            }
        }),
{
    let q = i * src / dst;
    let r = i * src % dst;
    let last = input.len() - 1;
    assert(0 <= min_int(q, last)) by (nonlinear_arith)
        requires
            i >= 0,
            src > 0,
            dst > 0,
            q == i * src / dst,
            last >= 0,
    ;
    let a = input[min_int(q, last)] as int;
    let b = input[min_int(q + 1, last)] as int;
    assert(0 <= r < dst) by (nonlinear_arith)
        requires
            dst > 0,
            r == i * src % dst,
    ;
    lemma_interpolation_bounds(a, b, r, dst);
    let v = div_trunc(a * dst + (b - a) * r, dst);
    assert(-32768 <= v <= 32767);
    assert(resampled(input, src, dst)[i] == v as i16);
}

/// Unsigned 16-bit samples (silence at 32768) as signed ones (silence at 0).
pub fn u16_to_i16(data: &[u16]) -> (r: Vec<i16>)
    ensures
        r@.len() == data@.len(),
        forall|i: int| 0 <= i < data@.len() ==> (#[trigger] r@[i]) as int == data@[i] as int - 32768,
{
    let n = data.len();
    let mut out: Vec<i16> = Vec::new();
    for i in 0..n
        invariant
            n == data@.len(),
            out@.len() == i,
            forall|t: int| 0 <= t < i ==> (#[trigger] out@[t]) as int == data@[t] as int - 32768,
    {
        let v: i32 = data[i] as i32 - 32768;
        out.push(v as i16);
    }
    out
}

/// Whether `n` samples at `src` Hz can be resampled to 16 kHz and framed as
/// a WAV file (the WAV size fields are 32-bit).
pub open spec fn fits_wav_16k(n: int, src: int) -> bool {
    &&& (src == TARGET_SR || src > 0)
    &&& (src == TARGET_SR || n * TARGET_SR / src <= usize::MAX)
    &&& 36 + 2 * resampled_len(n, src, TARGET_SR as int) <= u32::MAX
}

/// Whether `n` samples at `src` Hz fit a 16 kHz WAV file; see `fits_wav_16k`.
pub fn fits_wav_16k_ok(n: usize, src: u32) -> (r: bool)
    ensures
        r == fits_wav_16k(n as int, src as int),
{
    if src != TARGET_SR && src == 0 {
        return false;
    }
    assert((n as u128) * (TARGET_SR as u128) <= 0xffff_ffff_ffff_ffff * 0xffff_ffff) by (nonlinear_arith)
        requires
            n <= 0xffff_ffff_ffff_ffff,
    ;
    let out: u128 = if src == TARGET_SR || n == 0 {
        n as u128
    } else {
        (n as u128) * (TARGET_SR as u128) / (src as u128)
    };
    if src != TARGET_SR && (n as u128) * (TARGET_SR as u128) / (src as u128) > usize::MAX as u128 {
        return false;
    }
    36 + 2 * out <= u32::MAX as u128
}

/// The recording `pcm`, sampled at `src_sr` Hz, as the 16 kHz mono WAV file
/// that the engines receive.
pub fn wav_16k_mono(pcm: &[i16], src_sr: u32) -> (r: Vec<u8>)
    requires
        fits_wav_16k(pcm@.len() as int, src_sr as int),
    ensures
        r@ == wav_mono16(resampled(pcm@, src_sr as int, TARGET_SR as int), TARGET_SR),
        wav_decode(r@) == read_ok(1, TARGET_SR, resampled(pcm@, src_sr as int, TARGET_SR as int)),
        r@.len() == 44 + 2 * resampled(pcm@, src_sr as int, TARGET_SR as int).len(),
{
    let samples = resample_linear(pcm, src_sr, TARGET_SR);
    proof {
        lemma_wav_len(samples@, TARGET_SR);
        if src_sr != TARGET_SR && pcm@.len() > 0 {
            assert(samples@.len() == resampled_len(pcm@.len() as int, src_sr as int, TARGET_SR as int));
        }
    }
    encode_wav(samples.as_slice(), TARGET_SR)
}


/// Whether a device's name (if it could be read) is `name`.
pub open spec fn is_named(o: Option<String>, name: Seq<char>) -> bool {
    o matches Some(n) && n@ == name
}

/// The position of the first input device named `name` among the devices'
/// names (`None`: a device whose name could not be read).
pub fn find_device(names: &Vec<Option<String>>, name: &str) -> (r: Option<usize>)
    ensures
        r matches Some(i) ==> (i < names@.len() && is_named(names@[i as int], name@) && forall|j: int|
            0 <= j < i ==> !is_named(#[trigger] names@[j], name@)),
        r is None ==> forall|j: int| 0 <= j < names@.len() ==> !is_named(#[trigger] names@[j], name@),
{
    let n = names.len();
    for i in 0..n
        invariant
            n == names@.len(),
            forall|j: int| 0 <= j < i ==> !is_named(#[trigger] names@[j], name@),
    {
        match &names[i] {
            Some(d) => {
                if crate::text::str_eq(d.as_str(), name) {
                    return Some(i);
                }
            },
            None => {},
        }
    }
    None
}

} // verus!

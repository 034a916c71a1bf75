//! Laws of volumes, of roundings, and of sound data at another volume.

use vstd::arithmetic::power2::{
    lemma2_to64, lemma2_to64_rest, lemma_pow2_pos, lemma_pow2_strictly_increases, pow2,
};
use vstd::prelude::*;

use crate::bundled_sound::{play_wav_on_windows, Playback};
use crate::rounding::{divide_nearest, round_to_precision, two_to};
use crate::volume::{audible_volume, normalize_sound_volume, scale_sample, volume_key, Volume};
use crate::wav::{
    scale_wav_volume, scaled_or_source, scaled_wav, wav_format, wav_samples, WavFormat,
};

verus! {

/// Whether `count` units of `unit` are nearest to `n`: no more than half a unit away, and
/// even where they are exactly that.
pub open spec fn is_nearest(n: int, unit: int, count: int) -> bool {
    &&& -unit <= 2 * (count * unit - n) <= unit
    &&& 2 * (count * unit - n) == unit || 2 * (count * unit - n) == -unit ==> count % 2 == 0
}

proof fn lemma_quotient_is_nearest(n: nat, d: nat)
    requires
        d > 0,
    ensures
        is_nearest(n as int, d as int, crate::rounding::div_nearest(n, d) as int),
{
    let q = n / d;
    let r = n % d;
    assert(n == q * d + r && r < d) by (nonlinear_arith)
        requires
            d > 0,
            q == n / d,
            r == n % d,
    ;
    assert((q + 1) * d == q * d + d) by (nonlinear_arith);
}

/// A quotient is the nearest integer, the even one of two.
pub proof fn law_quotients_are_nearest(n: u128, d: u128, res: u128)
    requires
        call_ensures(divide_nearest, (n, d), res),
        d > 0,
    ensures
        is_nearest(n as int, d as int, res as int),
{
    lemma_quotient_is_nearest(n as nat, d as nat);
}

/// Rounding to a precision gives the nearest multiple of the least power of two with which
/// the number has no more digits than that.
pub proof fn law_rounding_keeps_the_precision(n: u64, limit: u64, res: u64) -> (k: nat)
    requires
        call_ensures(round_to_precision, (n, limit), res),
        limit >= 2,
    ensures
        n < limit * pow2(k),
        k > 0 ==> limit * pow2(k) <= 2 * n,
        res == (res as int / pow2(k) as int) * pow2(k),
        is_nearest(n as int, pow2(k) as int, res as int / pow2(k) as int),
{
    let k = crate::rounding::lemma_spacing_is_power(n as nat, limit as nat);
    crate::rounding::lemma_spacing_bounds(n as nat, limit as nat);
    let unit = pow2(k);
    lemma_pow2_pos(k);
    lemma2_to64();
    if k > 0 {
        lemma_pow2_strictly_increases(0, k);
    }
    let count = crate::rounding::div_nearest(n as nat, unit);
    lemma_quotient_is_nearest(n as nat, unit);
    assert(res == count * unit);
    assert(res as int / unit as int == count) by (nonlinear_arith)
        requires
            res == count * unit,
            unit > 0,
    ;
    k
}

/// Powers of two double from one step to the next, and begin with one.
pub proof fn law_powers_double(k: u32, first: u128, res: u128, next: u128)
    requires
        k < 100,
        call_ensures(two_to, (0u32,), first),
        call_ensures(two_to, (k,), res),
        call_ensures(two_to, ((k + 1) as u32,), next),
    ensures
        first == 1,
        next == 2 * res,
{
    lemma2_to64();
    vstd::arithmetic::power2::lemma_pow2_unfold((k + 1) as nat);
}

/// The pattern of a double without its sign.
pub open spec fn unsigned(raw: u64) -> int {
    raw as int % 0x8000_0000_0000_0000
}

/// A volume that is no percentage: what is not finite is full volume, what is negative is
/// zero, a negative zero and what is up to one stay, and from a hundred on it is full.
pub proof fn law_fractions_are_kept(raw: u64, res: u64)
    requires
        call_ensures(normalize_sound_volume, (raw,), res),
    ensures
        unsigned(raw) >= 0x7ff0_0000_0000_0000 ==> res == 0x3ff0_0000_0000_0000,
        0x8000_0000_0000_0000 < raw < 0xfff0_0000_0000_0000 ==> res == 0,
        raw == 0x8000_0000_0000_0000 ==> res == raw,
        raw <= 0x3ff0_0000_0000_0000 ==> res == raw,
        0x4059_0000_0000_0000 <= raw < 0x7ff0_0000_0000_0000 ==> res == 0x3ff0_0000_0000_0000,
{
}

/// The number that a double from `2^-7` to `2^7` stands for, in units of `2^-59`.
pub open spec fn worth(bits: u64) -> int {
    (0x10_0000_0000_0000 + bits as int % 0x10_0000_0000_0000) * last_place(bits)
}

/// The worth of the last place of such a double.
pub open spec fn last_place(bits: u64) -> int {
    pow2((bits as int / 0x10_0000_0000_0000 - 1016) as nat) as int
}

/// A percentage above one and below a hundred becomes its hundredth: the double nearest to
/// it, less than half of the last place away.
pub proof fn law_percentages_are_hundredths(raw: u64, res: u64)
    requires
        call_ensures(normalize_sound_volume, (raw,), res),
        0x3ff0_0000_0000_0000 < raw < 0x4059_0000_0000_0000,
    ensures
        0x3f80_0000_0000_0000 <= res < 0x3ff0_0000_0000_0000,
        -100 * last_place(res) < 2 * (100 * worth(res) - worth(raw)) < 100 * last_place(res),
{
    lemma2_to64();
    let e = raw as nat / 0x10_0000_0000_0000;
    let s = (0x10_0000_0000_0000 + raw as nat % 0x10_0000_0000_0000) as nat;
    assert(1023 <= e <= 1029);
    if s * 64 < 100 * 0x10_0000_0000_0000 {
        let q = crate::rounding::div_nearest(s * 128, 100);
        lemma_quotient_is_nearest(s * 128, 100);
        assert(res as int / 0x10_0000_0000_0000 == e - 7);
        assert(0x10_0000_0000_0000 + res as int % 0x10_0000_0000_0000 == q);
        lemma_scaled_apart(s as int * 128, q as int, s as int, 128, (e - 7) as nat, e);
    } else {
        let q = crate::rounding::div_nearest(s * 64, 100);
        lemma_quotient_is_nearest(s * 64, 100);
        assert(res as int / 0x10_0000_0000_0000 == e - 6);
        assert(0x10_0000_0000_0000 + res as int % 0x10_0000_0000_0000 == q);
        lemma_scaled_apart(s as int * 64, q as int, s as int, 64, (e - 6) as nat, e);
    }
}

proof fn lemma_scaled_apart(n: int, q: int, s: int, by: int, low: nat, high: nat)
    requires
        n == s * by,
        by == 64 || by == 128,
        is_nearest(n, 100, q),
        1016 <= low <= 1023,
        high == low + (if by == 64 {
            6int
        } else {
            7
        }),
    ensures
        ({
            let place = pow2((low - 1016) as nat) as int;
            let wide = pow2((high - 1016) as nat) as int;
            -100 * place < 2 * (100 * (q * place) - s * wide) < 100 * place
        }),
{
    lemma2_to64();
    let place = pow2((low - 1016) as nat) as int;
    let wide = pow2((high - 1016) as nat) as int;
    assert(wide == by * place);
    assert(-100 < 2 * (100 * q - n) < 100);
    assert(s * wide == n * place) by (nonlinear_arith)
        requires
            wide == by * place,
            n == s * by,
    ;
    assert(-100 * place < 2 * (100 * (q * place) - n * place) < 100 * place) by (nonlinear_arith)
        requires
            -100 < 2 * (100 * q - n) < 100,
            place > 0,
    ;
}

/// A louder percentage is never a softer volume.
pub proof fn law_percentages_keep_their_order(a: u64, b: u64, soft: u64, loud: u64)
    requires
        call_ensures(normalize_sound_volume, (a,), soft),
        call_ensures(normalize_sound_volume, (b,), loud),
        0x3ff0_0000_0000_0000 < a <= b < 0x7ff0_0000_0000_0000,
    ensures
        soft <= loud,
{
    crate::volume::lemma_percentages_keep_order(a, b);
}

/// What is no number is played as such, what is negative not at all, what is one or more at
/// full volume, and what is at most `2^-150` not at all.
pub proof fn law_audible_volumes(raw: u64, res: Option<Volume>)
    requires
        call_ensures(audible_volume, (raw,), res),
    ensures
        unsigned(raw) > 0x7ff0_0000_0000_0000 ==> res == Some(Volume { bits: 0x7fc0_0000 }),
        0x8000_0000_0000_0000 <= raw <= 0xfff0_0000_0000_0000 ==> res is None,
        0x3ff0_0000_0000_0000 <= raw <= 0x7ff0_0000_0000_0000 ==> res == Some(
            Volume { bits: 0x3f80_0000 },
        ),
        raw < 0x3ff0_0000_0000_0000 ==> (res is None <==> raw <= 0x3690_0000_0000_0000),
{
    if raw < 0x3ff0_0000_0000_0000 {
        lemma_singles_are_nearest(raw);
    }
}

/// The exponent of a double.
pub open spec fn exponent(raw: u64) -> int {
    raw as int / 0x10_0000_0000_0000
}

/// The significand of a double that is not below all exponents.
pub open spec fn significand(raw: u64) -> int {
    0x10_0000_0000_0000 + raw as int % 0x10_0000_0000_0000
}

proof fn lemma_singles_are_nearest(raw: u64)
    requires
        raw < 0x3ff0_0000_0000_0000,
    ensures
        ({
            let single = crate::volume::nearest_single(raw as nat) as int;
            &&& raw <= 0x3690_0000_0000_0000 <==> single == 0
            &&& exponent(raw) >= 897 ==> is_nearest(
                raw - 896 * 0x10_0000_0000_0000,
                0x2000_0000,
                single,
            )
            &&& 873 <= exponent(raw) < 897 ==> is_nearest(
                significand(raw),
                pow2((926 - exponent(raw)) as nat) as int,
                single,
            )
        }),
{
    let e = exponent(raw);
    lemma2_to64();
    lemma2_to64_rest();
    let single = crate::volume::nearest_single(raw as nat);
    if e >= 897 {
        lemma_quotient_is_nearest((raw - 896 * 0x10_0000_0000_0000) as nat, 0x2000_0000);
    } else if e <= 871 {
        let d: nat = if e == 0 {
            925
        } else {
            (926 - e) as nat
        };
        if d > 55 {
            lemma_pow2_strictly_increases(55, d);
        }
        let n: nat = if e == 0 {
            raw as nat
        } else {
            significand(raw) as nat
        };
        lemma_quotient_is_nearest(n, pow2(d));
        assert(single == 0) by (nonlinear_arith)
            requires
                is_nearest(n as int, pow2(d) as int, single as int),
                n < 0x20_0000_0000_0000,
                pow2(d) >= 0x80_0000_0000_0000,
                single >= 0,
        ;
    } else {
        let d = pow2((926 - e) as nat);
        lemma_pow2_pos((926 - e) as nat);
        lemma_quotient_is_nearest(significand(raw) as nat, d);
        let n = significand(raw);
        if e == 872 {
            assert(single == 0) by (nonlinear_arith)
                requires
                    is_nearest(n, d as int, single as int),
                    n < 0x20_0000_0000_0000,
                    d == 0x40_0000_0000_0000,
                    single >= 0,
            ;
        } else if e == 873 {
            assert(d == 0x20_0000_0000_0000);
            assert(single <= 1) by (nonlinear_arith)
                requires
                    is_nearest(n, d as int, single as int),
                    n < 0x20_0000_0000_0000,
                    d == 0x20_0000_0000_0000,
            ;
            assert(single == 0 || single == 1);
            assert(single * d == if single == 0 {
                0
            } else {
                d
            }) by (nonlinear_arith)
                requires
                    single == 0 || single == 1,
            ;
            assert(single == 0 <==> n == 0x10_0000_0000_0000);
        } else {
            if 926 - e < 52 {
                lemma_pow2_strictly_increases((926 - e) as nat, 52);
            }
            assert(single > 0) by (nonlinear_arith)
                requires
                    is_nearest(n, d as int, single as int),
                    n >= 0x10_0000_0000_0000,
                    d <= 0x10_0000_0000_0000,
                    single >= 0,
            ;
        }
    }
}

/// A volume below one is rounded to the nearest single: from `2^-126` on to 24 digits, the
/// exponent being rebased, and below that to a multiple of `2^-149`.
pub proof fn law_audible_volumes_are_nearest(raw: u64, res: Option<Volume>)
    requires
        call_ensures(audible_volume, (raw,), res),
        0x3690_0000_0000_0000 < raw < 0x3ff0_0000_0000_0000,
    ensures
        res is Some,
        exponent(raw) >= 897 ==> is_nearest(
            raw - 896 * 0x10_0000_0000_0000,
            0x2000_0000,
            res->0.bits as int,
        ),
        exponent(raw) < 897 ==> is_nearest(
            significand(raw),
            pow2((926 - exponent(raw)) as nat) as int,
            res->0.bits as int,
        ),
{
    lemma_singles_are_nearest(raw);
    let single = crate::volume::nearest_single(raw as nat);
    let e = exponent(raw);
    lemma2_to64();
    if e >= 897 {
        assert(single <= 0x3f80_0000);
    } else {
        let d = pow2((926 - e) as nat);
        if 926 - e > 30 {
            lemma_pow2_strictly_increases(30, (926 - e) as nat);
        }
        assert(single <= 0x80_0000) by (nonlinear_arith)
            requires
                is_nearest(significand(raw), d as int, single as int),
                significand(raw) < 0x20_0000_0000_0000,
                d >= 0x4000_0000,
        ;
    }
}

/// The digits of a single.
pub open spec fn digits(volume: Volume) -> int {
    if volume.bits < 0x80_0000 {
        volume.bits as int
    } else {
        0x80_0000 + volume.bits as int % 0x80_0000
    }
}

/// One, in units of the last place of a single that is at most one.
pub open spec fn whole(volume: Volume) -> int {
    if volume.bits < 0x80_0000 {
        pow2(149) as int
    } else {
        pow2((150 - volume.bits as int / 0x80_0000) as nat) as int
    }
}

/// The key of a volume is the nearest whole percentage, but for the rounding of the product
/// with a hundred; what is no number counts as silence.
pub proof fn law_keys_are_percentages(volume: Volume, res: u32)
    requires
        call_ensures(volume_key, (&volume,), res),
    ensures
        volume.bits <= 0x3f80_0000 ==> -whole(volume) - 128 <= 2 * (100 * digits(volume) - res
            * whole(volume)) <= whole(volume) + 128,
        volume.bits > 0x3f80_0000 ==> res == 0,
        volume.bits == 0x3f80_0000 ==> res == 100,
        res <= 100,
{
    if volume.bits <= 0x3f80_0000 {
        let n = 100 * volume.significand();
        let limit = crate::rounding::SINGLE_LIMIT as nat;
        let product = crate::rounding::nearest(n, limit);
        crate::rounding::lemma_nearest_error(n, limit);
        crate::rounding::lemma_spacing_bounds(n, limit);
        let u = crate::rounding::spacing(n, limit);
        assert(limit == 0x100_0000);
        assert(n < 100 * 0x100_0000);
        assert(u <= 200);
        let k = crate::rounding::lemma_spacing_is_power(n, limit);
        lemma2_to64();
        if k > 7 {
            lemma_pow2_strictly_increases(7, k);
            if k > 8 {
                lemma_pow2_strictly_increases(8, k);
            }
        }
        assert(u <= 128) by {
            if k < 7 {
                lemma_pow2_strictly_increases(k, 7);
            }
        }
        let one = pow2(volume.places());
        lemma_pow2_pos(volume.places());
        assert(one == whole(volume));
        assert(2 * product + one < 2 * (res as int + 1) * one && 2 * res * one <= 2 * product + one)
            by (nonlinear_arith)
            requires
                res as int == (2 * product + one) as int / (2 * one) as int,
                one > 0,
        ;
        assert(2 * (res as int + 1) * one == 2 * (res * one) + 2 * one) by (nonlinear_arith);
        assert(2 * res * one == 2 * (res * one)) by (nonlinear_arith);
    }
    if volume.bits == 0x3f80_0000 {
        crate::volume::lemma_full_volume_is_hundred_percent();
    }
}

/// The size of a sample.
pub open spec fn size_of_sample(sample: i16) -> int {
    if sample >= 0 {
        sample as int
    } else {
        -sample
    }
}

/// A scaled sample keeps its sign and is the product with the volume, cut off towards zero
/// but for the rounding of the product to a single. Full volume keeps every sample, and
/// what is zero or no number silences it.
pub proof fn law_samples_are_scaled(volume: Volume, sample: i16, res: i16)
    requires
        call_ensures(scale_sample, (&volume, sample), res),
        volume.valid(),
    ensures
        sample >= 0 ==> 0 <= res <= sample,
        sample <= 0 ==> sample <= res <= 0,
        volume.bits <= 0x3f80_0000 ==> size_of_sample(res) * whole(volume) <= size_of_sample(sample)
            * digits(volume) + 0x4000,
        volume.bits <= 0x3f80_0000 ==> size_of_sample(sample) * digits(volume) < (size_of_sample(
            res,
        ) + 1) * whole(volume) + 0x4000,
        volume.bits == 0x3f80_0000 ==> res == sample,
        volume.bits == 0 || volume.bits > 0x3f80_0000 ==> res == 0,
{
    crate::volume::lemma_scaling_never_amplifies(volume, sample);
    if volume.bits <= 0x3f80_0000 {
        let size = size_of_sample(sample) as nat;
        let n = size * volume.significand();
        let limit = crate::rounding::SINGLE_LIMIT as nat;
        let product = crate::rounding::nearest(n, limit);
        crate::rounding::lemma_nearest_error(n, limit);
        crate::rounding::lemma_spacing_bounds(n, limit);
        let u = crate::rounding::spacing(n, limit);
        assert(limit == 0x100_0000);
        assert(n < 0x8000 * 0x100_0000) by (nonlinear_arith)
            requires
                n == size * volume.significand(),
                size <= 0x8000,
                volume.significand() < 0x100_0000,
        ;
        let k = crate::rounding::lemma_spacing_is_power(n, limit);
        lemma2_to64();
        if k > 15 {
            lemma_pow2_strictly_increases(15, k);
            if k > 16 {
                lemma_pow2_strictly_increases(16, k);
            }
        }
        assert(u <= 0x8000) by {
            if k < 15 {
                lemma_pow2_strictly_increases(k, 15);
            }
        }
        let one = pow2(volume.places());
        lemma_pow2_pos(volume.places());
        assert(one == whole(volume));
        let q = volume.scaled_size(size);
        assert(q * one <= product && product < (q + 1) * one) by (nonlinear_arith)
            requires
                q == product / one,
                one > 0,
        ;
        if q != size_of_sample(res) {
            assert(res == sample);
            lemma_at_most_one(volume);
            assert(size * digits(volume) <= size * one) by (nonlinear_arith)
                requires
                    0 <= digits(volume) <= one,
            ;
            assert(size * one < (size + 1) * one) by (nonlinear_arith)
                requires
                    one > 0,
            ;
            assert(size * one <= q * one) by (nonlinear_arith)
                requires
                    size <= q,
            ;
        }
    }
}

proof fn lemma_at_most_one(volume: Volume)
    requires
        volume.bits <= 0x3f80_0000,
    ensures
        0 <= digits(volume) <= whole(volume),
{
    lemma2_to64();
    let places: nat = if volume.bits < 0x80_0000 {
        149
    } else {
        (150 - volume.bits as int / 0x80_0000) as nat
    };
    assert(places >= 23);
    if places > 24 {
        lemma_pow2_strictly_increases(24, places);
    }
}

/// Whether a format can be written and read back: 8 or 16 bits of integers, with a frame
/// length in range.
pub open spec fn plain(format: WavFormat) -> bool {
    &&& !format.is_float
    &&& format.channels >= 1
    &&& format.bits_per_sample == 8 && format.channels <= 65535 || format.bits_per_sample == 16
        && format.channels <= 32767
}

/// Whether samples come in whole frames and fit the format.
pub open spec fn fitting(format: WavFormat, samples: Seq<i16>) -> bool {
    &&& samples.len() % format.channels as nat == 0
    &&& format.bits_per_sample == 8 ==> forall|i: int|
        0 <= i < samples.len() ==> -128 <= #[trigger] samples[i] <= 127
}

proof fn lemma_plain_round_trips(format: WavFormat, samples: Seq<i16>)
    requires
        plain(format),
        fitting(format, samples),
    ensures
        format.round_trips(samples),
{
    let bytes = format.sample_bytes();
    assert(bytes == 1 || bytes == 2);
    assert forall|i: int| 0 <= i < samples.len() implies format.fits(#[trigger] samples[i]) by {
        if format.bits_per_sample == 8 {
            assert(-128 <= samples[i] <= 127);
        }
    }
}

/// Scaling keeps the format and the number of samples, and each sample is the one at the
/// volume.
pub proof fn law_scaled_data_reads_back(
    wav: &[u8],
    volume: Volume,
    format: WavFormat,
    samples: Seq<i16>,
    i: int,
    sample: i16,
    res: Result<Vec<u8>, String>,
)
    requires
        call_ensures(scale_wav_volume, (wav, &volume), res),
        wav_format(wav@) == Ok::<WavFormat, Seq<char>>(format),
        wav_samples(wav@) == Ok::<Seq<i16>, Seq<char>>(samples),
        plain(format),
        fitting(format, samples),
        0 <= i < samples.len(),
        call_ensures(scale_sample, (&volume, samples[i]), sample),
    ensures
        res matches Ok(out) && wav_format(out@) == Ok::<WavFormat, Seq<char>>(format) && (
        wav_samples(out@) matches Ok(scaled) && scaled.len() == samples.len() && scaled[i]
            == sample),
{
    lemma_plain_round_trips(format, samples);
}

/// Data that cannot be scaled is refused with its own reason: that of the header first, a
/// bit depth that cannot be written next, and that of the samples last.
pub proof fn law_unreadable_data_is_refused(
    wav: &[u8],
    volume: Volume,
    res: Result<Vec<u8>, String>,
)
    requires
        call_ensures(scale_wav_volume, (wav, &volume), res),
    ensures
        wav_format(wav@) matches Err(text) ==> (res matches Err(why) && why@ == text),
        wav_format(wav@) matches Ok(format) ==> {
            let depth = format.bits_per_sample;
            &&& depth != 8 && depth != 16 && depth != 24 && depth != 32 ==> (res matches Err(why)
                && why@ == "The wave format of the file is not supported."@)
            &&& (depth == 8 || depth == 16 || depth == 24 || depth == 32) ==> (wav_samples(
                wav@,
            ) matches Err(text) ==> (res matches Err(why) && why@ == text))
        },
{
}

/// Whether data of a format with so many samples can be written again: the header's
/// numbers are in range, and the data stays within the length that it can state.
pub open spec fn fits_a_file(format: WavFormat, count: int) -> bool {
    let bytes = (format.bits_per_sample as int + 7) / 8;
    &&& format.sample_rate >= 1
    &&& format.sample_rate * bytes * format.channels <= 0xffff_ffff
    &&& format.is_float ==> format.bits_per_sample == 32
    &&& count * bytes + (if format.channels > 2 || format.bits_per_sample > 16 {
        60int
    } else {
        36
    }) <= 0xffff_ffff
}

/// What can be scaled is scaled; what cannot is left as it is, and so is what would not fit
/// a file.
pub proof fn law_unscalable_data_stays(
    wav: &[u8],
    volume: Volume,
    format: WavFormat,
    samples: Seq<i16>,
    scaled: Result<Vec<u8>, String>,
    res: Vec<u8>,
)
    requires
        call_ensures(scaled_or_source, (wav, &volume), res),
        call_ensures(scale_wav_volume, (wav, &volume), scaled),
        wav_format(wav@) == Ok::<WavFormat, Seq<char>>(format),
        wav_samples(wav@) == Ok::<Seq<i16>, Seq<char>>(samples),
        format.channels >= 1,
        format.bits_per_sample == 8 || format.bits_per_sample == 16 || format.bits_per_sample == 24
            || format.bits_per_sample == 32,
    ensures
        fits_a_file(format, samples.len() as int) ==> (match scaled {
            Ok(out) => res@ == out@,
            Err(_) => res@ == wav@,
        }),
        !fits_a_file(format, samples.len() as int) ==> res@ == wav@,
{
}

/// Data that cannot be read, or whose bit depth cannot be written, stays as it is.
pub proof fn law_unreadable_data_stays(wav: &[u8], volume: Volume, res: Vec<u8>)
    requires
        call_ensures(scaled_or_source, (wav, &volume), res),
        wav_format(wav@) is Err || wav_samples(wav@) is Err || {
            let depth = wav_format(wav@)->Ok_0.bits_per_sample;
            depth != 8 && depth != 16 && depth != 24 && depth != 32
        },
    ensures
        res@ == wav@,
{
}

/// An embedded sound is scaled below a hundred percent, and else stays as it is; what is
/// played from a copy is scaled data.
pub proof fn law_embedded_sounds_are_scaled(
    wav: &[u8],
    volume: Volume,
    key: u32,
    scaled: Vec<u8>,
    res: Vec<u8>,
    play: Playback,
)
    requires
        call_ensures(scaled_wav, (wav, &volume), res),
        call_ensures(volume_key, (&volume,), key),
        call_ensures(scaled_or_source, (wav, &volume), scaled),
        call_ensures(play_wav_on_windows, (wav, &volume), play),
    ensures
        key == 100 ==> res@ == wav@,
        key < 100 ==> res@ == scaled@,
        play matches Playback::FromBuffer(buffer) ==> buffer@ == scaled@,
{
}

} // verus!

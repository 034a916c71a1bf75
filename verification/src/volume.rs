//! Sound volumes. Floating-point numbers are held by their IEEE 754 bit patterns,
//! so that every rounding is stated on integers.

use vstd::arithmetic::power2::{
    lemma2_to64, lemma2_to64_rest, lemma_pow2_adds, lemma_pow2_pos, lemma_pow2_strictly_increases,
    pow2,
};
use vstd::prelude::*;

use crate::rounding::{
    div_nearest, divide_nearest, lemma_nearest_at_most, lemma_spacing_bounds,
    lemma_spacing_is_power, nearest, round_to_precision, spacing, two_to, SINGLE_LIMIT,
};

verus! {

/// The double `1.0`.
pub const DOUBLE_ONE: u64 = 0x3ff0_0000_0000_0000;

/// The double `100.0`.
pub const DOUBLE_HUNDRED: u64 = 0x4059_0000_0000_0000;

/// The double infinity: the least pattern without sign that is not finite.
pub const DOUBLE_INFINITY: u64 = 0x7ff0_0000_0000_0000;

/// The double `-0.0`, which is the sign bit alone.
pub const DOUBLE_SIGN: u64 = 0x8000_0000_0000_0000;

/// The place value of a double's exponent.
pub const DOUBLE_EXPONENT: u64 = 0x10_0000_0000_0000;

/// The single `1.0`.
pub const SINGLE_ONE: u32 = 0x3f80_0000;

/// The single that stands for all that are not numbers.
pub const SINGLE_NAN: u32 = 0x7fc0_0000;

/// The single nearest to `0.999`.
pub const SINGLE_NEARLY_ONE: u32 = 0x3f7f_be77;

/// The pattern of the single `-0.0`.
pub const SINGLE_NEGATIVE_ZERO: u32 = 0x8000_0000;

/// The place value of a single's exponent.
pub const SINGLE_EXPONENT: u32 = 0x80_0000;

/// The pattern without its sign bit.
pub open spec fn magnitude(bits: u64) -> nat {
    if bits >= DOUBLE_SIGN {
        (bits - DOUBLE_SIGN) as nat
    } else {
        bits as nat
    }
}

/// The double nearest to a hundredth of the double `mag`, which lies above one and
/// below a hundred.
///
/// Its significand is that of `mag` shifted up by seven places, or by six where
/// that suffices for 53 bits, and divided by a hundred.
pub open spec fn hundredth(mag: nat) -> nat {
    let exponent = mag / DOUBLE_EXPONENT as nat;
    let significand = DOUBLE_EXPONENT as nat + mag % DOUBLE_EXPONENT as nat;
    if significand * 64 < 100 * DOUBLE_EXPONENT as nat {
        ((exponent - 8) * DOUBLE_EXPONENT + div_nearest(significand * 128, 100)) as nat
    } else {
        ((exponent - 7) * DOUBLE_EXPONENT + div_nearest(significand * 64, 100)) as nat
    }
}

/// A volume as a fraction of at most one. What is not finite is full volume, what
/// is above one is a percentage, and the rest is brought between zero and one.
pub open spec fn normalized(raw: u64) -> nat {
    if magnitude(raw) >= DOUBLE_INFINITY {
        DOUBLE_ONE as nat
    } else if raw >= DOUBLE_SIGN {
        if raw == DOUBLE_SIGN {
            raw as nat
        } else {
            0
        }
    } else if raw <= DOUBLE_ONE {
        raw as nat
    } else if raw >= DOUBLE_HUNDRED {
        DOUBLE_ONE as nat
    } else {
        hundredth(raw as nat)
    }
}

/// The volume is a fraction of one, but early installs stored a percentage of up
/// to a hundred. Anything above one is one of those, so it is scaled down instead
/// of turning every such value into full volume.
pub fn normalize_sound_volume(raw: u64) -> (res: u64)
    ensures
        res == normalized(raw),
{
    let mag: u64 = if raw >= DOUBLE_SIGN {
        raw - DOUBLE_SIGN
    } else {
        raw
    };
    if mag >= DOUBLE_INFINITY {
        return DOUBLE_ONE;
    }
    if raw >= DOUBLE_SIGN {
        return if raw == DOUBLE_SIGN {
            raw
        } else {
            0
        };
    }
    if raw <= DOUBLE_ONE {
        return raw;
    }
    if raw >= DOUBLE_HUNDRED {
        return DOUBLE_ONE;
    }
    let exponent: u64 = raw / DOUBLE_EXPONENT;
    let significand: u64 = DOUBLE_EXPONENT + raw % DOUBLE_EXPONENT;
    if significand * 64 < 100 * DOUBLE_EXPONENT {
        let quotient: u64 = divide_nearest(significand as u128 * 128, 100) as u64;
        (exponent - 8) * DOUBLE_EXPONENT + quotient
    } else {
        let quotient: u64 = divide_nearest(significand as u128 * 64, 100) as u64;
        (exponent - 7) * DOUBLE_EXPONENT + quotient
    }
}

/// A normalized volume is between zero and one, normalizing it again changes
/// nothing, and no percentage below a hundred becomes full volume.
pub proof fn lemma_normalized_is_fraction(raw: u64)
    ensures
        normalized(raw) <= DOUBLE_ONE || normalized(raw) == DOUBLE_SIGN,
        normalized(normalized(raw) as u64) == normalized(raw),
        DOUBLE_ONE < raw < DOUBLE_HUNDRED ==> 0 < normalized(raw) < DOUBLE_ONE,
{
}

/// A louder percentage is never a softer fraction.
pub proof fn lemma_percentages_keep_order(a: u64, b: u64)
    requires
        DOUBLE_ONE < a <= b < DOUBLE_INFINITY,
    ensures
        normalized(a) <= normalized(b),
{
    if b < DOUBLE_HUNDRED {
        lemma_hundredth_step(a as nat, b as nat);
    } else {
        lemma_normalized_is_fraction(a);
    }
}

proof fn lemma_hundredth_step(a: nat, b: nat)
    requires
        DOUBLE_ONE < a <= b < DOUBLE_HUNDRED,
    ensures
        hundredth(a) <= hundredth(b),
{
}

/// The single nearest to the double `mag`, which is at most one.
///
/// From `2^-126` on the exponent is rebased and the significand rounded to 24 bits,
/// a carry going into the exponent. Below that a single is a multiple of `2^-149`.
pub open spec fn nearest_single(mag: nat) -> nat {
    let exponent = mag / DOUBLE_EXPONENT as nat;
    if exponent >= 897 {
        div_nearest((mag - 896 * DOUBLE_EXPONENT) as nat, 0x2000_0000)
    } else if exponent == 0 {
        div_nearest(mag, pow2(925))
    } else {
        div_nearest(
            DOUBLE_EXPONENT as nat + mag % DOUBLE_EXPONENT as nat,
            pow2((926 - exponent) as nat),
        )
    }
}

/// A volume: a single between zero and one, or no number.
#[derive(Clone, Copy, Debug, PartialEq, Eq, Structural)]
pub struct Volume {
    pub bits: u32,
}

impl Volume {
    /// Whether the pattern is that of a volume. The negative zero is one too.
    pub open spec fn valid(self) -> bool {
        self.bits <= SINGLE_ONE || self.bits == SINGLE_NEGATIVE_ZERO || self.bits == SINGLE_NAN
    }

    /// Whether the volume is a number without a sign. The negative zero and no number
    /// both silence every sample.
    pub open spec fn is_number(self) -> bool {
        self.bits <= SINGLE_ONE
    }

    /// The volume is `significand / 2^places`.
    pub open spec fn significand(self) -> nat {
        if self.bits < SINGLE_EXPONENT {
            self.bits as nat
        } else {
            SINGLE_EXPONENT as nat + self.bits as nat % SINGLE_EXPONENT as nat
        }
    }

    /// The volume is `significand / 2^places`.
    pub open spec fn places(self) -> nat {
        if self.bits < SINGLE_EXPONENT {
            149
        } else {
            (150 - self.bits as nat / SINGLE_EXPONENT as nat) as nat
        }
    }

    /// The volume in whole percent, halves upwards; no number counts as zero.
    ///
    /// The product with a hundred is rounded to a single before it is rounded to
    /// an integer.
    pub open spec fn percent(self) -> nat {
        if self.is_number() {
            (2 * nearest(100 * self.significand(), SINGLE_LIMIT as nat) + pow2(self.places())) / (2
                * pow2(self.places()))
        } else {
            0
        }
    }

    /// The size of a sample at this volume: the product, rounded to a single and
    /// then cut off to an integer; no number gives silence.
    pub open spec fn scaled_size(self, size: nat) -> nat {
        if self.is_number() {
            nearest(size * self.significand(), SINGLE_LIMIT as nat) / pow2(self.places())
        } else {
            0
        }
    }

    /// A sample at this volume, brought into the range of samples.
    pub open spec fn scaled(self, sample: i16) -> int {
        if sample >= 0 {
            let size = self.scaled_size(sample as nat);
            if size > i16::MAX {
                i16::MAX as int
            } else {
                size as int
            }
        } else {
            let size = self.scaled_size((-sample) as nat);
            if size > 0x8000 {
                i16::MIN as int
            } else {
                -size
            }
        }
    }

    /// Whether the volume is at least the single nearest to `0.999`.
    pub open spec fn is_nearly_full(self) -> bool {
        self.is_number() && self.bits >= SINGLE_NEARLY_ONE
    }

    /// Whether the volume is so near to full that nothing needs scaling.
    pub fn nearly_full(&self) -> (res: bool)
        requires
            self.valid(),
        ensures
            res == self.is_nearly_full(),
    {
        self.bits <= SINGLE_ONE && self.bits >= SINGLE_NEARLY_ONE
    }
}

/// The volume that a requested one is played at: brought between zero and one and
/// rounded to a single; none where that is not above zero.
pub open spec fn audible(raw: u64) -> Option<Volume> {
    if magnitude(raw) > DOUBLE_INFINITY {
        Some(Volume { bits: SINGLE_NAN })
    } else if raw >= DOUBLE_SIGN {
        None
    } else if raw >= DOUBLE_ONE {
        Some(Volume { bits: SINGLE_ONE })
    } else if nearest_single(raw as nat) == 0 {
        None
    } else {
        Some(Volume { bits: nearest_single(raw as nat) as u32 })
    }
}

proof fn lemma_far_below_half(n: nat, d: nat)
    requires
        2 * n < d,
    ensures
        div_nearest(n, d) == 0,
{
    assert(n / d == 0 && n % d == n) by (nonlinear_arith)
        requires
            n < d,
    ;
}

proof fn lemma_many_places(k: nat)
    requires
        k >= 55,
    ensures
        pow2(k) >= 0x80_0000_0000_0000,
{
    lemma2_to64_rest();
    if k > 55 {
        lemma_pow2_strictly_increases(55, k);
    }
}

/// The volume that a requested one is played at, if it is audible.
pub fn audible_volume(raw: u64) -> (res: Option<Volume>)
    ensures
        res == audible(raw),
        res matches Some(volume) ==> volume.valid(),
{
    let mag: u64 = if raw >= DOUBLE_SIGN {
        raw - DOUBLE_SIGN
    } else {
        raw
    };
    if mag > DOUBLE_INFINITY {
        return Some(Volume { bits: SINGLE_NAN });
    }
    if raw >= DOUBLE_SIGN {
        return None;
    }
    if raw >= DOUBLE_ONE {
        return Some(Volume { bits: SINGLE_ONE });
    }
    let exponent: u64 = raw / DOUBLE_EXPONENT;
    let single: u128 = if exponent >= 897 {
        divide_nearest((raw - 896 * DOUBLE_EXPONENT) as u128, 0x2000_0000)
    } else if exponent <= 871 {
        proof {
            if exponent == 0 {
                lemma_many_places(925);
                lemma_far_below_half(raw as nat, pow2(925));
            } else {
                lemma_many_places((926 - exponent) as nat);
                lemma_far_below_half(
                    DOUBLE_EXPONENT as nat + raw as nat % DOUBLE_EXPONENT as nat,
                    pow2((926 - exponent) as nat),
                );
            }
        }
        0
    } else {
        let places: u32 = (926 - exponent) as u32;
        let step: u128 = two_to(places);
        proof {
            lemma2_to64();
            if places > 30 {
                lemma_pow2_strictly_increases(30, places as nat);
            }
        }
        let significand: u64 = DOUBLE_EXPONENT + raw % DOUBLE_EXPONENT;
        proof {
            lemma_small_quotient(significand as nat, step as nat);
        }
        divide_nearest(significand as u128, step)
    };
    assert(single == nearest_single(raw as nat));
    assert(single <= SINGLE_ONE);
    if single == 0 {
        None
    } else {
        Some(Volume { bits: single as u32 })
    }
}

proof fn lemma_small_quotient(n: nat, d: nat)
    requires
        n < 0x20_0000_0000_0000,
        d >= 0x4000_0000,
    ensures
        div_nearest(n, d) <= 0x80_0000,
{
    assert(n / d <= 0x7f_ffff) by (nonlinear_arith)
        requires
            n < 0x20_0000_0000_0000,
            d >= 0x4000_0000,
    ;
}

/// The significand and the places of a volume that is a number.
fn parts_of(volume: &Volume) -> (res: (u64, u32))
    requires
        volume.is_number(),
    ensures
        res.0 == volume.significand(),
        res.1 == volume.places(),
        res.0 < 0x100_0000,
        23 <= res.1 <= 149,
{
    let bits: u32 = volume.bits;
    if bits < SINGLE_EXPONENT {
        (bits as u64, 149)
    } else {
        ((SINGLE_EXPONENT + bits % SINGLE_EXPONENT) as u64, 150 - bits / SINGLE_EXPONENT)
    }
}

proof fn lemma_quotient_vanishes(n: nat, d: nat)
    requires
        n < d,
    ensures
        n / d == 0,
{
    assert(n / d == 0) by (nonlinear_arith)
        requires
            n < d,
    ;
}

/// The volume in whole percent, which is how fine the settings slider goes.
pub fn volume_key(volume: &Volume) -> (res: u32)
    requires
        volume.valid(),
    ensures
        res == volume.percent(),
        res <= 100,
{
    if volume.bits > SINGLE_ONE {
        return 0;
    }
    let (significand, places) = parts_of(volume);
    let product: u64 = round_to_precision(100 * significand, SINGLE_LIMIT);
    proof {
        lemma_percent_bound(*volume);
    }
    if places > 60 {
        proof {
            lemma_many_places(places as nat);
            lemma_quotient_vanishes(
                2 * product as nat + pow2(places as nat),
                2 * pow2(places as nat),
            );
        }
        return 0;
    }
    let step: u128 = two_to(places);
    proof {
        assert(2 * step > 0);
    }
    ((2 * product as u128 + step) / (2 * step)) as u32
}

/// A volume is at most one.
proof fn lemma_volume_at_most_one(volume: Volume)
    requires
        volume.is_number(),
    ensures
        volume.significand() <= pow2(volume.places()),
        volume.significand() < 0x100_0000,
        volume.places() >= 23,
        volume.places() <= 149,
        volume.places() == 23 ==> volume.significand() == 0x80_0000,
        volume.bits == SINGLE_ONE ==> volume.significand() == pow2(volume.places()),
{
    lemma2_to64();
    if volume.places() > 24 {
        lemma_pow2_strictly_increases(24, volume.places());
    }
}

/// A number that is a multiple of a large enough power of two is not exceeded by
/// rounding what is below it.
proof fn lemma_rounding_stays_below(n: nat, count: nat, places: nat)
    requires
        n <= count * pow2(places),
        count <= 0x8000,
        places >= 23,
    ensures
        nearest(n, SINGLE_LIMIT as nat) <= count * pow2(places),
        n == count * pow2(places) ==> nearest(n, SINGLE_LIMIT as nat) == n,
{
    let limit = SINGLE_LIMIT as nat;
    let k = lemma_spacing_is_power(n, limit);
    let unit = pow2(k);
    lemma_spacing_bounds(n, limit);
    lemma2_to64();
    lemma_pow2_pos(places);
    if k > places {
        // The spacing would be too coarse: limit * unit <= 2 * n <= 2^16 * 2^places.
        lemma_pow2_strictly_increases(places, k);
        assert(limit * unit <= 2 * n);
        assert(2 * n <= 0x1_0000 * pow2(places)) by (nonlinear_arith)
            requires
                n <= count * pow2(places),
                count <= 0x8000,
        ;
        assert(limit * unit > 0x1_0000 * pow2(places)) by (nonlinear_arith)
            requires
                limit == 0x100_0000,
                unit > pow2(places),
        ;
        assert(false);
    }
    lemma_pow2_adds(k, (places - k) as nat);
    let more = count * pow2((places - k) as nat);
    assert(more * unit == count * pow2(places)) by (nonlinear_arith)
        requires
            more == count * pow2((places - k) as nat),
            unit * pow2((places - k) as nat) == pow2(places),
    ;
    lemma_nearest_at_most(n, limit, more);
}

proof fn lemma_percent_bound(volume: Volume)
    requires
        volume.is_number(),
    ensures
        volume.percent() <= 100,
{
    lemma_volume_at_most_one(volume);
    let places = volume.places();
    let one = pow2(places);
    assert(100 * volume.significand() <= 100 * one);
    lemma_rounding_stays_below(100 * volume.significand(), 100, places);
    let product = nearest(100 * volume.significand(), SINGLE_LIMIT as nat);
    lemma_pow2_pos(places);
    assert((2 * product + one) / (2 * one) <= 100) by (nonlinear_arith)
        requires
            product <= 100 * one,
            one > 0,
    ;
}

/// Full volume is a hundred percent.
pub proof fn lemma_full_volume_is_hundred_percent()
    ensures
        (Volume { bits: SINGLE_ONE }).percent() == 100,
{
    let volume = Volume { bits: SINGLE_ONE };
    lemma_volume_at_most_one(volume);
    lemma_rounding_stays_below(100 * volume.significand(), 100, volume.places());
    lemma2_to64();
    let one = pow2(volume.places());
    let product = nearest(100 * volume.significand(), SINGLE_LIMIT as nat);
    assert((2 * product + one) / (2 * one) == 100) by (nonlinear_arith)
        requires
            product == 100 * one,
            one > 0,
    ;
}

/// No sample becomes louder or changes its sign, full volume leaves every sample as it
/// is, and volume zero, like what is not a number, silences it.
pub proof fn lemma_scaling_never_amplifies(volume: Volume, sample: i16)
    requires
        volume.valid(),
    ensures
        sample >= 0 ==> 0 <= volume.scaled(sample) <= sample,
        sample <= 0 ==> sample <= volume.scaled(sample) <= 0,
        volume.bits == SINGLE_ONE ==> volume.scaled(sample) == sample,
        !volume.is_number() || volume.bits == 0 ==> volume.scaled(sample) == 0,
{
    if volume.is_number() {
        let size: nat = if sample >= 0 {
            sample as nat
        } else {
            (-sample) as nat
        };
        lemma_volume_at_most_one(volume);
        let one = pow2(volume.places());
        let product = size * volume.significand();
        assert(product <= size * one) by (nonlinear_arith)
            requires
                product == size * volume.significand(),
                volume.significand() <= one,
        ;
        lemma_rounding_stays_below(product, size, volume.places());
        lemma_pow2_pos(volume.places());
        let rounded = nearest(product, SINGLE_LIMIT as nat);
        assert(rounded / one <= size) by (nonlinear_arith)
            requires
                rounded <= size * one,
                one > 0,
        ;
        if volume.bits == 0 {
            assert(product == 0) by (nonlinear_arith)
                requires
                    product == size * volume.significand(),
                    volume.significand() == 0,
            ;
            lemma_rounding_stays_below(product, 0, volume.places());
            lemma_quotient_vanishes(rounded, one);
        }
        if volume.bits == SINGLE_ONE {
            assert(rounded / one == size) by (nonlinear_arith)
                requires
                    rounded == size * one,
                    one > 0,
            ;
        }
    }
}

/// The size of a sample at this volume.
fn scale_size(volume: &Volume, size: u64) -> (res: u64)
    requires
        volume.valid(),
        size <= 0x8000,
    ensures
        res == volume.scaled_size(size as nat),
{
    if volume.bits > SINGLE_ONE {
        return 0;
    }
    let (significand, places) = parts_of(volume);
    assert(size * significand <= 0x8000 * 0x100_0000) by (nonlinear_arith)
        requires
            size <= 0x8000,
            significand < 0x100_0000,
    ;
    let product: u64 = round_to_precision(size * significand, SINGLE_LIMIT);
    if places > 60 {
        proof {
            lemma_many_places(places as nat);
            lemma_quotient_vanishes(product as nat, pow2(places as nat));
        }
        return 0;
    }
    let step: u128 = two_to(places);
    assert(product as u128 / step <= product) by (nonlinear_arith)
        requires
            step >= 1,
    ;
    (product as u128 / step) as u64
}

/// A sample at this volume.
pub fn scale_sample(volume: &Volume, sample: i16) -> (res: i16)
    requires
        volume.valid(),
    ensures
        res == volume.scaled(sample),
{
    if sample >= 0 {
        let size: u64 = scale_size(volume, sample as u64);
        if size > 0x7fff {
            i16::MAX
        } else {
            size as i16
        }
    } else {
        let size: u64 = scale_size(volume, (-(sample as i64)) as u64);
        if size > 0x8000 {
            i16::MIN
        } else {
            (-(size as i64)) as i16
        }
    }
}

} // verus!

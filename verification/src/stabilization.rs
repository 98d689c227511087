//! How long the instrument has to be left alone after a change: ten time
//! constants, and one second at least.
//!
//! The time constant is a 32-bit IEEE-754 number of seconds, which the
//! instrument sends and takes as four bytes.  The wait is worked out from
//! those bits in whole nanoseconds.

use vstd::arithmetic::div_mod::lemma_div_denominator;
use vstd::arithmetic::power2::{lemma2_to64, lemma_pow2_pos, lemma_pow2_unfold, pow2};
use vstd::prelude::*;

verus! {

/// One second, in nanoseconds: the shortest wait.
pub const SECOND: u64 = 1_000_000_000;

/// How many time constants the instrument needs to settle.
pub const TIME_CONSTANTS: u64 = 10;

/// Whether the sign bit of a float is set.
pub open spec fn sign_of(bits: u32) -> bool {
    bits >= 0x8000_0000
}

/// The eight exponent bits of a float.
pub open spec fn exponent_of(bits: u32) -> nat {
    ((bits / 0x80_0000) % 256) as nat
}

/// The twenty-three fraction bits of a float.
pub open spec fn fraction_of(bits: u32) -> nat {
    (bits % 0x80_0000) as nat
}

/// Whether a float is no number.
pub open spec fn is_nan(bits: u32) -> bool {
    exponent_of(bits) == 255 && fraction_of(bits) != 0
}

/// Whether a float is an infinity.
pub open spec fn is_infinite(bits: u32) -> bool {
    exponent_of(bits) == 255 && fraction_of(bits) == 0
}

/// The digits of a finite float as a whole number: the fraction bits, with
/// the leading one that a normal number leaves out.
pub open spec fn significand_of(bits: u32) -> nat {
    if exponent_of(bits) == 0 {
        fraction_of(bits)
    } else {
        0x80_0000 + fraction_of(bits)
    }
}

/// The power of two by which the digits of a finite float are scaled,
/// plus 150: the float is `significand_of` times two to the power of
/// `scale_of` minus 150, with the sign before it.
pub open spec fn scale_of(bits: u32) -> nat {
    if exponent_of(bits) == 0 {
        1
    } else {
        exponent_of(bits)
    }
}

/// `n` times a finite float without its sign, rounded down to a whole
/// number.  What that is for a given float follows from the powers of two
/// that `lemma2_to64` of vstd states.
pub open spec fn times_float(n: nat, bits: u32) -> nat {
    if scale_of(bits) >= 150 {
        n * significand_of(bits) * pow2((scale_of(bits) - 150) as nat)
    } else {
        (n * significand_of(bits)) / pow2((150 - scale_of(bits)) as nat)
    }
}

/// The stabilization wait for a time constant in seconds, in nanoseconds:
/// ten time constants rounded down to a whole nanosecond, and one second at
/// least.  A time constant that is negative or no number calls for the one
/// second.  A wait beyond what 64 bits hold, that for an infinite time
/// constant included, is cut down to that.
pub open spec fn stabilization_nanos(tau: u32) -> nat {
    if sign_of(tau) || is_nan(tau) {
        SECOND as nat
    } else if is_infinite(tau) {
        u64::MAX as nat
    } else {
        let ten_tau = times_float((TIME_CONSTANTS * SECOND) as nat, tau);
        if ten_tau <= SECOND {
            SECOND as nat
        } else if ten_tau >= u64::MAX {
            u64::MAX as nat
        } else {
            ten_tau
        }
    }
}

/// The wait is never shorter than a second, and never shorter than ten
/// time constants unless those are beyond what 64 bits hold.
pub proof fn stabilization_is_long_enough(tau: u32)
    ensures
        SECOND <= stabilization_nanos(tau) <= u64::MAX,
        !sign_of(tau) && exponent_of(tau) < 255 ==> stabilization_nanos(tau) >= times_float(
            (TIME_CONSTANTS * SECOND) as nat,
            tau,
        ) || stabilization_nanos(tau) == u64::MAX,
{
}

/// `value` halved `times` times, each time rounded down.
fn halve(value: u64, times: u32) -> (result: u64)
    ensures
        result == value as nat / pow2(times as nat),
{
    let mut result = value;
    let mut done: u32 = 0;
    proof {
        lemma2_to64();
    }
    while done < times
        invariant
            done <= times,
            result == value as nat / pow2(done as nat),
        decreases times - done,
    {
        proof {
            lemma_pow2_pos(done as nat);
            lemma_pow2_unfold((done + 1) as nat);
            lemma_div_denominator(value as int, pow2(done as nat) as int, 2);
        }
        result = result / 2;
        done += 1;
    }
    result
}

/// `value` doubled `times` times, and cut down to what 64 bits hold.
fn double(value: u64, times: u32) -> (result: u64)
    ensures
        value * pow2(times as nat) <= u64::MAX ==> result == value * pow2(times as nat),
        value * pow2(times as nat) > u64::MAX ==> result == u64::MAX,
{
    let mut result = value;
    let mut done: u32 = 0;
    proof {
        lemma2_to64();
    }
    while done < times
        invariant
            done <= times,
            value * pow2(done as nat) <= u64::MAX ==> result == value * pow2(done as nat),
            value * pow2(done as nat) > u64::MAX ==> result == u64::MAX,
        decreases times - done,
    {
        proof {
            lemma_pow2_unfold((done + 1) as nat);
            assert(value * pow2((done + 1) as nat) == 2 * (value * pow2(done as nat)))
                by (nonlinear_arith)
                requires
                    pow2((done + 1) as nat) == 2 * pow2(done as nat),
            ;
        }
        if result > u64::MAX / 2 {
            result = u64::MAX;
        } else {
            result = result * 2;
        }
        done += 1;
    }
    result
}

/// The stabilization wait for a time constant, in nanoseconds.  The time
/// constant is given as the bits of a 32-bit float, in seconds.
pub fn stabilization_wait(tau: u32) -> (nanos: u64)
    ensures
        nanos == stabilization_nanos(tau),
        nanos >= SECOND,
{
    let exponent: u32 = (tau / 0x80_0000) % 256;
    let fraction: u32 = tau % 0x80_0000;
    if tau >= 0x8000_0000 || (exponent == 255 && fraction != 0) {
        return SECOND;
    }
    if exponent == 255 {
        return u64::MAX;
    }
    let significand: u32 = if exponent == 0 {
        fraction
    } else {
        0x80_0000 + fraction
    };
    let scale: u32 = if exponent == 0 {
        1
    } else {
        exponent
    };
    let product: u64 = TIME_CONSTANTS * SECOND * (significand as u64);
    let ten_tau = if scale >= 150 {
        double(product, scale - 150)
    } else {
        halve(product, 150 - scale)
    };
    proof {
        let n = (TIME_CONSTANTS * SECOND) as nat;
        assert(product as nat == n * significand_of(tau));
        if scale < 150 {
            lemma_pow2_pos((150 - scale) as nat);
            assert(times_float(n, tau) == ten_tau);
        } else {
            assert(times_float(n, tau) == product * pow2((scale - 150) as nat));
        }
    }
    if ten_tau <= SECOND {
        SECOND
    } else {
        ten_tau
    }
}

} // verus!

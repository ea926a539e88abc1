//! The timestamp decoder: a unit-disambiguating reader of epoch values.
//!
//! The feed writes event times as strings of digits, as JSON integers, or
//! as JSON floats, and is inconsistent about whether the value counts
//! seconds or milliseconds.  The policy here is explicit: a raw value below
//! [`MS_UNIT_THRESHOLD`] counts seconds, any other counts milliseconds, and
//! a resulting instant before [`LAUNCH_EPOCH_MS`] is rejected as
//! [`DecodeError::TimestampBeforeLaunch`] rather than silently accepted,
//! since such a value signals a unit-confusion bug upstream.

use vstd::prelude::*;

use crate::errors::DecodeError;
use crate::errors::ErrorModel;
use crate::json::value_model;
use crate::json::JsonModel;
use crate::numeric::digits_end;
use crate::numeric::digits_pair_val;
use crate::numeric::digits_range_val;
use crate::numeric::digits_val;
use crate::numeric::exp_digits_start;
use crate::numeric::exp_range_val;
use crate::numeric::has_exp;
use crate::numeric::has_frac;
use crate::numeric::is_dec_digit;
use crate::numeric::is_json_number;
use crate::numeric::check_json_number;
use crate::numeric::lemma_digits_end_bounds;
use crate::numeric::lemma_digits_end_chars;
use crate::numeric::lemma_digits_val_bounds;
use crate::numeric::lemma_digits_val_drop;
use crate::numeric::lemma_digits_val_zero;
use crate::numeric::lemma_json_number_ranges;
use crate::numeric::lemma_pow10_20_large;
use crate::numeric::lemma_pow10_monotone;
use crate::numeric::lemma_pow10_pos;
use crate::numeric::lit_exp_val;
use crate::numeric::lit_frac_digits;
use crate::numeric::lit_int_digits;
use crate::numeric::lit_mantissa;
use crate::numeric::lit_trunc_mag;
use crate::numeric::lit_trunc_val;
use crate::numeric::mul_pow10;
use crate::numeric::num_end;
use crate::numeric::pow10;
use crate::numeric::range_all_zero;
use crate::numeric::scan_number;

verus! {

/// Raw epoch values below this magnitude are read as seconds; values at or
/// above it as milliseconds.
pub const MS_UNIT_THRESHOLD: u64 = 1_000_000_000_000;

/// The earliest plausible instant of the feed — the exchange's launch on
/// 14 July 2017, in milliseconds; anything earlier is a unit-confusion
/// decode error.
pub const LAUNCH_EPOCH_MS: u64 = 1_500_000_000_000;

/// A UTC instant with sub-second precision: seconds since the Unix epoch
/// and a nanosecond remainder.
#[derive(Debug, Clone, Copy, PartialEq, Eq, Structural)]
pub struct CanonicalTimestamp {
    pub secs: u64,
    pub nanos: u32,
}

impl CanonicalTimestamp {
    /// The instant in milliseconds since the Unix epoch.
    pub open spec fn spec_millis(&self) -> int {
        self.secs * 1000 + self.nanos / 1_000_000
    }

    /// The invariant every decoded timestamp satisfies: a nanosecond
    /// remainder below one second carrying whole milliseconds only, and an
    /// instant no earlier than the launch epoch.
    pub open spec fn well_formed(&self) -> bool {
        &&& self.nanos < 1_000_000_000
        &&& self.nanos % 1_000_000 == 0
        &&& self.spec_millis() >= LAUNCH_EPOCH_MS
    }

    /// Builds the canonical instant for a millisecond epoch value.
    pub fn from_millis(ms: u64) -> (t: CanonicalTimestamp)
        requires
            ms >= LAUNCH_EPOCH_MS,
        ensures
            t == spec_ts_from_ms(ms as int),
            t.well_formed(),
            t.spec_millis() == ms,
    {
        let t = CanonicalTimestamp { secs: ms / 1000, nanos: (ms % 1000) as u32 * 1_000_000 };
        proof {
            assert(t.spec_millis() == ms);
        }
        t
    }

    /// The instant in milliseconds since the Unix epoch.
    pub fn millis(&self) -> (r: u64)
        requires
            self.spec_millis() <= u64::MAX,
        ensures
            r as int == self.spec_millis(),
    {
        self.secs * 1000 + (self.nanos / 1_000_000) as u64
    }
}

/// The canonical instant of a millisecond epoch value.
pub open spec fn spec_ts_from_ms(ms: int) -> CanonicalTimestamp {
    CanonicalTimestamp { secs: (ms / 1000) as u64, nanos: ((ms % 1000) * 1_000_000) as u32 }
}

/// The unit policy: a raw value below the threshold counts seconds and is
/// scaled to milliseconds, any other already counts milliseconds.
pub open spec fn spec_raw_to_ms(n: int) -> int {
    if n < MS_UNIT_THRESHOLD {
        n * 1000
    } else {
        n
    }
}

/// What classifying a raw epoch value yields: the canonical instant, or
/// `TimestampBeforeLaunch` below the launch epoch, or `InvalidNumber` for a
/// value too large to denote an instant.
pub open spec fn spec_classify_epoch(n: int) -> Result<CanonicalTimestamp, ErrorModel> {
    let ms: int = spec_raw_to_ms(n);
    if ms < LAUNCH_EPOCH_MS {
        Err(ErrorModel::TimestampBeforeLaunch)
    } else if ms > u64::MAX {
        Err(ErrorModel::InvalidNumber)
    } else {
        Ok(spec_ts_from_ms(ms))
    }
}

/// The length of an optional leading `+` or `-` sign.
pub open spec fn int_string_sign_end(s: Seq<char>) -> int {
    if s.len() > 0 && (s[0] == '+' || s[0] == '-') {
        1
    } else {
        0
    }
}

/// An optionally signed, non-empty string of digits.
pub open spec fn is_int_string(s: Seq<char>) -> bool {
    s.len() > int_string_sign_end(s) && digits_end(s, int_string_sign_end(s)) == s.len()
}

/// The signed value of an integer string.
pub open spec fn int_string_val(s: Seq<char>) -> int {
    let mag: int = digits_val(s.subrange(int_string_sign_end(s), s.len() as int));
    if s.len() > 0 && s[0] == '-' {
        -mag
    } else {
        mag
    }
}

/// What [`decode_timestamp`] yields for each wire shape: integer strings,
/// integers and floats are classified under the unit policy; every other
/// shape is `InvalidNumber`.
pub open spec fn spec_decode_timestamp(j: JsonModel) -> Result<CanonicalTimestamp, ErrorModel> {
    match j {
        // an integer below the i64 range cannot be read back from the
        // parser and counts as no number
        JsonModel::IntNum(i) => if i < i64::MIN {
            Err(ErrorModel::InvalidNumber)
        } else {
            spec_classify_epoch(i)
        },
        JsonModel::StrVal(s) => if is_int_string(s) {
            spec_classify_epoch(int_string_val(s))
        } else {
            Err(ErrorModel::InvalidNumber)
        },
        JsonModel::FloatNum(t) => if is_json_number(t) {
            spec_classify_epoch(lit_trunc_val(t))
        } else {
            Err(ErrorModel::InvalidNumber)
        },
        _ => Err(ErrorModel::InvalidNumber),
    }
}

/// Boundary of the unit policy: a raw value of exactly the threshold is
/// read as milliseconds, and one unit below it is read as seconds.
pub proof fn lemma_unit_threshold_boundary()
    ensures
        spec_raw_to_ms(MS_UNIT_THRESHOLD as int) == MS_UNIT_THRESHOLD as int,
        spec_raw_to_ms(MS_UNIT_THRESHOLD as int - 1) == (MS_UNIT_THRESHOLD as int - 1) * 1000,
{
}

/// A raw value whose instant falls strictly before the launch epoch is
/// rejected as `TimestampBeforeLaunch`, never silently accepted.
pub proof fn lemma_before_launch_rejected(n: int)
    requires
        spec_raw_to_ms(n) < LAUNCH_EPOCH_MS,
    ensures
        spec_classify_epoch(n) == Err::<CanonicalTimestamp, ErrorModel>(
            ErrorModel::TimestampBeforeLaunch,
        ),
{
}

/// Classifies a non-negative raw epoch value under the unit policy.
fn classify_epoch_u64(n: u64) -> (r: Result<CanonicalTimestamp, DecodeError>)
    ensures
        match spec_classify_epoch(n as int) {
            Ok(t) => r matches Ok(x) && x == t && x.well_formed(),
            Err(e) => r matches Err(err) && err@ == e,
        },
{
    let ms: u64 = if n < MS_UNIT_THRESHOLD {
        n * 1000
    } else {
        n
    };
    if ms < LAUNCH_EPOCH_MS {
        Err(DecodeError::TimestampBeforeLaunch)
    } else {
        Ok(CanonicalTimestamp::from_millis(ms))
    }
}

/// Decodes a string wire timestamp: an optionally signed digit string.
fn decode_timestamp_str(s: &str) -> (r: Result<CanonicalTimestamp, DecodeError>)
    ensures
        match (if is_int_string(s@) {
            spec_classify_epoch(int_string_val(s@))
        } else {
            Err(ErrorModel::InvalidNumber)
        }) {
            Ok(t) => r matches Ok(x) && x == t && x.well_formed(),
            Err(e) => r matches Err(err) && err@ == e,
        },
{
    let len: usize = s.unicode_len();
    let signed: bool = len > 0 && (s.get_char(0) == '+' || s.get_char(0) == '-');
    let neg: bool = len > 0 && s.get_char(0) == '-';
    let i0: usize = if signed {
        1
    } else {
        0
    };
    if i0 >= len {
        return Err(DecodeError::InvalidNumber);
    }
    let end: usize = crate::numeric::digits_end_exec(s, i0, len);
    if end != len {
        proof {
            lemma_digits_end_bounds(s@, i0 as int);
        }
        return Err(DecodeError::InvalidNumber);
    }
    proof {
        lemma_digits_end_chars(s@, i0 as int);
    }
    proof {
        assert(forall|k: int|
            0 <= k < s@.subrange(i0 as int, len as int).len() ==> is_dec_digit(
                #[trigger] s@.subrange(i0 as int, len as int)[k],
            ));
        lemma_digits_val_bounds(s@.subrange(i0 as int, len as int));
    }
    if neg {
        // a negative epoch value is classified as seconds and lands before
        // the launch epoch whatever its magnitude
        Err(DecodeError::TimestampBeforeLaunch)
    } else {
        match digits_range_val(s, i0, len) {
            Some(v) => classify_epoch_u64(v),
            None => {
                // the value exceeds u64::MAX, so it is read as milliseconds
                // and denotes no representable instant
                Err(DecodeError::InvalidNumber)
            },
        }
    }
}

/// The magnitude of a valid literal's truncated value is non-negative.
proof fn lemma_trunc_mag_nonneg(s: Seq<char>)
    requires
        is_json_number(s),
        forall|k: int| 0 <= k < lit_mantissa(s).len() ==> is_dec_digit(#[trigger] lit_mantissa(s)[k]),
    ensures
        lit_trunc_mag(s) >= 0,
{
    let dv: int = digits_val(lit_mantissa(s));
    lemma_digits_val_bounds(lit_mantissa(s));
    let k: int = lit_frac_digits(s).len() - lit_exp_val(s);
    if k <= 0 {
        lemma_pow10_pos((-k) as nat);
        assert(dv * pow10((-k) as nat) >= 0) by (nonlinear_arith)
            requires
                dv >= 0,
                pow10((-k) as nat) >= 1,
        ;
    } else {
        lemma_pow10_pos(k as nat);
        vstd::arithmetic::div_mod::lemma_div_pos_is_pos(dv, pow10(k as nat));
    }
}

/// The mantissa digit positions of a valid literal all hold digits.
proof fn lemma_mantissa_digits(s: Seq<char>)
    requires
        is_json_number(s),
    ensures
        forall|k: int| 0 <= k < lit_mantissa(s).len() ==> is_dec_digit(#[trigger] lit_mantissa(s)[k]),
{
    lemma_json_number_ranges(s);
    let a = lit_int_digits(s);
    let b = lit_frac_digits(s);
    assert(forall|k: int| 0 <= k < a.len() ==> is_dec_digit(#[trigger] a[k]));
    assert(forall|k: int| 0 <= k < b.len() ==> is_dec_digit(#[trigger] b[k]));
    assert(forall|k: int| 0 <= k < (a + b).len() ==> is_dec_digit(#[trigger] (a + b)[k]));
}

/// Decodes the decimal rendering of a float wire timestamp, truncating the
/// value toward zero.
#[verifier::rlimit(100)]
fn decode_timestamp_float_text(t: &str) -> (r: Result<CanonicalTimestamp, DecodeError>)
    ensures
        match (if is_json_number(t@) {
            spec_classify_epoch(lit_trunc_val(t@))
        } else {
            Err(ErrorModel::InvalidNumber)
        }) {
            Ok(x) => r matches Ok(y) && y == x && y.well_formed(),
            Err(e) => r matches Err(err) && err@ == e,
        },
{
    if !check_json_number(t) {
        return Err(DecodeError::InvalidNumber);
    }
    let len: usize = t.unicode_len();
    let scan = scan_number(t, len);
    proof {
        lemma_json_number_ranges(t@);
        lemma_mantissa_digits(t@);
    }
    let neg: bool = len > 0 && t.get_char(0) == '-';
    if neg {
        // a negative value is classified as seconds and lands before the
        // launch epoch whatever its magnitude
        proof {
            lemma_trunc_mag_nonneg(t@);
        }
        return Err(DecodeError::TimestampBeforeLaunch);
    }
    let int_from: usize = scan.sign_end;
    let int_to: usize = scan.int_end;
    let has_f: bool = int_to < len && t.get_char(int_to) == '.';
    let f_from: usize = if has_f {
        int_to + 1
    } else {
        int_to
    };
    let f_to: usize = if has_f {
        scan.frac_end
    } else {
        int_to
    };
    proof {
        if !has_frac(t@) {
            assert(t@.subrange(f_from as int, f_to as int) =~= Seq::<char>::empty());
        }
        assert(lit_int_digits(t@) == t@.subrange(int_from as int, int_to as int));
        assert(lit_frac_digits(t@) == t@.subrange(f_from as int, f_to as int));
    }
    let int_len: usize = int_to - int_from;
    let frac_len: usize = f_to - f_from;
    let ghost mant: Seq<char> = lit_mantissa(t@);
    // a mantissa of zeros denotes zero whatever the exponent says
    if range_all_zero(t, int_from, int_to) && range_all_zero(t, f_from, f_to) {
        proof {
            assert(forall|k: int| 0 <= k < mant.len() ==> mant[k] == '0');
            lemma_digits_val_zero(mant);
            let kk: int = lit_frac_digits(t@).len() - lit_exp_val(t@);
            if kk <= 0 {
                assert(0 * pow10((-kk) as nat) == 0) by (nonlinear_arith);
            } else {
                lemma_pow10_pos(kk as nat);
                vstd::arithmetic::div_mod::lemma_fundamental_div_mod_converse(
                    0,
                    pow10(kk as nat),
                    0,
                    0,
                );
            }
            assert(lit_trunc_mag(t@) == 0);
        }
        return Err(DecodeError::TimestampBeforeLaunch);
    }
    let ghost mant_dv: int = digits_val(mant);
    proof {
        lemma_digits_val_bounds(mant);
        lemma_digits_val_zero(mant);
        if mant_dv == 0 {
            assert forall|k: int| int_from <= k < int_to implies t@[k] == '0' by {
                assert(mant[k - int_from] == t@[k]);
            }
            assert forall|k: int| f_from <= k < f_to implies t@[k] == '0' by {
                assert(mant[int_len + (k - f_from)] == t@[k]);
            }
            assert(false);
        }
    }
    let has_e: bool = scan.frac_end < len && (t.get_char(scan.frac_end) == 'e' || t.get_char(
        scan.frac_end,
    ) == 'E');
    let exp_neg: bool = has_e && scan.exp_start == scan.frac_end + 2 && t.get_char(
        scan.frac_end + 1,
    ) == '-';
    let exp_mag: Option<u128> = if has_e {
        exp_range_val(t, scan.exp_start, scan.end)
    } else {
        Some(0u128)
    };
    let ghost e_spec: int = lit_exp_val(t@);
    proof {
        if !has_exp(t@) {
            assert(e_spec == 0);
        } else {
            lemma_digits_val_bounds(t@.subrange(exp_digits_start(t@), num_end(t@)));
        }
        assert(match exp_mag {
            Some(v) => v as int == if exp_neg {
                -e_spec
            } else {
                e_spec
            },
            None => (if exp_neg {
                -e_spec
            } else {
                e_spec
            }) >= pow10(20),
        });
    }
    let ghost dv: int = digits_val(mant);
    let ghost kk: int = lit_frac_digits(t@).len() - e_spec;
    proof {
        lemma_digits_val_bounds(mant);
    }
    if exp_neg {
        // value = mantissa / 10^(frac_len + |e|): keep the digits left of
        // the shifted point, which all come from the integer part
        let keep: usize = match exp_mag {
            Some(e) => {
                if e >= int_len as u128 {
                    0
                } else {
                    int_len - (e as usize)
                }
            },
            None => 0,
        };
        proof {
            if exp_mag is None {
                lemma_pow10_20_large();
            }
            lemma_keep_is_trunc(t@, keep as int);
        }
        if keep == 0 {
            return Err(DecodeError::TimestampBeforeLaunch);
        }
        match digits_pair_val(t, int_from, int_from + keep, int_from, int_from) {
            Some(v) => {
                proof {
                    assert(t@.subrange(int_from as int, int_from as int)
                        =~= Seq::<char>::empty());
                    assert(t@.subrange(int_from as int, int_from + keep) + Seq::<char>::empty()
                        =~= mant.take(keep as int));
                }
                classify_epoch_u64(v)
            },
            None => {
                proof {
                    assert(t@.subrange(int_from as int, int_from as int)
                        =~= Seq::<char>::empty());
                    assert(t@.subrange(int_from as int, int_from + keep) + Seq::<char>::empty()
                        =~= mant.take(keep as int));
                }
                Err(DecodeError::InvalidNumber)
            },
        }
    } else {
        // value = mantissa * 10^e / 10^frac_len
        let fl20: u128 = frac_len as u128 + 20;
        let big: bool = match exp_mag {
            Some(e) => e >= fl20,
            None => true,
        };
        if big {
            // the shift is at least twenty digits, past the u64 range
            proof {
                lemma_pow10_20_large();
                assert(e_spec - frac_len >= 20);
                lemma_big_shift_overflows(t@);
            }
            return Err(DecodeError::InvalidNumber);
        }
        let e: u128 = match exp_mag {
            Some(v) => v,
            None => 0,  // unreachable: big would have been true
        };
        if e >= frac_len as u128 {
            // shift the point right past the fraction: multiply what is
            // left
            let shift: usize = (e - frac_len as u128) as usize;
            proof {
                assert(kk <= 0 && -kk == shift as int);
            }
            match digits_pair_val(t, int_from, int_to, f_from, f_to) {
                Some(v) => {
                    match mul_pow10(v, shift) {
                        Some(w) => classify_epoch_u64(w),
                        None => Err(DecodeError::InvalidNumber),
                    }
                },
                None => {
                    proof {
                        lemma_pow10_pos((-kk) as nat);
                        assert(dv * pow10((-kk) as nat) >= dv) by (nonlinear_arith)
                            requires
                                dv >= 0,
                                pow10((-kk) as nat) >= 1,
                        ;
                    }
                    Err(DecodeError::InvalidNumber)
                },
            }
        } else {
            // the point stays inside the fraction: keep int digits plus the
            // first e fraction digits
            let keep_frac: usize = e as usize;
            proof {
                assert(kk == frac_len - e && 0 < kk <= frac_len as int);
                lemma_digits_val_drop(mant, kk);
                assert(mant.take(mant.len() - kk) =~= t@.subrange(int_from as int, int_to as int)
                    + t@.subrange(f_from as int, f_from + keep_frac));
            }
            match digits_pair_val(t, int_from, int_to, f_from, f_from + keep_frac) {
                Some(v) => classify_epoch_u64(v),
                None => Err(DecodeError::InvalidNumber),
            }
        }
    }
}

/// For a non-negative exponent shift of at least twenty digits, a non-zero
/// mantissa overflows the u64 range.
proof fn lemma_big_shift_overflows(s: Seq<char>)
    requires
        is_json_number(s),
        lit_exp_val(s) - lit_frac_digits(s).len() >= 20,
        digits_val(lit_mantissa(s)) >= 1,
    ensures
        lit_trunc_mag(s) > u64::MAX,
{
    let dv: int = digits_val(lit_mantissa(s));
    let k: int = lit_frac_digits(s).len() - lit_exp_val(s);
    assert(-k >= 20);
    lemma_pow10_monotone(20, (-k) as nat);
    lemma_pow10_20_large();
    assert(dv * pow10((-k) as nat) >= pow10((-k) as nat)) by (nonlinear_arith)
        requires
            dv >= 1,
            pow10((-k) as nat) >= 0,
    ;
}

/// With a negative exponent, keeping `keep` leading integer digits is the
/// truncated division the value calls for; `keep == 0` means the value
/// truncates to zero.
proof fn lemma_keep_is_trunc(s: Seq<char>, keep: int)
    requires
        is_json_number(s),
        lit_exp_val(s) <= 0,
        keep == if -lit_exp_val(s) >= lit_int_digits(s).len() {
            0
        } else {
            lit_int_digits(s).len() + lit_exp_val(s)
        },
    ensures
        keep > 0 ==> lit_trunc_mag(s) == digits_val(lit_mantissa(s).take(keep)),
        keep == 0 ==> lit_trunc_mag(s) == 0,
        0 <= keep <= lit_int_digits(s).len(),
{
    lemma_mantissa_digits(s);
    let mant = lit_mantissa(s);
    let dv: int = digits_val(mant);
    let k: int = lit_frac_digits(s).len() - lit_exp_val(s);
    assert(k >= lit_frac_digits(s).len());
    lemma_digits_val_bounds(mant);
    if keep == 0 {
        // k >= mant.len(): the divisor reaches past every digit
        assert(k >= mant.len());
        lemma_pow10_monotone(mant.len() as nat, k as nat);
        lemma_pow10_pos(k as nat);
        vstd::arithmetic::div_mod::lemma_fundamental_div_mod_converse(dv, pow10(k as nat), 0, dv);
    } else {
        if k == 0 {
            assert(mant.take(keep) =~= mant);
            lemma_pow10_pos(0);
            assert(dv * pow10(0) == dv) by (nonlinear_arith)
                requires
                    pow10(0) == 1,
            ;
        } else {
            assert(k == mant.len() - keep);
            lemma_digits_val_drop(mant, k);
        }
    }
}

/// Decodes a wire value that may be a digit string, a JSON integer or a
/// JSON float into a canonical timestamp under the unit policy; every
/// other shape is `InvalidNumber`.
pub fn decode_timestamp(v: &serde_json::Value) -> (r: Result<CanonicalTimestamp, DecodeError>)
    ensures
        match spec_decode_timestamp(value_model(*v)) {
            Ok(t) => r matches Ok(x) && x == t,
            Err(e) => r matches Err(err) && err@ == e,
        },
        r matches Ok(t) ==> t.well_formed(),
{
    if let Some(u) = crate::json::json_as_u64(v) {
        classify_epoch_u64(u)
    } else if let Some(i) = crate::json::json_as_i64(v) {
        // only reached for negative integers, which the unit policy reads
        // as seconds before the launch epoch
        Err(DecodeError::TimestampBeforeLaunch)
    } else if let Some(s) = crate::json::json_as_str(v) {
        decode_timestamp_str(s)
    } else if let Some(t) = crate::json::json_float_text(v) {
        decode_timestamp_float_text(t.as_str())
    } else {
        Err(DecodeError::InvalidNumber)
    }
}

} // verus!

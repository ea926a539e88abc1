//! The numeric decoder: a representation-unifier for wire numbers.
//!
//! A wire value carrying a number may be a JSON string holding a numeric
//! literal, a JSON integer, or a JSON float.  [`decode_number`] resolves all
//! three to one canonical form, [`CanonicalNumber`], which holds the number
//! as a validated JSON numeric literal; no rounding or unit conversion is
//! performed.  Conversion to a machine float is left to the unverified
//! boundary (and to tests), which keeps floating point out of the verified
//! core while pinning the exact text the number came from.

use vstd::prelude::*;

use crate::errors::DecodeError;
use crate::errors::ErrorModel;
use crate::json::value_model;
use crate::json::JsonModel;

verus! {

pub open spec fn is_dec_digit(c: char) -> bool {
    '0' <= c && c <= '9'
}

/// The first index at or after `i` that does not hold a decimal digit.
pub open spec fn digits_end(s: Seq<char>, i: int) -> int
    decreases s.len() - i when 0 <= i <= s.len()
{
    if 0 <= i && i < s.len() && is_dec_digit(s[i]) {
        digits_end(s, i + 1)
    } else {
        i
    }
}

pub proof fn lemma_digits_end_bounds(s: Seq<char>, i: int)
    requires
        0 <= i <= s.len(),
    ensures
        i <= digits_end(s, i) <= s.len(),
    decreases s.len() - i,
{
    if i < s.len() && is_dec_digit(s[i]) {
        lemma_digits_end_bounds(s, i + 1);
    }
}

/// Every position of an all-digit tail is consumed by the digit scan.
pub proof fn lemma_digits_end_all(s: Seq<char>, i: int)
    requires
        0 <= i <= s.len(),
        forall|k: int| i <= k < s.len() ==> is_dec_digit(s[k]),
    ensures
        digits_end(s, i) == s.len(),
    decreases s.len() - i,
{
    if i < s.len() {
        lemma_digits_end_all(s, i + 1);
    }
}

/// The scanned range holds digits only, and the scan stops at a non-digit
/// or at the end.
pub proof fn lemma_digits_end_chars(s: Seq<char>, i: int)
    requires
        0 <= i <= s.len(),
    ensures
        forall|k: int| i <= k < digits_end(s, i) ==> is_dec_digit(s[k]),
        digits_end(s, i) < s.len() ==> !is_dec_digit(s[digits_end(s, i)]),
    decreases s.len() - i,
{
    if i < s.len() && is_dec_digit(s[i]) {
        lemma_digits_end_chars(s, i + 1);
    }
}

// The positions of the parts of a JSON numeric literal, scanned left to
// right: optional minus sign, integer part, optional fraction, optional
// exponent.  Each function is total; `is_json_number` then says when the
// scan describes a valid literal that covers the whole text.
pub open spec fn num_sign_end(s: Seq<char>) -> int {
    if s.len() > 0 && s[0] == '-' {
        1
    } else {
        0
    }
}

pub open spec fn num_int_end(s: Seq<char>) -> int {
    let i: int = num_sign_end(s);
    if i < s.len() && s[i] == '0' {
        i + 1
    } else {
        digits_end(s, i)
    }
}

pub open spec fn has_frac(s: Seq<char>) -> bool {
    num_int_end(s) < s.len() && s[num_int_end(s)] == '.'
}

pub open spec fn num_frac_end(s: Seq<char>) -> int {
    if has_frac(s) {
        digits_end(s, num_int_end(s) + 1)
    } else {
        num_int_end(s)
    }
}

pub open spec fn has_exp(s: Seq<char>) -> bool {
    num_frac_end(s) < s.len() && (s[num_frac_end(s)] == 'e' || s[num_frac_end(s)] == 'E')
}

pub open spec fn exp_digits_start(s: Seq<char>) -> int {
    let f: int = num_frac_end(s);
    if has_exp(s) {
        if f + 1 < s.len() && (s[f + 1] == '+' || s[f + 1] == '-') {
            f + 2
        } else {
            f + 1
        }
    } else {
        f
    }
}

pub open spec fn num_end(s: Seq<char>) -> int {
    if has_exp(s) {
        digits_end(s, exp_digits_start(s))
    } else {
        num_frac_end(s)
    }
}

/// The JSON numeric-literal grammar: an optional minus sign, an integer
/// part without redundant leading zeros, an optional fraction with at least
/// one digit, an optional exponent with at least one digit, and nothing
/// else.
pub open spec fn is_json_number(s: Seq<char>) -> bool {
    &&& num_int_end(s) > num_sign_end(s)
    &&& (has_frac(s) ==> num_frac_end(s) > num_int_end(s) + 1)
    &&& (has_exp(s) ==> num_end(s) > exp_digits_start(s))
    &&& num_end(s) == s.len()
}

/// Whether the literal denotes a negative number.
pub open spec fn lit_is_neg(s: Seq<char>) -> bool {
    s.len() > 0 && s[0] == '-'
}

/// Exec mirror of [`digits_end`].
pub(crate) fn digits_end_exec(s: &str, i: usize, len: usize) -> (r: usize)
    requires
        len as nat == s@.len(),
        i <= len,
    ensures
        r as int == digits_end(s@, i as int),
        i <= r <= len,
{
    let mut j: usize = i;
    loop
        invariant_except_break
            i <= j <= len,
            len as nat == s@.len(),
            digits_end(s@, i as int) == digits_end(s@, j as int),
        ensures
            j as int == digits_end(s@, i as int),
            i <= j <= len,
        decreases len - j,
    {
        if j == len {
            break;
        }
        let c = s.get_char(j);
        if c < '0' || c > '9' {
            break;
        }
        j = j + 1;
    }
    j
}

/// The positions of the parts of a numeric literal, as
/// [`check_json_number`] computes them.
pub(crate) struct NumScan {
    pub(crate) sign_end: usize,
    pub(crate) int_end: usize,
    pub(crate) frac_end: usize,
    pub(crate) exp_start: usize,
    pub(crate) end: usize,
}

impl NumScan {
    pub(crate) open spec fn matches(&self, s: Seq<char>) -> bool {
        &&& self.sign_end as int == num_sign_end(s)
        &&& self.int_end as int == num_int_end(s)
        &&& self.frac_end as int == num_frac_end(s)
        &&& self.exp_start as int == exp_digits_start(s)
        &&& self.end as int == num_end(s)
    }
}

/// Scans a candidate numeric literal and returns the part positions.
pub(crate) fn scan_number(s: &str, len: usize) -> (r: NumScan)
    requires
        len as nat == s@.len(),
    ensures
        r.matches(s@),
        r.end <= len,
{
    let i0: usize = if len > 0 && s.get_char(0) == '-' {
        1
    } else {
        0
    };
    let i1: usize = if i0 < len && s.get_char(i0) == '0' {
        i0 + 1
    } else {
        digits_end_exec(s, i0, len)
    };
    let has_f: bool = i1 < len && s.get_char(i1) == '.';
    let f: usize = if has_f {
        digits_end_exec(s, i1 + 1, len)
    } else {
        i1
    };
    let has_e: bool = f < len && (s.get_char(f) == 'e' || s.get_char(f) == 'E');
    let es: usize = if has_e {
        if f + 1 < len && (s.get_char(f + 1) == '+' || s.get_char(f + 1) == '-') {
            f + 2
        } else {
            f + 1
        }
    } else {
        f
    };
    let end: usize = if has_e {
        digits_end_exec(s, es, len)
    } else {
        f
    };
    NumScan { sign_end: i0, int_end: i1, frac_end: f, exp_start: es, end }
}

/// Decides membership in the JSON numeric-literal grammar.
pub fn check_json_number(s: &str) -> (r: bool)
    ensures
        r == is_json_number(s@),
{
    let len: usize = s.unicode_len();
    let scan = scan_number(s, len);
    let has_f: bool = scan.int_end < len && s.get_char(scan.int_end) == '.';
    let has_e: bool = scan.frac_end < len && (s.get_char(scan.frac_end) == 'e' || s.get_char(
        scan.frac_end,
    ) == 'E');
    scan.int_end > scan.sign_end && (!has_f || scan.frac_end > scan.int_end + 1) && (!has_e
        || scan.end > scan.exp_start) && scan.end == len
}

/// A wire number in canonical form: the JSON numeric literal it denotes.
///
/// The invariant that the text satisfies the literal grammar is established
/// by every constructor, so a holder can always hand the text to a float
/// parser at the unverified boundary.
#[derive(Debug, Clone, PartialEq, Eq)]
pub struct CanonicalNumber {
    text: String,
}

impl View for CanonicalNumber {
    type V = Seq<char>;

    closed spec fn view(&self) -> Seq<char> {
        self.text@
    }
}

impl CanonicalNumber {
    /// The well-formedness invariant: the text is a JSON numeric literal.
    pub open spec fn well_formed(&self) -> bool {
        is_json_number(self@)
    }

    /// The literal text of the number.
    pub fn as_str(&self) -> (r: &str)
        ensures
            r@ == self@,
    {
        self.text.as_str()
    }

    /// Whether the number is negative, read off the leading minus sign.
    pub fn is_negative(&self) -> (r: bool)
        ensures
            r == lit_is_neg(self@),
    {
        let len: usize = self.text.as_str().unicode_len();
        len > 0 && self.text.as_str().get_char(0) == '-'
    }

    /// Validates a text against the literal grammar.
    pub fn from_literal(s: &str) -> (r: Option<CanonicalNumber>)
        ensures
            is_json_number(s@) ==> (r matches Some(n) && n@ == s@),
            !is_json_number(s@) ==> r is None,
            r matches Some(n) ==> n.well_formed(),
    {
        if check_json_number(s) {
            Some(CanonicalNumber { text: s.to_owned() })
        } else {
            None
        }
    }
}

// Rendering an integer wire value as a decimal literal.
pub open spec fn spec_digit_char(d: int) -> char {
    if d == 0 {
        '0'
    } else if d == 1 {
        '1'
    } else if d == 2 {
        '2'
    } else if d == 3 {
        '3'
    } else if d == 4 {
        '4'
    } else if d == 5 {
        '5'
    } else if d == 6 {
        '6'
    } else if d == 7 {
        '7'
    } else if d == 8 {
        '8'
    } else {
        '9'
    }
}

/// The decimal digit sequence of a non-negative integer.
pub open spec fn dec_digits(n: int) -> Seq<char>
    decreases n when n >= 0
{
    if n < 10 {
        seq![spec_digit_char(n)]
    } else {
        dec_digits(n / 10).push(spec_digit_char(n % 10))
    }
}

/// The decimal literal of any integer, minus sign included.
pub open spec fn int_literal(i: int) -> Seq<char> {
    if i >= 0 {
        dec_digits(i)
    } else {
        seq!['-'] + dec_digits(-i)
    }
}

pub proof fn lemma_dec_digits_shape(n: int)
    requires
        n >= 0,
    ensures
        dec_digits(n).len() >= 1,
        forall|k: int| 0 <= k < dec_digits(n).len() ==> is_dec_digit(dec_digits(n)[k]),
        n >= 1 ==> dec_digits(n)[0] != '0',
        n >= 10 ==> dec_digits(n).len() >= 2,
        n < 10 ==> dec_digits(n) == seq![spec_digit_char(n)],
    decreases n,
{
    if n >= 10 {
        lemma_dec_digits_shape(n / 10);
    }
}

/// An integer's decimal literal is a valid JSON numeric literal.
pub proof fn lemma_int_literal_valid(i: int)
    requires
        -0x8000_0000_0000_0000 <= i <= 0xffff_ffff_ffff_ffff,
    ensures
        is_json_number(int_literal(i)),
        lit_is_neg(int_literal(i)) <==> i < 0,
{
    let s = int_literal(i);
    let mag: int = if i >= 0 {
        i
    } else {
        -i
    };
    lemma_dec_digits_shape(mag);
    let i0: int = num_sign_end(s);
    assert(i0 == if i < 0 { 1int } else { 0int });
    assert(forall|k: int| i0 <= k < s.len() ==> is_dec_digit(s[k]));
    if mag < 10 {
        assert(s[i0] == spec_digit_char(mag));
        if s[i0] == '0' {
            assert(num_int_end(s) == i0 + 1);
            assert(s.len() == i0 + 1);
        } else {
            lemma_digits_end_all(s, i0);
        }
    } else {
        assert(s[i0] == dec_digits(mag)[0]);
        assert(s[i0] != '0');
        lemma_digits_end_all(s, i0);
    }
    assert(num_int_end(s) == s.len());
    assert(!has_frac(s));
    assert(!has_exp(s));
}

/// One decimal digit as a string slice.
fn digit_str(d: u64) -> (r: &'static str)
    requires
        d < 10,
    ensures
        r@ == seq![spec_digit_char(d as int)],
{
    proof {
        reveal_strlit("0");
        reveal_strlit("1");
        reveal_strlit("2");
        reveal_strlit("3");
        reveal_strlit("4");
        reveal_strlit("5");
        reveal_strlit("6");
        reveal_strlit("7");
        reveal_strlit("8");
        reveal_strlit("9");
    }
    let r: &'static str = if d == 0 {
        "0"
    } else if d == 1 {
        "1"
    } else if d == 2 {
        "2"
    } else if d == 3 {
        "3"
    } else if d == 4 {
        "4"
    } else if d == 5 {
        "5"
    } else if d == 6 {
        "6"
    } else if d == 7 {
        "7"
    } else if d == 8 {
        "8"
    } else {
        "9"
    };
    proof {
        assert(r@ =~= seq![spec_digit_char(d as int)]);
    }
    r
}

/// Renders a `u64` as its decimal digit string.
pub fn u64_to_dec(n: u64) -> (s: String)
    ensures
        s@ == dec_digits(n as int),
    decreases n,
{
    if n < 10 {
        digit_str(n).to_owned()
    } else {
        let mut s = u64_to_dec(n / 10);
        s.append(digit_str(n % 10));
        proof {
            assert(s@ =~= dec_digits(n as int));
        }
        s
    }
}

// The numeric value a literal denotes, used by the timestamp decoder to
// evaluate integer strings and float renderings.
/// The value of a digit character.
pub open spec fn char_digit_val(c: char) -> int {
    c as int - '0' as int
}

/// The value of a digit sequence read in base ten.
pub open spec fn digits_val(s: Seq<char>) -> int
    decreases s.len(),
{
    if s.len() == 0 {
        0
    } else {
        digits_val(s.drop_last()) * 10 + char_digit_val(s.last())
    }
}

pub open spec fn pow10(n: nat) -> int
    decreases n,
{
    if n == 0 {
        1
    } else {
        10 * pow10((n - 1) as nat)
    }
}

pub proof fn lemma_pow10_pos(n: nat)
    ensures
        pow10(n) >= 1,
    decreases n,
{
    if n > 0 {
        lemma_pow10_pos((n - 1) as nat);
    }
}

pub proof fn lemma_pow10_monotone(a: nat, b: nat)
    requires
        a <= b,
    ensures
        pow10(a) <= pow10(b),
    decreases b,
{
    if a < b {
        lemma_pow10_monotone(a, (b - 1) as nat);
        lemma_pow10_pos((b - 1) as nat);
    }
}

/// Twenty decimal digits exceed the `u64` range.
pub proof fn lemma_pow10_20_large()
    ensures
        pow10(20) > u64::MAX as int + 100,
{
    reveal_with_fuel(pow10, 21);
    assert(pow10(20) > u64::MAX as int + 100);
}

pub proof fn lemma_digits_val_bounds(s: Seq<char>)
    requires
        forall|k: int| 0 <= k < s.len() ==> is_dec_digit(#[trigger] s[k]),
    ensures
        0 <= digits_val(s) < pow10(s.len()),
    decreases s.len(),
{
    if s.len() > 0 {
        lemma_digits_val_bounds(s.drop_last());
        let p: int = pow10((s.len() - 1) as nat);
        let v: int = digits_val(s.drop_last());
        assert(v * 10 <= (p - 1) * 10) by (nonlinear_arith)
            requires
                v <= p - 1,
        ;
        assert(v * 10 >= 0) by (nonlinear_arith)
            requires
                v >= 0,
        ;
    }
}

/// A digit sequence has value zero exactly when every digit is `'0'`.
pub proof fn lemma_digits_val_zero(s: Seq<char>)
    requires
        forall|k: int| 0 <= k < s.len() ==> is_dec_digit(#[trigger] s[k]),
    ensures
        (digits_val(s) == 0) <==> (forall|k: int| 0 <= k < s.len() ==> s[k] == '0'),
    decreases s.len(),
{
    if s.len() > 0 {
        lemma_digits_val_bounds(s.drop_last());
        lemma_digits_val_zero(s.drop_last());
        if digits_val(s) == 0 {
            assert(digits_val(s.drop_last()) == 0 && char_digit_val(s.last()) == 0);
            assert(forall|k: int| 0 <= k < s.len() - 1 ==> s.drop_last()[k] == '0');
            assert(forall|k: int| 0 <= k < s.len() ==> s[k] == '0') by {
                assert(forall|k: int| 0 <= k < s.len() - 1 ==> s[k] == s.drop_last()[k]);
            }
        } else if forall|k: int| 0 <= k < s.len() ==> s[k] == '0' {
            assert(forall|k: int| 0 <= k < s.len() - 1 ==> s.drop_last()[k] == s[k]);
            assert(digits_val(s.drop_last()) == 0);
            assert(s.last() == '0');
        }
    }
}

/// Splitting a digit sequence splits its value by a power of ten.
pub proof fn lemma_digits_val_split(s: Seq<char>, j: int)
    requires
        forall|k: int| 0 <= k < s.len() ==> is_dec_digit(#[trigger] s[k]),
        0 <= j <= s.len(),
    ensures
        digits_val(s) == digits_val(s.take(j)) * pow10((s.len() - j) as nat) + digits_val(
            s.skip(j),
        ),
        0 <= digits_val(s.skip(j)) < pow10((s.len() - j) as nat),
    decreases s.len() - j,
{
    assert(forall|k: int| 0 <= k < s.skip(j).len() ==> is_dec_digit(#[trigger] s.skip(j)[k]));
    lemma_digits_val_bounds(s.skip(j));
    if j == s.len() {
        assert(s.take(j) =~= s);
        assert(s.skip(j) =~= Seq::<char>::empty());
    } else {
        lemma_digits_val_split(s, j + 1);
        // s.take(j + 1) extends s.take(j) with s[j], and s.skip(j) starts
        // with s[j] followed by s.skip(j + 1).
        assert(s.take(j + 1).drop_last() =~= s.take(j));
        assert(s.take(j + 1).last() == s[j]);
        assert(s.skip(j).take(1).drop_last() =~= Seq::<char>::empty());
        let tj: int = digits_val(s.take(j));
        let d: int = char_digit_val(s[j]);
        let rest: int = digits_val(s.skip(j + 1));
        let p: int = pow10((s.len() - j - 1) as nat);
        assert(digits_val(s.take(j + 1)) == tj * 10 + d);
        assert(digits_val(s) == (tj * 10 + d) * p + rest);
        // the skipped part folds the leading digit back in
        lemma_digits_val_head(s.skip(j));
        assert(s.skip(j).skip(1) =~= s.skip(j + 1));
        assert(s.skip(j)[0] == s[j]);
        assert(digits_val(s.skip(j)) == d * p + rest);
        assert((tj * 10 + d) * p + rest == tj * (10 * p) + (d * p + rest)) by (nonlinear_arith);
    }
}

/// Peeling the leading digit off a non-empty digit sequence.
pub proof fn lemma_digits_val_head(s: Seq<char>)
    requires
        s.len() >= 1,
        forall|k: int| 0 <= k < s.len() ==> is_dec_digit(#[trigger] s[k]),
    ensures
        digits_val(s) == char_digit_val(s[0]) * pow10((s.len() - 1) as nat) + digits_val(s.skip(1)),
    decreases s.len(),
{
    if s.len() == 1 {
        assert(s.drop_last() =~= Seq::<char>::empty());
        assert(s.skip(1) =~= Seq::<char>::empty());
    } else {
        lemma_digits_val_head(s.drop_last());
        assert(s.drop_last()[0] == s[0]);
        assert(s.drop_last().skip(1) =~= s.skip(1).drop_last());
        assert(s.skip(1).last() == s.last());
        let d0: int = char_digit_val(s[0]);
        let p: int = pow10((s.len() - 2) as nat);
        let mid: int = digits_val(s.skip(1).drop_last());
        let c: int = char_digit_val(s.last());
        assert(digits_val(s.drop_last()) == d0 * p + mid);
        assert(digits_val(s) == (d0 * p + mid) * 10 + c);
        assert((d0 * p + mid) * 10 + c == d0 * (10 * p) + (mid * 10 + c)) by (nonlinear_arith);
    }
}

/// Dropping the last `k` digits of a digit sequence divides its value by
/// `10^k`.
pub proof fn lemma_digits_val_drop(s: Seq<char>, k: int)
    requires
        forall|j: int| 0 <= j < s.len() ==> is_dec_digit(#[trigger] s[j]),
        0 <= k <= s.len(),
    ensures
        digits_val(s) / pow10(k as nat) == digits_val(s.take(s.len() - k)),
{
    lemma_digits_val_split(s, s.len() - k);
    lemma_pow10_pos(k as nat);
    assert(forall|j: int|
        0 <= j < s.take(s.len() - k).len() ==> is_dec_digit(#[trigger] s.take(s.len() - k)[j]));
    lemma_digits_val_bounds(s.take(s.len() - k));
    vstd::arithmetic::div_mod::lemma_fundamental_div_mod_converse(
        digits_val(s),
        pow10(k as nat),
        digits_val(s.take(s.len() - k)),
        digits_val(s.skip(s.len() - k)),
    );
}

/// Exec evaluation of the digits in `[from, to)` of `s`, watching for `u64`
/// overflow.
pub(crate) fn digits_range_val(s: &str, from: usize, to: usize) -> (r: Option<u64>)
    requires
        from <= to,
        to as nat <= s@.len(),
        forall|k: int| from <= k < to ==> is_dec_digit(#[trigger] s@[k]),
    ensures
        match r {
            Some(v) => v as int == digits_val(s@.subrange(from as int, to as int)),
            None => digits_val(s@.subrange(from as int, to as int)) > u64::MAX,
        },
{
    let mut acc: Option<u64> = Some(0u64);
    let mut j: usize = from;
    proof {
        assert(s@.subrange(from as int, from as int) =~= Seq::<char>::empty());
    }
    while j < to
        invariant
            from <= j <= to,
            to as nat <= s@.len(),
            forall|k: int| from <= k < to ==> is_dec_digit(#[trigger] s@[k]),
            match acc {
                Some(v) => v as int == digits_val(s@.subrange(from as int, j as int)),
                None => digits_val(s@.subrange(from as int, j as int)) > u64::MAX,
            },
        decreases to - j,
    {
        let c = s.get_char(j);
        let d: u64 = (c as u32 as u64) - 48;
        proof {
            assert(is_dec_digit(s@[j as int]));
            assert(s@.subrange(from as int, j + 1).drop_last() =~= s@.subrange(
                from as int,
                j as int,
            ));
            assert(s@.subrange(from as int, j + 1).last() == s@[j as int]);
        }
        let ghost prev: int = digits_val(s@.subrange(from as int, j as int));
        proof {
            if prev > u64::MAX {
                assert(prev * 10 + char_digit_val(s@[j as int]) > u64::MAX) by (nonlinear_arith)
                    requires
                        prev > u64::MAX,
                        char_digit_val(s@[j as int]) >= 0,
                ;
            }
        }
        acc = match acc {
            Some(v) => match v.checked_mul(10) {
                Some(w) => w.checked_add(d),
                None => {
                    proof {
                        assert(prev * 10 + char_digit_val(s@[j as int]) > u64::MAX)
                            by (nonlinear_arith)
                            requires
                                prev * 10 > u64::MAX,
                                char_digit_val(s@[j as int]) >= 0,
                        ;
                    }
                    None
                },
            },
            None => None,
        };
        j = j + 1;
    }
    proof {
        assert(s@.subrange(from as int, to as int) == s@.subrange(from as int, j as int));
    }
    acc
}

/// What [`decode_number`] yields for each wire shape: the canonical literal
/// for a numeric string, an integer, or a float; `InvalidNumber` for
/// everything else.
pub open spec fn spec_decode_number(j: JsonModel) -> Result<Seq<char>, ErrorModel> {
    match j {
        JsonModel::StrVal(s) => if is_json_number(s) {
            Ok(s)
        } else {
            Err(ErrorModel::InvalidNumber)
        },
        JsonModel::IntNum(i) => if -0x8000_0000_0000_0000 <= i <= 0xffff_ffff_ffff_ffff {
            Ok(int_literal(i))
        } else {
            Err(ErrorModel::InvalidNumber)
        },
        JsonModel::FloatNum(t) => if is_json_number(t) {
            Ok(t)
        } else {
            Err(ErrorModel::InvalidNumber)
        },
        _ => Err(ErrorModel::InvalidNumber),
    }
}

/// Decodes a wire value that may be a quoted numeric literal, a JSON
/// integer or a JSON float into a [`CanonicalNumber`]; every other shape,
/// and a string that fails the literal grammar, is `InvalidNumber`.
pub fn decode_number(v: &serde_json::Value) -> (r: Result<CanonicalNumber, DecodeError>)
    ensures
        match spec_decode_number(value_model(*v)) {
            Ok(t) => r matches Ok(n) && n@ == t,
            Err(e) => r matches Err(err) && err@ == e,
        },
        r matches Ok(n) ==> n.well_formed(),
{
    if let Some(s) = crate::json::json_as_str(v) {
        match CanonicalNumber::from_literal(s) {
            Some(n) => Ok(n),
            None => Err(DecodeError::InvalidNumber),
        }
    } else if let Some(u) = crate::json::json_as_u64(v) {
        proof {
            lemma_int_literal_valid(u as int);
        }
        Ok(CanonicalNumber { text: u64_to_dec(u) })
    } else if let Some(i) = crate::json::json_as_i64(v) {
        proof {
            lemma_int_literal_valid(i as int);
        }
        let mag: u64 = if i == i64::MIN {
            9223372036854775808u64
        } else {
            (-i) as u64
        };
        let mut text = String::new();
        text.append("-");
        text.append(u64_to_dec(mag).as_str());
        proof {
            reveal_strlit("-");
            assert(text@ =~= int_literal(i as int));
        }
        Ok(CanonicalNumber { text })
    } else if let Some(t) = crate::json::json_float_text(v) {
        match CanonicalNumber::from_literal(t.as_str()) {
            Some(n) => Ok(n),
            None => Err(DecodeError::InvalidNumber),
        }
    } else {
        Err(DecodeError::InvalidNumber)
    }
}

/// What [`decode_optional_number`] yields: an absent or null field is
/// `None`, everything else goes through the numeric decoder.
pub open spec fn spec_decode_optional_number(j: Option<JsonModel>) -> Result<
    Option<Seq<char>>,
    ErrorModel,
> {
    match j {
        None => Ok(None),
        Some(JsonModel::Null) => Ok(None),
        Some(w) => match spec_decode_number(w) {
            Ok(t) => Ok(Some(t)),
            Err(e) => Err(e),
        },
    }
}

/// For every valid quoted numeric wire value, the numeric decoder returns
/// the literal unchanged: normalization neither rounds nor rewrites a
/// string that already satisfies the grammar.
pub proof fn lemma_decode_number_string_identity(s: Seq<char>)
    requires
        is_json_number(s),
    ensures
        spec_decode_number(JsonModel::StrVal(s)) == Ok::<Seq<char>, ErrorModel>(s),
{
}

/// What decoding a quantity yields: a wire number whose literal bears a
/// leading minus is rejected, keeping quantities non-negative as the data
/// model demands.
pub open spec fn spec_decode_quantity(j: JsonModel) -> Result<Seq<char>, ErrorModel> {
    match spec_decode_number(j) {
        Ok(t) => if lit_is_neg(t) {
            Err(ErrorModel::InvalidNumber)
        } else {
            Ok(t)
        },
        Err(e) => Err(e),
    }
}

/// Decodes a wire quantity: like [`decode_number`], but a negative value
/// is rejected rather than accepted.
pub fn decode_quantity(v: &serde_json::Value) -> (r: Result<CanonicalNumber, DecodeError>)
    ensures
        match spec_decode_quantity(value_model(*v)) {
            Ok(t) => r matches Ok(n) && n@ == t,
            Err(e) => r matches Err(err) && err@ == e,
        },
        r matches Ok(n) ==> n.well_formed() && !lit_is_neg(n@),
{
    match decode_number(v) {
        Ok(n) => {
            if n.is_negative() {
                Err(DecodeError::InvalidNumber)
            } else {
                Ok(n)
            }
        },
        Err(e) => Err(e),
    }
}

/// The tolerant variant of [`decode_number`] for fields the exchange may
/// omit: absent and JSON-null wire values yield `None` instead of erroring.
pub fn decode_optional_number(v: Option<&serde_json::Value>) -> (r: Result<
    Option<CanonicalNumber>,
    DecodeError,
>)
    ensures
        match spec_decode_optional_number(match v {
            Some(w) => Some(value_model(*w)),
            None => None,
        }) {
            Ok(None) => r matches Ok(o) && o is None,
            Ok(Some(t)) => r matches Ok(o) && o matches Some(n) && n@ == t && n.well_formed(),
            Err(e) => r matches Err(err) && err@ == e,
        },
{
    match v {
        None => Ok(None),
        Some(w) => {
            if crate::json::json_is_null(w) {
                Ok(None)
            } else {
                match decode_number(w) {
                    Ok(n) => Ok(Some(n)),
                    Err(e) => Err(e),
                }
            }
        },
    }
}


// The truncated integer value of a numeric literal, which the timestamp
// decoder needs to read a float-rendered epoch value.
/// The digits of the integer part of a literal.
pub open spec fn lit_int_digits(s: Seq<char>) -> Seq<char> {
    s.subrange(num_sign_end(s), num_int_end(s))
}

/// The digits of the fraction part of a literal, empty when there is none.
pub open spec fn lit_frac_digits(s: Seq<char>) -> Seq<char> {
    if has_frac(s) {
        s.subrange(num_int_end(s) + 1, num_frac_end(s))
    } else {
        Seq::<char>::empty()
    }
}

/// All mantissa digits of a literal, the decimal point dropped.
pub open spec fn lit_mantissa(s: Seq<char>) -> Seq<char> {
    lit_int_digits(s) + lit_frac_digits(s)
}

/// The signed value of the exponent part, zero when there is none.
pub open spec fn lit_exp_val(s: Seq<char>) -> int {
    if has_exp(s) {
        let mag: int = digits_val(s.subrange(exp_digits_start(s), num_end(s)));
        if exp_digits_start(s) == num_frac_end(s) + 2 && s[num_frac_end(s) + 1] == '-' {
            -mag
        } else {
            mag
        }
    } else {
        0
    }
}

/// The magnitude of the literal's value, truncated toward zero: the
/// mantissa digits shifted by the exponent, with the decimal point at the
/// end of the integer part.
pub open spec fn lit_trunc_mag(s: Seq<char>) -> int {
    let dv: int = digits_val(lit_mantissa(s));
    let k: int = lit_frac_digits(s).len() - lit_exp_val(s);
    if k <= 0 {
        dv * pow10((-k) as nat)
    } else {
        dv / pow10(k as nat)
    }
}

/// The value of the literal, truncated toward zero.
pub open spec fn lit_trunc_val(s: Seq<char>) -> int {
    if lit_is_neg(s) {
        -lit_trunc_mag(s)
    } else {
        lit_trunc_mag(s)
    }
}

/// In a valid literal the three digit ranges hold digits only, and the
/// part boundaries are ordered.
pub proof fn lemma_json_number_ranges(s: Seq<char>)
    requires
        is_json_number(s),
    ensures
        0 <= num_sign_end(s) <= num_int_end(s) <= s.len(),
        num_int_end(s) <= num_frac_end(s) <= s.len(),
        num_frac_end(s) <= exp_digits_start(s) <= num_end(s),
        forall|k: int| num_sign_end(s) <= k < num_int_end(s) ==> is_dec_digit(#[trigger] s[k]),
        has_frac(s) ==> forall|k: int|
            num_int_end(s) + 1 <= k < num_frac_end(s) ==> is_dec_digit(#[trigger] s[k]),
        has_exp(s) ==> forall|k: int|
            exp_digits_start(s) <= k < num_end(s) ==> is_dec_digit(#[trigger] s[k]),
{
    let i0: int = num_sign_end(s);
    lemma_digits_end_bounds(s, i0);
    lemma_digits_end_chars(s, i0);
    if i0 < s.len() && s[i0] == '0' {
        assert(is_dec_digit(s[i0]));
    }
    if has_frac(s) {
        lemma_digits_end_bounds(s, num_int_end(s) + 1);
        lemma_digits_end_chars(s, num_int_end(s) + 1);
    }
    if has_exp(s) {
        lemma_digits_end_bounds(s, exp_digits_start(s));
        lemma_digits_end_chars(s, exp_digits_start(s));
    }
}

/// Leading zero digits do not change the value of a digit sequence.
pub proof fn lemma_digits_val_leading_zeros(s: Seq<char>, j: int)
    requires
        forall|k: int| 0 <= k < s.len() ==> is_dec_digit(#[trigger] s[k]),
        0 <= j <= s.len(),
        forall|k: int| 0 <= k < j ==> s[k] == '0',
    ensures
        digits_val(s) == digits_val(s.skip(j)),
{
    lemma_digits_val_split(s, j);
    assert(forall|k: int| 0 <= k < s.take(j).len() ==> s.take(j)[k] == '0');
    assert(forall|k: int| 0 <= k < s.take(j).len() ==> is_dec_digit(#[trigger] s.take(j)[k]));
    lemma_digits_val_zero(s.take(j));
}

/// A digit sequence with a non-zero leading digit is at least the power of
/// ten of its remaining length.
pub proof fn lemma_digits_val_lower(s: Seq<char>)
    requires
        s.len() >= 1,
        forall|k: int| 0 <= k < s.len() ==> is_dec_digit(#[trigger] s[k]),
        s[0] != '0',
    ensures
        digits_val(s) >= pow10((s.len() - 1) as nat),
{
    lemma_digits_val_head(s);
    assert(forall|k: int| 0 <= k < s.skip(1).len() ==> is_dec_digit(#[trigger] s.skip(1)[k]));
    lemma_digits_val_bounds(s.skip(1));
    let p: int = pow10((s.len() - 1) as nat);
    let d0: int = char_digit_val(s[0]);
    assert(d0 >= 1);
    assert(d0 * p >= p) by (nonlinear_arith)
        requires
            d0 >= 1,
            p >= 0,
    ;
}

/// Exec evaluation of the digits of two ranges of `s` read as one digit
/// sequence, watching for `u64` overflow.
pub(crate) fn digits_pair_val(s: &str, a0: usize, a1: usize, b0: usize, b1: usize) -> (r: Option<
    u64,
>)
    requires
        a0 <= a1,
        a1 as nat <= s@.len(),
        b0 <= b1,
        b1 as nat <= s@.len(),
        forall|k: int| a0 <= k < a1 ==> is_dec_digit(#[trigger] s@[k]),
        forall|k: int| b0 <= k < b1 ==> is_dec_digit(#[trigger] s@[k]),
    ensures
        match r {
            Some(v) => v as int == digits_val(
                s@.subrange(a0 as int, a1 as int) + s@.subrange(b0 as int, b1 as int),
            ),
            None => digits_val(
                s@.subrange(a0 as int, a1 as int) + s@.subrange(b0 as int, b1 as int),
            ) > u64::MAX,
        },
{
    let ghost whole: Seq<char> = s@.subrange(a0 as int, a1 as int) + s@.subrange(
        b0 as int,
        b1 as int,
    );
    let first = digits_range_val(s, a0, a1);
    proof {
        assert(s@.subrange(a0 as int, a1 as int) =~= whole.take(a1 - a0));
    }
    let mut acc: Option<u64> = first;
    let mut j: usize = b0;
    while j < b1
        invariant
            b0 <= j <= b1,
            b1 as nat <= s@.len(),
            a0 <= a1,
            a1 as nat <= s@.len(),
            forall|k: int| b0 <= k < b1 ==> is_dec_digit(#[trigger] s@[k]),
            whole == s@.subrange(a0 as int, a1 as int) + s@.subrange(b0 as int, b1 as int),
            match acc {
                Some(v) => v as int == digits_val(whole.take(a1 - a0 + (j - b0))),
                None => digits_val(whole.take(a1 - a0 + (j - b0))) > u64::MAX,
            },
        decreases b1 - j,
    {
        let c = s.get_char(j);
        let d: u64 = (c as u32 as u64) - 48;
        let ghost upto: int = a1 - a0 + (j - b0);
        proof {
            assert(is_dec_digit(s@[j as int]));
            assert(whole.take(upto + 1).drop_last() =~= whole.take(upto));
            assert(whole.take(upto + 1).last() == s@[j as int]);
        }
        let ghost prev: int = digits_val(whole.take(upto));
        proof {
            if prev > u64::MAX {
                assert(prev * 10 + char_digit_val(s@[j as int]) > u64::MAX) by (nonlinear_arith)
                    requires
                        prev > u64::MAX,
                        char_digit_val(s@[j as int]) >= 0,
                ;
            }
        }
        acc = match acc {
            Some(v) => match v.checked_mul(10) {
                Some(w) => w.checked_add(d),
                None => {
                    proof {
                        assert(prev * 10 + char_digit_val(s@[j as int]) > u64::MAX)
                            by (nonlinear_arith)
                            requires
                                prev * 10 > u64::MAX,
                                char_digit_val(s@[j as int]) >= 0,
                        ;
                    }
                    None
                },
            },
            None => None,
        };
        j = j + 1;
    }
    proof {
        assert(whole.take(a1 - a0 + (b1 - b0)) =~= whole);
    }
    acc
}

/// Multiplies by a power of ten, watching for `u64` overflow.
pub(crate) fn mul_pow10(v: u64, e: usize) -> (r: Option<u64>)
    ensures
        match r {
            Some(w) => w as int == v as int * pow10(e as nat),
            None => v as int * pow10(e as nat) > u64::MAX,
        },
{
    let mut acc: u64 = v;
    let mut i: usize = 0;
    proof {
        assert(v as int * pow10(0) == v as int) by (nonlinear_arith);
    }
    while i < e
        invariant
            0 <= i <= e,
            acc as int == v as int * pow10(i as nat),
        decreases e - i,
    {
        let ghost p: int = pow10(i as nat);
        proof {
            lemma_pow10_pos(i as nat);
        }
        match acc.checked_mul(10) {
            Some(w) => {
                proof {
                    assert((v as int * p) * 10 == v as int * (10 * p)) by (nonlinear_arith);
                }
                acc = w;
            },
            None => {
                proof {
                    lemma_pow10_monotone((i + 1) as nat, e as nat);
                    assert((v as int * p) * 10 == v as int * (10 * p)) by (nonlinear_arith);
                    assert(v as int * pow10((i + 1) as nat) <= v as int * pow10(e as nat))
                        by (nonlinear_arith)
                        requires
                            v as int >= 0,
                            pow10((i + 1) as nat) <= pow10(e as nat),
                    ;
                }
                return None;
            },
        }
        i = i + 1;
    }
    Some(acc)
}

/// Whether every character of `[from, to)` is the digit zero.
pub(crate) fn range_all_zero(s: &str, from: usize, to: usize) -> (r: bool)
    requires
        from <= to,
        to as nat <= s@.len(),
    ensures
        r == (forall|k: int| from <= k < to ==> s@[k] == '0'),
{
    let mut j: usize = from;
    loop
        invariant_except_break
            from <= j <= to,
            to as nat <= s@.len(),
            forall|k: int| from <= k < j ==> s@[k] == '0',
        ensures
            from <= j <= to,
            (j == to && forall|k: int| from <= k < j ==> s@[k] == '0') || (j < to && s@[j as int]
                != '0'),
        decreases to - j,
    {
        if j == to {
            break;
        }
        if s.get_char(j) != '0' {
            break;
        }
        j = j + 1;
    }
    j == to
}

/// Exec evaluation of an exponent's digit range: the exact value when it is
/// small enough to matter, or the report that it reaches `10^20`.
pub(crate) fn exp_range_val(s: &str, from: usize, to: usize) -> (r: Option<u128>)
    requires
        from <= to,
        to as nat <= s@.len(),
        forall|k: int| from <= k < to ==> is_dec_digit(#[trigger] s@[k]),
    ensures
        match r {
            Some(v) => v as int == digits_val(s@.subrange(from as int, to as int)),
            None => digits_val(s@.subrange(from as int, to as int)) >= pow10(20),
        },
        match r {
            Some(v) => (v as int) < pow10(20),
            None => true,
        },
{
    let ghost whole: Seq<char> = s@.subrange(from as int, to as int);
    // skip leading zeros
    let mut z: usize = from;
    while z < to && s.get_char(z) == '0'
        invariant
            from <= z <= to,
            to as nat <= s@.len(),
            forall|k: int| from <= k < z ==> s@[k] == '0',
        decreases to - z,
    {
        z = z + 1;
    }
    proof {
        assert(forall|k: int| 0 <= k < whole.len() ==> is_dec_digit(#[trigger] whole[k]));
        assert(forall|k: int| 0 <= k < z - from ==> whole[k] == '0');
        lemma_digits_val_leading_zeros(whole, z - from);
        assert(whole.skip(z - from) =~= s@.subrange(z as int, to as int));
    }
    let ghost sig: Seq<char> = s@.subrange(z as int, to as int);
    if to - z > 20 {
        proof {
            assert(sig.len() >= 21);
            assert(sig[0] == s@[z as int]);
            assert(is_dec_digit(sig[0]) && sig[0] != '0');
            lemma_digits_val_lower(sig);
            lemma_pow10_monotone(20, (sig.len() - 1) as nat);
        }
        return None;
    }
    // at most 20 significant digits: the value fits easily in u128
    let mut acc: u128 = 0;
    let mut j: usize = z;
    proof {
        assert(s@.subrange(z as int, z as int) =~= Seq::<char>::empty());
        reveal_with_fuel(pow10, 22);
    }
    while j < to
        invariant
            z <= j <= to,
            to as nat <= s@.len(),
            to - z <= 20,
            forall|k: int| z <= k < to ==> is_dec_digit(#[trigger] s@[k]),
            acc as int == digits_val(s@.subrange(z as int, j as int)),
            (acc as int) < pow10((j - z) as nat),
        decreases to - j,
    {
        let c = s.get_char(j);
        let d: u128 = (c as u32 as u128) - 48;
        proof {
            assert(is_dec_digit(s@[j as int]));
            assert(s@.subrange(z as int, j + 1).drop_last() =~= s@.subrange(z as int, j as int));
            assert(s@.subrange(z as int, j + 1).last() == s@[j as int]);
            lemma_pow10_monotone((j - z) as nat, 20);
            reveal_with_fuel(pow10, 22);
            assert(acc as int * 10 + 9 < pow10(21));
        }
        acc = acc * 10 + d;
        j = j + 1;
    }
    proof {
        lemma_pow10_monotone((to - z) as nat, 20);
        assert(s@.subrange(z as int, to as int) == sig);
    }
    Some(acc)
}

} // verus!

//! Decimal numerals: the spec-level meaning of a digit string, verified
//! parsers for the two flag values the tool accepts (a timeout in seconds,
//! a process id), and verified rendering of numbers into messages.

use vstd::prelude::*;
use vstd::string::StringExecFns;
use vstd::string::StrSliceExecFns;

verus! {

pub open spec fn is_dec_digit(c: char) -> bool {
    48 <= c as int && c as int <= 57
}

pub open spec fn digit_val(c: char) -> nat {
    (c as int - 48) as nat
}

pub open spec fn all_digits(s: Seq<char>) -> bool {
    forall|i: int| 0 <= i < s.len() ==> is_dec_digit(#[trigger] s[i])
}

/// The number a digit string denotes, most significant digit first.
pub open spec fn dec_value(s: Seq<char>) -> nat
    decreases s.len(),
{
    if s.len() == 0 {
        0
    } else {
        dec_value(s.drop_last()) * 10 + digit_val(s.last())
    }
}

/// A numeral never shrinks when digits are appended.
pub proof fn lemma_dec_value_prefix_le(s: Seq<char>, n: int)
    requires
        0 <= n <= s.len(),
    ensures
        dec_value(s.subrange(0, n)) <= dec_value(s),
    decreases s.len(),
{
    if n == s.len() {
        assert(s.subrange(0, n) =~= s);
    } else {
        lemma_dec_value_prefix_le(s.drop_last(), n);
        assert(s.drop_last().subrange(0, n) =~= s.subrange(0, n));
    }
}

/// Digits of a string, after an optional leading sign character.
pub open spec fn magnitude_body(s: Seq<char>) -> Seq<char> {
    if s.len() > 0 && (s[0] == '+' || s[0] == '-') {
        s.drop_first()
    } else {
        s
    }
}

pub open spec fn is_negative_numeral(s: Seq<char>) -> bool {
    s.len() > 0 && s[0] == '-'
}

/// Scans the digits of `s` from `start` on; succeeds exactly when at least
/// one character remains, every one of them is a digit, and the denoted
/// number does not exceed `bound`.
fn scan_digits(s: &str, start: usize, bound: u64) -> (r: Option<u64>)
    requires
        start <= s@.len(),
        9 <= bound,
    ensures
        r is Some <==> {
            &&& start < s@.len()
            &&& all_digits(s@.subrange(start as int, s@.len() as int))
            &&& dec_value(s@.subrange(start as int, s@.len() as int)) <= bound
        },
        r matches Some(v) ==> v as nat == dec_value(s@.subrange(start as int, s@.len() as int)),
{
    let len = s.unicode_len();
    if start == len {
        return None;
    }
    let ghost body = s@.subrange(start as int, len as int);
    let mut i: usize = start;
    let mut acc: u64 = 0;
    while i < len
        invariant
            start <= i <= len,
            len == s@.len(),
            body == s@.subrange(start as int, len as int),
            all_digits(s@.subrange(start as int, i as int)),
            acc as nat == dec_value(s@.subrange(start as int, i as int)),
            acc <= bound,
            9 <= bound,
        decreases len - i,
    {
        let c = s.get_char(i);
        let u = c as u32;
        let ghost prefix = s@.subrange(start as int, i as int);
        let ghost extended = s@.subrange(start as int, i as int + 1);
        proof {
            assert(extended =~= prefix.push(s@[i as int]));
            assert(extended.drop_last() =~= prefix);
        }
        if u < 48 || 57 < u {
            assert(!is_dec_digit(body[i - start]));
            return None;
        }
        let d: u64 = (u - 48) as u64;
        assert(dec_value(extended) == acc * 10 + d);
        if acc > (bound - d) / 10 {
            proof {
                assert(acc * 10 + d > bound) by (nonlinear_arith)
                    requires
                        acc > (bound - d) / 10,
                        d <= bound,
                        bound <= u64::MAX,
                        (bound - d) / 10 == ((bound - d) as int) / 10,
                ;
                lemma_dec_value_prefix_le(body, i as int + 1 - start);
                assert(body.subrange(0, i as int + 1 - start) =~= extended);
            }
            return None;
        }
        assert(acc * 10 + d <= bound) by (nonlinear_arith)
            requires
                acc <= (bound - d) / 10,
                d <= bound,
                bound <= u64::MAX,
        ;
        acc = acc * 10 + d;
        i = i + 1;
    }
    assert(s@.subrange(start as int, i as int) =~= body);
    Some(acc)
}

pub open spec fn valid_u64_numeral(s: Seq<char>) -> bool {
    &&& s.len() > 0 && !(s[0] == '-')
    &&& magnitude_body(s).len() > 0
    &&& all_digits(magnitude_body(s))
    &&& dec_value(magnitude_body(s)) <= u64::MAX
}

/// Reads a base-ten `u64` numeral, with an optional leading `+`.
pub fn parse_u64(s: &str) -> (r: Option<u64>)
    ensures
        r is Some <==> valid_u64_numeral(s@),
        r matches Some(v) ==> v as nat == dec_value(magnitude_body(s@)),
{
    let len = s.unicode_len();
    if len == 0 {
        return None;
    }
    let c0 = s.get_char(0);
    if c0 == '-' {
        proof {
            if valid_u64_numeral(s@) {
                assert(!(s@[0] == '-'));
            }
        }
        return None;
    }
    let start: usize = if c0 == '+' { 1 } else { 0 };
    assert(magnitude_body(s@) =~= s@.subrange(start as int, s@.len() as int));
    scan_digits(s, start, u64::MAX)
}

/// The integer a signed numeral denotes.
pub open spec fn signed_value(s: Seq<char>) -> int {
    if is_negative_numeral(s) {
        -(dec_value(magnitude_body(s)) as int)
    } else {
        dec_value(magnitude_body(s)) as int
    }
}

pub open spec fn valid_i32_numeral(s: Seq<char>) -> bool {
    &&& magnitude_body(s).len() > 0
    &&& all_digits(magnitude_body(s))
    &&& i32::MIN <= signed_value(s) <= i32::MAX
}

/// Reads a base-ten `i32` numeral, with an optional leading `+` or `-`.
pub fn parse_i32(s: &str) -> (r: Option<i32>)
    ensures
        r is Some <==> valid_i32_numeral(s@),
        r matches Some(v) ==> v as int == signed_value(s@),
{
    let len = s.unicode_len();
    if len == 0 {
        return None;
    }
    let c0 = s.get_char(0);
    let negative = c0 == '-';
    let start: usize = if c0 == '+' || c0 == '-' { 1 } else { 0 };
    assert(magnitude_body(s@) =~= s@.subrange(start as int, s@.len() as int));
    let bound: u64 = if negative { 2147483648 } else { 2147483647 };
    match scan_digits(s, start, bound) {
        None => None,
        Some(mag) => {
            if negative {
                let v: i32 = (-(mag as i64)) as i32;
                Some(v)
            } else {
                Some(mag as i32)
            }
        },
    }
}

pub open spec fn spec_digit_char(d: nat) -> char {
    if d == 0 { '0' }
    else if d == 1 { '1' }
    else if d == 2 { '2' }
    else if d == 3 { '3' }
    else if d == 4 { '4' }
    else if d == 5 { '5' }
    else if d == 6 { '6' }
    else if d == 7 { '7' }
    else if d == 8 { '8' }
    else { '9' }
}

/// The base-ten rendering of a number, most significant digit first.
pub open spec fn dec_rep(n: nat) -> Seq<char>
    decreases n,
{
    if n < 10 {
        seq![spec_digit_char(n)]
    } else {
        dec_rep(n / 10) + seq![spec_digit_char(n % 10)]
    }
}

/// Each digit character denotes the digit it was chosen for.
pub proof fn lemma_digit_char_val(d: nat)
    requires
        d < 10,
    ensures
        is_dec_digit(spec_digit_char(d)),
        digit_val(spec_digit_char(d)) == d,
{
    assert('0' as int == 48 && '1' as int == 49 && '2' as int == 50 && '3' as int == 51
        && '4' as int == 52 && '5' as int == 53 && '6' as int == 54 && '7' as int == 55
        && '8' as int == 56 && '9' as int == 57);
}

/// The rendering of `n` denotes `n` again: parsing inverts printing.
pub proof fn lemma_dec_rep_value(n: nat)
    ensures
        dec_rep(n).len() >= 1,
        all_digits(dec_rep(n)),
        dec_value(dec_rep(n)) == n,
    decreases n,
{
    if n < 10 {
        lemma_digit_char_val(n);
        assert(dec_rep(n) == seq![spec_digit_char(n)]);
        assert(dec_rep(n).drop_last() =~= Seq::<char>::empty());
        assert(dec_rep(n).last() == spec_digit_char(n));
        assert(dec_value(dec_rep(n))
            == dec_value(dec_rep(n).drop_last()) * 10 + digit_val(dec_rep(n).last()));
        assert(dec_value(Seq::<char>::empty()) == 0);
    } else {
        lemma_dec_rep_value(n / 10);
        lemma_digit_char_val(n % 10);
        assert(dec_rep(n) == dec_rep(n / 10) + seq![spec_digit_char(n % 10)]);
        assert((dec_rep(n / 10) + seq![spec_digit_char(n % 10)]).drop_last() =~= dec_rep(n / 10));
        assert((dec_rep(n / 10) + seq![spec_digit_char(n % 10)]).last() == spec_digit_char(n % 10));
        assert(dec_value(dec_rep(n))
            == dec_value(dec_rep(n).drop_last()) * 10 + digit_val(dec_rep(n).last()));
        assert forall|i: int| 0 <= i < dec_rep(n).len() implies is_dec_digit(#[trigger] dec_rep(n)[i]) by {
            if i < dec_rep(n / 10).len() {
                assert(dec_rep(n)[i] == dec_rep(n / 10)[i]);
            } else {
                assert(dec_rep(n)[i] == spec_digit_char(n % 10));
            }
        }
    }
}

fn digit_str(d: u64) -> (r: &'static str)
    requires
        d < 10,
    ensures
        r@ =~= seq![spec_digit_char(d as nat)],
{
    if d == 0 { proof { reveal_strlit("0"); } "0" }
    else if d == 1 { proof { reveal_strlit("1"); } "1" }
    else if d == 2 { proof { reveal_strlit("2"); } "2" }
    else if d == 3 { proof { reveal_strlit("3"); } "3" }
    else if d == 4 { proof { reveal_strlit("4"); } "4" }
    else if d == 5 { proof { reveal_strlit("5"); } "5" }
    else if d == 6 { proof { reveal_strlit("6"); } "6" }
    else if d == 7 { proof { reveal_strlit("7"); } "7" }
    else if d == 8 { proof { reveal_strlit("8"); } "8" }
    else { proof { reveal_strlit("9"); } "9" }
}

/// Renders `n` in base ten.
pub fn u64_to_string(n: u64) -> (r: String)
    ensures
        r@ == dec_rep(n as nat),
    decreases n,
{
    if n < 10 {
        String::from_str(digit_str(n))
    } else {
        let mut s = u64_to_string(n / 10);
        s.append(digit_str(n % 10));
        s
    }
}

pub open spec fn signed_dec_rep(n: int) -> Seq<char> {
    if n < 0 {
        seq!['-'] + dec_rep((-n) as nat)
    } else {
        dec_rep(n as nat)
    }
}

/// Renders `n` in base ten, with a leading `-` when negative.
pub fn i32_to_string(n: i32) -> (r: String)
    ensures
        r@ == signed_dec_rep(n as int),
{
    if n >= 0 {
        u64_to_string(n as u64)
    } else {
        let mut s = String::from_str("-");
        proof {
            reveal_strlit("-");
            assert("-"@ =~= seq!['-']);
        }
        let mag: u64 = (-(n as i64)) as u64;
        let rest = u64_to_string(mag);
        s.append(rest.as_str());
        s
    }
}

} // verus!

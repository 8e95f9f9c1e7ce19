//! The decimal text that an entry's commit marker holds.
use vstd::prelude::*;

verus! {

pub open spec fn is_digit(b: u8) -> bool {
    48 <= b <= 57
}

pub open spec fn all_digits(s: Seq<u8>) -> bool {
    forall|i: int| 0 <= i < s.len() ==> is_digit(#[trigger] s[i])
}

/// The number that a run of decimal digits denotes.
pub open spec fn digits_value(s: Seq<u8>) -> nat
    decreases s.len(),
{
    if s.len() == 0 {
        0
    } else {
        digits_value(s.drop_last()) * 10 + (s.last() - 48) as nat
    }
}

/// The integer that a text denotes: an optional `+` or `-` followed by at least
/// one decimal digit, and nothing else.
pub open spec fn decimal_value(s: Seq<u8>) -> Option<int> {
    if s.len() > 0 && (s[0] == 45u8 || s[0] == 43u8) {
        let body = s.skip(1);
        if body.len() > 0 && all_digits(body) {
            if s[0] == 45u8 {
                Some(-digits_value(body))
            } else {
                Some(digits_value(body) as int)
            }
        } else {
            None
        }
    } else if s.len() > 0 && all_digits(s) {
        Some(digits_value(s) as int)
    } else {
        None
    }
}

/// The exit status that a text denotes, if it is a decimal integer in the range of `i32`.
pub open spec fn exit_code_of_text(s: Seq<u8>) -> Option<i32> {
    match decimal_value(s) {
        Some(v) => if i32::MIN <= v <= i32::MAX {
            Some(v as i32)
        } else {
            None
        },
        None => None,
    }
}

/// The shortest decimal digits of a natural number.
pub open spec fn decimal_digits(n: nat) -> Seq<u8>
    decreases n,
{
    if n < 10 {
        seq![(48 + n) as u8]
    } else {
        decimal_digits(n / 10).push((48 + n % 10) as u8)
    }
}

/// The canonical decimal text of an integer: a `-` for negatives, then its digits.
pub open spec fn decimal_text(v: int) -> Seq<u8> {
    if v < 0 {
        seq![45u8] + decimal_digits((-v) as nat)
    } else {
        decimal_digits(v as nat)
    }
}

proof fn lemma_decimal_digits(n: nat)
    ensures
        decimal_digits(n).len() > 0,
        all_digits(decimal_digits(n)),
        digits_value(decimal_digits(n)) == n,
    decreases n,
{
    let s = decimal_digits(n);
    if n < 10 {
        assert(s.drop_last() =~= Seq::<u8>::empty());
        assert(digits_value(s.drop_last()) == 0);
        assert(s.last() == (48 + n) as u8);
    } else {
        let p = decimal_digits(n / 10);
        lemma_decimal_digits(n / 10);
        assert(s.drop_last() =~= p);
        assert(s.last() == (48 + n % 10) as u8);
        assert((n / 10) * 10 + n % 10 == n) by (nonlinear_arith);
        assert forall|i: int| 0 <= i < s.len() implies is_digit(#[trigger] s[i]) by {
            if i < s.len() - 1 {
                assert(s[i] == p[i]);
            }
        }
    }
}

/// A prefix of a run of digits denotes no more than the whole run.
proof fn lemma_prefix_value_le(s: Seq<u8>, k: int)
    requires
        0 <= k <= s.len(),
        all_digits(s),
    ensures
        digits_value(s.subrange(0, k)) <= digits_value(s),
    decreases s.len(),
{
    if k < s.len() {
        let p = s.drop_last();
        assert forall|i: int| 0 <= i < p.len() implies is_digit(#[trigger] p[i]) by {
            assert(p[i] == s[i]);
        }
        lemma_prefix_value_le(p, k);
        assert(p.subrange(0, k) =~= s.subrange(0, k));
    } else {
        assert(s.subrange(0, k) =~= s);
    }
}

/// Rendering an exit status and reading the text back gives the same status.
pub proof fn lemma_exit_code_text_round_trip(code: i32)
    ensures
        exit_code_of_text(decimal_text(code as int)) == Some(code),
{
    let v = code as int;
    let s = decimal_text(v);
    if v < 0 {
        let d = decimal_digits((-v) as nat);
        lemma_decimal_digits((-v) as nat);
        assert(s.skip(1) =~= d);
    } else {
        lemma_decimal_digits(v as nat);
        assert(is_digit(s[0]));
    }
}

/// Reads an exit status written as decimal text. Anything else, including an
/// empty text, surrounding whitespace or a value outside `i32`, gives `None`.
pub fn parse_exit_code(text: &[u8]) -> (r: Option<i32>)
    ensures
        r == exit_code_of_text(text@),
{
    let n = text.len();
    if n == 0 {
        return None;
    }
    let negative = text[0] == 45u8;
    let start: usize = if text[0] == 45u8 || text[0] == 43u8 {
        1
    } else {
        0
    };
    if start == n {
        return None;
    }
    let ghost body = text@.subrange(start as int, n as int);
    proof {
        if start == 1 {
            assert(text@.skip(1) =~= body);
        } else {
            assert(text@ =~= body);
        }
    }
    let mut acc: u64 = 0;
    let mut i: usize = start;
    while i < n
        invariant
            start <= i <= n,
            n == text@.len(),
            start < n,
            body == text@.subrange(start as int, n as int),
            start == 0 || start == 1,
            start == 1 ==> text@.skip(1) == body,
            start == 0 ==> text@ == body,
            start == 1 <==> (text@[0] == 45u8 || text@[0] == 43u8),
            negative == (text@[0] == 45u8),
            all_digits(text@.subrange(start as int, i as int)),
            acc == digits_value(text@.subrange(start as int, i as int)),
            acc <= 2147483648,
        decreases n - i,
    {
        let b = text[i];
        if b < 48 || b > 57 {
            proof {
                assert(body[i - start] == b);
            }
            return None;
        }
        let next: u64 = acc * 10 + (b - 48) as u64;
        proof {
            let p = text@.subrange(start as int, i + 1);
            assert(p.drop_last() =~= text@.subrange(start as int, i as int));
            assert forall|j: int| 0 <= j < p.len() implies is_digit(#[trigger] p[j]) by {
                if j < p.len() - 1 {
                    assert(p[j] == text@.subrange(start as int, i as int)[j]);
                }
            }
            assert(body.subrange(0, i + 1 - start) =~= p);
            if all_digits(body) {
                lemma_prefix_value_le(body, i + 1 - start);
            }
        }
        if next > 2147483648 {
            proof {
                if all_digits(body) {
                    assert(digits_value(body) > 2147483648);
                }
            }
            return None;
        }
        acc = next;
        i += 1;
    }
    proof {
        assert(text@.subrange(start as int, n as int) =~= body);
    }
    if negative {
        Some((0i64 - acc as i64) as i32)
    } else if acc <= 2147483647 {
        Some(acc as i32)
    } else {
        None
    }
}

/// The decimal text of an exit status, as the commit marker stores it.
pub fn render_exit_code(code: i32) -> (r: Vec<u8>)
    ensures
        r@ == decimal_text(code as int),
{
    let mut rem: u32 = if code < 0 {
        (0i64 - code as i64) as u32
    } else {
        code as u32
    };
    let ghost mag = rem as nat;
    proof {
        assert(code < 0 ==> mag == -(code as int));
    }
    let mut digits: Vec<u8> = Vec::new();
    while rem >= 10
        invariant
            decimal_digits(mag) == decimal_digits(rem as nat) + digits@,
        decreases rem,
    {
        let d: u8 = (48 + rem % 10) as u8;
        let ghost before = digits@;
        digits.insert(0, d);
        proof {
            assert(decimal_digits(rem as nat) == decimal_digits((rem / 10) as nat).push(d));
            assert(decimal_digits(rem as nat) + before =~= decimal_digits((rem / 10) as nat)
                + digits@);
        }
        rem = rem / 10;
    }
    let ghost before = digits@;
    digits.insert(0, (48 + rem) as u8);
    assert(decimal_digits(rem as nat) + before =~= digits@);
    if code < 0 {
        let ghost unsigned = digits@;
        digits.insert(0, 45u8);
        assert(seq![45u8] + unsigned =~= digits@);
    }
    digits
}

} // verus!

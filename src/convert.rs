use crate::error::JsError;
use crate::runtime::{string_of, HeapModel, HeapValue, JsRuntime, RuntimeModel};
use crate::value::{JsType, JsValueRef};
use vstd::prelude::*;
use vstd::string::StringSliceAdditionalSpecFns;
use vstd::utf8::encode_utf8;

verus! {

/// The ASCII digit of a number below ten.
pub open spec fn digit(d: int) -> u8 {
    (48 + d) as u8
}

/// The decimal digits of a natural number, most significant first, without leading zeros.
pub open spec fn decimal(n: nat) -> Seq<u8>
    decreases n,
{
    if n < 10 {
        seq![digit(n as int)]
    } else {
        decimal(n / 10).push(digit((n % 10) as int))
    }
}

/// The decimal text of an integer, with a minus sign where it is negative.
pub open spec fn int_text(n: int) -> Seq<u8> {
    if n < 0 {
        seq![45u8] + decimal((-n) as nat)
    } else {
        decimal(n as nat)
    }
}

/// Whether every byte is an ASCII digit.
pub open spec fn all_digits(s: Seq<u8>) -> bool {
    forall|i: int| 0 <= i < s.len() ==> 48 <= #[trigger] s[i] <= 57
}

/// The value of a string of ASCII digits.
pub open spec fn digits_value(s: Seq<u8>) -> int
    decreases s.len(),
{
    if s.len() == 0 {
        0
    } else {
        digits_value(s.drop_last()) * 10 + (s.last() - 48)
    }
}

/// The integer a string spells in decimal: an optional minus sign, then at least one digit.
pub open spec fn decimal_value(s: Seq<u8>) -> Option<int> {
    if s.len() > 0 && s[0] == 45 {
        let d = s.subrange(1, s.len() as int);
        if d.len() > 0 && all_digits(d) {
            Some(-digits_value(d))
        } else {
            None
        }
    } else if s.len() > 0 && all_digits(s) {
        Some(digits_value(s))
    } else {
        None
    }
}

/// Whether an integer fits in 32 bits.
pub open spec fn is_i32(n: int) -> bool {
    i32::MIN <= n <= i32::MAX
}

/// The number a string converts to: zero for the empty string, else the 32-bit integer it
/// spells. This engine holds no other numbers, so any other string fails.
pub open spec fn string_number(s: Seq<u8>) -> Result<i32, JsError> {
    if s.len() == 0 {
        Ok(0)
    } else {
        match decimal_value(s) {
            Some(n) => if is_i32(n) {
                Ok(n as i32)
            } else {
                Err(JsError::NotImplemented)
            },
            None => Err(JsError::NotImplemented),
        }
    }
}

/// The number a value converts to: an integer is itself, `true` and `false` are one and
/// zero, a string is read as decimal. `undefined` and objects convert to NaN, which this
/// engine does not hold. Converting needs a current context, but for an integer.
pub open spec fn number_of(m: RuntimeModel, h: JsValueRef) -> Result<i32, JsError> {
    match h {
        JsValueRef::Int(n) => Ok(n),
        _ => if !m.has_context() {
            Err(JsError::NoCurrentContext)
        } else {
            match h {
                JsValueRef::Null => Err(JsError::InvalidArgument),
                JsValueRef::Bool(b) => Ok(
                    if b {
                        1
                    } else {
                        0
                    },
                ),
                JsValueRef::Slot(_) => match m.slot(h) {
                    Some(HeapModel::Str(s)) => string_number(s),
                    Some(_) => Err(JsError::NotImplemented),
                    None => Err(JsError::InvalidArgument),
                },
                _ => Err(JsError::NotImplemented),
            }
        },
    }
}

/// The text a value converts to, where it is not a string already: as bytes.
pub open spec fn text_bytes_of(m: RuntimeModel, h: JsValueRef) -> Result<Seq<u8>, JsError> {
    if !m.has_context() {
        Err(JsError::NoCurrentContext)
    } else {
        match h {
            JsValueRef::Null => Err(JsError::InvalidArgument),
            JsValueRef::Undefined => Ok(encode_utf8("undefined"@)),
            JsValueRef::Int(n) => Ok(int_text(n as int)),
            JsValueRef::Bool(b) => Ok(
                if b {
                    encode_utf8("true"@)
                } else {
                    encode_utf8("false"@)
                },
            ),
            JsValueRef::Slot(_) => match m.slot(h) {
                Some(HeapModel::Str(s)) => Ok(s),
                Some(HeapModel::Object(_)) => Ok(encode_utf8("[object Object]"@)),
                Some(HeapModel::Function(_)) => Ok(encode_utf8("function() { [native code] }"@)),
                None => Err(JsError::InvalidArgument),
            },
        }
    }
}

proof fn lemma_decimal_step(v: nat, d: Seq<u8>)
    requires
        v > 0,
    ensures
        decimal(v) + d == (if v / 10 > 0 {
            decimal(v / 10)
        } else {
            Seq::<u8>::empty()
        }) + seq![digit((v % 10) as int)] + d,
{
    if v >= 10 {
        assert(decimal(v) == decimal(v / 10).push(digit((v % 10) as int)));
        assert(decimal(v / 10).push(digit((v % 10) as int)) + d =~= decimal(v / 10) + seq![
            digit((v % 10) as int),
        ] + d);
    } else {
        assert(decimal(v) == seq![digit(v as int)]);
        assert(Seq::<u8>::empty() + seq![digit((v % 10) as int)] + d =~= seq![digit(v as int)] + d);
    }
}

/// The decimal digits of a natural number below 2^32.
fn decimal_bytes(n: u32) -> (r: Vec<u8>)
    ensures
        r@ == decimal(n as nat),
{
    let mut v: u32 = n / 10;
    let mut d: Vec<u8> = Vec::new();
    d.push((48 + n % 10) as u8);
    proof {
        if n > 0 {
            lemma_decimal_step(n as nat, Seq::empty());
        }
        assert(d@ =~= seq![digit((n % 10) as int)]);
        assert(seq![digit((n % 10) as int)] + Seq::<u8>::empty() =~= seq![digit((n % 10) as int)]);
        if n == 0 {
            assert(decimal(0) == seq![digit(0)]);
        }
    }
    while v > 0
        invariant
            decimal(n as nat) == (if v > 0 {
                decimal(v as nat)
            } else {
                Seq::<u8>::empty()
            }) + d@,
        decreases v,
    {
        let ghost before = d@;
        let ghost w = v;
        proof {
            lemma_decimal_step(v as nat, before);
        }
        d.insert(0, (48 + v % 10) as u8);
        assert(d@ =~= seq![digit((w % 10) as int)] + before);
        v = v / 10;
        let ghost high = if v > 0 {
            decimal(v as nat)
        } else {
            Seq::<u8>::empty()
        };
        assert(high + seq![digit((w % 10) as int)] + before =~= high + d@);
    }
    assert(Seq::<u8>::empty() + d@ =~= d@);
    d
}

/// The decimal text of a 32-bit integer.
pub(crate) fn int_text_bytes(n: i32) -> (r: Vec<u8>)
    ensures
        r@ == int_text(n as int),
{
    if n < 0 {
        let magnitude: u32 = (0i64 - n as i64) as u32;
        let digits = decimal_bytes(magnitude);
        let mut r: Vec<u8> = Vec::new();
        r.push(45);
        let mut i: usize = 0;
        while i < digits.len()
            invariant
                i <= digits.len(),
                r@ == seq![45u8] + digits@.subrange(0, i as int),
            decreases digits.len() - i,
        {
            r.push(digits[i]);
            i = i + 1;
            assert(r@ =~= seq![45u8] + digits@.subrange(0, i as int));
        }
        assert(digits@.subrange(0, digits.len() as int) =~= digits@);
        r
    } else {
        decimal_bytes(n as u32)
    }
}

/// Digit strings never lose value as they grow.
proof fn lemma_digits_monotone(t: Seq<u8>, i: int)
    requires
        all_digits(t),
        0 <= i <= t.len(),
    ensures
        digits_value(t) >= digits_value(t.subrange(0, i)),
        digits_value(t) >= 0,
    decreases t.len(),
{
    if t.len() > 0 {
        let p = t.drop_last();
        assert(all_digits(p)) by {
            assert forall|j: int| 0 <= j < p.len() implies 48 <= #[trigger] p[j] <= 57 by {
                assert(p[j] == t[j]);
            }
        }
        if i < t.len() {
            lemma_digits_monotone(p, i);
            assert(p.subrange(0, i) =~= t.subrange(0, i));
        } else {
            lemma_digits_monotone(p, 0);
            assert(t.subrange(0, i) =~= t);
        }
    } else {
        assert(t.subrange(0, i) =~= t);
    }
}

/// The number a string converts to.
pub(crate) fn string_to_number(s: &Vec<u8>) -> (r: Result<i32, JsError>)
    ensures
        r == string_number(s@),
{
    if s.len() == 0 {
        return Ok(0);
    }
    let negative = s[0] == 45;
    let start: usize = if negative {
        1
    } else {
        0
    };
    if start >= s.len() {
        return Err(JsError::NotImplemented);
    }
    let ghost t = s@.subrange(start as int, s.len() as int);
    proof {
        if negative {
            assert(s@[0] == 45);
            assert(t =~= s@.subrange(1, s@.len() as int));
        } else {
            assert(s@[0] != 45);
            assert(t =~= s@);
        }
    }
    let mut acc: i64 = 0;
    let mut i: usize = start;
    assert(s@.subrange(start as int, start as int) =~= Seq::<u8>::empty());
    while i < s.len()
        invariant
            start <= i <= s.len(),
            start < s.len(),
            t == s@.subrange(start as int, s.len() as int),
            negative <==> s@[0] == 45,
            negative ==> start == 1 && t == s@.subrange(1, s@.len() as int),
            !negative ==> start == 0 && t == s@,
            all_digits(s@.subrange(start as int, i as int)),
            acc == digits_value(s@.subrange(start as int, i as int)),
            0 <= acc <= 2147483648,
        decreases s.len() - i,
    {
        let c = s[i];
        if c < 48 || c > 57 {
            assert(t[i - start] == c);
            assert(!all_digits(t));
            assert(decimal_value(s@) is None);
            return Err(JsError::NotImplemented);
        }
        let next: i64 = acc * 10 + (c - 48) as i64;
        let ghost prefix = s@.subrange(start as int, i + 1);
        assert(prefix.drop_last() =~= s@.subrange(start as int, i as int));
        assert(prefix.last() == c);
        assert(digits_value(prefix) == next);
        assert(all_digits(prefix)) by {
            assert forall|j: int| 0 <= j < prefix.len() implies 48 <= #[trigger] prefix[j] <= 57 by {
                if j < prefix.len() - 1 {
                    assert(prefix[j] == s@.subrange(start as int, i as int)[j]);
                }
            }
        }
        if next > 2147483648 {
            proof {
                if all_digits(t) {
                    lemma_digits_monotone(t, i + 1 - start);
                    assert(t.subrange(0, i + 1 - start) =~= prefix);
                    assert(!is_i32(decimal_value(s@)->Some_0));
                } else {
                    assert(decimal_value(s@) is None);
                }
            }
            return Err(JsError::NotImplemented);
        }
        acc = next;
        i = i + 1;
    }
    assert(s@.subrange(start as int, i as int) =~= t);
    if negative {
        Ok((0 - acc) as i32)
    } else if acc > 2147483647 {
        Err(JsError::NotImplemented)
    } else {
        Ok(acc as i32)
    }
}

} // verus!

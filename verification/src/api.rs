//! What a request carries for the services: its route parameters by name,
//! and numbers written in decimal.

use crate::error::Error;
use vstd::prelude::*;

verus! {

/// Whether two string slices hold the same text.
pub fn str_eq(a: &str, b: &str) -> (r: bool)
    ensures
        r == (a@ == b@),
{
    a.to_owned() == b.to_owned()
}

/// A route parameter: its name and its value.
#[derive(Debug)]
pub struct Param {
    pub name: String,
    pub value: String,
}

/// The value of the first parameter with the given name.
pub open spec fn param_of(params: Seq<Param>, name: Seq<char>) -> Option<Seq<char>>
    decreases params.len(),
{
    if params.len() == 0 {
        None
    } else if params[0].name@ == name {
        Some(params[0].value@)
    } else {
        param_of(params.drop_first(), name)
    }
}

/// The route parameters of a request.
#[derive(Debug)]
pub struct ApiRequest {
    pub params: Vec<Param>,
}

impl ApiRequest {
    /// The value of the route parameter `name`. A request without such a
    /// parameter is malformed.
    pub fn param<'a>(&'a self, name: &str) -> (r: Result<&'a str, Error>)
        ensures
            match param_of(self.params@, name@) {
                Some(value) => r is Ok && r->Ok_0@ == value,
                None => r == Err::<&str, Error>(Error::BadRequest),
            },
    {
        let mut i: usize = 0;
        assert(self.params@.skip(0) =~= self.params@);
        while i < self.params.len()
            invariant
                i <= self.params.len(),
                param_of(self.params@, name@) == param_of(self.params@.skip(i as int), name@),
            decreases self.params.len() - i,
        {
            assert(self.params@.skip(i as int).drop_first() =~= self.params@.skip(i + 1));
            if str_eq(self.params[i].name.as_str(), name) {
                return Ok(self.params[i].value.as_str());
            }
            i += 1;
        }
        Err(Error::BadRequest)
    }
}

/// Whether a character is one of the decimal digits `0` to `9`.
pub open spec fn is_digit(c: char) -> bool {
    48 <= c as u32 <= 57
}

/// The number that a sequence of decimal digits writes.
pub open spec fn digits_value(digits: Seq<char>) -> int
    decreases digits.len(),
{
    if digits.len() == 0 {
        0
    } else {
        digits_value(digits.drop_last()) * 10 + (digits.last() as u32 - 48)
    }
}

/// Whether every character is a decimal digit.
pub open spec fn all_digits(digits: Seq<char>) -> bool {
    forall|i: int| 0 <= i < digits.len() ==> is_digit(#[trigger] digits[i])
}

/// The 64-bit integer that a text writes in decimal: an optional `+` or `-`,
/// then one digit or more and nothing else, the number within the range of
/// the type.
pub open spec fn decimal_i64(text: Seq<char>) -> Option<i64> {
    let negative = text.len() > 0 && text[0] == '-';
    let signed = text.len() > 0 && (text[0] == '-' || text[0] == '+');
    let digits = if signed {
        text.skip(1)
    } else {
        text
    };
    let value = if negative {
        -digits_value(digits)
    } else {
        digits_value(digits)
    };
    if digits.len() > 0 && all_digits(digits) && i64::MIN <= value <= i64::MAX {
        Some(value as i64)
    } else {
        None
    }
}

proof fn lemma_digits_value_bounds(digits: Seq<char>)
    requires
        all_digits(digits),
    ensures
        0 <= digits_value(digits),
        digits.len() > 0 ==> digits_value(digits.drop_last()) <= digits_value(digits),
    decreases digits.len(),
{
    if digits.len() > 0 {
        assert(is_digit(digits[digits.len() - 1]));
        assert forall|i: int| 0 <= i < digits.drop_last().len() implies is_digit(
            #[trigger] digits.drop_last()[i],
        ) by {
            assert(is_digit(digits[i]));
        }
        lemma_digits_value_bounds(digits.drop_last());
    }
}

/// Reads a 64-bit integer written in decimal.
pub fn parse_i64(text: &str) -> (r: Option<i64>)
    ensures
        r == decimal_i64(text@),
{
    let n = text.unicode_len();
    if n == 0 {
        return None;
    }
    let first = text.get_char(0);
    let negative = first == '-';
    let start: usize = if first == '-' || first == '+' {
        1
    } else {
        0
    };
    if start == n {
        return None;
    }
    let ghost digits = text@.skip(start as int);
    assert(text@.skip(0) =~= text@);
    assert(text@[0] == first);
    // One more than the largest magnitude that fits: a value that reaches
    // it fits with neither sign, however many digits follow.
    let limit: i128 = 0x8000_0000_0000_0001;
    let mut value: i128 = 0;
    let mut i: usize = start;
    assert(digits.take(0) =~= Seq::<char>::empty());
    while i < n
        invariant
            start <= i <= n,
            n == text@.len(),
            start <= 1,
            (start == 1) == (text@[0] == '-' || text@[0] == '+'),
            digits == text@.skip(start as int),
            limit == 0x8000_0000_0000_0001,
            all_digits(digits.take(i - start)),
            0 <= value <= limit,
            value == if digits_value(digits.take(i - start)) < limit {
                digits_value(digits.take(i - start))
            } else {
                limit as int
            },
        decreases n - i,
    {
        let c = text.get_char(i);
        let code = c as u32;
        let ghost prefix = digits.take(i - start);
        let ghost longer = digits.take(i - start + 1);
        proof {
            assert(digits[i - start] == c);
            assert(longer.drop_last() =~= prefix);
            assert(longer.last() == c);
        }
        if code < 48 || code > 57 {
            assert(!is_digit(digits[i - start]));
            assert(text@.skip(0) =~= text@);
            return None;
        }
        proof {
            assert forall|j: int| 0 <= j < longer.len() implies is_digit(#[trigger] longer[j]) by {
                if j < prefix.len() {
                    assert(is_digit(prefix[j]));
                }
            }
            lemma_digits_value_bounds(prefix);
            lemma_digits_value_bounds(longer);
        }
        if value < limit {
            let next = value * 10 + (code - 48) as i128;
            value = if next < limit {
                next
            } else {
                limit
            };
        }
        i += 1;
    }
    proof {
        assert(digits.take(n - start) =~= digits);
    }
    if negative {
        if value <= 0x8000_0000_0000_0000 {
            Some((-value) as i64)
        } else {
            None
        }
    } else {
        if value <= 0x7fff_ffff_ffff_ffff {
            Some(value as i64)
        } else {
            None
        }
    }
}

} // verus!

//! Stable identifiers for domain entities.

use vstd::prelude::*;

use crate::text::{
    char_is_hex_digit, hex_digit_to_value, hex_rep_fixed, hex_value, lemma_hex_value_prefix_bound,
    spec_is_hex_digit, u128_to_hex_fixed,
};

verus! {

/// A stable identifier for a domain entity.
#[derive(Clone, Copy, Debug, PartialEq, Eq, Hash, Structural)]
pub struct Id(pub u128);

/// Nothing but hexadecimal digits.
pub open spec fn spec_all_hex_digits(s: Seq<char>) -> bool {
    forall|i: int| 0 <= i < s.len() ==> spec_is_hex_digit(#[trigger] s[i])
}

/// What `Id::from_hex` accepts: an optional sign followed by one or
/// more hexadecimal digits of either case, whose value fits the
/// identifier; a minus sign is tolerated only on a zero value.
pub open spec fn spec_parse_hex_id(s: Seq<char>) -> Option<Id> {
    if s.len() == 0 {
        None
    } else {
        let negative = s[0] == '-';
        let digits = if s[0] == '+' || s[0] == '-' {
            s.drop_first()
        } else {
            s
        };
        if digits.len() == 0 {
            None
        } else if !spec_all_hex_digits(digits) {
            None
        } else if hex_value(digits) > u128::MAX {
            None
        } else if negative && hex_value(digits) != 0 {
            None
        } else {
            Some(Id(hex_value(digits) as u128))
        }
    }
}

impl Id {
    /// A fresh identifier seeded from the wall clock.  Two calls may
    /// collide if they read the same clock tick; nothing more is
    /// promised of the value.
    pub fn new() -> Id {
        Id(clock_nanos() << 16)
    }

    /// Parses an identifier from hexadecimal digits, as the score
    /// files store them.
    #[verifier::loop_isolation(false)]
    pub fn from_hex(hex: &str) -> (parsed: Option<Id>)
        ensures
            parsed == spec_parse_hex_id(hex@),
    {
        let n = hex.unicode_len();
        if n == 0 {
            return None;
        }
        let first = hex.get_char(0);
        let negative = first == '-';
        let start: usize = if first == '+' || first == '-' {
            1
        } else {
            0
        };
        let ghost digits = if first == '+' || first == '-' {
            hex@.drop_first()
        } else {
            hex@
        };
        proof {
            assert(digits.len() == n - start);
            assert(forall|i: int| 0 <= i < digits.len() ==> digits[i] == hex@[i + start]);
        }
        if n == start {
            return None;
        }
        let mut acc: u128 = 0;
        let mut i: usize = start;
        while i < n
            invariant
                start <= i <= n == hex@.len(),
                start <= 1,
                digits.len() == n - start,
                forall|k: int| 0 <= k < digits.len() ==> digits[k] == hex@[k + start],
                forall|k: int| 0 <= k < i - start ==> spec_is_hex_digit(#[trigger] digits[k]),
                acc == hex_value(digits.subrange(0, i - start)),
            decreases n - i,
        {
            let c = hex.get_char(i);
            proof {
                assert(c == digits[i - start]);
            }
            if !char_is_hex_digit(c) {
                proof {
                    assert(!spec_is_hex_digit(digits[i - start]));
                    assert(!spec_all_hex_digits(digits));
                }
                return None;
            }
            let d = hex_digit_to_value(c);
            proof {
                assert(digits.subrange(0, i + 1 - start).drop_last() =~= digits.subrange(
                    0,
                    i - start,
                ));
                assert(digits.subrange(0, i + 1 - start).last() == digits[i - start]);
            }
            if acc > (u128::MAX - d as u128) / 16 {
                proof {
                    let prefix = digits.subrange(0, i + 1 - start);
                    assert(prefix.last() == digits[i - start]);
                    assert(hex_value(prefix.drop_last()) == acc);
                    assert(hex_value(prefix) == acc * 16 + d);
                    assert(acc * 16 + d > u128::MAX) by (nonlinear_arith)
                        requires
                            acc > (u128::MAX - d as u128) / 16,
                            d < 16,
                    ;
                    if spec_all_hex_digits(digits) {
                        lemma_hex_value_prefix_bound(digits, i + 1 - start);
                        assert(hex_value(digits) > u128::MAX);
                    }
                }
                return None;
            }
            acc = acc * 16 + d as u128;
            i = i + 1;
        }
        proof {
            assert(digits.subrange(0, digits.len() as int) =~= digits);
        }
        if negative && acc != 0 {
            return None;
        }
        Some(Id(acc))
    }

    /// The identifier as 32 lower-case hexadecimal digits.
    pub fn hex_string(&self) -> (s: String)
        ensures
            s@ == hex_rep_fixed(self.0 as nat, 32),
    {
        u128_to_hex_fixed(self.0, 32)
    }
}

/// Relies on std::time::SystemTime::now, read once and converted to
/// nanoseconds since the Unix epoch (zero if the clock sits before
/// it).  The value depends on the clock, so nothing is promised.
#[verifier::external_body]
fn clock_nanos() -> u128 {
    std::time::SystemTime::now()
        .duration_since(std::time::UNIX_EPOCH)
        .map(|elapsed| elapsed.as_nanos())
        .unwrap_or(0)
}

} // verus!

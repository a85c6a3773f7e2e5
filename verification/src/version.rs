//! The module's version, encoded in a 32-bit integer.
//!
//! The version string follows semantic versioning, `MAJOR.MINOR.PATCH` with
//! an optional `-dev` or `-rcN` tail.  The encoding uses one byte per part:
//! the major, minor and patch values in the upper three bytes, and a
//! development marker in the lowest byte — `1` while under development,
//! `N + 1` for release candidate `N`, and `0xFF` for the final release.
//! `"1.0.0-dev"` encodes as `0x01000001`, `"1.0.0-rc1"` as `0x01000002`,
//! `"1.0.3"` as `0x010003FF`.

use vstd::prelude::*;

use crate::text::{split_on_char, split_string};

verus! {

/// True on a decimal digit.
pub open spec fn is_digit(c: char) -> bool {
    '0' <= c && c <= '9'
}

/// The value of one decimal digit.
pub open spec fn digit_val(c: char) -> int {
    c as int - '0' as int
}

/// The value of a decimal digit string.
pub open spec fn dec_value(s: Seq<char>) -> int
    decreases s.len(),
{
    if s.len() == 0 {
        0
    } else {
        dec_value(s.drop_last()) * 10 + digit_val(s.last())
    }
}

/// A non-empty string of decimal digits.
pub open spec fn is_dec_string(s: Seq<char>) -> bool {
    s.len() > 0 && forall|i: int| 0 <= i < s.len() ==> is_digit(#[trigger] s[i])
}

proof fn lemma_dec_value_nonneg(s: Seq<char>)
    requires
        forall|i: int| 0 <= i < s.len() ==> is_digit(#[trigger] s[i]),
    ensures
        dec_value(s) >= 0,
    decreases s.len(),
{
    if s.len() > 0 {
        lemma_dec_value_nonneg(s.drop_last());
    }
}

/// Appending digits never lowers the value.
proof fn lemma_dec_value_prefix_le(s: Seq<char>, i: int)
    requires
        0 <= i <= s.len(),
        forall|j: int| 0 <= j < s.len() ==> is_digit(#[trigger] s[j]),
    ensures
        dec_value(s.subrange(0, i)) <= dec_value(s),
    decreases s.len() - i,
{
    if i == s.len() {
        assert(s.subrange(0, i) =~= s);
    } else {
        let p = s.subrange(0, i);
        let q = s.subrange(0, i + 1);
        assert(q.drop_last() =~= p);
        assert(q.last() == s[i]);
        assert(forall|j: int| 0 <= j < p.len() ==> is_digit(#[trigger] p[j]));
        lemma_dec_value_nonneg(p);
        assert(dec_value(q) == dec_value(p) * 10 + digit_val(s[i]));
        assert(dec_value(p) * 10 >= dec_value(p)) by (nonlinear_arith)
            requires
                dec_value(p) >= 0,
        ;
        lemma_dec_value_prefix_le(s, i + 1);
    }
}

/// Parses a decimal number.  Succeeds exactly on non-empty digit strings
/// whose value fits the result type.
pub fn parse_decimal(s: &str) -> (r: Option<u32>)
    ensures
        r is Some <==> (is_dec_string(s@) && dec_value(s@) <= u32::MAX),
        (r matches Some(v) ==> v == dec_value(s@)),
{
    let n: usize = s.unicode_len();
    if n == 0 {
        return None;
    }
    let mut acc: u32 = 0;
    let mut i: usize = 0;
    while i < n
        invariant
            0 < n == s@.len(),
            i <= n,
            forall|j: int| 0 <= j < i ==> is_digit(#[trigger] s@[j]),
            acc == dec_value(s@.subrange(0, i as int)),
        decreases n - i,
    {
        let c = s.get_char(i);
        if !('0' <= c && c <= '9') {
            return None;
        }
        let d: u32 = (c as u32) - ('0' as u32);
        proof {
            assert(s@.subrange(0, i + 1).drop_last() =~= s@.subrange(0, i as int));
            assert(s@.subrange(0, i + 1).last() == s@[i as int]);
        }
        if acc > (u32::MAX - d) / 10 {
            proof {
                assert(dec_value(s@.subrange(0, i + 1)) > u32::MAX) by {
                    assert(acc * 10 + d > u32::MAX) by (nonlinear_arith)
                        requires
                            acc > (u32::MAX - d) / 10,
                            d <= 9,
                    ;
                }
                if is_dec_string(s@) {
                    lemma_dec_value_prefix_le(s@, i + 1);
                }
            }
            return None;
        }
        proof {
            assert(acc * 10 + d <= u32::MAX) by (nonlinear_arith)
                requires
                    acc <= (u32::MAX - d) / 10,
                    d <= 9,
            ;
        }
        acc = acc * 10 + d;
        i = i + 1;
    }
    proof {
        assert(s@.subrange(0, n as int) =~= s@);
    }
    Some(acc)
}

/// The encoded form: one byte per part.
pub open spec fn version_value(major: int, minor: int, patch: int, dev: int) -> int {
    major * 0x1000000 + minor * 0x10000 + patch * 0x100 + dev
}

/// The development marker encoded from the dash-separated tail of the patch
/// part: no tail marks a final release, `dev` a development build, `rcN` the
/// N-th release candidate.
pub open spec fn dev_value_of(sub: Seq<Seq<char>>) -> Option<int> {
    if sub.len() <= 1 {
        Some(0xFF)
    } else {
        let tag = sub[1];
        if tag == "dev"@ {
            Some(1)
        } else if tag.len() >= 2 && tag.subrange(0, 2) == "rc"@ && is_dec_string(
            tag.subrange(2, tag.len() as int),
        ) && dec_value(tag.subrange(2, tag.len() as int)) + 1 <= 0xFF {
            Some(dec_value(tag.subrange(2, tag.len() as int)) + 1)
        } else {
            None
        }
    }
}

/// The encoded version of a version string, if it is well-formed: three
/// dot-separated decimal parts, each fitting its byte (the major its seven
/// bits, for a positive result), the patch part optionally carrying a
/// `-dev` or `-rcN` tail.
pub open spec fn version_spec(s: Seq<char>) -> Option<int> {
    let parts = split_on_char(s, '.');
    if parts.len() != 3 {
        None
    } else {
        let sub = split_on_char(parts[2], '-');
        let patch_str = sub[0];
        if is_dec_string(parts[0]) && is_dec_string(parts[1]) && is_dec_string(patch_str)
            && dec_value(parts[0]) <= 0x7F && dec_value(parts[1]) <= 0xFF && dec_value(patch_str)
            <= 0xFF {
            match dev_value_of(sub) {
                Some(dev) => Some(
                    version_value(dec_value(parts[0]), dec_value(parts[1]), dec_value(patch_str), dev),
                ),
                None => None,
            }
        } else {
            None
        }
    }
}

/// Encodes a version string; `None` exactly on malformed strings.
pub fn module_version(version: &str) -> (r: Option<i32>)
    ensures
        r is Some <==> version_spec(version@) is Some,
        (r matches Some(v) ==> Some(v as int) == version_spec(version@)),
{
    let parts = split_string(version, '.');
    if parts.len() != 3 {
        return None;
    }
    let major = match parse_decimal(parts[0].as_str()) {
        Some(v) => v,
        None => {
            return None;
        },
    };
    let minor = match parse_decimal(parts[1].as_str()) {
        Some(v) => v,
        None => {
            return None;
        },
    };
    if major > 0x7F || minor > 0xFF {
        return None;
    }
    let sub = split_string(parts[2].as_str(), '-');
    let patch = match parse_decimal(sub[0].as_str()) {
        Some(v) => v,
        None => {
            return None;
        },
    };
    if patch > 0xFF {
        return None;
    }
    let dev: u32;
    if sub.len() <= 1 {
        dev = 0xFF;
    } else {
        let tag = &sub[1];
        let tag_len = tag.as_str().unicode_len();
        if *tag == String::from_str("dev") {
            dev = 1;
        } else if tag_len >= 2 {
            let prefix = tag.as_str().substring_char(0, 2).to_owned();
            if prefix == String::from_str("rc") {
                let num = tag.as_str().substring_char(2, tag_len);
                match parse_decimal(num) {
                    Some(v) => {
                        if v <= 0xFE {
                            dev = v + 1;
                        } else {
                            return None;
                        }
                    },
                    None => {
                        return None;
                    },
                }
            } else {
                return None;
            }
        } else {
            return None;
        }
    }
    let value: u32 = major * 0x1000000 + minor * 0x10000 + patch * 0x100 + dev;
    proof {
        assert(value <= 0x7FFFFFFF);
    }
    Some(value as i32)
}

} // verus!

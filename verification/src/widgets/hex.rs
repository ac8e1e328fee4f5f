//! The hexadecimal text editor behind a register field: parsing the typed
//! text as a hexadecimal `u64`, and regenerating the canonical `0x`-prefixed
//! sixteen-digit text from the committed value.

use vstd::prelude::*;
use crate::panels::hxd::{push_char, push_hex_pad, spec_hex_pad};

verus! {

/// The value of `c` as a hexadecimal digit, or -1 when `c` is none: both
/// cases of letters are accepted, as `u64::from_str_radix` accepts them.
pub open spec fn hex_val(c: char) -> int {
    let v = c as int;
    if 48 <= v <= 57 {
        v - 48
    } else if 97 <= v <= 102 {
        v - 87
    } else if 65 <= v <= 70 {
        v - 55
    } else {
        -1
    }
}

/// Every character is a hexadecimal digit.
pub open spec fn all_hex(s: Seq<char>) -> bool {
    forall|i: int| 0 <= i < s.len() ==> hex_val(s[i]) >= 0
}

/// The value of a digit string, most significant first; characters that are
/// no digits count as zero (`all_hex` rules them out where it matters).
pub open spec fn hex_value_of(s: Seq<char>) -> nat
    decreases s.len(),
{
    if s.len() == 0 {
        0
    } else {
        (hex_value_of(s.drop_last()) * 16 + (if hex_val(s.last()) >= 0 {
            hex_val(s.last())
        } else {
            0
        })) as nat
    }
}

/// One leading plus sign is accepted and carries no value, as
/// `u64::from_str_radix` accepts it.
pub open spec fn strip_plus(s: Seq<char>) -> Seq<char> {
    if s.len() >= 1 && s[0] == '+' {
        s.skip(1)
    } else {
        s
    }
}

/// What parsing `s` as hexadecimal yields: the digits' value when, after one
/// optional plus sign, there is at least one character, all characters are
/// hexadecimal digits, and the value fits in a `u64`; nothing otherwise.
pub open spec fn spec_parse_hex(s: Seq<char>) -> Option<u64> {
    let digits = strip_plus(s);
    if digits.len() > 0 && all_hex(digits) && hex_value_of(digits) <= u64::MAX {
        Some(hex_value_of(digits) as u64)
    } else {
        None
    }
}

/// `s` with every leading repetition of `0x` removed, as
/// `str::trim_start_matches` removes them.
pub open spec fn strip_hex_prefixes(s: Seq<char>) -> Seq<char>
    decreases s.len(),
{
    if s.len() >= 2 && s[0] == '0' && s[1] == 'x' {
        strip_hex_prefixes(s.skip(2))
    } else {
        s
    }
}

/// A longer digit string never has a smaller value: growing the parsed prefix
/// never shrinks it below a `u64` once it has overflowed.
proof fn lemma_hex_value_prefix(s: Seq<char>, k: int)
    requires
        0 <= k <= s.len(),
    ensures
        hex_value_of(s) >= hex_value_of(s.take(k)),
    decreases s.len() - k,
{
    if k < s.len() {
        assert(s.take(k + 1).drop_last() =~= s.take(k));
        assert(s.take(k + 1).last() == s[k]);
        assert(hex_value_of(s.take(k + 1)) >= hex_value_of(s.take(k)));
        lemma_hex_value_prefix(s, k + 1);
    } else {
        assert(s.take(k) =~= s);
    }
}

/// The hexadecimal digit value of one character, or nothing.
fn hex_char_val(c: char) -> (r: Option<u64>)
    ensures
        r == (if hex_val(c) >= 0 {
            Some(hex_val(c) as u64)
        } else {
            None::<u64>
        }),
{
    let v = c as u32;
    if 48 <= v && v <= 57 {
        Some((v - 48) as u64)
    } else if 97 <= v && v <= 102 {
        Some((v - 87) as u64)
    } else if 65 <= v && v <= 70 {
        Some((v - 55) as u64)
    } else {
        None
    }
}

/// Parse the characters of `s` from `start` on as a hexadecimal `u64`, as
/// `u64::from_str_radix(.., 16)` parses them.
fn parse_hex_from(s: &str, start: usize) -> (r: Option<u64>)
    requires
        start <= s@.len(),
    ensures
        r == spec_parse_hex(s@.skip(start as int)),
{
    let n = s.unicode_len();
    let ghost whole = s@.skip(start as int);
    let mut i: usize = start;
    if i < n && s.get_char(i) == '+' {
        i = i + 1;
        proof {
            assert(strip_plus(whole) =~= s@.skip(i as int));
        }
    } else {
        proof {
            assert(strip_plus(whole) =~= s@.skip(i as int));
        }
    }
    let ghost digits = s@.skip(i as int);
    let first_digit = i;
    if i == n {
        proof {
            assert(digits.len() == 0);
        }
        return None;
    }
    let mut acc: u64 = 0;
    while i < n
        invariant
            first_digit <= i <= n,
            start <= n,
            n == s@.len(),
            digits == s@.skip(first_digit as int),
            digits.len() == n - first_digit,
            digits.len() > 0,
            strip_plus(s@.skip(start as int)) == digits,
            all_hex(digits.take(i - first_digit)),
            acc as nat == hex_value_of(digits.take(i - first_digit)),
        decreases n - i,
    {
        let c = s.get_char(i);
        proof {
            assert(digits[i - first_digit] == c);
        }
        match hex_char_val(c) {
            None => {
                proof {
                    assert(hex_val(digits[i - first_digit]) < 0);
                    assert(!all_hex(digits));
                }
                return None;
            },
            Some(d) => {
                if acc >= 0x1000000000000000 {
                    proof {
                        assert(digits.take(i - first_digit + 1).drop_last() =~= digits.take(
                            i - first_digit,
                        ));
                        assert(digits.take(i - first_digit + 1).last() == digits[i - first_digit]);
                        assert(hex_val(digits[i - first_digit]) == d);
                        assert(hex_value_of(digits.take(i - first_digit + 1)) == acc as nat * 16
                            + d);
                        assert(acc as nat * 16 + d > u64::MAX);
                        lemma_hex_value_prefix(digits, i - first_digit + 1);
                        assert(hex_value_of(digits) > u64::MAX);
                    }
                    return None;
                }
                proof {
                    assert(digits.take(i - first_digit + 1).drop_last() =~= digits.take(
                        i - first_digit,
                    ));
                    assert(digits.take(i - first_digit + 1).last() == digits[i - first_digit]);
                }
                acc = acc * 16 + d;
                i = i + 1;
            },
        }
    }
    proof {
        assert(digits.take(i - first_digit) =~= digits);
    }
    Some(acc)
}

/// Parse `s` as `HexEdit` reads it: every leading `0x` is trimmed, then the
/// rest is parsed as hexadecimal.
pub fn parse_hex_edit(s: &str) -> (r: Option<u64>)
    ensures
        r == spec_parse_hex(strip_hex_prefixes(s@)),
{
    let n = s.unicode_len();
    let mut start: usize = 0;
    proof {
        assert(s@.skip(0) =~= s@);
    }
    while n - start >= 2 && s.get_char(start) == '0' && s.get_char(start + 1) == 'x'
        invariant
            start <= n,
            n == s@.len(),
            strip_hex_prefixes(s@) == strip_hex_prefixes(s@.skip(start as int)),
        decreases n - start,
    {
        proof {
            assert(s@.skip(start as int)[0] == '0');
            assert(s@.skip(start as int)[1] == 'x');
            assert(s@.skip(start as int).skip(2) =~= s@.skip(start + 2));
        }
        start = start + 2;
    }
    proof {
        assert(strip_hex_prefixes(s@.skip(start as int)) == s@.skip(start as int));
    }
    parse_hex_from(s, start)
}

/// The editing state of one register field: the text as typed, and whether
/// the field is showing an immediate scratch buffer while focused.
pub struct HexEdit {
    pub edit: String,
    pub imm: bool,
}

impl Default for HexEdit {
    /// A fresh editor holds empty text.
    fn default() -> (r: Self)
        ensures
            r.edit@ =~= Seq::<char>::empty(),
            !r.imm,
    {
        HexEdit { edit: String::new(), imm: false }
    }
}

impl HexEdit {
    /// Commit the typed text into `value`, then regenerate the canonical
    /// text: parsing the text (with leading `0x` repetitions trimmed) as
    /// hexadecimal replaces the value, and failing to parse keeps it; the
    /// text becomes empty for zero and `0x` plus sixteen zero-padded digits
    /// otherwise.
    pub fn commit(&mut self, value: &mut u64)
        ensures
            *final(value) == (match spec_parse_hex(strip_hex_prefixes(old(self).edit@)) {
                Some(v) => v,
                None => *old(value),
            }),
            *final(value) == 0 ==> final(self).edit@ =~= Seq::<char>::empty(),
            *final(value) != 0 ==> final(self).edit@ =~= seq!['0', 'x'] + spec_hex_pad(
                *final(value) as nat,
                16,
            ),
            final(self).imm == old(self).imm,
    {
        if let Some(new) = parse_hex_edit(self.edit.as_str()) {
            *value = new;
        }
        if *value == 0 {
            self.edit = String::new();
        } else {
            let mut text = String::new();
            push_char(&mut text, '0');
            push_char(&mut text, 'x');
            push_hex_pad(&mut text, *value, 16);
            self.edit = text;
        }
    }
}

} // verus!

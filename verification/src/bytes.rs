//! Byte strings at the boundary: UTF-8 validity, equality, and copying.
//!
//! All string data crossing the boundary is a length-delimited sequence of
//! 8-bit code units. Registry keys must additionally be valid UTF-8 text;
//! this module defines validity and provides the executable checker that
//! the bulk operations rely on.

use vstd::prelude::*;

verus! {

/// A UTF-8 continuation byte: high bits `10`.
pub open spec fn is_cont_byte(b: u8) -> bool {
    0x80 <= b < 0xC0
}

/// The length of a well-formed UTF-8 scalar-value encoding at the front of
/// `s`, or 0 if the front of `s` is not one. Overlong forms, surrogate
/// code points and values above U+10FFFF are rejected, as std does.
pub open spec fn utf8_first_len(s: Seq<u8>) -> int {
    if s.len() >= 1 && s[0] < 0x80 {
        1
    } else if s.len() >= 2 && 0xC2 <= s[0] < 0xE0 && is_cont_byte(s[1]) {
        2
    } else if s.len() >= 3 && ((s[0] == 0xE0 && 0xA0 <= s[1] < 0xC0) || (0xE1 <= s[0] <= 0xEC
        && is_cont_byte(s[1])) || (s[0] == 0xED && 0x80 <= s[1] < 0xA0) || (0xEE <= s[0] <= 0xEF
        && is_cont_byte(s[1]))) && is_cont_byte(s[2]) {
        3
    } else if s.len() >= 4 && ((s[0] == 0xF0 && 0x90 <= s[1] < 0xC0) || (0xF1 <= s[0] <= 0xF3
        && is_cont_byte(s[1])) || (s[0] == 0xF4 && 0x80 <= s[1] < 0x90)) && is_cont_byte(s[2])
        && is_cont_byte(s[3]) {
        4
    } else {
        0
    }
}

/// Whether `s` is a well-formed UTF-8 encoding of a character sequence.
pub open spec fn is_utf8(s: Seq<u8>) -> bool
    decreases s.len(),
{
    if s.len() == 0 {
        true
    } else {
        let l = utf8_first_len(s);
        l > 0 && is_utf8(s.skip(l))
    }
}

/// Checks whether `v` holds valid UTF-8 text.
pub fn check_utf8(v: &Vec<u8>) -> (r: bool)
    ensures
        r == is_utf8(v@),
{
    let n = v.len();
    let mut i: usize = 0;
    proof {
        assert(v@.skip(0) =~= v@);
    }
    while i < n
        invariant
            i <= n,
            n == v@.len(),
            is_utf8(v@) == is_utf8(v@.skip(i as int)),
        decreases n - i,
    {
        let ghost s = v@.skip(i as int);
        let b0 = v[i];
        let l: usize = if b0 < 0x80 {
            1
        } else if 0xC2 <= b0 && b0 < 0xE0 {
            if n - i > 1 && is_cont(v[i + 1]) {
                2
            } else {
                0
            }
        } else if 0xE0 <= b0 && b0 < 0xF0 {
            if n - i > 2 && valid_three_byte_head(b0, v[i + 1]) && is_cont(v[i + 2]) {
                3
            } else {
                0
            }
        } else if 0xF0 <= b0 && b0 < 0xF5 {
            if n - i > 3 && valid_four_byte_head(b0, v[i + 1]) && is_cont(v[i + 2]) && is_cont(
                v[i + 3],
            ) {
                4
            } else {
                0
            }
        } else {
            0
        };
        proof {
            assert(s.len() == n - i);
            assert(s[0] == v@[i as int]);
            assert(l == utf8_first_len(s));
        }
        if l == 0 {
            proof {
                assert(!is_utf8(s));
            }
            return false;
        }
        proof {
            assert(s.skip(l as int) =~= v@.skip(i + l));
            assert(is_utf8(s) == is_utf8(v@.skip(i + l)));
        }
        i = i + l;
    }
    proof {
        assert(v@.skip(n as int) =~= Seq::<u8>::empty());
    }
    true
}

/// The continuation-byte test, executably.
fn is_cont(b: u8) -> (r: bool)
    ensures
        r == is_cont_byte(b),
{
    0x80 <= b && b < 0xC0
}

/// The second-byte constraint of a three-byte encoding whose first byte is
/// `b0`, executably.
fn valid_three_byte_head(b0: u8, b1: u8) -> (r: bool)
    requires
        0xE0 <= b0 < 0xF0,
    ensures
        r == ((b0 == 0xE0 && 0xA0 <= b1 < 0xC0) || (0xE1 <= b0 <= 0xEC && is_cont_byte(b1)) || (b0
            == 0xED && 0x80 <= b1 < 0xA0) || (0xEE <= b0 <= 0xEF && is_cont_byte(b1))),
{
    if b0 == 0xE0 {
        0xA0 <= b1 && b1 < 0xC0
    } else if b0 == 0xED {
        0x80 <= b1 && b1 < 0xA0
    } else {
        is_cont(b1)
    }
}

/// The second-byte constraint of a four-byte encoding whose first byte is
/// `b0`, executably.
fn valid_four_byte_head(b0: u8, b1: u8) -> (r: bool)
    requires
        0xF0 <= b0 < 0xF5,
    ensures
        r == ((b0 == 0xF0 && 0x90 <= b1 < 0xC0) || (0xF1 <= b0 <= 0xF3 && is_cont_byte(b1)) || (b0
            == 0xF4 && 0x80 <= b1 < 0x90)),
{
    if b0 == 0xF0 {
        0x90 <= b1 && b1 < 0xC0
    } else if b0 == 0xF4 {
        0x80 <= b1 && b1 < 0x90
    } else {
        is_cont(b1)
    }
}

/// Byte-string equality.
pub fn bytes_eq(a: &Vec<u8>, b: &Vec<u8>) -> (r: bool)
    ensures
        r == (a@ == b@),
{
    if a.len() != b.len() {
        return false;
    }
    let n = a.len();
    let mut i: usize = 0;
    while i < n
        invariant
            i <= n,
            n == a@.len() == b@.len(),
            forall|j: int| 0 <= j < i ==> a@[j] == b@[j],
        decreases n - i,
    {
        if a[i] != b[i] {
            return false;
        }
        i = i + 1;
    }
    proof {
        assert(a@ =~= b@);
    }
    true
}

/// An owned copy of a byte string.
pub fn clone_bytes(v: &Vec<u8>) -> (r: Vec<u8>)
    ensures
        r@ == v@,
{
    let r = v.clone();
    proof {
        assert(r@ =~= v@);
    }
    r
}

} // verus!

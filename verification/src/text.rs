//! Byte-level text handling for the boundary.
//!
//! Text crosses the boundary as raw bytes.  The adapter validates each text
//! argument as UTF-8 before handing it to a capability operation; input that
//! fails validation is replaced by the empty string, never passed through
//! partially decoded.  Text is kept as its UTF-8 byte sequence throughout,
//! so every contract here speaks of `Seq<u8>`.

use vstd::prelude::*;

verus! {

/// A continuation byte of a multi-byte UTF-8 sequence.
pub open spec fn is_cont_byte(b: u8) -> bool {
    0x80 <= b && b <= 0xBF
}

/// Length of the well-formed UTF-8 sequence starting at position `i` of
/// `s`, or 0 when the bytes at `i` do not begin a well-formed sequence
/// (bad leading byte, bad continuation byte, or truncation).
pub open spec fn utf8_len_at(s: Seq<u8>, i: int) -> int
    recommends
        0 <= i < s.len(),
{
    let b0 = s[i];
    if b0 < 0x80 {
        1
    } else if 0xC2 <= b0 && b0 <= 0xDF {
        if i + 2 <= s.len() && is_cont_byte(s[i + 1]) {
            2
        } else {
            0
        }
    } else if b0 == 0xE0 {
        if i + 3 <= s.len() && 0xA0 <= s[i + 1] && s[i + 1] <= 0xBF && is_cont_byte(s[i + 2]) {
            3
        } else {
            0
        }
    } else if 0xE1 <= b0 && b0 <= 0xEC || b0 == 0xEE || b0 == 0xEF {
        if i + 3 <= s.len() && is_cont_byte(s[i + 1]) && is_cont_byte(s[i + 2]) {
            3
        } else {
            0
        }
    } else if b0 == 0xED {
        if i + 3 <= s.len() && 0x80 <= s[i + 1] && s[i + 1] <= 0x9F && is_cont_byte(s[i + 2]) {
            3
        } else {
            0
        }
    } else if b0 == 0xF0 {
        if i + 4 <= s.len() && 0x90 <= s[i + 1] && s[i + 1] <= 0xBF && is_cont_byte(s[i + 2])
            && is_cont_byte(s[i + 3]) {
            4
        } else {
            0
        }
    } else if 0xF1 <= b0 && b0 <= 0xF3 {
        if i + 4 <= s.len() && is_cont_byte(s[i + 1]) && is_cont_byte(s[i + 2])
            && is_cont_byte(s[i + 3]) {
            4
        } else {
            0
        }
    } else if b0 == 0xF4 {
        if i + 4 <= s.len() && 0x80 <= s[i + 1] && s[i + 1] <= 0x8F && is_cont_byte(s[i + 2])
            && is_cont_byte(s[i + 3]) {
            4
        } else {
            0
        }
    } else {
        0
    }
}

/// The bytes of `s` from position `i` to the end form a well-formed UTF-8
/// sequence.
pub open spec fn is_utf8_from(s: Seq<u8>, i: int) -> bool
    recommends
        0 <= i <= s.len(),
    decreases s.len() - i,
{
    if i < 0 || i >= s.len() {
        true
    } else {
        let n = utf8_len_at(s, i);
        if 1 <= n && i + n <= s.len() {
            is_utf8_from(s, i + n)
        } else {
            false
        }
    }
}

/// The whole byte sequence is well-formed UTF-8.
pub open spec fn is_utf8(s: Seq<u8>) -> bool {
    is_utf8_from(s, 0)
}

/// Every suffix of a sequence of ASCII bytes is well-formed UTF-8.
pub proof fn lemma_ascii_is_utf8_from(s: Seq<u8>, i: int)
    requires
        0 <= i <= s.len(),
        forall|k: int| 0 <= k < s.len() ==> s[k] < 0x80,
    ensures
        is_utf8_from(s, i),
    decreases s.len() - i,
{
    if i < s.len() {
        assert(utf8_len_at(s, i) == 1);
        lemma_ascii_is_utf8_from(s, i + 1);
    }
}

/// A sequence of ASCII bytes is well-formed UTF-8.
pub proof fn lemma_ascii_is_utf8(s: Seq<u8>)
    requires
        forall|k: int| 0 <= k < s.len() ==> s[k] < 0x80,
    ensures
        is_utf8(s),
{
    lemma_ascii_is_utf8_from(s, 0);
}

/// Decide whether `bytes` is well-formed UTF-8.
pub fn check_utf8(bytes: &[u8]) -> (r: bool)
    ensures
        r == is_utf8(bytes@),
{
    let n = bytes.len();
    let mut i: usize = 0;
    while i < n
        invariant
            n == bytes@.len(),
            i <= n,
            is_utf8(bytes@) == is_utf8_from(bytes@, i as int),
        decreases n - i,
    {
        let b0 = bytes[i];
        let step: usize;
        if b0 < 0x80 {
            step = 1;
        } else if 0xC2 <= b0 && b0 <= 0xDF {
            if n - i >= 2 && 0x80 <= bytes[i + 1] && bytes[i + 1] <= 0xBF {
                step = 2;
            } else {
                return false;
            }
        } else if b0 == 0xE0 {
            if n - i >= 3 && 0xA0 <= bytes[i + 1] && bytes[i + 1] <= 0xBF && 0x80 <= bytes[i + 2]
                && bytes[i + 2] <= 0xBF {
                step = 3;
            } else {
                return false;
            }
        } else if (0xE1 <= b0 && b0 <= 0xEC) || b0 == 0xEE || b0 == 0xEF {
            if n - i >= 3 && 0x80 <= bytes[i + 1] && bytes[i + 1] <= 0xBF && 0x80 <= bytes[i + 2]
                && bytes[i + 2] <= 0xBF {
                step = 3;
            } else {
                return false;
            }
        } else if b0 == 0xED {
            if n - i >= 3 && 0x80 <= bytes[i + 1] && bytes[i + 1] <= 0x9F && 0x80 <= bytes[i + 2]
                && bytes[i + 2] <= 0xBF {
                step = 3;
            } else {
                return false;
            }
        } else if b0 == 0xF0 {
            if n - i >= 4 && 0x90 <= bytes[i + 1] && bytes[i + 1] <= 0xBF && 0x80 <= bytes[i + 2]
                && bytes[i + 2] <= 0xBF && 0x80 <= bytes[i + 3] && bytes[i + 3] <= 0xBF {
                step = 4;
            } else {
                return false;
            }
        } else if 0xF1 <= b0 && b0 <= 0xF3 {
            if n - i >= 4 && 0x80 <= bytes[i + 1] && bytes[i + 1] <= 0xBF && 0x80 <= bytes[i + 2]
                && bytes[i + 2] <= 0xBF && 0x80 <= bytes[i + 3] && bytes[i + 3] <= 0xBF {
                step = 4;
            } else {
                return false;
            }
        } else if b0 == 0xF4 {
            if n - i >= 4 && 0x80 <= bytes[i + 1] && bytes[i + 1] <= 0x8F && 0x80 <= bytes[i + 2]
                && bytes[i + 2] <= 0xBF && 0x80 <= bytes[i + 3] && bytes[i + 3] <= 0xBF {
                step = 4;
            } else {
                return false;
            }
        } else {
            return false;
        }
        proof {
            assert(utf8_len_at(bytes@, i as int) == step);
        }
        i = i + step;
    }
    true
}

/// Validate a raw text argument.  Well-formed UTF-8 passes through
/// byte-for-byte; anything else becomes the empty string.  The result is
/// always well-formed UTF-8.
pub fn decode_text(bytes: &[u8]) -> (r: Vec<u8>)
    ensures
        is_utf8(bytes@) ==> r@ == bytes@,
        !is_utf8(bytes@) ==> r@.len() == 0,
        is_utf8(r@),
{
    if check_utf8(bytes) {
        copy_bytes(bytes)
    } else {
        proof {
            assert(is_utf8(Seq::<u8>::empty()));
        }
        let r = Vec::<u8>::new();
        assert(r@ =~= Seq::<u8>::empty());
        r
    }
}

/// Copy a byte slice into a fresh vector.
pub fn copy_bytes(bytes: &[u8]) -> (r: Vec<u8>)
    ensures
        r@ == bytes@,
{
    let n = bytes.len();
    let mut r: Vec<u8> = Vec::new();
    let mut i: usize = 0;
    while i < n
        invariant
            n == bytes@.len(),
            i <= n,
            r@ == bytes@.subrange(0, i as int),
        decreases n - i,
    {
        r.push(bytes[i]);
        proof {
            assert(r@ =~= bytes@.subrange(0, i + 1 as int));
        }
        i = i + 1;
    }
    proof {
        assert(r@ =~= bytes@);
    }
    r
}

/// Decide whether two byte slices hold the same bytes.
pub fn bytes_eq(a: &[u8], b: &[u8]) -> (r: bool)
    ensures
        r == (a@ == b@),
{
    if a.len() != b.len() {
        proof {
            assert(a@.len() != b@.len());
        }
        return false;
    }
    let n = a.len();
    let mut i: usize = 0;
    while i < n
        invariant
            n == a@.len(),
            n == b@.len(),
            i <= n,
            forall|k: int| 0 <= k < i ==> a@[k] == b@[k],
        decreases n - i,
    {
        if a[i] != b[i] {
            return false;
        }
        i = i + 1;
    }
    proof {
        assert(a@ =~= b@);
    }
    true
}

} // verus!

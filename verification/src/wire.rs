//! Encoding capability results into the boundary's primitive return
//! convention.
//!
//! The boundary has no error channel: a failing operation collapses to the
//! wire-level zero value of its return type, and a string result is copied
//! into a caller-supplied fixed-capacity buffer with a terminating zero
//! byte.  A string that does not fit (content plus terminator) leaves the
//! destination byte-for-byte unmodified — deliberately different from the
//! empty string a failing operation writes.

use vstd::prelude::*;
use vstd::pervasive::VecAdditionalExecFns;
use crate::plugin::PluginError;

verus! {

/// Wire value of an integer accessor: the value on success, 0 on failure.
pub open spec fn wire_int(res: Result<i32, PluginError>) -> i32 {
    match res {
        Ok(v) => v,
        Err(_) => 0,
    }
}

/// Wire value of a float accessor, as a bit pattern: the value on success,
/// the all-zero pattern (the encoding of +0.0) on failure.
pub open spec fn wire_float_bits(res: Result<u32, PluginError>) -> u32 {
    match res {
        Ok(v) => v,
        Err(_) => 0,
    }
}

/// Wire value of a blob size query: the size on success, 0 on failure.
pub open spec fn wire_size(res: Result<usize, PluginError>) -> usize {
    match res {
        Ok(v) => v,
        Err(_) => 0,
    }
}

/// Contents of the string destination buffer after a failing operation: the
/// first byte zeroed (an empty string), the rest untouched.
pub open spec fn wire_str_failed(dest0: Seq<u8>) -> Seq<u8> {
    if dest0.len() > 0 {
        dest0.update(0, 0u8)
    } else {
        dest0
    }
}

/// Contents of the string destination buffer after encoding `res` into a
/// buffer previously holding `dest0`:
/// - success, and the text plus terminator fits strictly within the
///   capacity: the text's bytes, a zero byte, then the old tail;
/// - success, but no strict fit: the buffer untouched;
/// - failure: the first byte zeroed (an empty string), the rest untouched.
pub open spec fn wire_str(dest0: Seq<u8>, res: Result<Vec<u8>, PluginError>) -> Seq<u8> {
    match res {
        Ok(s) => if s@.len() + 1 < dest0.len() {
            Seq::new(
                dest0.len(),
                |i: int|
                    if i < s@.len() {
                        s@[i]
                    } else if i == s@.len() {
                        0u8
                    } else {
                        dest0[i]
                    },
            )
        } else {
            dest0
        },
        Err(_) => wire_str_failed(dest0),
    }
}

/// Encode an integer result: pass the value through, 0 on failure.
pub fn encode_int_result(res: Result<i32, PluginError>) -> (r: i32)
    ensures
        r == wire_int(res),
        res is Err ==> r == 0,
{
    match res {
        Ok(v) => v,
        Err(_) => 0,
    }
}

/// Encode a float result (as its bit pattern): pass the value through, the
/// encoding of +0.0 on failure.
pub fn encode_float_result(res: Result<u32, PluginError>) -> (r: u32)
    ensures
        r == wire_float_bits(res),
        res is Err ==> r == 0,
{
    match res {
        Ok(v) => v,
        Err(_) => 0,
    }
}

/// Encode a blob size result: pass the size through, 0 on failure.
pub fn encode_size_result(res: Result<usize, PluginError>) -> (r: usize)
    ensures
        r == wire_size(res),
        res is Err ==> r == 0,
{
    match res {
        Ok(v) => v,
        Err(_) => 0,
    }
}

/// Encode a string result into the caller's fixed-capacity destination.
/// The destination keeps its length; its contents become exactly
/// [`wire_str`] of its old contents and the result.
pub fn write_str_result(dest: &mut Vec<u8>, res: Result<Vec<u8>, PluginError>)
    ensures
        final(dest)@.len() == old(dest)@.len(),
        final(dest)@ == wire_str(old(dest)@, res),
{
    match res {
        Ok(s) => {
            if dest.len() >= 1 && s.len() < dest.len() - 1 {
                let n = s.len();
                let mut j: usize = 0;
                while j < n
                    invariant
                        n == s@.len(),
                        n + 1 < dest@.len(),
                        j <= n,
                        dest@.len() == old(dest)@.len(),
                        forall|k: int| 0 <= k < j ==> dest@[k] == s@[k],
                        forall|k: int| j <= k < dest@.len() ==> dest@[k] == old(dest)@[k],
                    decreases n - j,
                {
                    dest.set(j, s[j]);
                    j = j + 1;
                }
                dest.set(n, 0);
                proof {
                    assert(final(dest)@ =~= wire_str(old(dest)@, Ok(s)));
                }
            } else {
                proof {
                    assert(!(s@.len() + 1 < old(dest)@.len()));
                }
            }
        },
        Err(_) => {
            if dest.len() > 0 {
                dest.set(0, 0);
            }
        },
    }
}

} // verus!

//! A reference capability with deterministic behaviour, for exercising the
//! boundary contract end-to-end.
//!
//! It keeps one integer register behind the scalar accessors and serves one
//! named blob of fixed content.  Every accessor it overrides carries an
//! exact contract, so the blob protocol's round trip — size query, then a
//! read into a buffer of exactly that size — is proved not to truncate.

use vstd::prelude::*;
use vstd::pervasive::VecAdditionalExecFns;
use crate::plugin::{CPlugin, InitInfo, PluginError};
use crate::text::{is_utf8, lemma_ascii_is_utf8};

verus! {

/// The name under which the reference capability serves its blob.
pub open spec fn sample_blob_name() -> Seq<u8> {
    seq![120u8]
}

/// The fixed blob content the reference capability serves.
pub open spec fn sample_blob() -> Seq<u8> {
    seq![65u8, 66u8, 67u8, 68u8, 69u8, 70u8, 71u8, 72u8]
}

/// The reference capability: one integer register and one fixed blob.
pub struct SamplePlugin {
    /// The register behind the integer accessors.
    pub value: i32,
}

impl SamplePlugin {
    /// The blob name as a byte vector, for callers of the blob protocol.
    pub fn blob_name() -> (r: Vec<u8>)
        ensures
            r@ == sample_blob_name(),
            is_utf8(r@),
    {
        let mut r: Vec<u8> = Vec::new();
        r.push(120);
        proof {
            assert(r@ =~= sample_blob_name());
            lemma_ascii_is_utf8(r@);
        }
        r
    }

    /// The blob content as a byte vector.
    pub fn blob_content() -> (r: Vec<u8>)
        ensures
            r@ == sample_blob(),
    {
        let mut r: Vec<u8> = Vec::new();
        r.push(65);
        r.push(66);
        r.push(67);
        r.push(68);
        r.push(69);
        r.push(70);
        r.push(71);
        r.push(72);
        proof {
            assert(r@ =~= sample_blob());
        }
        r
    }
}

impl CPlugin for SamplePlugin {
    /// Construction always succeeds; the register starts at zero.
    fn new(info: InitInfo<'_>) -> (r: Result<Self, PluginError>)
        ensures
            r matches Ok(p) && p.value == 0,
    {
        Ok(SamplePlugin { value: 0 })
    }

    /// Read the register, whatever the selectors say.
    fn get_int(&mut self, function: &[u8], param1: &[u8], param2: i32) -> (r: Result<
        i32,
        PluginError,
    >)
        ensures
            r == Result::<i32, PluginError>::Ok(old(self).value),
            *final(self) == *old(self),
    {
        Ok(self.value)
    }

    /// Write the register, whatever the selectors say.
    fn set_int(&mut self, function: &[u8], param1: &[u8], param2: i32, value: i32) -> (r: Result<
        (),
        PluginError,
    >)
        ensures
            r == Result::<(), PluginError>::Ok(()),
            final(self).value == value,
    {
        self.value = value;
        Ok(())
    }

    /// Report the blob's exact size for its name; fail for any other name.
    fn get_gff_size(&mut self, var_name: &[u8]) -> (r: Result<usize, PluginError>)
        ensures
            *final(self) == *old(self),
            var_name@ == sample_blob_name() ==> r == Result::<usize, PluginError>::Ok(
                sample_blob().len() as usize,
            ),
            var_name@ != sample_blob_name() ==> r is Err,
    {
        let name = Self::blob_name();
        if crate::text::bytes_eq(var_name, name.as_slice()) {
            Ok(8)
        } else {
            Err(PluginError::Message("no blob is stored under this name".to_owned()))
        }
    }

    /// Fill the buffer with the blob's bytes, up to the buffer's capacity;
    /// write nothing for an unknown name.
    fn get_gff(&mut self, var_name: &[u8], buffer: &mut Vec<u8>)
        ensures
            *final(self) == *old(self),
            var_name@ != sample_blob_name() ==> final(buffer)@ == old(buffer)@,
            var_name@ == sample_blob_name() ==> {
                let n = if old(buffer)@.len() < sample_blob().len() {
                    old(buffer)@.len() as int
                } else {
                    sample_blob().len() as int
                };
                &&& forall|j: int| 0 <= j < n ==> final(buffer)@[j] == sample_blob()[j]
                &&& forall|j: int|
                    n <= j < old(buffer)@.len() ==> final(buffer)@[j] == old(buffer)@[j]
            },
    {
        let name = Self::blob_name();
        if crate::text::bytes_eq(var_name, name.as_slice()) {
            let data = Self::blob_content();
            let n = if buffer.len() < data.len() {
                buffer.len()
            } else {
                data.len()
            };
            let mut j: usize = 0;
            while j < n
                invariant
                    n <= data@.len(),
                    n <= buffer@.len(),
                    j <= n,
                    buffer@.len() == old(buffer)@.len(),
                    data@ == sample_blob(),
                    forall|k: int| 0 <= k < j ==> buffer@[k] == data@[k],
                    forall|k: int| j <= k < buffer@.len() ==> buffer@[k] == old(buffer)@[k],
                decreases n - j,
            {
                buffer.set(j, data[j]);
                j = j + 1;
            }
        }
    }
}

/// The blob protocol's round trip, proved free of truncation: a size query
/// for the reference blob, a buffer allocated to exactly that size, and a
/// read into it yield the blob's bytes, complete.
pub fn blob_round_trip(p: &mut SamplePlugin) -> (buf: Vec<u8>)
    ensures
        buf@ == sample_blob(),
{
    let name = SamplePlugin::blob_name();
    let size = match p.get_gff_size(name.as_slice()) {
        Ok(n) => n,
        Err(_) => 0,
    };
    let mut buf: Vec<u8> = Vec::new();
    let mut i: usize = 0;
    while i < size
        invariant
            i <= size,
            buf@.len() == i,
        decreases size - i,
    {
        buf.push(0);
        i = i + 1;
    }
    p.get_gff(name.as_slice(), &mut buf);
    proof {
        assert(buf@ =~= sample_blob());
    }
    buf
}

} // verus!

//! The capability contract: what a concrete plugin implements.
//!
//! A plugin fulfils [`CPlugin`].  Construction is the only operation without
//! a default; every accessor it does not override keeps the default body,
//! which fails with [`PluginError::Unimplemented`].  All text parameters are
//! UTF-8 byte sequences; the boundary adapter validates them before
//! dispatch, so every operation may require well-formed text.

use vstd::prelude::*;
use crate::text::is_utf8;

verus! {

/// The operations a plugin may expose at the boundary, one identifier per
/// entry point.  An adapter is built with the subset a concrete plugin
/// declares; omitted identifiers get no reachable entry point at all.
#[allow(non_camel_case_types)]
#[derive(Clone, Copy, Debug, PartialEq, Eq, Structural)]
pub enum CPluginEndpoints {
    get_id,
    get_info,
    get_version,
    get_int,
    set_int,
    get_float,
    set_float,
    get_str,
    set_str,
    get_gff_size,
    get_gff,
    set_gff,
}

/// Why a capability operation failed.  The boundary never forwards this to
/// the host; it collapses to the wire-level zero value and is reported only
/// through the diagnostic side channel.
pub enum PluginError {
    /// The operation keeps its default body: declared but not implemented.
    Unimplemented(CPluginEndpoints),
    /// An implementation-specific failure, with a message for diagnostics.
    Message(String),
}

/// The configuration bundle handed to a plugin once, at construction.
/// Each field is a UTF-8 byte view valid only for the duration of the
/// construction call; a plugin must copy whatever it keeps.
pub struct InitInfo<'a> {
    pub dll_path: &'a [u8],
    pub nwnx_user_path: &'a [u8],
    pub nwn2_install_path: &'a [u8],
    pub nwn2_home_path: &'a [u8],
    pub nwn2_module_path: &'a [u8],
    pub nwnx_install_path: &'a [u8],
}

impl<'a> InitInfo<'a> {
    /// All six configuration values are well-formed UTF-8.
    pub open spec fn wf(self) -> bool {
        &&& is_utf8(self.dll_path@)
        &&& is_utf8(self.nwnx_user_path@)
        &&& is_utf8(self.nwn2_install_path@)
        &&& is_utf8(self.nwn2_home_path@)
        &&& is_utf8(self.nwn2_module_path@)
        &&& is_utf8(self.nwnx_install_path@)
    }
}

/// A borrowed text value in one of the two shapes a plugin may hold it:
/// bytes with a trailing zero terminator, or plain UTF-8 bytes without one.
/// Text accessors normalize either shape into the single unterminated wire
/// representation before it is copied outward.
pub enum COptStr<'a> {
    /// Terminated text: the last byte is zero and no earlier byte is.
    CStr(&'a [u8]),
    /// Plain UTF-8 text, no terminator.
    Str(&'a [u8]),
}

impl<'a> COptStr<'a> {
    /// The value is in its declared shape.
    pub open spec fn wf(self) -> bool {
        match self {
            COptStr::CStr(b) => b@.len() >= 1 && b@[b@.len() - 1] == 0 && (forall|k: int|
                0 <= k < b@.len() - 1 ==> b@[k] != 0),
            COptStr::Str(_) => true,
        }
    }

    /// The text content, terminator excluded.
    pub open spec fn text(self) -> Seq<u8> {
        match self {
            COptStr::CStr(b) => b@.subrange(0, b@.len() - 1),
            COptStr::Str(b) => b@,
        }
    }

    /// Normalize into the unterminated wire representation.
    pub fn to_text_bytes(&self) -> (r: Vec<u8>)
        requires
            self.wf(),
        ensures
            r@ == self.text(),
    {
        match self {
            COptStr::CStr(b) => {
                let n = b.len() - 1;
                let mut r: Vec<u8> = Vec::new();
                let mut i: usize = 0;
                while i < n
                    invariant
                        n == b@.len() - 1,
                        i <= n,
                        r@ == b@.subrange(0, i as int),
                    decreases n - i,
                {
                    r.push(b[i]);
                    proof {
                        assert(r@ =~= b@.subrange(0, i + 1 as int));
                    }
                    i = i + 1;
                }
                proof {
                    assert(r@ =~= self.text());
                }
                r
            },
            COptStr::Str(b) => {
                let r = crate::text::copy_bytes(b);
                r
            },
        }
    }
}

/// The capability contract.  A concrete plugin implements construction and
/// overrides the accessors it supports; everything else keeps the default
/// body, which fails with [`PluginError::Unimplemented`].
///
/// Scalar float values cross this contract as their IEEE-754 single
/// precision bit patterns (`u32`); the contract moves them, it never
/// computes on them.
pub trait CPlugin: Sized {
    /// Build one plugin instance from the configuration bundle.  Failure
    /// must be reported, never turned into a broken instance.
    fn new(info: InitInfo<'_>) -> Result<Self, PluginError>
        requires
            info.wf(),
    ;

    /// Short stable identifier for this instance.
    fn get_id(&mut self) -> (r: Vec<u8>)
        default_ensures
            r@.len() == 0,
    {
        Vec::new()
    }

    /// Process-wide descriptive string.
    fn get_info() -> (r: Vec<u8>)
        default_ensures
            r@.len() == 0,
    {
        Vec::new()
    }

    /// Process-wide version string.
    fn get_version() -> (r: Vec<u8>)
        default_ensures
            r@.len() == 0,
    {
        Vec::new()
    }

    /// Read an integer value named by the plugin's own selector protocol.
    fn get_int(&mut self, function: &[u8], param1: &[u8], param2: i32) -> (r: Result<
        i32,
        PluginError,
    >)
        requires
            is_utf8(function@),
            is_utf8(param1@),
        default_ensures
            r == Result::<i32, PluginError>::Err(PluginError::Unimplemented(
                CPluginEndpoints::get_int,
            )),
    {
        Err(PluginError::Unimplemented(CPluginEndpoints::get_int))
    }

    /// Write an integer value named by the plugin's own selector protocol.
    fn set_int(&mut self, function: &[u8], param1: &[u8], param2: i32, value: i32) -> (r: Result<
        (),
        PluginError,
    >)
        requires
            is_utf8(function@),
            is_utf8(param1@),
        default_ensures
            r == Result::<(), PluginError>::Err(PluginError::Unimplemented(
                CPluginEndpoints::set_int,
            )),
    {
        Err(PluginError::Unimplemented(CPluginEndpoints::set_int))
    }

    /// Read a float value, as its bit pattern.
    fn get_float(&mut self, function: &[u8], param1: &[u8], param2: i32) -> (r: Result<
        u32,
        PluginError,
    >)
        requires
            is_utf8(function@),
            is_utf8(param1@),
        default_ensures
            r == Result::<u32, PluginError>::Err(PluginError::Unimplemented(
                CPluginEndpoints::get_float,
            )),
    {
        Err(PluginError::Unimplemented(CPluginEndpoints::get_float))
    }

    /// Write a float value, as its bit pattern.
    fn set_float(&mut self, function: &[u8], param1: &[u8], param2: i32, value: u32) -> (r: Result<
        (),
        PluginError,
    >)
        requires
            is_utf8(function@),
            is_utf8(param1@),
        default_ensures
            r == Result::<(), PluginError>::Err(PluginError::Unimplemented(
                CPluginEndpoints::set_float,
            )),
    {
        Err(PluginError::Unimplemented(CPluginEndpoints::set_float))
    }

    /// Read a text value, as UTF-8 bytes without a terminator.
    fn get_str(&mut self, function: &[u8], param1: &[u8], param2: i32) -> (r: Result<
        Vec<u8>,
        PluginError,
    >)
        requires
            is_utf8(function@),
            is_utf8(param1@),
        default_ensures
            r == Result::<Vec<u8>, PluginError>::Err(PluginError::Unimplemented(
                CPluginEndpoints::get_str,
            )),
    {
        Err(PluginError::Unimplemented(CPluginEndpoints::get_str))
    }

    /// Write a text value.
    fn set_str(&mut self, function: &[u8], param1: &[u8], param2: i32, value: &[u8]) -> (r: Result<
        (),
        PluginError,
    >)
        requires
            is_utf8(function@),
            is_utf8(param1@),
            is_utf8(value@),
        default_ensures
            r == Result::<(), PluginError>::Err(PluginError::Unimplemented(
                CPluginEndpoints::set_str,
            )),
    {
        Err(PluginError::Unimplemented(CPluginEndpoints::set_str))
    }

    /// Exact byte length the next blob read for `var_name` will require.
    fn get_gff_size(&mut self, var_name: &[u8]) -> (r: Result<usize, PluginError>)
        requires
            is_utf8(var_name@),
        default_ensures
            r == Result::<usize, PluginError>::Err(PluginError::Unimplemented(
                CPluginEndpoints::get_gff_size,
            )),
    {
        Err(PluginError::Unimplemented(CPluginEndpoints::get_gff_size))
    }

    /// Fill the caller-owned buffer with the named blob's bytes, up to the
    /// buffer's capacity.  The call has no error channel; a plugin that
    /// cannot produce data must write nothing.  The buffer's length is the
    /// caller's declared capacity and must not change.
    fn get_gff(&mut self, var_name: &[u8], buffer: &mut Vec<u8>)
        requires
            is_utf8(var_name@),
        ensures
            final(buffer)@.len() == old(buffer)@.len(),
        default_ensures
            final(buffer)@ == old(buffer)@,
    {
    }

    /// Consume the named blob's bytes.
    fn set_gff(&mut self, var_name: &[u8], value: &[u8]) -> (r: Result<(), PluginError>)
        requires
            is_utf8(var_name@),
        default_ensures
            r == Result::<(), PluginError>::Err(PluginError::Unimplemented(
                CPluginEndpoints::set_gff,
            )),
    {
        Err(PluginError::Unimplemented(CPluginEndpoints::set_gff))
    }
}

} // verus!

//! The boundary adapter: a handle arena plus one fixed-shape entry point
//! per declared operation.
//!
//! The host process never sees a typed plugin value, only an opaque handle.
//! Construction stores the plugin in the arena and returns a fresh non-zero
//! handle (0 is the construction-failure sentinel); teardown vacates the
//! slot.  Handles are never reused, so a stale handle is detected rather
//! than undefined: an accessor called on one performs nothing and yields
//! the same wire value as a failing operation.
//!
//! Each accessor entry point is guarded by a `requires` naming its
//! operation identifier in the declared set: an omitted operation has no
//! reachable entry point at all, which is distinct from a declared but
//! unimplemented operation (reachable, always failing).  [`has_entry`]
//! plays the role of the host's symbol lookup.
//!
//! [`has_entry`]: PluginHost::has_entry

use vstd::prelude::*;
use vstd::pervasive::VecAdditionalExecFns;
use crate::plugin::{CPlugin, CPluginEndpoints, InitInfo};
use crate::text::decode_text;
use crate::wire::{
    encode_float_result, encode_int_result, encode_size_result, wire_str_failed, write_str_result,
};

verus! {

/// The boundary adapter for one concrete plugin type: the declared
/// operation set and the arena of constructed instances.
pub struct PluginHost<P: CPlugin> {
    supported: Vec<CPluginEndpoints>,
    slots: Vec<Option<P>>,
}

impl<P: CPlugin> PluginHost<P> {
    /// How many handles this adapter has handed out so far.
    pub closed spec fn handles_issued(self) -> nat {
        self.slots@.len()
    }

    /// Handle `h` refers to a constructed, not yet torn down instance.
    pub closed spec fn live(self, h: usize) -> bool {
        1 <= h <= self.slots@.len() && self.slots@[h - 1] is Some
    }

    /// Operation `op` is in the declared supported set.
    pub closed spec fn supports(self, op: CPluginEndpoints) -> bool {
        self.supported@.contains(op)
    }

    /// An accessor call leaves the arena as it was: the same handles were
    /// issued, the same handles are live, the same operations are exposed.
    /// Only the plugin instance behind the called handle may change state.
    pub open spec fn same_arena(pre: Self, post: Self) -> bool {
        &&& post.handles_issued() == pre.handles_issued()
        &&& forall|h: usize| post.live(h) == pre.live(h)
        &&& forall|op: CPluginEndpoints| post.supports(op) == pre.supports(op)
    }

    /// What a successful construction does to the arena: one more handle
    /// issued, the new handle live, everything else untouched.
    pub open spec fn construct_success(pre: Self, post: Self, h: usize) -> bool {
        &&& post.handles_issued() == pre.handles_issued() + 1
        &&& h as nat == post.handles_issued()
        &&& h >= 1
        &&& post.live(h)
        &&& forall|k: usize| k != h ==> post.live(k) == pre.live(k)
        &&& forall|op: CPluginEndpoints| post.supports(op) == pre.supports(op)
    }

    /// Build an adapter exposing exactly the declared operations.
    pub fn new(supported: Vec<CPluginEndpoints>) -> (host: Self)
        ensures
            forall|op: CPluginEndpoints| host.supports(op) == supported@.contains(op),
            host.handles_issued() == 0,
            forall|h: usize| !host.live(h),
    {
        PluginHost { supported, slots: Vec::new() }
    }

    /// The host's symbol lookup: is there an entry point for `op`?
    pub fn has_entry(&self, op: CPluginEndpoints) -> (r: bool)
        ensures
            r == self.supports(op),
    {
        let n = self.supported.len();
        let mut i: usize = 0;
        while i < n
            invariant
                n == self.supported@.len(),
                i <= n,
                forall|k: int| 0 <= k < i ==> self.supported@[k] != op,
            decreases n - i,
        {
            if self.supported[i] == op {
                return true;
            }
            i = i + 1;
        }
        false
    }

    /// Is `h` a live handle?  Stale or never-issued handles are detected.
    pub fn is_live(&self, h: usize) -> (r: bool)
        ensures
            r == self.live(h),
    {
        if 1 <= h && h <= self.slots.len() {
            self.slots[h - 1].is_some()
        } else {
            false
        }
    }

    /// The construction entry point.  Decodes the six raw configuration
    /// values (invalid UTF-8 becomes the empty string), asks the plugin
    /// type to construct an instance, and on success stores it and returns
    /// a fresh non-zero handle.  On failure the arena is untouched and 0,
    /// the invalid-handle sentinel, is returned.
    pub fn new_plugin(
        &mut self,
        dll_path: &[u8],
        nwnx_user_path: &[u8],
        nwn2_install_path: &[u8],
        nwn2_home_path: &[u8],
        nwn2_module_path: &[u8],
        nwnx_install_path: &[u8],
    ) -> (h: usize)
        ensures
            h == 0 ==> Self::same_arena(*old(self), *final(self)),
            h != 0 ==> Self::construct_success(*old(self), *final(self), h),
    {
        let dll_path = decode_text(dll_path);
        let nwnx_user_path = decode_text(nwnx_user_path);
        let nwn2_install_path = decode_text(nwn2_install_path);
        let nwn2_home_path = decode_text(nwn2_home_path);
        let nwn2_module_path = decode_text(nwn2_module_path);
        let nwnx_install_path = decode_text(nwnx_install_path);
        let info = InitInfo {
            dll_path: dll_path.as_slice(),
            nwnx_user_path: nwnx_user_path.as_slice(),
            nwn2_install_path: nwn2_install_path.as_slice(),
            nwn2_home_path: nwn2_home_path.as_slice(),
            nwn2_module_path: nwn2_module_path.as_slice(),
            nwnx_install_path: nwnx_install_path.as_slice(),
        };
        match P::new(info) {
            Ok(p) => {
                self.slots.push(Some(p));
                let h = self.slots.len();
                proof {
                    assert forall|k: usize| k != h implies final(self).live(k) == old(self).live(
                        k,
                    ) by {
                        if 1 <= k <= old(self).slots@.len() {
                            assert(final(self).slots@[k - 1] == old(self).slots@[k - 1]);
                        }
                    }
                }
                h
            },
            Err(_) => 0,
        }
    }

    /// The teardown entry point: release the instance behind `h` and
    /// vacate its slot.  Returns whether `h` was live, so double teardown
    /// and stale handles are detected rather than undefined.
    pub fn delete_plugin(&mut self, h: usize) -> (r: bool)
        ensures
            r == old(self).live(h),
            !final(self).live(h),
            forall|k: usize| k != h ==> final(self).live(k) == old(self).live(k),
            final(self).handles_issued() == old(self).handles_issued(),
            forall|op: CPluginEndpoints| final(self).supports(op) == old(self).supports(op),
    {
        if 1 <= h && h <= self.slots.len() {
            let i = h - 1;
            let was = self.slots.remove(i);
            self.slots.insert(i, None);
            proof {
                assert(self.slots@ =~= old(self).slots@.update(i as int, None));
            }
            match was {
                Some(_) => true,
                None => false,
            }
        } else {
            false
        }
    }

    /// Entry point for the instance identifier; the empty string when the
    /// handle is stale.
    pub fn get_id_entry(&mut self, cplugin: usize) -> (r: Vec<u8>)
        requires
            old(self).supports(CPluginEndpoints::get_id),
        ensures
            Self::same_arena(*old(self), *final(self)),
            !old(self).live(cplugin) ==> r@.len() == 0,
    {
        if !self.is_live(cplugin) {
            return Vec::new();
        }
        let i = cplugin - 1;
        let mut p = self.slots.remove(i).unwrap();
        let r = p.get_id();
        self.slots.insert(i, Some(p));
        proof {
            self.lemma_slot_restored(*old(self), i);
        }
        r
    }

    /// Entry point for the process-wide descriptive string.
    pub fn get_info_entry(&self) -> (r: Vec<u8>)
        requires
            self.supports(CPluginEndpoints::get_info),
    {
        P::get_info()
    }

    /// Entry point for the process-wide version string.
    pub fn get_version_entry(&self) -> (r: Vec<u8>)
        requires
            self.supports(CPluginEndpoints::get_version),
    {
        P::get_version()
    }

    /// Entry point for the integer read accessor: decode the two text
    /// selectors, dispatch, and return the value, or 0 when the operation
    /// fails or the handle is stale.
    pub fn get_int_entry(
        &mut self,
        cplugin: usize,
        s_function: &[u8],
        s_param1: &[u8],
        n_param2: i32,
    ) -> (r: i32)
        requires
            old(self).supports(CPluginEndpoints::get_int),
        ensures
            Self::same_arena(*old(self), *final(self)),
            !old(self).live(cplugin) ==> r == 0,
    {
        if !self.is_live(cplugin) {
            return 0;
        }
        let i = cplugin - 1;
        let mut p = self.slots.remove(i).unwrap();
        let function = decode_text(s_function);
        let param1 = decode_text(s_param1);
        let res = p.get_int(function.as_slice(), param1.as_slice(), n_param2);
        self.slots.insert(i, Some(p));
        proof {
            self.lemma_slot_restored(*old(self), i);
        }
        encode_int_result(res)
    }

    /// Entry point for the integer write accessor.  The call convention
    /// carries no return value; a failure is only a diagnostic matter.
    pub fn set_int_entry(
        &mut self,
        cplugin: usize,
        s_function: &[u8],
        s_param1: &[u8],
        n_param2: i32,
        n_value: i32,
    )
        requires
            old(self).supports(CPluginEndpoints::set_int),
        ensures
            Self::same_arena(*old(self), *final(self)),
    {
        if !self.is_live(cplugin) {
            return ;
        }
        let i = cplugin - 1;
        let mut p = self.slots.remove(i).unwrap();
        let function = decode_text(s_function);
        let param1 = decode_text(s_param1);
        let _ = p.set_int(function.as_slice(), param1.as_slice(), n_param2, n_value);
        self.slots.insert(i, Some(p));
        proof {
            self.lemma_slot_restored(*old(self), i);
        }
    }

    /// Entry point for the float read accessor, at the wire level a bit
    /// pattern: the value on success, the encoding of +0.0 (all zero bits)
    /// when the operation fails or the handle is stale.
    pub fn get_float_entry(
        &mut self,
        cplugin: usize,
        s_function: &[u8],
        s_param1: &[u8],
        n_param2: i32,
    ) -> (r: u32)
        requires
            old(self).supports(CPluginEndpoints::get_float),
        ensures
            Self::same_arena(*old(self), *final(self)),
            !old(self).live(cplugin) ==> r == 0,
    {
        if !self.is_live(cplugin) {
            return 0;
        }
        let i = cplugin - 1;
        let mut p = self.slots.remove(i).unwrap();
        let function = decode_text(s_function);
        let param1 = decode_text(s_param1);
        let res = p.get_float(function.as_slice(), param1.as_slice(), n_param2);
        self.slots.insert(i, Some(p));
        proof {
            self.lemma_slot_restored(*old(self), i);
        }
        encode_float_result(res)
    }

    /// Entry point for the float write accessor; the value arrives as a
    /// bit pattern.
    pub fn set_float_entry(
        &mut self,
        cplugin: usize,
        s_function: &[u8],
        s_param1: &[u8],
        n_param2: i32,
        f_value: u32,
    )
        requires
            old(self).supports(CPluginEndpoints::set_float),
        ensures
            Self::same_arena(*old(self), *final(self)),
    {
        if !self.is_live(cplugin) {
            return ;
        }
        let i = cplugin - 1;
        let mut p = self.slots.remove(i).unwrap();
        let function = decode_text(s_function);
        let param1 = decode_text(s_param1);
        let _ = p.set_float(function.as_slice(), param1.as_slice(), n_param2, f_value);
        self.slots.insert(i, Some(p));
        proof {
            self.lemma_slot_restored(*old(self), i);
        }
    }

    /// Entry point for the string read accessor.  The caller supplies the
    /// destination buffer; its length is its capacity and never changes.
    /// A result that fits strictly (content plus terminator) is copied and
    /// terminated; one that does not leaves the buffer untouched; a failing
    /// operation or a stale handle zeroes the first byte.
    pub fn get_str_entry(
        &mut self,
        cplugin: usize,
        s_function: &[u8],
        s_param1: &[u8],
        n_param2: i32,
        result: &mut Vec<u8>,
    )
        requires
            old(self).supports(CPluginEndpoints::get_str),
        ensures
            Self::same_arena(*old(self), *final(self)),
            final(result)@.len() == old(result)@.len(),
            !old(self).live(cplugin) ==> final(result)@ == wire_str_failed(old(result)@),
    {
        if !self.is_live(cplugin) {
            if result.len() > 0 {
                result.set(0, 0);
            }
            return ;
        }
        let i = cplugin - 1;
        let mut p = self.slots.remove(i).unwrap();
        let function = decode_text(s_function);
        let param1 = decode_text(s_param1);
        let res = p.get_str(function.as_slice(), param1.as_slice(), n_param2);
        self.slots.insert(i, Some(p));
        proof {
            self.lemma_slot_restored(*old(self), i);
        }
        write_str_result(result, res);
    }

    /// Entry point for the string write accessor; the value is text and is
    /// validated like the selectors.
    pub fn set_str_entry(
        &mut self,
        cplugin: usize,
        s_function: &[u8],
        s_param1: &[u8],
        n_param2: i32,
        s_value: &[u8],
    )
        requires
            old(self).supports(CPluginEndpoints::set_str),
        ensures
            Self::same_arena(*old(self), *final(self)),
    {
        if !self.is_live(cplugin) {
            return ;
        }
        let i = cplugin - 1;
        let mut p = self.slots.remove(i).unwrap();
        let function = decode_text(s_function);
        let param1 = decode_text(s_param1);
        let value = decode_text(s_value);
        let _ = p.set_str(
            function.as_slice(),
            param1.as_slice(),
            n_param2,
            value.as_slice(),
        );
        self.slots.insert(i, Some(p));
        proof {
            self.lemma_slot_restored(*old(self), i);
        }
    }

    /// Entry point for the blob size query: the exact byte length the next
    /// blob read for this name requires, or 0 when the operation fails or
    /// the handle is stale.
    pub fn get_gff_size_entry(&mut self, cplugin: usize, s_var_name: &[u8]) -> (r: usize)
        requires
            old(self).supports(CPluginEndpoints::get_gff_size),
        ensures
            Self::same_arena(*old(self), *final(self)),
            !old(self).live(cplugin) ==> r == 0,
    {
        if !self.is_live(cplugin) {
            return 0;
        }
        let i = cplugin - 1;
        let mut p = self.slots.remove(i).unwrap();
        let var_name = decode_text(s_var_name);
        let res = p.get_gff_size(var_name.as_slice());
        self.slots.insert(i, Some(p));
        proof {
            self.lemma_slot_restored(*old(self), i);
        }
        encode_size_result(res)
    }

    /// Entry point for the blob read: the plugin fills the caller-owned
    /// buffer up to its capacity.  There is no return channel; a stale
    /// handle leaves the buffer untouched.
    pub fn get_gff_entry(&mut self, cplugin: usize, s_var_name: &[u8], gff_data: &mut Vec<u8>)
        requires
            old(self).supports(CPluginEndpoints::get_gff),
        ensures
            Self::same_arena(*old(self), *final(self)),
            final(gff_data)@.len() == old(gff_data)@.len(),
            !old(self).live(cplugin) ==> final(gff_data)@ == old(gff_data)@,
    {
        if !self.is_live(cplugin) {
            return ;
        }
        let i = cplugin - 1;
        let mut p = self.slots.remove(i).unwrap();
        let var_name = decode_text(s_var_name);
        p.get_gff(var_name.as_slice(), gff_data);
        self.slots.insert(i, Some(p));
        proof {
            self.lemma_slot_restored(*old(self), i);
        }
    }

    /// Entry point for the blob write: the plugin consumes the raw bytes.
    /// The name is text and is validated; the payload is opaque and passes
    /// through unvalidated.
    pub fn set_gff_entry(&mut self, cplugin: usize, s_var_name: &[u8], gff_data: &[u8])
        requires
            old(self).supports(CPluginEndpoints::set_gff),
        ensures
            Self::same_arena(*old(self), *final(self)),
    {
        if !self.is_live(cplugin) {
            return ;
        }
        let i = cplugin - 1;
        let mut p = self.slots.remove(i).unwrap();
        let var_name = decode_text(s_var_name);
        let _ = p.set_gff(var_name.as_slice(), gff_data);
        self.slots.insert(i, Some(p));
        proof {
            self.lemma_slot_restored(*old(self), i);
        }
    }

    /// After taking slot `i` out and putting a (possibly updated) instance
    /// back, the arena is unchanged: same handles issued, same handles
    /// live, same operations exposed.
    proof fn lemma_slot_restored(self, pre: Self, i: usize)
        requires
            pre.slots@.len() >= 1,
            i < pre.slots@.len(),
            pre.slots@[i as int] is Some,
            self.supported@ == pre.supported@,
            self.slots@.len() == pre.slots@.len(),
            self.slots@[i as int] is Some,
            forall|k: int| 0 <= k < pre.slots@.len() && k != i ==> self.slots@[k] == pre.slots@[k],
        ensures
            Self::same_arena(pre, self),
    {
        assert forall|h: usize| self.live(h) == pre.live(h) by {
            if 1 <= h <= pre.slots@.len() {
                if h - 1 == i {
                    assert(self.slots@[h - 1] is Some);
                } else {
                    assert(self.slots@[h - 1] == pre.slots@[h - 1]);
                }
            }
        }
    }

    /// Construction followed by teardown of the new handle leaves no
    /// observable resource behind: exactly the handles that were live
    /// before the construction are live after the teardown.
    pub proof fn lemma_construct_then_teardown(pre: Self, mid: Self, post: Self, h: usize)
        requires
            Self::construct_success(pre, mid, h),
            !post.live(h),
            forall|k: usize| k != h ==> post.live(k) == mid.live(k),
        ensures
            forall|k: usize| post.live(k) == pre.live(k),
    {
        assert(!pre.live(h));
    }

    /// Two successful constructions never hand out the same handle, and
    /// the earlier handle is still live after the later construction.
    pub proof fn lemma_construct_handles_distinct(
        pre: Self,
        mid: Self,
        post: Self,
        h1: usize,
        h2: usize,
    )
        requires
            Self::construct_success(pre, mid, h1),
            Self::construct_success(mid, post, h2),
        ensures
            h1 != h2,
            post.live(h1),
            post.live(h2),
    {
    }
}

} // verus!

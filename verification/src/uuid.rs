//! 128-bit globally-unique identifiers that key the capability-cast
//! operation, together with the identifier of every interface the binding
//! layer knows.

use vstd::prelude::*;

verus! {

broadcast use vstd::array::group_array_axioms;

/// A 128-bit interface identifier laid out as in the native ABI: one 32-bit
/// word, two 16-bit words, and eight bytes.
#[derive(Debug, Clone, Copy)]
pub struct SlangUUID {
    pub data1: u32,
    pub data2: u16,
    pub data3: u16,
    pub data4: [u8; 8],
}

impl SlangUUID {
    /// Builds an identifier from its four components.
    pub fn new(d1: u32, d2: u16, d3: u16, d4: [u8; 8]) -> (r: Self)
        ensures
            r.data1 == d1,
            r.data2 == d2,
            r.data3 == d3,
            r.data4 == d4,
    {
        Self { data1: d1, data2: d2, data3: d3, data4: d4 }
    }
}

impl PartialEq for SlangUUID {
    fn eq(&self, o: &SlangUUID) -> (r: bool) {
        let words = self.data1 == o.data1 && self.data2 == o.data2 && self.data3 == o.data3;
        let bytes = self.data4[0] == o.data4[0] && self.data4[1] == o.data4[1]
            && self.data4[2] == o.data4[2] && self.data4[3] == o.data4[3]
            && self.data4[4] == o.data4[4] && self.data4[5] == o.data4[5]
            && self.data4[6] == o.data4[6] && self.data4[7] == o.data4[7];
        proof {
            if bytes {
                assert(self.data4 =~= o.data4);
            } else {
                assert(!(self.data4 =~= o.data4));
            }
        }
        words && bytes
    }
}

impl Eq for SlangUUID {}

impl vstd::std_specs::cmp::PartialEqSpecImpl for SlangUUID {
    open spec fn obeys_eq_spec() -> bool {
        true
    }

    open spec fn eq_spec(&self, o: &SlangUUID) -> bool {
        *self == *o
    }
}

/// Identifier of the base capability every interface supports:
/// capability query, reference increment, and reference decrement. This is the value unknown_iid returns.
pub open spec fn spec_unknown_iid() -> SlangUUID {
    SlangUUID { data1: 0x00000000, data2: 0x0000, data3: 0x0000, data4: [0xc0, 0x00, 0x00, 0x00, 0x00, 0x00, 0x00, 0x46] }
}

/// Identifier of the base capability every interface supports:
/// capability query, reference increment, and reference decrement.
pub fn unknown_iid() -> (r: SlangUUID)
    ensures
        r == spec_unknown_iid(),
{
    let r = SlangUUID::new(0x00000000, 0x0000, 0x0000, [0xc0, 0x00, 0x00, 0x00, 0x00, 0x00, 0x00, 0x46]);
    proof {
        assert(r.data4 =~= spec_unknown_iid().data4);
    }
    r
}

/// Identifier of the blob capability: read-only access to a
/// foreign-owned byte buffer. This is the value blob_iid returns.
pub open spec fn spec_blob_iid() -> SlangUUID {
    SlangUUID { data1: 0x8ba5fb08, data2: 0x5195, data3: 0x40e2, data4: [0xac, 0x58, 0x0d, 0x98, 0x9c, 0x3a, 0x01, 0x02] }
}

/// Identifier of the blob capability: read-only access to a
/// foreign-owned byte buffer.
pub fn blob_iid() -> (r: SlangUUID)
    ensures
        r == spec_blob_iid(),
{
    let r = SlangUUID::new(0x8ba5fb08, 0x5195, 0x40e2, [0xac, 0x58, 0x0d, 0x98, 0x9c, 0x3a, 0x01, 0x02]);
    proof {
        assert(r.data4 =~= spec_blob_iid().data4);
    }
    r
}

/// Identifier of the file-system capability. This is the value file_system_iid returns.
pub open spec fn spec_file_system_iid() -> SlangUUID {
    SlangUUID { data1: 0x003a09fc, data2: 0x3a4d, data3: 0x4ba0, data4: [0xad, 0x60, 0x1f, 0xd8, 0x63, 0xa9, 0x15, 0xab] }
}

/// Identifier of the file-system capability.
pub fn file_system_iid() -> (r: SlangUUID)
    ensures
        r == spec_file_system_iid(),
{
    let r = SlangUUID::new(0x003a09fc, 0x3a4d, 0x4ba0, [0xad, 0x60, 0x1f, 0xd8, 0x63, 0xa9, 0x15, 0xab]);
    proof {
        assert(r.data4 =~= spec_file_system_iid().data4);
    }
    r
}

/// Identifier of the shared-library capability. This is the value shared_library_iid returns.
pub open spec fn spec_shared_library_iid() -> SlangUUID {
    SlangUUID { data1: 0x70dbc7c4, data2: 0xdc3b, data3: 0x4a07, data4: [0xae, 0x7e, 0x75, 0x2a, 0xf6, 0xa8, 0x15, 0x55] }
}

/// Identifier of the shared-library capability.
pub fn shared_library_iid() -> (r: SlangUUID)
    ensures
        r == spec_shared_library_iid(),
{
    let r = SlangUUID::new(0x70dbc7c4, 0xdc3b, 0x4a07, [0xae, 0x7e, 0x75, 0x2a, 0xf6, 0xa8, 0x15, 0x55]);
    proof {
        assert(r.data4 =~= spec_shared_library_iid().data4);
    }
    r
}

/// Identifier of the shared-library-loader capability. This is the value shared_library_loader_iid returns.
pub open spec fn spec_shared_library_loader_iid() -> SlangUUID {
    SlangUUID { data1: 0x6264ab2b, data2: 0xa3e8, data3: 0x4a06, data4: [0x97, 0xf1, 0x49, 0xbc, 0x2d, 0x2a, 0xb1, 0x4d] }
}

/// Identifier of the shared-library-loader capability.
pub fn shared_library_loader_iid() -> (r: SlangUUID)
    ensures
        r == spec_shared_library_loader_iid(),
{
    let r = SlangUUID::new(0x6264ab2b, 0xa3e8, 0x4a06, [0x97, 0xf1, 0x49, 0xbc, 0x2d, 0x2a, 0xb1, 0x4d]);
    proof {
        assert(r.data4 =~= spec_shared_library_loader_iid().data4);
    }
    r
}

/// Identifier of the writer capability: a text output stream for
/// diagnostics and other information. This is the value writer_iid returns.
pub open spec fn spec_writer_iid() -> SlangUUID {
    SlangUUID { data1: 0xec457f0e, data2: 0x9add, data3: 0x4e6b, data4: [0x85, 0x1c, 0xd7, 0xfa, 0x71, 0x6d, 0x15, 0xfd] }
}

/// Identifier of the writer capability: a text output stream for
/// diagnostics and other information.
pub fn writer_iid() -> (r: SlangUUID)
    ensures
        r == spec_writer_iid(),
{
    let r = SlangUUID::new(0xec457f0e, 0x9add, 0x4e6b, [0x85, 0x1c, 0xd7, 0xfa, 0x71, 0x6d, 0x15, 0xfd]);
    proof {
        assert(r.data4 =~= spec_writer_iid().data4);
    }
    r
}

/// Identifier of the profiler capability. This is the value profiler_iid returns.
pub open spec fn spec_profiler_iid() -> SlangUUID {
    SlangUUID { data1: 0x197772c7, data2: 0x0155, data3: 0x4b91, data4: [0x84, 0xe8, 0x66, 0x68, 0xba, 0xff, 0x06, 0x19] }
}

/// Identifier of the profiler capability.
pub fn profiler_iid() -> (r: SlangUUID)
    ensures
        r == spec_profiler_iid(),
{
    let r = SlangUUID::new(0x197772c7, 0x0155, 0x4b91, [0x84, 0xe8, 0x66, 0x68, 0xba, 0xff, 0x06, 0x19]);
    proof {
        assert(r.data4 =~= spec_profiler_iid().data4);
    }
    r
}

/// Identifier of the global-session capability: the root factory
/// object of the compiler. This is the value global_session_iid returns.
pub open spec fn spec_global_session_iid() -> SlangUUID {
    SlangUUID { data1: 0xc140b5fd, data2: 0x0c78, data3: 0x452e, data4: [0xba, 0x7c, 0x1a, 0x1e, 0x70, 0xc7, 0xf7, 0x1c] }
}

/// Identifier of the global-session capability: the root factory
/// object of the compiler.
pub fn global_session_iid() -> (r: SlangUUID)
    ensures
        r == spec_global_session_iid(),
{
    let r = SlangUUID::new(0xc140b5fd, 0x0c78, 0x452e, [0xba, 0x7c, 0x1a, 0x1e, 0x70, 0xc7, 0xf7, 0x1c]);
    proof {
        assert(r.data4 =~= spec_global_session_iid().data4);
    }
    r
}

/// Identifier of the session capability: a scope for loading and
/// compiling code. This is the value session_iid returns.
pub open spec fn spec_session_iid() -> SlangUUID {
    SlangUUID { data1: 0x67618701, data2: 0xd116, data3: 0x468f, data4: [0xab, 0x3b, 0x47, 0x4b, 0xed, 0xce, 0x0e, 0x3d] }
}

/// Identifier of the session capability: a scope for loading and
/// compiling code.
pub fn session_iid() -> (r: SlangUUID)
    ensures
        r == spec_session_iid(),
{
    let r = SlangUUID::new(0x67618701, 0xd116, 0x468f, [0xab, 0x3b, 0x47, 0x4b, 0xed, 0xce, 0x0e, 0x3d]);
    proof {
        assert(r.data4 =~= spec_session_iid().data4);
    }
    r
}

/// Identifier of the metadata capability: queries about compiled
/// target code, such as which parameter locations are in use. This is the value metadata_iid returns.
pub open spec fn spec_metadata_iid() -> SlangUUID {
    SlangUUID { data1: 0x8044a8a3, data2: 0xddc0, data3: 0x4b7f, data4: [0xaf, 0x8e, 0x02, 0x6e, 0x90, 0x5d, 0x73, 0x32] }
}

/// Identifier of the metadata capability: queries about compiled
/// target code, such as which parameter locations are in use.
pub fn metadata_iid() -> (r: SlangUUID)
    ensures
        r == spec_metadata_iid(),
{
    let r = SlangUUID::new(0x8044a8a3, 0xddc0, 0x4b7f, [0xaf, 0x8e, 0x02, 0x6e, 0x90, 0x5d, 0x73, 0x32]);
    proof {
        assert(r.data4 =~= spec_metadata_iid().data4);
    }
    r
}

/// Identifier of the compile-result capability. This is the value compile_result_iid returns.
pub open spec fn spec_compile_result_iid() -> SlangUUID {
    SlangUUID { data1: 0x5fa9380e, data2: 0xb62f, data3: 0x41e5, data4: [0x9f, 0x12, 0x4b, 0xad, 0x4d, 0x9e, 0xaa, 0xe4] }
}

/// Identifier of the compile-result capability.
pub fn compile_result_iid() -> (r: SlangUUID)
    ensures
        r == spec_compile_result_iid(),
{
    let r = SlangUUID::new(0x5fa9380e, 0xb62f, 0x41e5, [0x9f, 0x12, 0x4b, 0xad, 0x4d, 0x9e, 0xaa, 0xe4]);
    proof {
        assert(r.data4 =~= spec_compile_result_iid().data4);
    }
    r
}

/// Identifier of the component-type capability: a unit of shader
/// code that can be specialized, composed, and linked. This is the value component_type_iid returns.
pub open spec fn spec_component_type_iid() -> SlangUUID {
    SlangUUID { data1: 0x5bc42be8, data2: 0x5c50, data3: 0x4929, data4: [0x9e, 0x5e, 0xd1, 0x5e, 0x7c, 0x24, 0x01, 0x5f] }
}

/// Identifier of the component-type capability: a unit of shader
/// code that can be specialized, composed, and linked.
pub fn component_type_iid() -> (r: SlangUUID)
    ensures
        r == spec_component_type_iid(),
{
    let r = SlangUUID::new(0x5bc42be8, 0x5c50, 0x4929, [0x9e, 0x5e, 0xd1, 0x5e, 0x7c, 0x24, 0x01, 0x5f]);
    proof {
        assert(r.data4 =~= spec_component_type_iid().data4);
    }
    r
}

/// Identifier of the entry-point capability. This is the value entry_point_iid returns.
pub open spec fn spec_entry_point_iid() -> SlangUUID {
    SlangUUID { data1: 0x8f241361, data2: 0xf5bd, data3: 0x4ca0, data4: [0xa3, 0xac, 0x02, 0xf7, 0xfa, 0x24, 0x02, 0xb8] }
}

/// Identifier of the entry-point capability.
pub fn entry_point_iid() -> (r: SlangUUID)
    ensures
        r == spec_entry_point_iid(),
{
    let r = SlangUUID::new(0x8f241361, 0xf5bd, 0x4ca0, [0xa3, 0xac, 0x02, 0xf7, 0xfa, 0x24, 0x02, 0xb8]);
    proof {
        assert(r.data4 =~= spec_entry_point_iid().data4);
    }
    r
}

/// Identifier of the type-conformance capability. This is the value type_conformance_iid returns.
pub open spec fn spec_type_conformance_iid() -> SlangUUID {
    SlangUUID { data1: 0x73eb3147, data2: 0xe544, data3: 0x41b5, data4: [0xb8, 0xf0, 0xa2, 0x44, 0xdf, 0x21, 0x94, 0x0b] }
}

/// Identifier of the type-conformance capability.
pub fn type_conformance_iid() -> (r: SlangUUID)
    ensures
        r == spec_type_conformance_iid(),
{
    let r = SlangUUID::new(0x73eb3147, 0xe544, 0x41b5, [0xb8, 0xf0, 0xa2, 0x44, 0xdf, 0x21, 0x94, 0x0b]);
    proof {
        assert(r.data4 =~= spec_type_conformance_iid().data4);
    }
    r
}

/// Identifier of the extended component-type capability, whose
/// results are whole compile-result objects instead of single blobs. This is the value component_type2_iid returns.
pub open spec fn spec_component_type2_iid() -> SlangUUID {
    SlangUUID { data1: 0x9c2a4b3d, data2: 0x7f68, data3: 0x4e91, data4: [0xa5, 0x2c, 0x8b, 0x19, 0x3e, 0x45, 0x7a, 0x9f] }
}

/// Identifier of the extended component-type capability, whose
/// results are whole compile-result objects instead of single blobs.
pub fn component_type2_iid() -> (r: SlangUUID)
    ensures
        r == spec_component_type2_iid(),
{
    let r = SlangUUID::new(0x9c2a4b3d, 0x7f68, 0x4e91, [0xa5, 0x2c, 0x8b, 0x19, 0x3e, 0x45, 0x7a, 0x9f]);
    proof {
        assert(r.data4 =~= spec_component_type2_iid().data4);
    }
    r
}

/// Identifier of the module capability: a compiled translation
/// unit. This is the value module_iid returns.
pub open spec fn spec_module_iid() -> SlangUUID {
    SlangUUID { data1: 0x0c720e64, data2: 0x8722, data3: 0x4d31, data4: [0x89, 0x90, 0x63, 0x8a, 0x98, 0xb1, 0xc2, 0x79] }
}

/// Identifier of the module capability: a compiled translation
/// unit.
pub fn module_iid() -> (r: SlangUUID)
    ensures
        r == spec_module_iid(),
{
    let r = SlangUUID::new(0x0c720e64, 0x8722, 0x4d31, [0x89, 0x90, 0x63, 0x8a, 0x98, 0xb1, 0xc2, 0x79]);
    proof {
        assert(r.data4 =~= spec_module_iid().data4);
    }
    r
}

} // verus!

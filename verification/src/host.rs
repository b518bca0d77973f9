//! The interface-pointer ownership model. The foreign library keeps one
//! reference count inside every object it hands out; the wrapper's whole
//! discipline is "exactly one decrement per increment, on every path". That
//! discipline is stated and proved here against an explicit model of the
//! foreign object table: a host whose entries are reference-counted objects,
//! each answering a set of capability identifiers, exactly the shape of a
//! stub vtable whose add-ref and release are plain counters.

use vstd::prelude::*;

use crate::uuid::SlangUUID;
use crate::SlangResult;

verus! {

/// Failure code a capability query returns when the requested identifier is
/// not supported: the COM "no interface" result, a negative value.
pub const SLANG_E_NO_INTERFACE: SlangResult = -2147467262;

/// One foreign object: its reference count, the capability identifiers it
/// answers to, and, for blob objects, the bytes it owns.
pub struct HostObject {
    pub ref_count: u64,
    pub supported: Vec<SlangUUID>,
    pub data: Vec<u8>,
}

impl HostObject {
    /// Holds when the object answers a capability query for `guid`.
    pub open spec fn spec_supports(self, guid: SlangUUID) -> bool {
        self.supported@.contains(guid)
    }
}

/// The foreign library's object table: each entry is one reference-counted
/// object. The real library frees an object when its count reaches zero;
/// the model keeps the entry, with count zero, so that counts before and
/// after a lifecycle can be compared.
pub struct Host {
    pub objects: Vec<HostObject>,
}

/// An owned handle on one foreign object. A handle is only ever created by
/// an operation that placed or incremented a reference on the object, and is
/// consumed by exactly one release.
pub struct Handle {
    pub obj: usize,
}

/// The reference counts of every object in the table, in table order.
pub open spec fn spec_counts(h: Host) -> Seq<u64> {
    h.objects@.map(|i: int, o: HostObject| o.ref_count)
}

/// Holds when `obj` names a table entry that is still alive.
pub open spec fn spec_live(h: Host, obj: int) -> bool {
    0 <= obj < h.objects@.len() && h.objects@[obj].ref_count > 0
}

/// Holds when the handle points at a live table entry.
pub open spec fn spec_handle_live(h: Host, hd: Handle) -> bool {
    spec_live(h, hd.obj as int)
}

/// The count table after one reference increment on `obj`.
pub open spec fn spec_bump(counts: Seq<u64>, obj: int) -> Seq<u64> {
    counts.update(obj, (counts[obj] + 1) as u64)
}

/// The count table after one reference decrement on `obj`.
pub open spec fn spec_unbump(counts: Seq<u64>, obj: int) -> Seq<u64> {
    counts.update(obj, (counts[obj] - 1) as u64)
}

/// Holds when the two tables list the same objects with the same
/// capabilities and contents; only the reference counts may differ.
pub open spec fn spec_same_objects(a: Host, b: Host) -> bool {
    &&& a.objects@.len() == b.objects@.len()
    &&& forall|i: int|
        0 <= i < a.objects@.len() ==> (#[trigger] a.objects@[i]).supported
            == b.objects@[i].supported && a.objects@[i].data == b.objects@[i].data
}

impl Host {
    /// An empty object table.
    pub fn new() -> (r: Host)
        ensures
            r.objects@.len() == 0,
    {
        Host { objects: Vec::new() }
    }

    /// Allocates a fresh foreign object answering the given capability
    /// identifiers and owning the given bytes, and hands back the one owned
    /// handle on it: the object starts with a reference count of one.
    pub fn create_object(&mut self, supported: Vec<SlangUUID>, data: Vec<u8>) -> (r: Handle)
        ensures
            final(self).objects@.len() == old(self).objects@.len() + 1,
            final(self).objects@.subrange(0, old(self).objects@.len() as int) == old(self).objects@,
            r.obj == old(self).objects@.len(),
            final(self).objects@[r.obj as int].ref_count == 1,
            final(self).objects@[r.obj as int].supported == supported,
            final(self).objects@[r.obj as int].data == data,
            spec_handle_live(*final(self), r),
    {
        let obj = self.objects.len();
        self.objects.push(HostObject { ref_count: 1, supported, data });
        proof {
            assert(self.objects@.subrange(0, old(self).objects@.len() as int) =~= old(
                self,
            ).objects@);
        }
        Handle { obj }
    }

    /// One reference increment on the handle's object, as the base
    /// capability's add-ref slot performs it; returns the new count.
    pub fn add_ref(&mut self, h: &Handle) -> (r: u64)
        requires
            spec_handle_live(*old(self), *h),
            spec_counts(*old(self))[h.obj as int] < u64::MAX,
        ensures
            spec_same_objects(*old(self), *final(self)),
            spec_counts(*final(self)) == spec_bump(spec_counts(*old(self)), h.obj as int),
            r == spec_counts(*old(self))[h.obj as int] + 1,
            spec_handle_live(*final(self), *h),
    {
        let c = self.objects[h.obj].ref_count;
        self.objects[h.obj].ref_count = c + 1;
        proof {
            assert(spec_counts(*self) =~= spec_bump(spec_counts(*old(self)), h.obj as int));
        }
        c + 1
    }

    /// One reference decrement, consuming the handle: the one release owed
    /// for the increment that created it. Returns the new count; when it
    /// reaches zero the real library deallocates the object.
    pub fn release(&mut self, h: Handle) -> (r: u64)
        requires
            spec_handle_live(*old(self), h),
        ensures
            spec_same_objects(*old(self), *final(self)),
            spec_counts(*final(self)) == spec_unbump(spec_counts(*old(self)), h.obj as int),
            r == spec_counts(*old(self))[h.obj as int] - 1,
    {
        let c = self.objects[h.obj].ref_count;
        self.objects[h.obj].ref_count = c - 1;
        proof {
            assert(spec_counts(*self) =~= spec_unbump(spec_counts(*old(self)), h.obj as int));
        }
        c - 1
    }

    /// Clones a handle: one reference increment on the same object, and a
    /// second owned handle that now owes its own release.
    pub fn clone_handle(&mut self, h: &Handle) -> (r: Handle)
        requires
            spec_handle_live(*old(self), *h),
            spec_counts(*old(self))[h.obj as int] < u64::MAX,
        ensures
            spec_same_objects(*old(self), *final(self)),
            spec_counts(*final(self)) == spec_bump(spec_counts(*old(self)), h.obj as int),
            r.obj == h.obj,
            spec_handle_live(*final(self), *h),
            spec_handle_live(*final(self), r),
    {
        self.add_ref(h);
        Handle { obj: h.obj }
    }

    /// Capability query on the handle's object, as the base capability's
    /// query slot performs it. When the object supports `guid`, the query
    /// places one more reference on it and returns an owned handle under a
    /// non-negative code; when it does not, the query returns the negative
    /// no-interface code and changes nothing.
    pub fn query_interface(&mut self, h: &Handle, guid: &SlangUUID) -> (r: Result<
        Handle,
        SlangResult,
    >)
        requires
            spec_handle_live(*old(self), *h),
            spec_counts(*old(self))[h.obj as int] < u64::MAX,
        ensures
            spec_same_objects(*old(self), *final(self)),
            old(self).objects@[h.obj as int].spec_supports(*guid) ==> {
                &&& r matches Ok(n) && n.obj == h.obj
                &&& spec_counts(*final(self)) == spec_bump(spec_counts(*old(self)), h.obj as int)
            },
            !old(self).objects@[h.obj as int].spec_supports(*guid) ==> {
                &&& r matches Err(code) && code < 0
                &&& *final(self) == *old(self)
            },
    {
        if self.object_supports(h, guid) {
            Ok(self.clone_handle(h))
        } else {
            Err(SLANG_E_NO_INTERFACE)
        }
    }

    /// Capability cast: discovery, not a fallible conversion. An unsupported
    /// identifier yields the absent option, never a failure and never a
    /// handle on nothing; a supported one yields a new owned handle.
    pub fn clone_cast(&mut self, h: &Handle, guid: &SlangUUID) -> (r: Option<Handle>)
        requires
            spec_handle_live(*old(self), *h),
            spec_counts(*old(self))[h.obj as int] < u64::MAX,
        ensures
            spec_same_objects(*old(self), *final(self)),
            old(self).objects@[h.obj as int].spec_supports(*guid) ==> {
                &&& r matches Some(n) && n.obj == h.obj
                &&& spec_counts(*final(self)) == spec_bump(spec_counts(*old(self)), h.obj as int)
            },
            !old(self).objects@[h.obj as int].spec_supports(*guid) ==> r is None && *final(self) == *old(self),
    {
        match self.query_interface(h, guid) {
            Ok(n) => Some(n),
            Err(_) => None,
        }
    }

    /// Borrowed capability cast, as the castable capability's cast slot
    /// performs it: no reference is placed; an unsupported identifier yields
    /// the absent option, a supported one the object's table index.
    pub fn cast_as(&self, h: &Handle, guid: &SlangUUID) -> (r: Option<usize>)
        requires
            spec_handle_live(*self, *h),
        ensures
            self.objects@[h.obj as int].spec_supports(*guid) ==> r == Some(h.obj),
            !self.objects@[h.obj as int].spec_supports(*guid) ==> r is None,
    {
        if self.object_supports(h, guid) {
            Some(h.obj)
        } else {
            None
        }
    }

    /// Whether the handle's object answers a capability query for `guid`.
    pub fn object_supports(&self, h: &Handle, guid: &SlangUUID) -> (r: bool)
        requires
            h.obj < self.objects@.len(),
        ensures
            r == self.objects@[h.obj as int].spec_supports(*guid),
    {
        let supported = &self.objects[h.obj].supported;
        let n = supported.len();
        let mut i: usize = 0;
        while i < n
            invariant
                h.obj < self.objects@.len(),
                supported@ == self.objects@[h.obj as int].supported@,
                n == supported@.len(),
                i <= n,
                forall|j: int| 0 <= j < i ==> supported@[j] != *guid,
            decreases n - i,
        {
            if supported[i] == *guid {
                proof {
                    assert(supported@[i as int] == *guid);
                    assert(self.objects@[h.obj as int].spec_supports(*guid));
                }
                return true;
            }
            i = i + 1;
        }
        false
    }

    /// The current reference count of the handle's object.
    pub fn reference_count(&self, h: &Handle) -> (r: u64)
        requires
            h.obj < self.objects@.len(),
        ensures
            r == spec_counts(*self)[h.obj as int],
    {
        self.objects[h.obj].ref_count
    }

    /// Size of the byte buffer a blob object owns, as the blob capability's
    /// buffer-size slot reports it.
    pub fn blob_size(&self, h: &Handle) -> (r: usize)
        requires
            h.obj < self.objects@.len(),
        ensures
            r == self.objects@[h.obj as int].data@.len(),
    {
        self.objects[h.obj].data.len()
    }

    /// The byte buffer a blob object owns: read-only foreign-owned bytes.
    pub fn blob_bytes(&self, h: &Handle) -> (r: &Vec<u8>)
        requires
            h.obj < self.objects@.len(),
        ensures
            r == self.objects@[h.obj as int].data,
    {
        &self.objects[h.obj].data
    }
}

/// Cloning a handle places one reference and each release removes one, so
/// after cloning and then releasing both the clone and the original, the
/// object's count stands exactly one below its pre-clone value; in
/// particular, releasing only the clone restores the pre-clone count, so the
/// clone-release pair is balanced.
pub proof fn lemma_clone_release_balance(counts: Seq<u64>, obj: int)
    requires
        0 <= obj < counts.len(),
        counts[obj] < u64::MAX,
    ensures
        spec_unbump(spec_bump(counts, obj), obj) == counts,
        spec_unbump(spec_unbump(spec_bump(counts, obj), obj), obj) == spec_unbump(counts, obj),
{
    assert(spec_unbump(spec_bump(counts, obj), obj) =~= counts);
    assert(spec_unbump(spec_unbump(spec_bump(counts, obj), obj), obj) =~= spec_unbump(
        counts,
        obj,
    ));
}

} // verus!

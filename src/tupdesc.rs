//! The descriptor handle: one type for four ownership disciplines, with the
//! release action a total function of the discipline.
use vstd::prelude::*;
use crate::host::{
    decoded, heap_getattr, Attribute, CompositeDatum, Datum, DatumKind, Host, HostView,
    HeapTupleData, PgRelation, ReleaseAction, TupleDescData,
};

verus! {

/// How a handle came to hold its descriptor, which fixes how it lets go.
#[derive(Clone, Copy, PartialEq, Eq, Structural, Debug)]
pub enum Provenance {
    /// The host counts references to the descriptor; the handle holds one.
    ReferenceCounted,
    /// The handle owns a private copy and frees it.
    OwnedCopy,
    /// A view into a live relation's descriptor; nothing to give back.
    BorrowedFromParent,
    /// Resolved from a composite value through the type cache, holding one
    /// reference, and carrying the value's row payload.
    CompositeDerived,
}

/// What releasing a handle of provenance `p` asks of the host, given the
/// descriptor's current reference count `refcount`.
pub open spec fn release_action(p: Provenance, refcount: i32) -> ReleaseAction {
    match p {
        Provenance::ReferenceCounted | Provenance::CompositeDerived => {
            if refcount >= 0 {
                ReleaseAction::DecrementRefCount
            } else {
                ReleaseAction::Nothing
            }
        },
        Provenance::OwnedCopy => ReleaseAction::Free,
        Provenance::BorrowedFromParent => ReleaseAction::Nothing,
    }
}

/// A handle on a host row-shape descriptor. It keeps the descriptor's pointer,
/// its type identity and columns as read when the handle was made, and the
/// provenance that decides its release.
pub struct PgTupleDesc<'a> {
    tupdesc: TupleDescData,
    ptr: usize,
    parent: Option<&'a PgRelation>,
    data: Option<HeapTupleData>,
    provenance: Provenance,
}

impl<'a> PgTupleDesc<'a> {
    /// Only a relation-backed handle has a parent; only a composite-derived
    /// handle has a payload.
    #[verifier::type_invariant]
    spec fn inv(&self) -> bool {
        &&& (self.provenance == Provenance::BorrowedFromParent) == self.parent.is_some()
        &&& (self.provenance == Provenance::CompositeDerived) == self.data.is_some()
        &&& self.data matches Some(d) ==> d.t_len == d.t_data@.len()
    }

    /// Pointer to the wrapped descriptor.
    pub closed spec fn ptr(&self) -> int {
        self.ptr as int
    }

    /// The columns, in order.
    pub closed spec fn attrs(&self) -> Seq<Attribute> {
        self.tupdesc.attrs@
    }

    /// Type identifier of the row type.
    pub closed spec fn type_id(&self) -> u32 {
        self.tupdesc.tdtypeid
    }

    /// Type modifier of the row type.
    pub closed spec fn type_mod(&self) -> i32 {
        self.tupdesc.tdtypmod
    }

    /// The provenance tag.
    pub closed spec fn tag(&self) -> Provenance {
        self.provenance
    }

    /// The relation the handle borrows from, if any.
    pub closed spec fn source(&self) -> Option<&'a PgRelation> {
        self.parent
    }

    /// The row payload's values, if a payload is carried.
    pub closed spec fn payload(&self) -> Option<Seq<Option<Datum>>> {
        match self.data {
            Some(d) => Some(d.t_data@),
            None => None,
        }
    }

    /// The handle wraps host descriptor `p` and shows its type identity and
    /// columns.
    pub open spec fn describes(&self, host: HostView, p: int) -> bool {
        &&& self.ptr() == p
        &&& 0 <= p < host.descs.len()
        &&& self.attrs() == host.descs[p].attrs@
        &&& self.type_id() == host.descs[p].tdtypeid
        &&& self.type_mod() == host.descs[p].tdtypmod
    }

    /// Wraps descriptor `ptr`, which the host counts references to (or marks
    /// as an arena descriptor); the handle takes over one reference.
    pub fn from_pg<'b>(host: &Host, ptr: usize) -> (r: PgTupleDesc<'b>)
        requires
            host@.valid(ptr as int),
        ensures
            r.describes(host@, ptr as int),
            r.tag() == Provenance::ReferenceCounted,
            r.source() is None,
            r.payload() is None,
    {
        PgTupleDesc {
            tupdesc: host.descs[ptr].duplicate(),
            ptr,
            parent: None,
            data: None,
            provenance: Provenance::ReferenceCounted,
        }
    }

    /// Has the host duplicate descriptor `ptr`, constraints included, and wraps
    /// the private copy, which the handle frees on release.
    pub fn from_pg_copy<'b>(host: &mut Host, ptr: usize) -> (r: PgTupleDesc<'b>)
        requires
            old(host)@.valid(ptr as int),
            old(host)@.descs.len() < usize::MAX,
        ensures
            r.ptr() == old(host)@.descs.len(),
            final(host)@.wf(),
            final(host)@.descs.subrange(0, r.ptr()) == old(host)@.descs,
            final(host)@.refcounts == old(host)@.refcounts.push(-1i32),
            final(host)@.freed == old(host)@.freed.push(false),
            r.describes(final(host)@, r.ptr()),
            r.attrs() == old(host)@.descs[ptr as int].attrs@,
            r.type_id() == old(host)@.descs[ptr as int].tdtypeid,
            r.type_mod() == old(host)@.descs[ptr as int].tdtypmod,
            r.tag() == Provenance::OwnedCopy,
            r.source() is None,
            r.payload() is None,
    {
        let q = host.create_tuple_desc_copy(ptr);
        PgTupleDesc {
            tupdesc: host.descs[q].duplicate(),
            ptr: q,
            parent: None,
            data: None,
            provenance: Provenance::OwnedCopy,
        }
    }

    /// Wraps descriptor `ptr`, which the caller already holds as a private
    /// copy; the handle frees it on release.
    pub fn from_pg_is_copy<'b>(host: &Host, ptr: usize) -> (r: PgTupleDesc<'b>)
        requires
            host@.valid(ptr as int),
        ensures
            r.describes(host@, ptr as int),
            r.tag() == Provenance::OwnedCopy,
            r.source() is None,
            r.payload() is None,
    {
        PgTupleDesc {
            tupdesc: host.descs[ptr].duplicate(),
            ptr,
            parent: None,
            data: None,
            provenance: Provenance::OwnedCopy,
        }
    }

    /// Wraps the descriptor of a live relation, borrowing it for as long as
    /// the relation lives; release does nothing.
    pub fn from_relation(parent: &'a PgRelation, host: &Host) -> (r: PgTupleDesc<'a>)
        requires
            host@.valid(parent.rd_att as int),
        ensures
            r.describes(host@, parent.rd_att as int),
            r.tag() == Provenance::BorrowedFromParent,
            r.source() == Some(parent),
            r.payload() is None,
    {
        PgTupleDesc {
            tupdesc: host.descs[parent.rd_att].duplicate(),
            ptr: parent.rd_att,
            parent: Some(parent),
            data: None,
            provenance: Provenance::BorrowedFromParent,
        }
    }

    /// Resolves a composite value's row type through the type cache, taking
    /// one reference to the descriptor found, and keeps the value's columns as
    /// the handle's payload.
    pub fn from_composite(host: &mut Host, composite: CompositeDatum) -> (r: Self)
        requires
            old(host)@.wf(),
            exists|p: int| old(host)@.cached(p, composite.typid, composite.typmod),
            forall|p: int|
                #[trigger] old(host)@.cached(p, composite.typid, composite.typmod)
                    ==> old(host)@.refcounts[p] < i32::MAX,
        ensures
            old(host)@.first_cached(r.ptr(), composite.typid, composite.typmod),
            final(host)@ == old(host)@.count_moved(r.ptr(), 1),
            r.describes(old(host)@, r.ptr()),
            r.tag() == Provenance::CompositeDerived,
            r.source() is None,
            r.payload() == Some(composite.values@),
    {
        let found = host.lookup_rowtype(composite.typid, composite.typmod);
        let p = match found {
            Some(p) => p,
            None => {
                assert(false);
                0
            },
        };
        host.pin_tuple_desc(p);
        let t_len = composite.values.len();
        PgTupleDesc {
            tupdesc: host.descs[p].duplicate(),
            ptr: p,
            parent: None,
            data: Some(HeapTupleData { t_len, t_data: composite.values }),
            provenance: Provenance::CompositeDerived,
        }
    }

    /// The relation this handle was made from, if any.
    pub fn parent(&self) -> (r: Option<&'a PgRelation>)
        ensures
            r == self.source(),
            r.is_some() == (self.tag() == Provenance::BorrowedFromParent),
    {
        proof { use_type_invariant(self); }
        self.parent
    }

    /// How this handle came to hold its descriptor.
    pub fn provenance(&self) -> (r: Provenance)
        ensures
            r == self.tag(),
    {
        self.provenance
    }

    /// Type identifier of the described row type.
    pub fn oid(&self) -> (r: u32)
        ensures
            r == self.type_id(),
    {
        self.tupdesc.tdtypeid
    }

    /// Type modifier of the described row type.
    pub fn typmod(&self) -> (r: i32)
        ensures
            r == self.type_mod(),
    {
        self.tupdesc.tdtypmod
    }

    /// The number of columns.
    pub fn len(&self) -> (r: usize)
        ensures
            r == self.attrs().len(),
    {
        self.tupdesc.attrs.len()
    }

    /// Whether there are no columns.
    pub fn is_empty(&self) -> (r: bool)
        ensures
            r == (self.attrs().len() == 0),
    {
        self.len() == 0
    }

    /// The column at zero-based position `i`, or `None` past the last one.
    pub fn get(&self, i: usize) -> (r: Option<&Attribute>)
        ensures
            r == (if i < self.attrs().len() { Some(&self.attrs()[i as int]) } else { None }),
    {
        if i >= self.len() {
            None
        } else {
            Some(&self.tupdesc.attrs[i])
        }
    }

    /// The value of zero-based column `attno` in the carried payload, decoded
    /// as `kind` (the decoder counts columns from one). `None` when the handle
    /// carries no payload, that is unless it came from a composite value.
    pub fn get_attr(&self, attno: usize, kind: DatumKind) -> (r: Option<Datum>)
        ensures
            r == (match self.payload() {
                Some(values) => decoded(values, attno + 1, kind),
                None => None,
            }),
            self.tag() != Provenance::CompositeDerived ==> r is None,
    {
        proof { use_type_invariant(self); }
        match &self.data {
            Some(tuple) => {
                if attno >= tuple.t_len {
                    None
                } else {
                    heap_getattr(tuple, attno + 1, kind)
                }
            },
            None => None,
        }
    }

    /// Walks the columns in order.
    pub fn iter(&'a self) -> (r: TupleDescIterator<'a>)
        ensures
            r.items() == self.attrs(),
            r.position() == 0,
    {
        TupleDescIterator { tupdesc: self, curr: 0 }
    }

    /// Hands the columns out by value, in order; the handle comes back from
    /// the iterator's `into_inner`.
    pub fn into_iter(self) -> (r: TupleDescDataIntoIterator<'a>)
        ensures
            r.handle() == self,
            r.position() == 0,
    {
        TupleDescDataIntoIterator { tupdesc: self, curr: 0 }
    }

    /// The pointer of the wrapped descriptor.
    pub fn as_ptr(&self) -> (r: usize)
        ensures
            r == self.ptr(),
    {
        self.ptr
    }

    /// Lets go of the descriptor as the provenance says: a counted descriptor
    /// gets one reference back, a private copy is freed, a borrowed descriptor
    /// is left alone. Taking the handle by value makes this happen at most once.
    pub fn release(self, host: &mut Host)
        requires
            old(host)@.valid(self.ptr()),
            (self.tag() == Provenance::ReferenceCounted
                || self.tag() == Provenance::CompositeDerived)
                ==> old(host)@.refcounts[self.ptr()] != 0,
        ensures
            final(host)@ == old(host)@.after(
                self.ptr(),
                release_action(self.tag(), old(host)@.refcounts[self.ptr()]),
            ),
    {
        match self.provenance {
            Provenance::ReferenceCounted | Provenance::CompositeDerived => {
                release_tupdesc(host, self.ptr);
            },
            Provenance::OwnedCopy => {
                host.pfree(self.ptr);
            },
            Provenance::BorrowedFromParent => {},
        }
    }
}

/// Gives back one reference to descriptor `ptr` when the host counts its
/// references; an arena descriptor (negative count) is left alone.
pub fn release_tupdesc(host: &mut Host, ptr: usize)
    requires
        old(host)@.valid(ptr as int),
        old(host)@.refcounts[ptr as int] != 0,
    ensures
        final(host)@ == (if old(host)@.refcounts[ptr as int] >= 0 {
            old(host)@.count_moved(ptr as int, -1)
        } else {
            old(host)@
        }),
{
    if host.refcounts[ptr] >= 0 {
        host.decr_tuple_desc_ref_count(ptr);
    }
}

/// Walks a handle's columns by reference.
pub struct TupleDescIterator<'a> {
    tupdesc: &'a PgTupleDesc<'a>,
    curr: usize,
}

impl<'a> TupleDescIterator<'a> {
    /// The columns walked over.
    pub closed spec fn items(&self) -> Seq<Attribute> {
        self.tupdesc.attrs()
    }

    /// How many calls of `next` came before.
    pub closed spec fn position(&self) -> nat {
        self.curr as nat
    }

    /// The next column, or `None` once all were handed out.
    pub fn next(&mut self) -> (r: Option<&'a Attribute>)
        requires
            old(self).position() <= old(self).items().len(),
        ensures
            final(self).items() == old(self).items(),
            (match r {
                Some(a) => yielded(old(self).items(), old(self).position() as int) == Some(*a),
                None => yielded(old(self).items(), old(self).position() as int) is None,
            }),
            final(self).position() == (if r is Some { old(self).position() + 1 } else { old(self).position() }),
            final(self).position() <= final(self).items().len(),
    {
        let n = self.tupdesc.len();
        let result = self.tupdesc.get(self.curr);
        if self.curr < n {
            self.curr = self.curr + 1;
        }
        result
    }
}

/// The item that the `k`-th call of `next` on a fresh iterator over `attrs`
/// hands out.
pub open spec fn yielded(attrs: Seq<Attribute>, k: int) -> Option<Attribute> {
    if 0 <= k < attrs.len() {
        Some(attrs[k])
    } else {
        None
    }
}

/// Hands a handle's columns out by value.
pub struct TupleDescDataIntoIterator<'a> {
    tupdesc: PgTupleDesc<'a>,
    curr: usize,
}

impl<'a> TupleDescDataIntoIterator<'a> {
    /// The handle iterated over.
    pub closed spec fn handle(&self) -> PgTupleDesc<'a> {
        self.tupdesc
    }

    /// How many calls of `next` came before.
    pub closed spec fn position(&self) -> nat {
        self.curr as nat
    }

    /// The next column, or `None` once all were handed out.
    pub fn next(&mut self) -> (r: Option<Attribute>)
        requires
            old(self).position() <= old(self).handle().attrs().len(),
        ensures
            final(self).handle() == old(self).handle(),
            r == yielded(old(self).handle().attrs(), old(self).position() as int),
            final(self).position() == (if r is Some { old(self).position() + 1 } else { old(self).position() }),
            final(self).position() <= final(self).handle().attrs().len(),
    {
        let n = self.tupdesc.len();
        let result = match self.tupdesc.get(self.curr) {
            Some(result) => *result,
            None => {
                return None;
            },
        };
        assert(self.curr < n);
        self.curr = self.curr + 1;
        Some(result)
    }

    /// Ends the walk and gives the handle back, so that it can be released.
    pub fn into_inner(self) -> (r: PgTupleDesc<'a>)
        ensures
            r == self.handle(),
    {
        self.tupdesc
    }
}

/// Two handles made, in any of the ways, from the same host descriptor walk
/// the same columns: for every k, the k-th item that an iterator over one hands
/// out is the k-th item that an iterator over the other hands out.
pub proof fn lemma_iteration_repeatable<'x, 'y>(
    a: PgTupleDesc<'x>,
    b: PgTupleDesc<'y>,
    host: HostView,
    p: int,
)
    requires
        a.describes(host, p),
        b.describes(host, p),
    ensures
        forall|k: int| yielded(a.attrs(), k) == yielded(b.attrs(), k),
{
}

/// Releasing gives back exactly what acquiring took, with one host call:
/// the reference that a type cache lookup took is returned once and the
/// descriptor's count is as before; a reference handed to a handle is returned
/// once; an arena descriptor is left alone; a private copy is freed once, after
/// which it can no longer be released.
pub proof fn lemma_release_matches_acquire(host: HostView, p: int)
    requires
        host.valid(p),
    ensures
        0 <= host.refcounts[p] < i32::MAX ==> ({
            let pinned = host.count_moved(p, 1);
            pinned.after(p, release_action(Provenance::CompositeDerived, pinned.refcounts[p]))
                == host
        }),
        host.refcounts[p] > 0 ==> host.after(
            p,
            release_action(Provenance::ReferenceCounted, host.refcounts[p]),
        ) == host.count_moved(p, -1),
        host.refcounts[p] < 0 ==> host.after(
            p,
            release_action(Provenance::ReferenceCounted, host.refcounts[p]),
        ) == host,
        host.after(p, release_action(Provenance::OwnedCopy, host.refcounts[p])) == host.freeing(p),
        !host.freeing(p).valid(p),
        host.freeing(p).refcounts == host.refcounts,
{
    if 0 <= host.refcounts[p] < i32::MAX {
        let pinned = host.count_moved(p, 1);
        assert(pinned.count_moved(p, -1).refcounts =~= host.refcounts);
    }
}

/// Releasing a borrowed handle asks nothing of the host, whatever the
/// descriptor's reference count: the host is left exactly as it was.
pub proof fn lemma_borrowed_release_is_noop(host: HostView, p: int)
    ensures
        forall|rc: i32| #[trigger] release_action(Provenance::BorrowedFromParent, rc) == ReleaseAction::Nothing,
        host.after(p, release_action(Provenance::BorrowedFromParent, host.refcounts[p])) == host,
{
}

} // verus!

//! The host engine's side: attribute records, descriptors, the descriptor
//! table with its reference counts, relations and composite values.
use vstd::prelude::*;

verus! {

/// Metadata of one column of a row type.
#[derive(Clone, Copy, PartialEq, Eq, Structural, Debug)]
pub struct Attribute {
    /// Type identifier of the column.
    pub atttypid: u32,
    /// Type modifier of the column (-1 when none applies).
    pub atttypmod: i32,
    /// Storage length of the type, or a negative marker for variable length.
    pub attlen: i16,
    /// The column carries a NOT NULL constraint.
    pub attnotnull: bool,
    /// The column has been dropped and is kept only as a placeholder.
    pub attisdropped: bool,
}

/// A row-shape descriptor as the host stores it.
pub struct TupleDescData {
    /// Type identifier of the row type described.
    pub tdtypeid: u32,
    /// Type modifier of the row type described.
    pub tdtypmod: i32,
    /// The user-visible columns, in order.
    pub attrs: Vec<Attribute>,
}

/// Copies a sequence of attribute records.
pub fn copy_attrs(src: &Vec<Attribute>) -> (r: Vec<Attribute>)
    ensures
        r@ == src@,
{
    let mut r: Vec<Attribute> = Vec::new();
    let mut i: usize = 0;
    while i < src.len()
        invariant
            i <= src.len(),
            r@ == src@.subrange(0, i as int),
        decreases src.len() - i,
    {
        r.push(src[i]);
        i = i + 1;
    }
    assert(r@ =~= src@);
    r
}

impl TupleDescData {
    /// A copy of this descriptor's type identity and columns.
    pub fn duplicate(&self) -> (r: TupleDescData)
        ensures
            r.tdtypeid == self.tdtypeid,
            r.tdtypmod == self.tdtypmod,
            r.attrs@ == self.attrs@,
    {
        TupleDescData { tdtypeid: self.tdtypeid, tdtypmod: self.tdtypmod, attrs: copy_attrs(&self.attrs) }
    }
}

/// The host's descriptor memory. A descriptor is named by its index in the
/// table (its "pointer"). A reference count of -1 marks a descriptor that lives
/// in an arena and takes no part in counting; counted descriptors hold a count
/// of at least 0. A freed slot is never read again.
pub struct Host {
    pub descs: Vec<TupleDescData>,
    pub refcounts: Vec<i32>,
    pub freed: Vec<bool>,
}

/// The host's memory as mathematical sequences.
pub struct HostView {
    pub descs: Seq<TupleDescData>,
    pub refcounts: Seq<i32>,
    pub freed: Seq<bool>,
}

/// The one action the host is told to perform when a handle is released.
#[derive(Clone, Copy, PartialEq, Eq, Structural, Debug)]
pub enum ReleaseAction {
    /// Give back one reference to a counted descriptor.
    DecrementRefCount,
    /// Free the descriptor's memory.
    Free,
    /// Leave the host alone.
    Nothing,
}

impl View for Host {
    type V = HostView;

    open spec fn view(&self) -> HostView {
        HostView { descs: self.descs@, refcounts: self.refcounts@, freed: self.freed@ }
    }
}

impl HostView {
    /// The three tables have one entry per descriptor.
    pub open spec fn wf(self) -> bool {
        &&& self.descs.len() == self.refcounts.len()
        &&& self.descs.len() == self.freed.len()
    }

    /// `p` names a descriptor that has not been freed.
    pub open spec fn valid(self, p: int) -> bool {
        &&& self.wf()
        &&& 0 <= p < self.descs.len()
        &&& !self.freed[p]
    }

    /// `p` is a live, reference-counted descriptor of the given row type: an
    /// entry of the type cache.
    pub open spec fn cached(self, p: int, typid: u32, typmod: i32) -> bool {
        &&& self.valid(p)
        &&& self.refcounts[p] >= 0
        &&& self.descs[p].tdtypeid == typid
        &&& self.descs[p].tdtypmod == typmod
    }

    /// `p` is the entry that a type cache lookup of the row type finds: the
    /// first one.
    pub open spec fn first_cached(self, p: int, typid: u32, typmod: i32) -> bool {
        &&& self.cached(p, typid, typmod)
        &&& forall|q: int| 0 <= q < p ==> !#[trigger] self.cached(q, typid, typmod)
    }

    /// The memory after `p`'s reference count moved by `delta`.
    pub open spec fn count_moved(self, p: int, delta: int) -> HostView {
        HostView { refcounts: self.refcounts.update(p, (self.refcounts[p] + delta) as i32), ..self }
    }

    /// The memory after `p` was freed.
    pub open spec fn freeing(self, p: int) -> HostView {
        HostView { freed: self.freed.update(p, true), ..self }
    }

    /// The memory after the host performed `a` on `p`.
    pub open spec fn after(self, p: int, a: ReleaseAction) -> HostView {
        match a {
            ReleaseAction::DecrementRefCount => self.count_moved(p, -1),
            ReleaseAction::Free => self.freeing(p),
            ReleaseAction::Nothing => self,
        }
    }
}

impl Host {
    /// An empty descriptor table.
    pub fn new() -> (r: Host)
        ensures
            r@.wf(),
            r@.descs.len() == 0,
    {
        Host { descs: Vec::new(), refcounts: Vec::new(), freed: Vec::new() }
    }

    /// Places a descriptor in the table with the given reference count and
    /// returns its pointer.
    pub fn register(&mut self, desc: TupleDescData, refcount: i32) -> (p: usize)
        requires
            old(self)@.wf(),
            old(self)@.descs.len() < usize::MAX,
        ensures
            p == old(self)@.descs.len(),
            final(self)@ == (HostView {
                descs: old(self)@.descs.push(desc),
                refcounts: old(self)@.refcounts.push(refcount),
                freed: old(self)@.freed.push(false),
            }),
    {
        let p = self.descs.len();
        self.descs.push(desc);
        self.refcounts.push(refcount);
        self.freed.push(false);
        p
    }

    /// Duplicates descriptor `p`, constraints included, into a new arena
    /// descriptor (reference count -1) and returns the copy's pointer.
    pub fn create_tuple_desc_copy(&mut self, p: usize) -> (q: usize)
        requires
            old(self)@.valid(p as int),
            old(self)@.descs.len() < usize::MAX,
        ensures
            q == old(self)@.descs.len(),
            final(self)@.wf(),
            final(self)@.descs.len() == q + 1,
            final(self)@.descs.subrange(0, q as int) == old(self)@.descs,
            final(self)@.descs[q as int].tdtypeid == old(self)@.descs[p as int].tdtypeid,
            final(self)@.descs[q as int].tdtypmod == old(self)@.descs[p as int].tdtypmod,
            final(self)@.descs[q as int].attrs@ == old(self)@.descs[p as int].attrs@,
            final(self)@.refcounts == old(self)@.refcounts.push(-1i32),
            final(self)@.freed == old(self)@.freed.push(false),
    {
        let copy = self.descs[p].duplicate();
        let q = self.register(copy, -1);
        assert(self@.descs.subrange(0, q as int) =~= old(self)@.descs);
        q
    }

    /// Frees descriptor `p`.
    pub fn pfree(&mut self, p: usize)
        requires
            old(self)@.valid(p as int),
        ensures
            final(self)@ == old(self)@.freeing(p as int),
    {
        self.freed.set(p, true);
    }

    /// Takes one reference to the counted descriptor `p`.
    pub fn pin_tuple_desc(&mut self, p: usize)
        requires
            old(self)@.valid(p as int),
            0 <= old(self)@.refcounts[p as int] < i32::MAX,
        ensures
            final(self)@ == old(self)@.count_moved(p as int, 1),
    {
        let c = self.refcounts[p];
        self.refcounts.set(p, c + 1);
    }

    /// Gives back one reference to the counted descriptor `p`.
    pub fn decr_tuple_desc_ref_count(&mut self, p: usize)
        requires
            old(self)@.valid(p as int),
            old(self)@.refcounts[p as int] > 0,
        ensures
            final(self)@ == old(self)@.count_moved(p as int, -1),
    {
        let c = self.refcounts[p];
        self.refcounts.set(p, c - 1);
    }

    /// The type cache: the first live, counted descriptor of the given row
    /// type, if there is one.
    pub fn lookup_rowtype(&self, typid: u32, typmod: i32) -> (r: Option<usize>)
        requires
            self@.wf(),
        ensures
            match r {
                Some(p) => self@.first_cached(p as int, typid, typmod),
                None => forall|q: int| !#[trigger] self@.cached(q, typid, typmod),
            },
    {
        let mut i: usize = 0;
        while i < self.descs.len()
            invariant
                self@.wf(),
                i <= self@.descs.len(),
                forall|q: int| 0 <= q < i ==> !#[trigger] self@.cached(q, typid, typmod),
            decreases self.descs.len() - i,
        {
            if !self.freed[i] && self.refcounts[i] >= 0 && self.descs[i].tdtypeid == typid
                && self.descs[i].tdtypmod == typmod {
                return Some(i);
            }
            i = i + 1;
        }
        None
    }
}

/// A table or view whose descriptor lives in the host's table.
pub struct PgRelation {
    /// Identifier of the relation.
    pub rd_id: u32,
    /// Pointer to the relation's descriptor.
    pub rd_att: usize,
}

/// A single column value.
#[derive(Debug, PartialEq, Eq)]
pub enum Datum {
    Bool(bool),
    Int4(i32),
    Int8(i64),
    Text(String),
}

/// The kind of value a caller asks an attribute to be decoded as.
#[derive(Clone, Copy, PartialEq, Eq, Structural, Debug)]
pub enum DatumKind {
    Bool,
    Int4,
    Int8,
    Text,
}

impl Datum {
    /// The kind of this value.
    pub open spec fn spec_kind(&self) -> DatumKind {
        match self {
            Datum::Bool(_) => DatumKind::Bool,
            Datum::Int4(_) => DatumKind::Int4,
            Datum::Int8(_) => DatumKind::Int8,
            Datum::Text(_) => DatumKind::Text,
        }
    }

    /// The kind of this value.
    pub fn kind(&self) -> (r: DatumKind)
        ensures
            r == self.spec_kind(),
    {
        match self {
            Datum::Bool(_) => DatumKind::Bool,
            Datum::Int4(_) => DatumKind::Int4,
            Datum::Int8(_) => DatumKind::Int8,
            Datum::Text(_) => DatumKind::Text,
        }
    }

    /// An equal copy of this value.
    pub fn copy(&self) -> (r: Datum)
        ensures
            r == *self,
    {
        match self {
            Datum::Bool(b) => Datum::Bool(*b),
            Datum::Int4(v) => Datum::Int4(*v),
            Datum::Int8(v) => Datum::Int8(*v),
            Datum::Text(s) => Datum::Text(s.clone()),
        }
    }
}

/// An encoded composite (row) value: the row type it claims, and its column
/// values in order, `None` standing for SQL NULL.
pub struct CompositeDatum {
    pub typid: u32,
    pub typmod: i32,
    pub values: Vec<Option<Datum>>,
}

/// The decoded row payload of a composite value: its length in columns and
/// its values.
pub struct HeapTupleData {
    pub t_len: usize,
    pub t_data: Vec<Option<Datum>>,
}

/// What the value decoder yields for the one-based attribute `attnum` of a
/// row when asked for a value of kind `kind`: the value, when the column
/// exists, is not NULL and holds that kind.
pub open spec fn decoded(values: Seq<Option<Datum>>, attnum: int, kind: DatumKind) -> Option<Datum> {
    if 1 <= attnum <= values.len() {
        match values[attnum - 1] {
            Some(d) => if d.spec_kind() == kind { Some(d) } else { None },
            None => None,
        }
    } else {
        None
    }
}

/// The value decoder: extracts the one-based attribute `attnum` of a row as a
/// value of kind `kind`, or `None`.
pub fn heap_getattr(tuple: &HeapTupleData, attnum: usize, kind: DatumKind) -> (r: Option<Datum>)
    ensures
        r == decoded(tuple.t_data@, attnum as int, kind),
{
    if attnum == 0 || attnum > tuple.t_data.len() {
        return None;
    }
    match &tuple.t_data[attnum - 1] {
        Some(d) => if d.kind() == kind { Some(d.copy()) } else { None },
        None => None,
    }
}

} // verus!

use tupdesc::host::{
    Attribute, CompositeDatum, Datum, DatumKind, Host, PgRelation, TupleDescData,
};
use tupdesc::tupdesc::{release_tupdesc, PgTupleDesc, Provenance};

fn attr(typid: u32) -> Attribute {
    Attribute { atttypid: typid, atttypmod: -1, attlen: 4, attnotnull: false, attisdropped: false }
}

fn desc(typid: u32, cols: &[u32]) -> TupleDescData {
    TupleDescData { tdtypeid: typid, tdtypmod: -1, attrs: cols.iter().map(|&t| attr(t)).collect() }
}

fn walk(td: &PgTupleDesc) -> Vec<Attribute> {
    let mut out = Vec::new();
    let mut it = td.iter();
    while let Some(a) = it.next() {
        out.push(*a);
    }
    out
}

#[test]
fn every_construction_reports_native_count() {
    let mut host = Host::new();
    let p = host.register(desc(100, &[23, 25, 16, 20]), 1);
    let arena = host.register(desc(101, &[23, 25]), -1);
    let rel = PgRelation { rd_id: 9, rd_att: p };

    assert_eq!(PgTupleDesc::from_pg(&host, p).len(), 4);
    assert_eq!(PgTupleDesc::from_pg_copy(&mut host, p).len(), 4);
    assert_eq!(PgTupleDesc::from_pg_is_copy(&host, arena).len(), 2);
    assert_eq!(PgTupleDesc::from_relation(&rel, &host).len(), 4);
    let c = CompositeDatum { typid: 100, typmod: -1, values: vec![None, None, None, None] };
    let td = PgTupleDesc::from_composite(&mut host, c);
    assert_eq!(td.len(), 4);
    assert!(!td.is_empty());
}

#[test]
fn get_checks_bounds() {
    let mut host = Host::new();
    let p = host.register(desc(100, &[23, 25]), 1);
    let td = PgTupleDesc::from_pg(&host, p);
    assert_eq!(td.get(0), Some(&attr(23)));
    assert_eq!(td.get(1), Some(&attr(25)));
    assert_eq!(td.get(2), None);
    assert_eq!(td.get(usize::MAX), None);
}

#[test]
fn empty_descriptor() {
    let mut host = Host::new();
    let p = host.register(desc(100, &[]), -1);
    let td = PgTupleDesc::from_pg(&host, p);
    assert!(td.is_empty());
    assert_eq!(td.len(), 0);
    assert_eq!(td.get(0), None);
    assert!(td.iter().next().is_none());
}

#[test]
fn identity_accessors() {
    let mut host = Host::new();
    let p = host.register(TupleDescData { tdtypeid: 2249, tdtypmod: 3, attrs: vec![attr(23)] }, 1);
    let td = PgTupleDesc::from_pg(&host, p);
    assert_eq!(td.oid(), 2249);
    assert_eq!(td.typmod(), 3);
    assert_eq!(td.as_ptr(), p);
    assert!(td.parent().is_none());
}

#[test]
fn iteration_is_repeatable() {
    let mut host = Host::new();
    let p = host.register(desc(100, &[23, 25, 16]), 1);
    let rel = PgRelation { rd_id: 9, rd_att: p };
    let a = PgTupleDesc::from_pg(&host, p);
    let b = PgTupleDesc::from_relation(&rel, &host);
    let first = walk(&a);
    assert_eq!(first, vec![attr(23), attr(25), attr(16)]);
    assert_eq!(first, walk(&b));
    assert_eq!(walk(&a), walk(&a));
}

#[test]
fn iterator_stays_exhausted() {
    let mut host = Host::new();
    let p = host.register(desc(100, &[23]), 1);
    let td = PgTupleDesc::from_pg(&host, p);
    let mut it = td.iter();
    assert_eq!(it.next(), Some(&attr(23)));
    assert_eq!(it.next(), None);
    assert_eq!(it.next(), None);
}

#[test]
fn consuming_iteration_yields_copies_and_returns_handle() {
    let mut host = Host::new();
    let p = host.register(desc(100, &[23, 25]), 2);
    let mut it = PgTupleDesc::from_pg(&host, p).into_iter();
    assert_eq!(it.next(), Some(attr(23)));
    assert_eq!(it.next(), Some(attr(25)));
    assert_eq!(it.next(), None);
    it.into_inner().release(&mut host);
    assert_eq!(host.refcounts[p], 1);
}

#[test]
fn reference_counted_release_decrements_once() {
    let mut host = Host::new();
    let p = host.register(desc(100, &[23]), 2);
    PgTupleDesc::from_pg(&host, p).release(&mut host);
    assert_eq!(host.refcounts, vec![1]);
    assert_eq!(host.freed, vec![false]);
}

#[test]
fn arena_descriptor_release_is_skipped() {
    let mut host = Host::new();
    let p = host.register(desc(100, &[23]), -1);
    PgTupleDesc::from_pg(&host, p).release(&mut host);
    assert_eq!(host.refcounts, vec![-1]);
    assert_eq!(host.freed, vec![false]);
}

#[test]
fn owned_copy_release_frees_only_the_copy() {
    let mut host = Host::new();
    let p = host.register(desc(100, &[23, 25]), 1);
    let td = PgTupleDesc::from_pg_copy(&mut host, p);
    let q = td.as_ptr();
    assert_eq!(q, 1);
    assert_eq!(host.refcounts, vec![1, -1]);
    assert_eq!(host.descs[q].attrs, host.descs[p].attrs);
    td.release(&mut host);
    assert_eq!(host.freed, vec![false, true]);
    assert_eq!(host.refcounts, vec![1, -1]);
}

#[test]
fn existing_copy_release_frees_it() {
    let mut host = Host::new();
    let p = host.register(desc(100, &[23]), -1);
    let td = PgTupleDesc::from_pg_is_copy(&host, p);
    assert_eq!(host.descs.len(), 1);
    td.release(&mut host);
    assert_eq!(host.freed, vec![true]);
}

#[test]
fn borrowed_release_touches_nothing() {
    let mut host = Host::new();
    let p = host.register(desc(100, &[23, 25, 16]), 1);
    let rel = PgRelation { rd_id: 9, rd_att: p };
    let td = PgTupleDesc::from_relation(&rel, &host);
    assert_eq!(td.parent().map(|r| r.rd_id), Some(9));
    td.release(&mut host);
    assert_eq!(host.refcounts, vec![1]);
    assert_eq!(host.freed, vec![false]);
}

#[test]
fn composite_release_returns_cache_reference() {
    let mut host = Host::new();
    let p = host.register(desc(100, &[25]), 1);
    let c = CompositeDatum { typid: 100, typmod: -1, values: vec![None] };
    let td = PgTupleDesc::from_composite(&mut host, c);
    assert_eq!(host.refcounts[p], 2);
    td.release(&mut host);
    assert_eq!(host.refcounts, vec![1]);
    assert_eq!(host.freed, vec![false]);
}

#[test]
fn release_tupdesc_skips_arena_descriptors() {
    let mut host = Host::new();
    let counted = host.register(desc(100, &[23]), 3);
    let arena = host.register(desc(101, &[23]), -1);
    release_tupdesc(&mut host, counted);
    release_tupdesc(&mut host, arena);
    assert_eq!(host.refcounts, vec![2, -1]);
}

#[test]
fn attribute_value_needs_composite_provenance() {
    let mut host = Host::new();
    let p = host.register(desc(100, &[25]), 1);
    let rel = PgRelation { rd_id: 9, rd_att: p };
    let handles = vec![
        PgTupleDesc::from_pg(&host, p),
        PgTupleDesc::from_pg_is_copy(&host, p),
        PgTupleDesc::from_relation(&rel, &host),
    ];
    for td in &handles {
        assert_ne!(td.provenance(), Provenance::CompositeDerived);
        assert_eq!(td.get_attr(0, DatumKind::Text), None);
        assert_eq!(td.get_attr(5, DatumKind::Text), None);
    }
}

#[test]
fn relation_with_three_columns() {
    let mut host = Host::new();
    let p = host.register(desc(16384, &[23, 25, 1700]), 1);
    let rel = PgRelation { rd_id: 16384, rd_att: p };
    let td = PgTupleDesc::from_relation(&rel, &host);
    assert_eq!(td.len(), 3);
    assert!(td.get(0).is_some());
    assert!(td.get(1).is_some());
    assert!(td.get(2).is_some());
    assert!(td.get(3).is_none());
}

#[test]
fn composite_text_value() {
    let mut host = Host::new();
    host.register(desc(200, &[25]), 1);
    let c = CompositeDatum {
        typid: 200,
        typmod: -1,
        values: vec![Some(Datum::Text(String::from("test")))],
    };
    let td = PgTupleDesc::from_composite(&mut host, c);
    assert_eq!(td.provenance(), Provenance::CompositeDerived);
    assert_eq!(td.get_attr(0, DatumKind::Text), Some(Datum::Text(String::from("test"))));
}

#[test]
fn composite_value_edge_cases() {
    let mut host = Host::new();
    host.register(desc(200, &[23, 25, 16]), 1);
    let c = CompositeDatum {
        typid: 200,
        typmod: -1,
        values: vec![Some(Datum::Int4(42)), None, Some(Datum::Bool(true))],
    };
    let td = PgTupleDesc::from_composite(&mut host, c);
    assert_eq!(td.get_attr(0, DatumKind::Int4), Some(Datum::Int4(42)));
    assert_eq!(td.get_attr(0, DatumKind::Int8), None);
    assert_eq!(td.get_attr(1, DatumKind::Text), None);
    assert_eq!(td.get_attr(2, DatumKind::Bool), Some(Datum::Bool(true)));
    assert_eq!(td.get_attr(3, DatumKind::Bool), None);
    assert_eq!(td.get_attr(usize::MAX, DatumKind::Bool), None);
}

#[test]
fn type_cache_picks_first_live_counted_entry() {
    let mut host = Host::new();
    let arena = host.register(desc(300, &[23]), -1);
    let first = host.register(desc(300, &[23]), 1);
    let second = host.register(desc(300, &[23]), 1);
    assert_eq!(host.lookup_rowtype(300, -1), Some(first));
    host.pfree(first);
    assert_eq!(host.lookup_rowtype(300, -1), Some(second));
    assert_eq!(host.lookup_rowtype(301, -1), None);
    assert_eq!(host.lookup_rowtype(300, 0), None);
    assert!(arena < first);
}

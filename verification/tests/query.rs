use pgbridge::export::{make_zeroed_bytea, pg_finfo, FunctionCallInfo};
use pgbridge::heap::Heap;
use pgbridge::host::HostState;
use pgbridge::index::{Index, ScanKey};
use pgbridge::relation::{Relation, Tuple};
use pgbridge::spi::{
    prepare_arguments, Direction, ExecError, Parameter, QueryParameter, SpiContext, SpiResult,
    SpiTuples, SPI_ERR_COPY, SPI_ERR_TRANSACTION, SPI_OK_INSERT, SPI_OK_SELECT, SPI_OK_UTILITY,
};
use pgbridge::tupledesc::{RawTupleDesc, RcTupleDesc, RefTupleDesc, TupleDesc};
use pgbridge::tupleslot::TupleSlot;
use pgbridge::types::Oid;
use pgbridge::varlena::Varlena;
use pgbridge::Datum;

fn desc(natts: i32) -> RawTupleDesc {
    RawTupleDesc { natts, tdtypeid: Oid(0), tdtypmod: -1, tdhasoid: 0, tdrefcount: 1 }
}

fn row(values: &[Option<usize>]) -> Tuple {
    values.iter().copied().map(|v| v.map(Datum::create)).collect()
}

fn sample_relation() -> Relation {
    Relation {
        td: desc(2),
        tuples: vec![
            row(&[Some(1), Some(10)]),
            row(&[Some(2), None]),
            row(&[Some(3), Some(10)]),
        ],
    }
}

#[test]
fn tuple_desc_handles_agree() {
    let raw = desc(5);
    let rc = RcTupleDesc::from_raw(raw);
    let rf = RefTupleDesc::from_raw(raw);
    assert_eq!(rc.as_raw(), raw);
    assert_eq!(rf.as_raw(), raw);
    assert_eq!(rc.num_attributes(), 5);
    assert_eq!(rf.num_attributes(), 5);
}

#[test]
fn slot_stores_and_hands_out_attributes() {
    let mut slot = TupleSlot::create(RefTupleDesc::from_raw(desc(2)));
    slot.store_tuple(row(&[Some(7), None]), 0);
    let filled = slot.filled();
    assert_eq!(filled.attribute(1), Some(Datum::create(7)));
    assert_eq!(filled.attribute(2), None);
    assert_eq!(filled.slot().tupledesc().num_attributes(), 2);
}

#[test]
fn heap_scan_visits_rows_in_order() {
    let heap = Heap::open(sample_relation());
    let mut scan = heap.scan_raw();
    assert_eq!(scan.next(&heap), Some(0));
    assert_eq!(scan.next(&heap), Some(1));
    assert_eq!(scan.next(&heap), Some(2));
    assert_eq!(scan.next(&heap), None);
    let mut full = heap.scan();
    let first = full.next(&heap).expect("a first row");
    assert_eq!(first, row(&[Some(1), Some(10)]));
}

#[test]
fn index_scan_returns_only_matching_rows() {
    let heap = Heap::open(sample_relation());
    let index = Index::open(Relation { td: desc(2), tuples: vec![] });
    let keys = [ScanKey::new(2, 10)];
    let mut scan = index.scan_raw(&heap, &keys);
    assert_eq!(scan.next(&heap), Some(0));
    assert_eq!(scan.next(&heap), Some(2));
    assert_eq!(scan.next(&heap), None);
    // with no key, every row is selected
    let mut all = index.scan_raw(&heap, &[]);
    assert_eq!(all.next(&heap), Some(0));
    assert_eq!(all.next(&heap), Some(1));
}

#[test]
fn slotted_index_scan_copies_matching_rows() {
    let heap = Heap::open(sample_relation());
    let index = Index::open(Relation { td: desc(2), tuples: vec![] });
    let keys = [ScanKey::new(2, 10)];
    let mut scan = index.scan(&heap, &keys);
    assert_eq!(scan.next(&heap), Some(row(&[Some(1), Some(10)])));
    assert_eq!(scan.next(&heap), Some(row(&[Some(3), Some(10)])));
    assert_eq!(scan.next(&heap), None);
}

#[test]
fn result_table_iterates_its_rows() {
    let t = SpiTuples { table: vec![row(&[Some(4)]), row(&[None])], desc: desc(1) };
    let mut it = t.iter();
    assert_eq!(it.next(), Some(row(&[Some(4)])));
    assert_eq!(it.next(), Some(row(&[None])));
    assert_eq!(it.next(), None);
}

#[test]
fn null_parameter_carries_the_declared_type() {
    let p = QueryParameter::null::<i32>();
    assert_eq!(p.oid, Oid(23));
    assert!(p.value.is_none());
    let q = Parameter::null::<i64>();
    assert_eq!(q.oid, Oid(20));
    assert!(q.value.is_none());
}

#[test]
fn prepared_arguments_follow_the_host_convention() {
    let args = vec![
        QueryParameter::from(42i32),
        Parameter::null::<i32>(),
        QueryParameter::from(1337i32),
    ];
    let (types, values, nulls) = prepare_arguments(&args);
    assert_eq!(types, vec![Oid(23), Oid(23), Oid(23)]);
    assert_eq!(values[0], Datum::create(42));
    assert_eq!(values[1], Datum::create(0));
    assert_eq!(values[2], Datum::create(1337));
    assert_eq!(nulls, vec![b' ', b'n', b' ']);
}

#[test]
fn execute_classifies_host_return_codes() {
    let spi = SpiContext::create();
    let empty = || SpiTuples { table: vec![], desc: desc(0) };
    match spi.execute(SPI_OK_SELECT, 0, SpiTuples { table: vec![row(&[Some(1)])], desc: desc(1) })
    {
        Ok(SpiResult::Select(t)) => assert_eq!(t.count(), 1),
        _ => panic!("a select yields its rows"),
    }
    assert!(matches!(
        spi.execute(SPI_OK_INSERT, 3, empty()),
        Ok(SpiResult::Insert(3))
    ));
    assert!(matches!(
        spi.execute(SPI_OK_UTILITY, 0, empty()),
        Ok(SpiResult::Utility)
    ));
    assert!(matches!(spi.execute(SPI_ERR_COPY, 0, empty()), Err(ExecError::Copy)));
    assert!(matches!(
        spi.execute(SPI_ERR_TRANSACTION, 0, empty()),
        Err(ExecError::Transaction)
    ));
}

#[test]
fn cursor_fetches_and_moves_both_ways() {
    let spi = SpiContext::create();
    let rows = vec![
        row(&[Some(0)]),
        row(&[Some(1)]),
        row(&[Some(2)]),
        row(&[Some(3)]),
        row(&[Some(4)]),
    ];
    let mut cursor = spi.execute_cursor(rows, desc(1));
    let two = cursor.fetch(Direction::Forward, 2);
    assert_eq!(two.table, vec![row(&[Some(0)]), row(&[Some(1)])]);
    cursor.move_relative(1);
    let one = cursor.fetch(Direction::Forward, 1);
    assert_eq!(one.table, vec![row(&[Some(3)])]);
    cursor.move_relative(-1);
    let back = cursor.fetch(Direction::Backward, 1);
    assert_eq!(back.table, vec![row(&[Some(2)])]);
    cursor.move_absolute(5);
    let past = cursor.fetch(Direction::Forward, 1);
    assert!(past.table.is_empty());
    cursor.move_absolute(0);
    let all = cursor.fetch(Direction::Forward, 99);
    assert_eq!(all.table.len(), 5);
    let rev = cursor.fetch(Direction::Backward, 2);
    assert_eq!(rev.table, vec![row(&[Some(4)]), row(&[Some(3)])]);
}

fn sample_fcinfo() -> FunctionCallInfo {
    FunctionCallInfo {
        fn_oid: Oid(90001),
        rettype: Oid(23),
        arg_types: vec![Oid(23), Oid(20)],
        args: vec![Datum::create(5), Datum::create(6)],
        argnull: vec![false, true],
        isnull: false,
    }
}

#[test]
fn finfo_record_is_version_one() {
    assert_eq!(pg_finfo().version, 1);
}

#[test]
fn typecheck_accepts_exact_signatures_only() {
    let fc = sample_fcinfo();
    assert!(fc.typecheck(Oid(23), &[Oid(23), Oid(20)]));
    assert!(!fc.typecheck(Oid(25), &[Oid(23), Oid(20)]));
    assert!(!fc.typecheck(Oid(23), &[Oid(23)]));
    assert!(!fc.typecheck(Oid(23), &[Oid(23), Oid(21)]));
}

#[test]
fn arguments_and_types_iterate_in_order() {
    let fc = sample_fcinfo();
    assert_eq!(fc.oid(), Oid(90001));
    assert_eq!(fc.return_type(), Oid(23));
    let mut types = fc.arg_types();
    assert_eq!(types.len(), 2);
    assert_eq!(types.next(), Some(Oid(23)));
    assert_eq!(types.next(), Some(Oid(20)));
    assert_eq!(types.next(), None);
    let mut nth = fc.arg_types();
    assert_eq!(nth.nth(1), Some(Oid(20)));
    let mut args = fc.args();
    assert_eq!(args.len(), 2);
    assert_eq!(args.next(), Some(Some(Datum::create(5))));
    assert_eq!(args.next(), Some(None));
    assert_eq!(args.next(), None);
}

#[test]
fn typed_argument_access_respects_nulls() {
    let fc = sample_fcinfo();
    assert_eq!(fc.arg::<i32>(0), Some(5));
    assert_eq!(fc.arg::<i64>(1), None);
    let mut fc = fc;
    let d = fc.return_null();
    assert_eq!(d, Datum::create(0));
    assert!(fc.isnull);
}

#[test]
fn call_context_allocates_zeroed_byte_strings() {
    let mut st = HostState::new();
    let fc = sample_fcinfo();
    let mut ctx = fc.bootstrap(&st);
    let allocs_before = st.arenas.allocs.len();
    let b = ctx.alloc_bytea(&mut st, 5);
    assert_eq!(b.content(), vec![0u8; 5]);
    assert_eq!(b.raw_bytes().len(), 9);
    // the backing allocation: one fresh zeroed buffer from the call's context
    assert_eq!(st.arenas.allocs.len(), allocs_before + 1);
    let backing = &st.arenas.allocs[allocs_before];
    assert_eq!(backing.arena, ctx.allocator().id());
    assert_eq!(backing.bytes, vec![0u8; 9]);
    let direct = make_zeroed_bytea(3);
    assert_eq!(direct.raw_bytes(), &vec![7u8 << 2, 0, 0, 0, 0, 0, 0]);
    let _spi = ctx.connect_spi();
    assert!(ctx.has_spi);
}

use connectorx::data_order::DataOrder;
use connectorx::destinations::arrow2::{Arrow2Destination, Batch};
use connectorx::errors::{Arrow2DestinationError, ConnectorXError};
use connectorx::typesystem::{ArrowTypeSystem, NativeKind, NativeValue};

fn two_column_schema() -> (Vec<String>, Vec<ArrowTypeSystem>) {
    (
        vec![String::from("id"), String::from("name")],
        vec![ArrowTypeSystem::Int64, ArrowTypeSystem::LargeUtf8],
    )
}

fn batch_rows(batch: &Batch) -> Vec<(NativeValue, NativeValue)> {
    let ids = &batch.columns[0].values;
    let names = &batch.columns[1].values;
    assert_eq!(ids.len(), names.len());
    ids.iter().cloned().zip(names.iter().cloned()).collect()
}

#[test]
fn three_partitions_of_five_rows_at_capacity_two_round_trip() {
    let (names, schema) = two_column_schema();
    let mut dest = Arrow2Destination::new_with_batch_size(2);
    dest.allocate(0, &names, &schema, DataOrder::RowMajor).unwrap();
    let mut writers = dest.partition(3);
    assert_eq!(writers.len(), 3);

    for (p, w) in writers.iter_mut().enumerate() {
        for r in 0..5u32 {
            w.consume(NativeValue::Int64((p as i64) * 100 + r as i64)).unwrap();
            w.consume(NativeValue::Text(format!("n{}-{}", p, r))).unwrap();
        }
        w.finalize().unwrap();
        assert_eq!(w.batches.len(), 3);
        assert_eq!(w.batches[0].num_rows(), 2);
        assert_eq!(w.batches[1].num_rows(), 2);
        assert_eq!(w.batches[2].num_rows(), 1);
    }
    for w in writers {
        dest.release(w);
    }

    let batches = dest.arrow().unwrap();
    assert_eq!(batches.len(), 9);
    let total: usize = batches.iter().map(|b| b.num_rows()).sum();
    assert_eq!(total, 15);

    // Batches arrive partition by partition here; within each partition the
    // source order is preserved per column.
    for p in 0..3usize {
        let mut rows = Vec::new();
        for b in &batches[p * 3..p * 3 + 3] {
            assert_eq!(b.num_columns(), 2);
            rows.extend(batch_rows(b));
        }
        assert_eq!(rows.len(), 5);
        for (r, (id, name)) in rows.into_iter().enumerate() {
            assert_eq!(id, NativeValue::Int64((p as i64) * 100 + r as i64));
            assert_eq!(name, NativeValue::Text(format!("n{}-{}", p, r)));
        }
    }
}

#[test]
fn allocate_rejects_column_major_before_any_row() {
    let (names, schema) = two_column_schema();
    let mut dest = Arrow2Destination::new_with_batch_size(2);
    let r = dest.allocate(0, &names, &schema, DataOrder::ColumnMajor);
    assert_eq!(
        r,
        Err(Arrow2DestinationError::ConnectorX(
            ConnectorXError::UnsupportedDataOrder(DataOrder::ColumnMajor)
        ))
    );
}

#[test]
fn consume_rejects_a_mismatched_value_without_a_partial_write() {
    let (names, schema) = two_column_schema();
    let mut dest = Arrow2Destination::new_with_batch_size(2);
    dest.allocate(0, &names, &schema, DataOrder::RowMajor).unwrap();
    let mut writers = dest.partition(1);
    let mut w = writers.pop().unwrap();

    let r = w.consume(NativeValue::Float64((9.5f64).to_bits()));
    assert_eq!(
        r,
        Err(Arrow2DestinationError::ConnectorX(
            ConnectorXError::TypeCheckFailed {
                expected: NativeKind::Int64,
                found: NativeKind::Float64,
            }
        ))
    );

    // Nothing was written: the one accepted row below is the only content.
    w.consume(NativeValue::Int64(7)).unwrap();
    w.consume(NativeValue::Text(String::from("seven"))).unwrap();
    w.finalize().unwrap();
    dest.release(w);
    let batches = dest.arrow().unwrap();
    assert_eq!(batches.len(), 1);
    assert_eq!(batches[0].num_rows(), 1);
    assert_eq!(batches[0].columns[0].values[0], NativeValue::Int64(7));
}

#[test]
fn finalize_twice_with_no_pending_rows_adds_nothing_and_does_not_fail() {
    let (names, schema) = two_column_schema();
    let mut dest = Arrow2Destination::new_with_batch_size(2);
    dest.allocate(0, &names, &schema, DataOrder::RowMajor).unwrap();
    let mut writers = dest.partition(1);
    let mut w = writers.pop().unwrap();

    for r in 0..2i64 {
        w.consume(NativeValue::Int64(r)).unwrap();
        w.consume(NativeValue::Text(format!("r{}", r))).unwrap();
    }
    // The second row filled the batch, so it was already flushed.
    assert_eq!(w.batches.len(), 1);
    w.finalize().unwrap();
    assert_eq!(w.batches.len(), 1);
    w.finalize().unwrap();
    assert_eq!(w.batches.len(), 1);

    dest.release(w);
    let batches = dest.arrow().unwrap();
    assert_eq!(batches.len(), 1);
    assert_eq!(batches[0].num_rows(), 2);
}

#[test]
fn drain_fails_while_a_partition_handle_is_alive_and_succeeds_after() {
    let (names, schema) = two_column_schema();
    let mut dest = Arrow2Destination::new_with_batch_size(2);
    dest.allocate(0, &names, &schema, DataOrder::RowMajor).unwrap();
    let mut writers = dest.partition(1);
    let mut w = writers.pop().unwrap();

    w.consume(NativeValue::Int64(1)).unwrap();
    w.consume(NativeValue::Text(String::from("one"))).unwrap();
    w.finalize().unwrap();

    assert_eq!(dest.arrow(), Err(Arrow2DestinationError::ResourceStillHeld));

    dest.release(w);
    let batches = dest.arrow().unwrap();
    assert_eq!(batches.len(), 1);
    assert_eq!(batches[0].num_rows(), 1);
}

#[test]
fn destination_reports_its_schema_and_needs_no_count() {
    let (names, schema) = two_column_schema();
    let mut dest = Arrow2Destination::new_with_batch_size(2);
    assert!(!dest.needs_count());
    dest.allocate(0, &names, &schema, DataOrder::RowMajor).unwrap();
    assert_eq!(dest.schema(), &schema);
    assert_eq!(dest.fields.len(), 2);
    assert_eq!(dest.fields[0].name, "id");
    assert_eq!(dest.fields[0].tag, ArrowTypeSystem::Int64);
    assert_eq!(dest.fields[1].name, "name");
    assert_eq!(dest.fields[1].tag, ArrowTypeSystem::LargeUtf8);
}

#[test]
fn default_destination_uses_the_configured_batch_capacity() {
    let dest = Arrow2Destination::new();
    assert_eq!(dest.batch_size, connectorx::constants::RECORD_BATCH_SIZE);
    let mut w = {
        let mut dest = Arrow2Destination::new_with_batch_size(3);
        let (names, schema) = two_column_schema();
        dest.allocate(0, &names, &schema, DataOrder::RowMajor).unwrap();
        dest.partition(1).pop().unwrap()
    };
    assert_eq!(w.ncols(), 2);
    assert_eq!(w.aquire_row(0), 0);
}

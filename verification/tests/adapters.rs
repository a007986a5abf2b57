use lance_bridge::batch::{Column, RecordBatch};
use lance_bridge::create_sample_schema;
use lance_bridge::error::Error;
use lance_bridge::record_batch_to_sample_data;
use lance_bridge::sample_data_to_record_batch;
use lance_bridge::schema::{DataType, Field, Schema};
use lance_bridge::stream::{ForeignStream, InboundAdapter, OutboundStream};
use lance_bridge::SampleData;

fn sample_rows() -> Vec<SampleData> {
    vec![SampleData::new(1, "a".to_string(), 10), SampleData::new(2, "b".to_string(), 20)]
}

#[test]
fn conversion_round_trips_sample_rows() {
    let rows = sample_rows();
    let batch = sample_data_to_record_batch(&rows).unwrap();
    assert_eq!(batch.num_rows(), 2);
    assert_eq!(batch.num_columns(), 3);
    let back = record_batch_to_sample_data(&batch).unwrap();
    assert_eq!(back.len(), 2);
    assert_eq!(back[0].id, 1);
    assert_eq!(back[0].name, "a");
    assert_eq!(back[0].value, 10);
    assert_eq!(back[1].id, 2);
    assert_eq!(back[1].name, "b");
    assert_eq!(back[1].value, 20);
}

#[test]
fn decoding_a_batch_of_the_wrong_shape_is_a_read_error() {
    let schema = Schema::new(vec![
        Field::new("left".to_string(), DataType::Int32, false),
        Field::new("right".to_string(), DataType::Int32, false),
    ]);
    let batch = RecordBatch::try_new(
        schema,
        vec![Column::Int32(vec![1, 2]), Column::Int32(vec![3, 4])],
    )
    .unwrap();
    assert_eq!(record_batch_to_sample_data(&batch).err(), Some(Error::EngineReadError));
}

#[test]
fn decoding_ignores_columns_beyond_the_third() {
    let schema = Schema::new(vec![
        Field::new("id".to_string(), DataType::Int32, false),
        Field::new("name".to_string(), DataType::Utf8, false),
        Field::new("value".to_string(), DataType::Int32, false),
        Field::new("extra".to_string(), DataType::Int32, false),
    ]);
    let batch = RecordBatch::try_new(
        schema,
        vec![
            Column::Int32(vec![1, 2]),
            Column::Utf8(vec!["a".to_string(), "b".to_string()]),
            Column::Int32(vec![10, 20]),
            Column::Int32(vec![7, 8]),
        ],
    )
    .unwrap();
    let back = record_batch_to_sample_data(&batch).unwrap();
    assert_eq!(back.len(), 2);
    assert_eq!(back[0].id, 1);
    assert_eq!(back[0].name, "a");
    assert_eq!(back[0].value, 10);
    assert_eq!(back[1].id, 2);
    assert_eq!(back[1].name, "b");
    assert_eq!(back[1].value, 20);
}

#[test]
fn mismatched_columns_are_rejected_at_construction() {
    let schema = create_sample_schema();
    // wrong column count
    assert_eq!(
        RecordBatch::try_new(create_sample_schema(), vec![Column::Int32(vec![1])]).err(),
        Some(Error::InvalidArgument)
    );
    // wrong column type
    assert_eq!(
        RecordBatch::try_new(
            schema,
            vec![
                Column::Utf8(vec!["1".to_string()]),
                Column::Utf8(vec!["a".to_string()]),
                Column::Int32(vec![10]),
            ],
        )
        .err(),
        Some(Error::InvalidArgument)
    );
    // ragged column lengths
    assert_eq!(
        RecordBatch::try_new(
            create_sample_schema(),
            vec![
                Column::Int32(vec![1, 2]),
                Column::Utf8(vec!["a".to_string()]),
                Column::Int32(vec![10, 20]),
            ],
        )
        .err(),
        Some(Error::InvalidArgument)
    );
}

#[test]
fn inbound_adapter_yields_batches_in_order_then_end_of_stream() {
    let b1 = sample_data_to_record_batch(&sample_rows()).unwrap();
    let b2 = sample_data_to_record_batch(&vec![SampleData::new(3, "c".to_string(), 30)]).unwrap();
    let reader = ForeignStream::new(create_sample_schema(), vec![b1, b2], false);
    let mut adapter = InboundAdapter::new(reader);
    assert!(adapter.schema().matches(&create_sample_schema()));
    let first = adapter.next().unwrap().unwrap();
    assert_eq!(first.num_rows(), 2);
    let second = adapter.next().unwrap().unwrap();
    assert_eq!(second.num_rows(), 1);
    assert!(adapter.next().is_none());
    // the worker exited at end-of-stream and released the producer
    assert!(adapter.worker.done);
    assert!(adapter.worker.reader.released);
    // once closed, every later request reads as end-of-stream
    assert!(adapter.next().is_none());
}

#[test]
fn inbound_adapter_propagates_a_mid_stream_failure_distinctly() {
    let b1 = sample_data_to_record_batch(&sample_rows()).unwrap();
    let reader = ForeignStream::new(create_sample_schema(), vec![b1], true);
    let mut adapter = InboundAdapter::new(reader);
    assert!(adapter.next().unwrap().is_ok());
    let failure = adapter.next().unwrap();
    assert_eq!(failure.err(), Some(Error::StreamProtocolError));
}

#[test]
fn abandoned_inbound_adapter_releases_the_foreign_producer() {
    let b1 = sample_data_to_record_batch(&sample_rows()).unwrap();
    let b2 = sample_data_to_record_batch(&sample_rows()).unwrap();
    let reader = ForeignStream::new(create_sample_schema(), vec![b1, b2], false);
    let mut adapter = InboundAdapter::new(reader);
    // pull once, then abandon the stream without draining it
    let _ = adapter.next();
    adapter.close();
    assert!(adapter.worker.done);
    assert!(adapter.worker.reader.released);
    // closing straight after construction releases too
    let b3 = sample_data_to_record_batch(&sample_rows()).unwrap();
    let mut untouched = InboundAdapter::new(ForeignStream::new(
        create_sample_schema(),
        vec![b3],
        false,
    ));
    untouched.close();
    assert!(untouched.worker.done);
    assert!(untouched.worker.reader.released);
}

#[test]
fn outbound_stream_yields_batches_in_order_then_end_of_stream() {
    let b1 = sample_data_to_record_batch(&sample_rows()).unwrap();
    let b2 = sample_data_to_record_batch(&vec![SampleData::new(3, "c".to_string(), 30)]).unwrap();
    let mut out = OutboundStream::new(create_sample_schema(), vec![b1, b2]);
    assert!(out.schema().matches(&create_sample_schema()));
    assert_eq!(out.next().unwrap().num_rows(), 2);
    assert_eq!(out.next().unwrap().num_rows(), 1);
    assert!(out.next().is_none());
    assert!(out.next().is_none());
}

#[test]
fn empty_source_is_a_schema_with_zero_batches() {
    let reader = ForeignStream::new(create_sample_schema(), Vec::new(), false);
    let mut adapter = InboundAdapter::new(reader);
    assert!(adapter.schema().matches(&create_sample_schema()));
    assert!(adapter.next().is_none());
}

#[test]
fn schemas_match_only_field_for_field() {
    let a = create_sample_schema();
    assert!(a.matches(&create_sample_schema()));
    let renamed = Schema::new(vec![
        Field::new("id".to_string(), DataType::Int32, false),
        Field::new("label".to_string(), DataType::Utf8, false),
        Field::new("value".to_string(), DataType::Int32, false),
    ]);
    assert!(!a.matches(&renamed));
    let retyped = Schema::new(vec![
        Field::new("id".to_string(), DataType::Utf8, false),
        Field::new("name".to_string(), DataType::Utf8, false),
        Field::new("value".to_string(), DataType::Int32, false),
    ]);
    assert!(!a.matches(&retyped));
    let shorter = Schema::new(vec![Field::new("id".to_string(), DataType::Int32, false)]);
    assert!(!a.matches(&shorter));
    let renullabled = Schema::new(vec![
        Field::new("id".to_string(), DataType::Int32, true),
        Field::new("name".to_string(), DataType::Utf8, false),
        Field::new("value".to_string(), DataType::Int32, false),
    ]);
    assert!(!a.matches(&renullabled));
}

use lance_bridge::batch::RecordBatch;
use lance_bridge::create_sample_schema;
use lance_bridge::error::{status_of, Error};
use lance_bridge::lance_operations::{FilterExpr, LanceTableManager};
use lance_bridge::sample_data_to_record_batch;
use lance_bridge::schema::{DataType, Field, Schema};
use lance_bridge::stream::{ForeignStream, InboundAdapter};
use lance_bridge::SampleData;

fn rows(data: &[(i32, &str, i32)]) -> Vec<SampleData> {
    data.iter().map(|(id, name, value)| SampleData::new(*id, name.to_string(), *value)).collect()
}

fn batch_of(data: &[(i32, &str, i32)]) -> RecordBatch {
    sample_data_to_record_batch(&rows(data)).unwrap()
}

fn source_of(batches: Vec<RecordBatch>) -> InboundAdapter {
    InboundAdapter::new(ForeignStream::new(create_sample_schema(), batches, false))
}

fn assert_rows(actual: &[SampleData], expected: &[(i32, &str, i32)]) {
    assert_eq!(actual.len(), expected.len());
    for (a, (id, name, value)) in actual.iter().zip(expected.iter()) {
        assert_eq!(a.id, *id);
        assert_eq!(a.name, *name);
        assert_eq!(a.value, *value);
    }
}

#[test]
fn concrete_scenario() {
    let mut m = LanceTableManager::new("/data/demo");
    let schema = create_sample_schema();
    assert!(m.create_table(&schema).is_ok());
    assert!(m.open_table().is_ok());
    let mut src = source_of(vec![batch_of(&[(1, "a", 10), (2, "b", 20)])]);
    assert!(m.append_from_stream(&mut src).is_ok());
    let data = m.read_all_data().unwrap();
    assert_rows(&data, &[(1, "a", 10), (2, "b", 20)]);
    assert!(m.drop_table().is_ok());
    assert_eq!(m.open_table(), Err(Error::OpenError));
}

#[test]
fn append_round_trip_preserves_rows_and_order() {
    let mut m = LanceTableManager::new("/data/rt");
    let schema = create_sample_schema();
    m.create_table(&schema).unwrap();
    m.open_table().unwrap();
    let expected = [(7, "x", 70), (8, "y", 80), (9, "z", 90)];
    let mut src = source_of(vec![batch_of(&expected[..1]), batch_of(&expected[1..])]);
    m.append_from_stream(&mut src).unwrap();
    let data = m.read_all_data().unwrap();
    assert_rows(&data, &expected);
}

#[test]
fn append_accumulates_in_source_order() {
    let mut m = LanceTableManager::new("/data/acc");
    let schema = create_sample_schema();
    m.create_table(&schema).unwrap();
    m.open_table().unwrap();
    let mut first = source_of(vec![batch_of(&[(1, "a", 10)])]);
    m.append_from_stream(&mut first).unwrap();
    let mut second = source_of(vec![batch_of(&[(2, "b", 20)]), batch_of(&[(3, "c", 30)])]);
    m.append_from_stream(&mut second).unwrap();
    let data = m.read_all_data().unwrap();
    assert_rows(&data, &[(1, "a", 10), (2, "b", 20), (3, "c", 30)]);
    assert_eq!(m.scan().unwrap().len(), 3);
}

#[test]
fn overwrite_replaces_all_previous_rows() {
    let mut m = LanceTableManager::new("/data/ow");
    let mut first = source_of(vec![batch_of(&[(1, "a", 10), (2, "b", 20)])]);
    m.overwrite_from_stream(&mut first).unwrap();
    let mut second = source_of(vec![batch_of(&[(5, "e", 50)])]);
    m.overwrite_from_stream(&mut second).unwrap();
    let data = m.read_all_data().unwrap();
    assert_rows(&data, &[(5, "e", 50)]);
}

#[test]
fn overwrite_needs_no_open_handle_and_opens_one() {
    let mut m = LanceTableManager::new("/data/ow2");
    assert!(m.dataset.is_none());
    let mut src = source_of(vec![batch_of(&[(4, "d", 40)])]);
    m.write_from_stream(&mut src, true).unwrap();
    assert!(m.dataset.is_some());
    assert_rows(&m.read_all_data().unwrap(), &[(4, "d", 40)]);
}

#[test]
fn write_advances_version_and_reloads_handle() {
    let mut m = LanceTableManager::new("/data/ver");
    let schema = create_sample_schema();
    m.create_table(&schema).unwrap();
    m.open_table().unwrap();
    assert_eq!(m.dataset.as_ref().unwrap().version, 1);
    let mut first = source_of(vec![batch_of(&[(1, "a", 10)])]);
    m.append_from_stream(&mut first).unwrap();
    assert_eq!(m.dataset.as_ref().unwrap().version, 2);
    assert_eq!(m.stored.as_ref().unwrap().version, 2);
    let mut second = source_of(vec![batch_of(&[(2, "b", 20)])]);
    m.write_from_stream(&mut second, false).unwrap();
    assert_eq!(m.dataset.as_ref().unwrap().version, 3);
    assert_eq!(m.stored.as_ref().unwrap().version, 3);
}

#[test]
fn append_with_mismatched_schema_is_rejected() {
    let mut m = LanceTableManager::new("/data/mm");
    let schema = create_sample_schema();
    m.create_table(&schema).unwrap();
    m.open_table().unwrap();
    let mut seeded = source_of(vec![batch_of(&[(1, "a", 10)])]);
    m.append_from_stream(&mut seeded).unwrap();
    let other = Schema::new(vec![
        Field::new("id".to_string(), DataType::Int32, false),
        Field::new("label".to_string(), DataType::Utf8, false),
        Field::new("value".to_string(), DataType::Int32, false),
    ]);
    let mut bad = InboundAdapter::new(ForeignStream::new(other, Vec::new(), false));
    assert_eq!(m.append_from_stream(&mut bad), Err(Error::SchemaMismatchError));
    // the dataset is unchanged
    assert_eq!(m.stored.as_ref().unwrap().version, 2);
    assert_rows(&m.read_all_data().unwrap(), &[(1, "a", 10)]);
}

#[test]
fn failing_source_aborts_append_and_commits_nothing() {
    let mut m = LanceTableManager::new("/data/fail");
    let schema = create_sample_schema();
    m.create_table(&schema).unwrap();
    m.open_table().unwrap();
    let mut seeded = source_of(vec![batch_of(&[(1, "a", 10)])]);
    m.append_from_stream(&mut seeded).unwrap();
    let failing = ForeignStream::new(create_sample_schema(), vec![batch_of(&[(2, "b", 20)])], true);
    let mut src = InboundAdapter::new(failing);
    assert_eq!(m.append_from_stream(&mut src), Err(Error::StreamProtocolError));
    assert_eq!(m.stored.as_ref().unwrap().version, 2);
    assert_rows(&m.read_all_data().unwrap(), &[(1, "a", 10)]);
}

#[test]
fn failing_source_aborts_overwrite_and_keeps_persisted_data() {
    let mut m = LanceTableManager::new("/data/fail2");
    let mut first = source_of(vec![batch_of(&[(1, "a", 10)])]);
    m.overwrite_from_stream(&mut first).unwrap();
    let failing = ForeignStream::new(create_sample_schema(), Vec::new(), true);
    let mut src = InboundAdapter::new(failing);
    assert_eq!(m.overwrite_from_stream(&mut src), Err(Error::StreamProtocolError));
    // the handle was discarded, but the persisted dataset survived intact
    assert!(m.dataset.is_none());
    assert_eq!(m.read_all_data().err(), Some(Error::NotOpenError));
    m.open_table().unwrap();
    assert_rows(&m.read_all_data().unwrap(), &[(1, "a", 10)]);
}

#[test]
fn empty_dataset_round_trip() {
    let mut m = LanceTableManager::new("/data/empty");
    let schema = create_sample_schema();
    m.create_table(&schema).unwrap();
    m.open_table().unwrap();
    assert_eq!(m.scan().unwrap().len(), 0);
    assert_eq!(m.read_all_data().unwrap().len(), 0);
    assert!(m.get_table_schema().unwrap().matches(&create_sample_schema()));
}

#[test]
fn create_on_existing_dataset_collides() {
    let mut m = LanceTableManager::new("/data/coll");
    let schema = create_sample_schema();
    m.create_table(&schema).unwrap();
    assert_eq!(m.create_table(&schema), Err(Error::CreateError));
}

#[test]
fn create_does_not_open_a_handle() {
    let mut m = LanceTableManager::new("/data/noopen");
    let schema = create_sample_schema();
    m.create_table(&schema).unwrap();
    assert!(m.dataset.is_none());
    assert_eq!(m.read_all_data().err(), Some(Error::NotOpenError));
    assert_eq!(m.get_table_schema().err(), Some(Error::NotOpenError));
    assert_eq!(m.scan().map(|v| v.len()), Err(Error::NotOpenError));
}

#[test]
fn open_is_a_no_op_when_already_open() {
    let mut m = LanceTableManager::new("/data/reopen");
    let schema = create_sample_schema();
    m.create_table(&schema).unwrap();
    m.open_table().unwrap();
    let version = m.dataset.as_ref().unwrap().version;
    m.open_table().unwrap();
    assert_eq!(m.dataset.as_ref().unwrap().version, version);
}

#[test]
fn append_without_open_handle_fails() {
    let mut m = LanceTableManager::new("/data/unopened");
    let mut src = source_of(Vec::new());
    assert_eq!(m.append_from_stream(&mut src), Err(Error::NotOpenError));
}

#[test]
fn drop_without_dataset_is_an_io_error() {
    let mut m = LanceTableManager::new("/data/nodrop");
    assert_eq!(m.drop_table(), Err(Error::IoError));
}

#[test]
fn filters_restrict_the_scan() {
    let mut m = LanceTableManager::new("/data/filter");
    let schema = create_sample_schema();
    m.create_table(&schema).unwrap();
    m.open_table().unwrap();
    let mut src = source_of(vec![batch_of(&[(1, "a", 10), (2, "b", 20), (3, "c", 30)])]);
    m.append_from_stream(&mut src).unwrap();
    assert_rows(
        &m.read_filtered_data(&FilterExpr::ValueAtLeast(20)).unwrap(),
        &[(2, "b", 20), (3, "c", 30)],
    );
    assert_rows(&m.read_filtered_data(&FilterExpr::IdEquals(1)).unwrap(), &[(1, "a", 10)]);
    assert_rows(
        &m.read_filtered_data(&FilterExpr::All).unwrap(),
        &[(1, "a", 10), (2, "b", 20), (3, "c", 30)],
    );
    assert_eq!(m.read_filtered_data(&FilterExpr::IdEquals(9)).unwrap().len(), 0);
}

#[test]
fn scan_stream_packages_the_whole_dataset_in_order() {
    let mut m = LanceTableManager::new("/data/out");
    assert_eq!(m.scan_stream().err(), Some(Error::NotOpenError));
    let schema = create_sample_schema();
    m.create_table(&schema).unwrap();
    m.open_table().unwrap();
    let mut src = source_of(vec![batch_of(&[(1, "a", 10)]), batch_of(&[(2, "b", 20)])]);
    m.append_from_stream(&mut src).unwrap();
    let mut out = m.scan_stream().unwrap();
    assert!(out.schema().matches(&create_sample_schema()));
    let first = out.next().unwrap();
    assert_rows(&lance_bridge::record_batch_to_sample_data(&first).unwrap(), &[(1, "a", 10)]);
    let second = out.next().unwrap();
    assert_rows(&lance_bridge::record_batch_to_sample_data(&second).unwrap(), &[(2, "b", 20)]);
    assert!(out.next().is_none());
}

#[test]
fn status_codes_are_zero_for_success_and_distinct_negatives() {
    assert_eq!(status_of(&Ok(())), 0);
    let all = [
        Error::NotInitialized,
        Error::InvalidArgument,
        Error::OpenError,
        Error::CreateError,
        Error::SchemaMismatchError,
        Error::StreamProtocolError,
        Error::EngineWriteError,
        Error::EngineReadError,
        Error::NotOpenError,
        Error::IoError,
    ];
    let mut seen = Vec::new();
    for e in all {
        let code = e.status_code();
        assert!(code < 0);
        assert!(!seen.contains(&code));
        seen.push(code);
    }
    assert_eq!(Error::OpenError.status_code(), -3);
}

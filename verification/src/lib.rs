//! A verified streaming bridge and table-lifecycle manager for a columnar
//! dataset store.
//!
//! The crate models the two non-mechanical parts of a storage boundary: a
//! pull-based stream adapter that carries columnar batches between a
//! thread-affine foreign producer/consumer and the table manager, and the
//! manager itself, which sequences create / open / append / overwrite /
//! scan / drop against the dataset while keeping its handle on the latest
//! committed version.

pub mod batch;
pub mod error;
pub mod lance_operations;
pub mod laws;
pub mod stream;
pub mod schema;

use vstd::prelude::*;

verus! {

/// One demonstration row: an id, a name and a value.
#[derive(Debug)]
pub struct SampleData {
    pub id: i32,
    pub name: String,
    pub value: i32,
}

/// The mathematical image of a [`SampleData`] row.
pub struct SampleDataV {
    pub id: i32,
    pub name: Seq<char>,
    pub value: i32,
}

impl View for SampleData {
    type V = SampleDataV;

    open spec fn view(&self) -> SampleDataV {
        SampleDataV { id: self.id, name: self.name@, value: self.value }
    }
}

impl SampleData {
    pub fn new(id: i32, name: String, value: i32) -> (r: Self)
        ensures
            r.id == id,
            r.name == name,
            r.value == value,
    {
        Self { id, name, value }
    }
}

impl Clone for SampleData {
    fn clone(&self) -> (r: Self)
        ensures
            r@ == self@,
    {
        SampleData { id: self.id, name: self.name.clone(), value: self.value }
    }
}

/// The images of a sequence of sample rows, row by row.
pub open spec fn samples_view(rows: Seq<SampleData>) -> Seq<SampleDataV> {
    rows.map(|i: int, d: SampleData| d@)
}

/// The demonstration schema: `{id: int32, name: string, value: int32}`,
/// none of the fields nullable.
pub open spec fn spec_sample_schema() -> Seq<schema::FieldV> {
    seq![
        schema::FieldV { name: "id"@, data_type: schema::DataType::Int32, nullable: false },
        schema::FieldV { name: "name"@, data_type: schema::DataType::Utf8, nullable: false },
        schema::FieldV { name: "value"@, data_type: schema::DataType::Int32, nullable: false },
    ]
}

/// Builds the demonstration schema.
pub fn create_sample_schema() -> (s: schema::Schema)
    ensures
        s@ == spec_sample_schema(),
{
    let mut fields: Vec<schema::Field> = Vec::new();
    fields.push(schema::Field::new(String::from_str("id"), schema::DataType::Int32, false));
    fields.push(schema::Field::new(String::from_str("name"), schema::DataType::Utf8, false));
    fields.push(schema::Field::new(String::from_str("value"), schema::DataType::Int32, false));
    let s = schema::Schema::new(fields);
    proof {
        assert(s@ =~= spec_sample_schema());
    }
    s
}

/// Whether a batch has the column shape the sample read path can decode:
/// at least three columns, the first three typed int32, string, int32.
/// Field names and any trailing columns are not inspected; only the
/// leading column types decide, as the read path's downcasts do, and
/// extra columns are ignored.
pub open spec fn sample_typed(b: batch::BatchV) -> bool {
    &&& b.cols.len() >= 3
    &&& b.cols[0].data_type == schema::DataType::Int32
    &&& b.cols[1].data_type == schema::DataType::Utf8
    &&& b.cols[2].data_type == schema::DataType::Int32
}

/// The sample rows a sample-typed batch holds, in row order.
pub open spec fn spec_batch_samples(b: batch::BatchV) -> Seq<SampleDataV> {
    Seq::new(
        b.num_rows(),
        |i: int| SampleDataV {
            id: b.cols[0].vals[i]->Int32_0,
            name: b.cols[1].vals[i]->Utf8_0,
            value: b.cols[2].vals[i]->Int32_0,
        },
    )
}

/// The sample rows of a sequence of sample-typed batches, concatenated
/// in batch order.
pub open spec fn spec_samples_of_batches(batches: Seq<batch::BatchV>) -> Seq<SampleDataV>
    decreases batches.len(),
{
    if batches.len() == 0 {
        Seq::empty()
    } else {
        spec_samples_of_batches(batches.drop_last()) + spec_batch_samples(batches.last())
    }
}

/// Converts sample rows into one columnar batch carrying the
/// demonstration schema. Never fails: the three columns are built of
/// equal length from the rows themselves.
pub fn sample_data_to_record_batch(data: &Vec<SampleData>) -> (r: Result<
    batch::RecordBatch,
    error::Error,
>)
    ensures
        r matches Ok(b),
        r matches Ok(b) ==> {
            &&& b.wf()
            &&& b@.schema == spec_sample_schema()
            &&& sample_typed(b@)
            &&& spec_batch_samples(b@) == samples_view(data@)
            &&& b@.num_rows() == data@.len()
        },
{
    let schema = create_sample_schema();
    let n = data.len();
    let mut ids: Vec<i32> = Vec::new();
    let mut names: Vec<String> = Vec::new();
    let mut values: Vec<i32> = Vec::new();
    let mut i: usize = 0;
    while i < n
        invariant
            0 <= i <= n,
            n == data@.len(),
            ids@.len() == i,
            names@.len() == i,
            values@.len() == i,
            forall|j: int| 0 <= j < i ==> ids@[j] == data@[j].id,
            forall|j: int| 0 <= j < i ==> names@[j]@ == data@[j].name@,
            forall|j: int| 0 <= j < i ==> values@[j] == data@[j].value,
        decreases n - i,
    {
        ids.push(data[i].id);
        names.push(data[i].name.clone());
        values.push(data[i].value);
        i += 1;
    }
    let mut columns: Vec<batch::Column> = Vec::new();
    columns.push(batch::Column::Int32(ids));
    columns.push(batch::Column::Utf8(names));
    columns.push(batch::Column::Int32(values));
    let ghost target = batch::BatchV {
        schema: schema@,
        cols: columns@.map(|k: int, c: batch::Column| c@),
    };
    proof {
        assert(target.cols[0] == columns@[0]@);
        assert(target.cols[1] == columns@[1]@);
        assert(target.cols[2] == columns@[2]@);
        assert(target.wf());
    }
    match batch::RecordBatch::try_new(schema, columns) {
        Ok(b) => {
            proof {
                assert(b@.cols[0] == columns@[0]@);
                assert(b@.cols[1] == columns@[1]@);
                assert(b@.cols[2] == columns@[2]@);
                assert(spec_batch_samples(b@) =~= samples_view(data@));
            }
            Ok(b)
        },
        Err(e) => {
            proof {
                assert(false);
            }
            Err(e)
        },
    }
}

/// Reads the sample rows back out of a batch. Succeeds exactly when the
/// batch's first three columns have the sample shape (int32, string,
/// int32 — names are not checked, as the downcasts that drive this path
/// never see them, and columns beyond the third are ignored); anything
/// else is an engine read failure.
pub fn record_batch_to_sample_data(batch: &batch::RecordBatch) -> (r: Result<
    Vec<SampleData>,
    error::Error,
>)
    requires
        batch.wf(),
    ensures
        r is Ok <==> sample_typed(batch@),
        r matches Ok(v) ==> samples_view(v@) == spec_batch_samples(batch@),
        r matches Err(e) ==> e == error::Error::EngineReadError,
{
    if batch.num_columns() < 3 {
        return Err(error::Error::EngineReadError);
    }
    let ids: &Vec<i32> = match batch.column(0) {
        batch::Column::Int32(v) => v,
        _ => {
            return Err(error::Error::EngineReadError);
        },
    };
    let names: &Vec<String> = match batch.column(1) {
        batch::Column::Utf8(v) => v,
        _ => {
            return Err(error::Error::EngineReadError);
        },
    };
    let values: &Vec<i32> = match batch.column(2) {
        batch::Column::Int32(v) => v,
        _ => {
            return Err(error::Error::EngineReadError);
        },
    };
    let n = batch.num_rows();
    let mut out: Vec<SampleData> = Vec::new();
    let mut i: usize = 0;
    while i < n
        invariant
            0 <= i <= n,
            batch.wf(),
            sample_typed(batch@),
            n == batch@.num_rows(),
            ids@.map(|k: int, x: i32| batch::ValueV::Int32(x)) == batch@.cols[0].vals,
            names@.map(|k: int, s: String| batch::ValueV::Utf8(s@)) == batch@.cols[1].vals,
            values@.map(|k: int, x: i32| batch::ValueV::Int32(x)) == batch@.cols[2].vals,
            ids@.len() == n && names@.len() == n && values@.len() == n,
            out@.len() == i,
            forall|j: int| 0 <= j < i ==> #[trigger] out@[j]@ == spec_batch_samples(batch@)[j],
        decreases n - i,
    {
        let row = SampleData::new(ids[i], names[i].clone(), values[i]);
        proof {
            assert(batch@.cols[0].vals[i as int] == ids@.map(
                |k: int, x: i32| batch::ValueV::Int32(x),
            )[i as int]);
            assert(batch@.cols[1].vals[i as int] == names@.map(
                |k: int, s: String| batch::ValueV::Utf8(s@),
            )[i as int]);
            assert(batch@.cols[2].vals[i as int] == values@.map(
                |k: int, x: i32| batch::ValueV::Int32(x),
            )[i as int]);
        }
        out.push(row);
        i += 1;
    }
    proof {
        assert(samples_view(out@) =~= spec_batch_samples(batch@));
    }
    Ok(out)
}

} // verus!

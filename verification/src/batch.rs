use vstd::prelude::*;

use crate::error::Error;
use crate::schema::{DataType, FieldV, Schema};

verus! {

/// The mathematical image of one cell of a column.
pub enum ValueV {
    Int32(i32),
    Utf8(Seq<char>),
}

/// Whether a cell carries a value of the given column type.
pub open spec fn value_has_type(v: ValueV, t: DataType) -> bool {
    match t {
        DataType::Int32 => v is Int32,
        DataType::Utf8 => v is Utf8,
    }
}

/// The mathematical image of one column: its type and its cells in order.
#[verifier::ext_equal]
pub struct ColumnV {
    pub data_type: DataType,
    pub vals: Seq<ValueV>,
}

impl ColumnV {
    /// Every cell carries a value of the column's type.
    pub open spec fn wf(&self) -> bool {
        forall|i: int| 0 <= i < self.vals.len() ==> value_has_type(#[trigger] self.vals[i], self.data_type)
    }
}

/// One column of a batch: all cells share one type.
#[derive(Debug)]
pub enum Column {
    Int32(Vec<i32>),
    Utf8(Vec<String>),
}

impl View for Column {
    type V = ColumnV;

    open spec fn view(&self) -> ColumnV {
        match self {
            Column::Int32(v) => ColumnV {
                data_type: DataType::Int32,
                vals: v@.map(|i: int, x: i32| ValueV::Int32(x)),
            },
            Column::Utf8(v) => ColumnV {
                data_type: DataType::Utf8,
                vals: v@.map(|i: int, s: String| ValueV::Utf8(s@)),
            },
        }
    }
}

impl Column {
    /// A column's image is always well formed: a column cannot mix types.
    pub proof fn lemma_view_wf(&self)
        ensures
            self@.wf(),
    {
    }

    pub fn data_type(&self) -> (t: DataType)
        ensures
            t == self@.data_type,
    {
        match self {
            Column::Int32(_) => DataType::Int32,
            Column::Utf8(_) => DataType::Utf8,
        }
    }

    pub fn len(&self) -> (n: usize)
        ensures
            n == self@.vals.len(),
    {
        match self {
            Column::Int32(v) => v.len(),
            Column::Utf8(v) => v.len(),
        }
    }
}

impl Clone for Column {
    fn clone(&self) -> (r: Self)
        ensures
            r@ == self@,
    {
        match self {
            Column::Int32(v) => {
                let mut out: Vec<i32> = Vec::new();
                let n = v.len();
                let mut i: usize = 0;
                while i < n
                    invariant
                        0 <= i <= n,
                        n == v@.len(),
                        out@.len() == i,
                        forall|j: int| 0 <= j < i ==> out@[j] == v@[j],
                    decreases n - i,
                {
                    out.push(v[i]);
                    i += 1;
                }
                proof {
                    assert(out@ =~= v@);
                }
                Column::Int32(out)
            },
            Column::Utf8(v) => {
                let mut out: Vec<String> = Vec::new();
                let n = v.len();
                let mut i: usize = 0;
                while i < n
                    invariant
                        0 <= i <= n,
                        n == v@.len(),
                        out@.len() == i,
                        forall|j: int| 0 <= j < i ==> out@[j] == v@[j],
                    decreases n - i,
                {
                    out.push(v[i].clone());
                    i += 1;
                }
                proof {
                    assert(out@ =~= v@);
                }
                Column::Utf8(out)
            },
        }
    }
}

/// The mathematical image of a batch: its schema and its columns.
#[verifier::ext_equal]
pub struct BatchV {
    pub schema: Seq<FieldV>,
    pub cols: Seq<ColumnV>,
}

impl BatchV {
    /// The number of rows: the length shared by every column.
    pub open spec fn num_rows(&self) -> nat {
        if self.cols.len() == 0 {
            0
        } else {
            self.cols[0].vals.len()
        }
    }

    /// One column per schema field, of that field's type, and all columns
    /// of equal length.
    pub open spec fn wf(&self) -> bool {
        &&& self.cols.len() == self.schema.len()
        &&& forall|i: int|
            0 <= i < self.cols.len() ==> (#[trigger] self.cols[i]).data_type
                == self.schema[i].data_type
        &&& forall|i: int| 0 <= i < self.cols.len() ==> (#[trigger] self.cols[i]).wf()
        &&& forall|i: int|
            0 <= i < self.cols.len() ==> (#[trigger] self.cols[i]).vals.len() == self.num_rows()
    }

    /// Row `i`, as the sequence of that row's cells across the columns.
    pub open spec fn row(&self, i: int) -> Seq<ValueV> {
        Seq::new(self.cols.len(), |j: int| self.cols[j].vals[i])
    }

    /// All rows of the batch, in order.
    pub open spec fn rows(&self) -> Seq<Seq<ValueV>> {
        Seq::new(self.num_rows(), |i: int| self.row(i))
    }
}

/// A columnar chunk of rows: one column per schema field, all columns of
/// equal length. The unit of streaming; never the whole dataset at once.
#[derive(Debug)]
pub struct RecordBatch {
    pub schema: Schema,
    pub columns: Vec<Column>,
}

impl View for RecordBatch {
    type V = BatchV;

    open spec fn view(&self) -> BatchV {
        BatchV { schema: self.schema@, cols: self.columns@.map(|i: int, c: Column| c@) }
    }
}

impl RecordBatch {
    pub open spec fn wf(&self) -> bool {
        self@.wf()
    }

    /// Builds a batch after checking that the columns fit the schema: one
    /// column per field, each of the field's type, all of equal length.
    /// Rejected columns surface as `InvalidArgument`.
    pub fn try_new(schema: Schema, columns: Vec<Column>) -> (r: Result<RecordBatch, Error>)
        ensures
            r is Ok <==> (BatchV {
                schema: schema@,
                cols: columns@.map(|i: int, c: Column| c@),
            }).wf(),
            r matches Ok(b) ==> b@ == (BatchV {
                schema: schema@,
                cols: columns@.map(|i: int, c: Column| c@),
            }) && b.wf(),
            r matches Err(e) ==> e == Error::InvalidArgument,
    {
        let ghost target = BatchV { schema: schema@, cols: columns@.map(|i: int, c: Column| c@) };
        if columns.len() != schema.fields.len() {
            return Err(Error::InvalidArgument);
        }
        let rows: usize = if columns.len() == 0 {
            0
        } else {
            columns[0].len()
        };
        let n = columns.len();
        let mut i: usize = 0;
        while i < n
            invariant
                0 <= i <= n,
                n == columns@.len() == schema@.len(),
                target == (BatchV {
                    schema: schema@,
                    cols: columns@.map(|k: int, c: Column| c@),
                }),
                rows == (BatchV {
                    schema: schema@,
                    cols: columns@.map(|k: int, c: Column| c@),
                }).num_rows(),
                forall|j: int|
                    0 <= j < i ==> (#[trigger] columns@[j])@.data_type == schema@[j].data_type,
                forall|j: int| 0 <= j < i ==> (#[trigger] columns@[j])@.vals.len() == rows,
            decreases n - i,
        {
            proof {
                assert(target.cols[i as int] == columns@[i as int]@);
                assert(target.schema[i as int] == schema.fields@[i as int]@);
            }
            let dt = columns[i].data_type();
            if !(match (dt, schema.fields[i].data_type) {
                (DataType::Int32, DataType::Int32) => true,
                (DataType::Utf8, DataType::Utf8) => true,
                _ => false,
            }) {
                return Err(Error::InvalidArgument);
            }
            if columns[i].len() != rows {
                return Err(Error::InvalidArgument);
            }
            i += 1;
        }
        let b = RecordBatch { schema, columns };
        proof {
            assert forall|j: int| 0 <= j < b@.cols.len() implies (#[trigger] b@.cols[j]).wf() by {
                b.columns@[j].lemma_view_wf();
            }
            assert(b@.wf());
        }
        Ok(b)
    }

    pub fn num_rows(&self) -> (n: usize)
        requires
            self.wf(),
        ensures
            n == self@.num_rows(),
    {
        if self.columns.len() == 0 {
            0
        } else {
            self.columns[0].len()
        }
    }

    pub fn num_columns(&self) -> (n: usize)
        ensures
            n == self@.cols.len(),
    {
        self.columns.len()
    }

    pub fn column(&self, i: usize) -> (c: &Column)
        requires
            i < self@.cols.len(),
        ensures
            c@ == self@.cols[i as int],
    {
        &self.columns[i]
    }
}

impl Clone for RecordBatch {
    fn clone(&self) -> (r: Self)
        ensures
            r@ == self@,
    {
        let schema = self.schema.clone();
        let mut columns: Vec<Column> = Vec::new();
        let n = self.columns.len();
        let mut i: usize = 0;
        while i < n
            invariant
                0 <= i <= n,
                n == self.columns@.len(),
                columns@.len() == i,
                forall|j: int| 0 <= j < i ==> columns@[j]@ == self.columns@[j]@,
            decreases n - i,
        {
            columns.push(self.columns[i].clone());
            i += 1;
        }
        let r = RecordBatch { schema, columns };
        proof {
            assert(r@.cols =~= self@.cols);
            assert(r@ =~= self@);
        }
        r
    }
}

/// Copies a sequence of batches, preserving every batch's image.
pub fn clone_batches(v: &Vec<RecordBatch>) -> (r: Vec<RecordBatch>)
    ensures
        batch_views(r@) == batch_views(v@),
{
    let mut out: Vec<RecordBatch> = Vec::new();
    let n = v.len();
    let mut i: usize = 0;
    while i < n
        invariant
            0 <= i <= n,
            n == v@.len(),
            out@.len() == i,
            forall|j: int| 0 <= j < i ==> out@[j]@ == v@[j]@,
        decreases n - i,
    {
        out.push(v[i].clone());
        i += 1;
    }
    proof {
        assert(batch_views(out@) =~= batch_views(v@));
    }
    out
}

/// The images of a sequence of batches, batch by batch.
pub open spec fn batch_views(batches: Seq<RecordBatch>) -> Seq<BatchV> {
    batches.map(|i: int, b: RecordBatch| b@)
}

/// All rows of a sequence of batch images, concatenated in order.
pub open spec fn rows_of(batches: Seq<BatchV>) -> Seq<Seq<ValueV>> {
    batches.map_values(|b: BatchV| b.rows()).flatten()
}

} // verus!

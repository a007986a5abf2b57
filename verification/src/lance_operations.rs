use vstd::prelude::*;

use crate::batch::{batch_views, clone_batches, BatchV, RecordBatch};
use crate::error::Error;
use crate::schema::{FieldV, Schema};
use crate::stream::{batches_conform, spec_drain, AdapterV, InboundAdapter, OutboundStream};
use crate::{samples_view, SampleData};

verus! {

/// How a write treats what the dataset already holds: extend it, or
/// atomically replace it.
#[derive(Clone, Copy, Debug, PartialEq, Eq, Structural)]
pub enum WriteMode {
    Append,
    Overwrite,
}

/// One committed state of the dataset: its version, its schema, and the
/// batches it holds in write order.
#[derive(Debug)]
pub struct DatasetState {
    pub version: u64,
    pub schema: Schema,
    pub batches: Vec<RecordBatch>,
}

/// The mathematical image of a committed dataset state.
#[verifier::ext_equal]
pub struct DatasetStateV {
    pub version: u64,
    pub schema: Seq<FieldV>,
    pub batches: Seq<BatchV>,
}

impl DatasetStateV {
    pub open spec fn wf(&self) -> bool {
        batches_conform(self.batches, self.schema)
    }
}

impl View for DatasetState {
    type V = DatasetStateV;

    open spec fn view(&self) -> DatasetStateV {
        DatasetStateV {
            version: self.version,
            schema: self.schema@,
            batches: batch_views(self.batches@),
        }
    }
}

impl Clone for DatasetState {
    fn clone(&self) -> (r: Self)
        ensures
            r@ == self@,
    {
        let r = DatasetState {
            version: self.version,
            schema: self.schema.clone(),
            batches: clone_batches(&self.batches),
        };
        proof {
            assert(r@ =~= self@);
        }
        r
    }
}

/// The mathematical image of a table manager: the location it was built
/// for, what the engine persists there, and the handle it holds open, if
/// any.
#[verifier::ext_equal]
pub struct ManagerV {
    pub path: Seq<char>,
    pub stored: Option<DatasetStateV>,
    pub dataset: Option<DatasetStateV>,
}

impl ManagerV {
    /// The persisted state is well formed, and any open handle is a
    /// snapshot of exactly the persisted state — never of a superseded
    /// version.
    pub open spec fn wf(&self) -> bool {
        &&& (self.stored matches Some(st) ==> st.wf())
        &&& (self.dataset matches Some(h) ==> self.stored == Some(h))
    }

    /// The engine can still mint a fresh version number.
    pub open spec fn version_headroom(&self) -> bool {
        self.stored matches Some(st) ==> st.version < u64::MAX
    }
}

/// Opening: a no-op with a handle already held; otherwise a snapshot of
/// the persisted dataset at its latest version, or `OpenError` where
/// nothing is persisted.
pub open spec fn spec_open(m: ManagerV) -> (ManagerV, Result<(), Error>) {
    if m.dataset is Some {
        (m, Ok(()))
    } else {
        match m.stored {
            Some(st) => (ManagerV { dataset: Some(st), ..m }, Ok(())),
            None => (m, Err(Error::OpenError)),
        }
    }
}

/// Creating: persists a new, empty dataset with the given schema at
/// version one, without opening a handle; `CreateError` where the
/// location already holds a dataset (the engine's own collision rule).
pub open spec fn spec_create(m: ManagerV, schema: Seq<FieldV>) -> (ManagerV, Result<(), Error>) {
    if m.stored is Some {
        (m, Err(Error::CreateError))
    } else {
        (
            ManagerV {
                stored: Some(DatasetStateV { version: 1, schema, batches: Seq::empty() }),
                ..m
            },
            Ok(()),
        )
    }
}

/// Reading the open dataset's batches, in write order; `NotOpenError`
/// without a handle.
pub open spec fn spec_scan(m: ManagerV) -> Result<Seq<BatchV>, Error> {
    match m.dataset {
        Some(h) => Ok(h.batches),
        None => Err(Error::NotOpenError),
    }
}

/// Reading the open dataset's schema; `NotOpenError` without a handle.
pub open spec fn spec_get_schema(m: ManagerV) -> Result<Seq<FieldV>, Error> {
    match m.dataset {
        Some(h) => Ok(h.schema),
        None => Err(Error::NotOpenError),
    }
}

/// Dropping: removes the persisted dataset and invalidates any handle;
/// `IoError` where nothing is persisted to remove.
pub open spec fn spec_drop(m: ManagerV) -> (ManagerV, Result<(), Error>) {
    if m.stored is None {
        (m, Err(Error::IoError))
    } else {
        (ManagerV { path: m.path, stored: None, dataset: None }, Ok(()))
    }
}

/// Appending: demands an open handle whose schema matches the source's;
/// then the source is drained and, unless it failed mid-stream, its
/// batches are committed after the present ones under the next version,
/// and the handle is reloaded to that version at once. A failed source
/// commits nothing and leaves the handle as it was.
pub open spec fn spec_append(m: ManagerV, a: AdapterV) -> (ManagerV, AdapterV, Result<(), Error>) {
    match m.dataset {
        None => (m, a, Err(Error::NotOpenError)),
        Some(h) => if a.schema != h.schema {
            (m, a, Err(Error::SchemaMismatchError))
        } else if spec_drain(a).2 {
            (m, spec_drain(a).0, Err(Error::StreamProtocolError))
        } else {
            let st = DatasetStateV {
                version: (h.version + 1) as u64,
                schema: h.schema,
                batches: h.batches + spec_drain(a).1,
            };
            (ManagerV { stored: Some(st), dataset: Some(st), ..m }, spec_drain(a).0, Ok(()))
        },
    }
}

/// Overwriting: needs no open handle; any held handle is discarded first.
/// The source is drained and, unless it failed mid-stream, its batches
/// atomically replace the dataset's contents under the next version (or
/// version one at a bare location), and a fresh handle is opened on the
/// result. On failure the persisted dataset survives untouched — the
/// engine's atomic replace — but the discarded handle stays discarded.
pub open spec fn spec_overwrite(m: ManagerV, a: AdapterV) -> (ManagerV, AdapterV, Result<
    (),
    Error,
>) {
    if spec_drain(a).2 {
        (ManagerV { dataset: None, ..m }, spec_drain(a).0, Err(Error::StreamProtocolError))
    } else {
        let version: u64 = match m.stored {
            Some(st) => (st.version + 1) as u64,
            None => 1u64,
        };
        let st = DatasetStateV { version, schema: a.schema, batches: spec_drain(a).1 };
        (
            ManagerV { path: m.path, stored: Some(st), dataset: Some(st) },
            spec_drain(a).0,
            Ok(()),
        )
    }
}

/// One write, in either mode.
pub open spec fn spec_write(m: ManagerV, a: AdapterV, mode: WriteMode) -> (ManagerV, AdapterV, Result<
    (),
    Error,
>) {
    match mode {
        WriteMode::Append => spec_append(m, a),
        WriteMode::Overwrite => spec_overwrite(m, a),
    }
}

/// Pulls every item out of an inbound adapter, one batch at a time,
/// collecting the batches in order; stops at end-of-stream or at the
/// producer's first failure.
fn drain_source(source: &mut InboundAdapter) -> (r: (Vec<RecordBatch>, bool))
    requires
        old(source).wf(),
    ensures
        final(source).wf(),
        final(source)@ == spec_drain(old(source)@).0,
        batch_views(r.0@) == spec_drain(old(source)@).1,
        r.1 == spec_drain(old(source)@).2,
        batches_conform(batch_views(r.0@), old(source)@.schema),
{
    let ghost a0 = old(source)@;
    let mut out: Vec<RecordBatch> = Vec::new();
    let mut failed = false;
    loop
        invariant_except_break
            source.wf(),
            !failed,
            source@.schema == a0.schema,
            source@.done == a0.done,
            source@.fails == a0.fails,
            source@.released == a0.released,
            a0.remaining == batch_views(out@) + source@.remaining,
            a0.done ==> out@.len() == 0,
            batches_conform(batch_views(out@), a0.schema),
        ensures
            source.wf(),
            source@ == spec_drain(a0).0,
            batch_views(out@) == spec_drain(a0).1,
            failed == spec_drain(a0).2,
            batches_conform(batch_views(out@), a0.schema),
        decreases source@.remaining.len(),
    {
        let ghost pre = source@;
        match source.next() {
            Some(Ok(b)) => {
                proof {
                    assert(pre.remaining =~= seq![b@] + source@.remaining);
                    assert(batch_views(out@.push(b)) =~= batch_views(out@).push(b@));
                    assert(a0.remaining =~= batch_views(out@.push(b)) + source@.remaining);
                }
                out.push(b);
            },
            Some(Err(_)) => {
                failed = true;
                proof {
                    assert(batch_views(out@) =~= a0.remaining);
                    assert(source@ =~= spec_drain(a0).0);
                }
                break;
            },
            None => {
                proof {
                    if pre.done {
                        assert(batch_views(out@) =~= spec_drain(a0).1);
                        assert(source@ =~= spec_drain(a0).0);
                    } else {
                        assert(batch_views(out@) + source@.remaining =~= batch_views(out@));
                        assert(batch_views(out@) =~= spec_drain(a0).1);
                        assert(source@ =~= spec_drain(a0).0);
                    }
                }
                break;
            },
        }
    }
    (out, failed)
}

/// A predicate of the engine's filter language over the demonstration
/// rows: everything, rows with a given id, or rows whose value reaches a
/// bound.
#[derive(Clone, Copy, Debug, PartialEq, Eq, Structural)]
pub enum FilterExpr {
    All,
    IdEquals(i32),
    ValueAtLeast(i32),
}

/// What a filter admits of one row.
pub open spec fn spec_row_passes(f: FilterExpr, row: crate::SampleDataV) -> bool {
    match f {
        FilterExpr::All => true,
        FilterExpr::IdEquals(x) => row.id == x,
        FilterExpr::ValueAtLeast(x) => row.value >= x,
    }
}

impl FilterExpr {
    pub fn passes(&self, row: &SampleData) -> (b: bool)
        ensures
            b == spec_row_passes(*self, row@),
    {
        match self {
            FilterExpr::All => true,
            FilterExpr::IdEquals(x) => row.id == *x,
            FilterExpr::ValueAtLeast(x) => row.value >= *x,
        }
    }
}

/// Reading every sample row of the open dataset, batch by batch in scan
/// order: `NotOpenError` without a handle, `EngineReadError` where some
/// batch does not have the sample column shape.
pub open spec fn spec_read_all(m: ManagerV) -> Result<Seq<crate::SampleDataV>, Error> {
    match m.dataset {
        None => Err(Error::NotOpenError),
        Some(h) => if forall|i: int|
            0 <= i < h.batches.len() ==> crate::sample_typed(#[trigger] h.batches[i]) {
            Ok(crate::spec_samples_of_batches(h.batches))
        } else {
            Err(Error::EngineReadError)
        },
    }
}

/// The rows a filter keeps, in their original order.
pub open spec fn spec_filter_rows(rows: Seq<crate::SampleDataV>, f: FilterExpr) -> Seq<
    crate::SampleDataV,
>
    decreases rows.len(),
{
    if rows.len() == 0 {
        Seq::empty()
    } else {
        spec_filter_rows(rows.drop_last(), f) + if spec_row_passes(f, rows.last()) {
            seq![rows.last()]
        } else {
            Seq::empty()
        }
    }
}

/// Reading the sample rows a filter admits, in scan order.
pub open spec fn spec_read_filtered(m: ManagerV, f: FilterExpr) -> Result<
    Seq<crate::SampleDataV>,
    Error,
> {
    match spec_read_all(m) {
        Ok(rows) => Ok(spec_filter_rows(rows, f)),
        Err(e) => Err(e),
    }
}

/// Owns the dataset handle's lifecycle at one location and sequences
/// create, open, write, scan and drop against the engine's persisted
/// state, reloading the handle after every version change so that no
/// later read observes a superseded version.
#[derive(Debug)]
pub struct LanceTableManager {
    pub path: String,
    pub stored: Option<DatasetState>,
    pub dataset: Option<DatasetState>,
}

impl View for LanceTableManager {
    type V = ManagerV;

    open spec fn view(&self) -> ManagerV {
        ManagerV {
            path: self.path@,
            stored: match self.stored {
                Some(st) => Some(st@),
                None => None,
            },
            dataset: match self.dataset {
                Some(h) => Some(h@),
                None => None,
            },
        }
    }
}

impl LanceTableManager {
    pub open spec fn wf(&self) -> bool {
        self@.wf()
    }

    /// A manager for the dataset at `path`, holding nothing open yet.
    pub fn new(path: &str) -> (r: Self)
        ensures
            r.wf(),
            r@ == (ManagerV { path: path@, stored: None, dataset: None }),
    {
        LanceTableManager { path: String::from_str(path), stored: None, dataset: None }
    }

    /// Opens the dataset at the manager's location at its latest version;
    /// a no-op if a handle is already held.
    pub fn open_table(&mut self) -> (r: Result<(), Error>)
        requires
            old(self).wf(),
        ensures
            final(self).wf(),
            final(self)@ == spec_open(old(self)@).0,
            r == spec_open(old(self)@).1,
    {
        if self.dataset.is_some() {
            return Ok(());
        }
        let snap = match &self.stored {
            Some(st) => st.clone(),
            None => {
                return Err(Error::OpenError);
            },
        };
        self.dataset = Some(snap);
        proof {
            assert(final(self)@ =~= spec_open(old(self)@).0);
        }
        Ok(())
    }

    /// Creates a new, empty dataset with the given schema at the
    /// manager's location. Does not itself open a handle; a subsequent
    /// `open_table` is required before reads or appends.
    pub fn create_table(&mut self, schema: &Schema) -> (r: Result<(), Error>)
        requires
            old(self).wf(),
        ensures
            final(self).wf(),
            final(self)@ == spec_create(old(self)@, schema@).0,
            r == spec_create(old(self)@, schema@).1,
    {
        if self.stored.is_some() {
            return Err(Error::CreateError);
        }
        self.stored = Some(DatasetState { version: 1, schema: schema.clone(), batches: Vec::new() });
        proof {
            assert(batch_views(Seq::<RecordBatch>::empty()) =~= Seq::<BatchV>::empty());
            assert(final(self)@ =~= spec_create(old(self)@, schema@).0);
        }
        Ok(())
    }

    /// Reads every batch of the open dataset, in the dataset's own write
    /// order, materialized into memory.
    pub fn scan(&self) -> (r: Result<Vec<RecordBatch>, Error>)
        requires
            self.wf(),
        ensures
            r is Ok <==> spec_scan(self@) is Ok,
            r matches Ok(v) ==> spec_scan(self@) matches Ok(bs) && batch_views(v@) == bs
                && batches_conform(bs, spec_get_schema(self@)->Ok_0),
            r matches Err(e) ==> spec_scan(self@) matches Err(e2) && e == e2,
    {
        match &self.dataset {
            Some(h) => Ok(clone_batches(&h.batches)),
            None => Err(Error::NotOpenError),
        }
    }

    /// Packages the open dataset's full contents for the foreign side:
    /// an outbound stream carrying the dataset's schema and its batches
    /// in scan order.
    pub fn scan_stream(&self) -> (r: Result<OutboundStream, Error>)
        requires
            self.wf(),
        ensures
            r is Ok <==> self@.dataset is Some,
            r matches Ok(out) ==> out.wf() && (self@.dataset matches Some(h) && out@.schema
                == h.schema && out@.remaining == h.batches),
            r matches Err(e) ==> e == Error::NotOpenError,
    {
        match &self.dataset {
            Some(h) => {
                let batches = clone_batches(&h.batches);
                let schema = h.schema.clone();
                Ok(OutboundStream::new(schema, batches))
            },
            None => Err(Error::NotOpenError),
        }
    }

    /// Reads the open dataset's schema.
    pub fn get_table_schema(&self) -> (r: Result<Schema, Error>)
        requires
            self.wf(),
        ensures
            r is Ok <==> spec_get_schema(self@) is Ok,
            r matches Ok(s) ==> spec_get_schema(self@) matches Ok(sv) && s@ == sv,
            r matches Err(e) ==> spec_get_schema(self@) matches Err(e2) && e == e2,
    {
        match &self.dataset {
            Some(h) => Ok(h.schema.clone()),
            None => Err(Error::NotOpenError),
        }
    }

    /// Streams the source's batches, one at a time, into the open
    /// dataset's append path. Demands an open handle with a matching
    /// schema; on success the handle is reloaded at once to the version
    /// just committed, so no later read works against the superseded one.
    pub fn append_from_stream(&mut self, source: &mut InboundAdapter) -> (r: Result<(), Error>)
        requires
            old(self).wf(),
            old(source).wf(),
            old(self)@.version_headroom(),
        ensures
            final(self).wf(),
            final(source).wf(),
            final(self)@ == spec_append(old(self)@, old(source)@).0,
            final(source)@ == spec_append(old(self)@, old(source)@).1,
            r == spec_append(old(self)@, old(source)@).2,
    {
        let schema_ok: bool = match &self.dataset {
            Some(h) => h.schema.matches(source.schema()),
            None => {
                return Err(Error::NotOpenError);
            },
        };
        if !schema_ok {
            return Err(Error::SchemaMismatchError);
        }
        let (mut delivered, failed) = drain_source(source);
        if failed {
            return Err(Error::StreamProtocolError);
        }
        let (version, schema2, mut new_batches) = match &self.dataset {
            Some(h) => (h.version, h.schema.clone(), clone_batches(&h.batches)),
            None => {
                proof {
                    assert(false);
                }
                return Err(Error::NotOpenError);
            },
        };
        new_batches.append(&mut delivered);
        let st = DatasetState { version: version + 1, schema: schema2, batches: new_batches };
        let st2 = st.clone();
        proof {
            assert(batch_views(st.batches@) =~= old(self)@.dataset->Some_0.batches + spec_drain(
                old(source)@,
            ).1);
            assert(st@ =~= spec_append(old(self)@, old(source)@).0.stored->Some_0);
        }
        self.stored = Some(st);
        self.dataset = Some(st2);
        proof {
            assert(final(self)@ =~= spec_append(old(self)@, old(source)@).0);
        }
        Ok(())
    }

    /// Streams the source's batches into the engine's atomic overwrite
    /// path, replacing the dataset's contents whatever they were; no open
    /// handle is needed, and any held one is discarded first. On success
    /// a fresh handle is opened on the new version.
    pub fn overwrite_from_stream(&mut self, source: &mut InboundAdapter) -> (r: Result<(), Error>)
        requires
            old(self).wf(),
            old(source).wf(),
            old(self)@.version_headroom(),
        ensures
            final(self).wf(),
            final(source).wf(),
            final(self)@ == spec_overwrite(old(self)@, old(source)@).0,
            final(source)@ == spec_overwrite(old(self)@, old(source)@).1,
            r == spec_overwrite(old(self)@, old(source)@).2,
    {
        self.dataset = None;
        let (delivered, failed) = drain_source(source);
        if failed {
            proof {
                assert(final(self)@ =~= spec_overwrite(old(self)@, old(source)@).0);
            }
            return Err(Error::StreamProtocolError);
        }
        let version: u64 = match &self.stored {
            Some(st) => st.version + 1,
            None => 1,
        };
        let schema2 = source.schema().clone();
        let st = DatasetState { version, schema: schema2, batches: delivered };
        let st2 = st.clone();
        proof {
            assert(st@ =~= spec_overwrite(old(self)@, old(source)@).0.stored->Some_0);
        }
        self.stored = Some(st);
        self.dataset = Some(st2);
        proof {
            assert(final(self)@ =~= spec_overwrite(old(self)@, old(source)@).0);
        }
        Ok(())
    }

    /// One write from a stream source, dispatched on the caller's flag:
    /// overwrite or append.
    pub fn write_from_stream(&mut self, source: &mut InboundAdapter, overwrite: bool) -> (r:
        Result<(), Error>)
        requires
            old(self).wf(),
            old(source).wf(),
            old(self)@.version_headroom(),
        ensures
            final(self).wf(),
            final(source).wf(),
            ({
                let mode = if overwrite {
                    WriteMode::Overwrite
                } else {
                    WriteMode::Append
                };
                &&& final(self)@ == spec_write(old(self)@, old(source)@, mode).0
                &&& final(source)@ == spec_write(old(self)@, old(source)@, mode).1
                &&& r == spec_write(old(self)@, old(source)@, mode).2
            }),
    {
        if overwrite {
            self.overwrite_from_stream(source)
        } else {
            self.append_from_stream(source)
        }
    }

    /// Reads every sample row of the open dataset, batch by batch in the
    /// dataset's own scan order.
    pub fn read_all_data(&self) -> (r: Result<Vec<SampleData>, Error>)
        requires
            self.wf(),
        ensures
            r is Ok <==> spec_read_all(self@) is Ok,
            r matches Ok(v) ==> spec_read_all(self@) matches Ok(rows) && samples_view(v@) == rows,
            r matches Err(e) ==> spec_read_all(self@) matches Err(e2) && e == e2,
    {
        let h = match &self.dataset {
            Some(h) => h,
            None => {
                return Err(Error::NotOpenError);
            },
        };
        let ghost bs = batch_views(h.batches@);
        proof {
            assert(self@.dataset matches Some(hv) && hv.batches == bs && hv.wf());
        }
        let n = h.batches.len();
        let mut out: Vec<SampleData> = Vec::new();
        let mut i: usize = 0;
        while i < n
            invariant
                0 <= i <= n,
                n == h.batches@.len(),
                bs == batch_views(h.batches@),
                bs.len() == n,
                batches_conform(bs, h.schema@),
                self@.dataset matches Some(hv) && hv.batches == bs,
                forall|j: int| 0 <= j < i ==> crate::sample_typed(#[trigger] bs[j]),
                samples_view(out@) == crate::spec_samples_of_batches(bs.take(i as int)),
            decreases n - i,
        {
            proof {
                assert(bs[i as int] == h.batches@[i as int]@);
                assert(bs[i as int].wf());
            }
            match crate::record_batch_to_sample_data(&h.batches[i]) {
                Ok(mut rows) => {
                    proof {
                        assert(bs.take(i as int + 1).drop_last() =~= bs.take(i as int));
                        assert(bs.take(i as int + 1).last() == bs[i as int]);
                        assert(samples_view(out@ + rows@) =~= samples_view(out@) + samples_view(
                            rows@,
                        ));
                    }
                    out.append(&mut rows);
                },
                Err(e) => {
                    proof {
                        assert(!crate::sample_typed(bs[i as int]));
                    }
                    return Err(e);
                },
            }
            i += 1;
        }
        proof {
            assert(bs.take(n as int) =~= bs);
        }
        Ok(out)
    }

    /// Reads the sample rows the filter admits, in the dataset's own scan
    /// order.
    pub fn read_filtered_data(&self, filter: &FilterExpr) -> (r: Result<Vec<SampleData>, Error>)
        requires
            self.wf(),
        ensures
            r is Ok <==> spec_read_filtered(self@, *filter) is Ok,
            r matches Ok(v) ==> spec_read_filtered(self@, *filter) matches Ok(rows)
                && samples_view(v@) == rows,
            r matches Err(e) ==> spec_read_filtered(self@, *filter) matches Err(e2) && e == e2,
    {
        let rows = match self.read_all_data() {
            Ok(v) => v,
            Err(e) => {
                return Err(e);
            },
        };
        let ghost all = samples_view(rows@);
        let n = rows.len();
        let mut out: Vec<SampleData> = Vec::new();
        let mut i: usize = 0;
        while i < n
            invariant
                0 <= i <= n,
                n == rows@.len(),
                all == samples_view(rows@),
                all.len() == n,
                samples_view(out@) == spec_filter_rows(all.take(i as int), *filter),
            decreases n - i,
        {
            let ghost out_pre = out@;
            if filter.passes(&rows[i]) {
                out.push(rows[i].clone());
            }
            proof {
                assert(all.take(i as int + 1).drop_last() =~= all.take(i as int));
                assert(all.take(i as int + 1).last() == all[i as int]);
                assert(all[i as int] == rows@[i as int]@);
                if spec_row_passes(*filter, all[i as int]) {
                    assert(samples_view(out@) =~= samples_view(out_pre) + seq![all[i as int]]);
                } else {
                    assert(samples_view(out@) == samples_view(out_pre));
                }
            }
            i += 1;
        }
        proof {
            assert(all.take(n as int) =~= all);
        }
        Ok(out)
    }

    /// Removes the dataset at the manager's location and everything under
    /// it. Irrecoverable; any held handle is invalidated.
    pub fn drop_table(&mut self) -> (r: Result<(), Error>)
        requires
            old(self).wf(),
        ensures
            final(self).wf(),
            final(self)@ == spec_drop(old(self)@).0,
            r == spec_drop(old(self)@).1,
    {
        if self.stored.is_none() {
            return Err(Error::IoError);
        }
        self.stored = None;
        self.dataset = None;
        proof {
            assert(final(self)@ =~= spec_drop(old(self)@).0);
        }
        Ok(())
    }
}

} // verus!

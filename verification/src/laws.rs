use vstd::prelude::*;

use crate::batch::{rows_of, BatchV};
use crate::error::Error;
use crate::lance_operations::{
    spec_append, spec_create, spec_get_schema, spec_open, spec_overwrite, spec_scan, spec_write,
    ManagerV, WriteMode,
};
use crate::schema::FieldV;
use crate::stream::{spec_adapter_close, spec_adapter_next, AdapterV};

verus! {

/// Round-trip: a schema-conformant source appended to a freshly created,
/// empty, open dataset and then scanned on the reloaded handle comes back
/// exactly — the same batches, hence the same rows, in the source's
/// order, with no additions or omissions.
pub proof fn lemma_round_trip(m: ManagerV, a: AdapterV)
    requires
        m.wf(),
        m.dataset matches Some(h) && h.batches.len() == 0 && h.schema == a.schema,
        !a.done,
        !a.fails,
    ensures
        spec_append(m, a).2 is Ok,
        spec_scan(spec_append(m, a).0) == Ok::<Seq<BatchV>, Error>(a.remaining),
        rows_of(spec_scan(spec_append(m, a).0)->Ok_0) == rows_of(a.remaining),
{
    let h = m.dataset->Some_0;
    assert(h.batches + a.remaining =~= a.remaining);
}

/// Overwrite replaces: two overwrites in a row from clean sources leave
/// exactly the second source's batches visible to a scan — none of the
/// first's.
pub proof fn lemma_overwrite_replaces(m: ManagerV, a1: AdapterV, a2: AdapterV)
    requires
        !a1.done,
        !a1.fails,
        !a2.done,
        !a2.fails,
    ensures
        spec_overwrite(m, a1).2 is Ok,
        spec_overwrite(spec_overwrite(m, a1).0, a2).2 is Ok,
        spec_scan(spec_overwrite(spec_overwrite(m, a1).0, a2).0) == Ok::<Seq<BatchV>, Error>(
            a2.remaining,
        ),
{
}

/// Append accumulates: create, open, append one source, append another,
/// and a scan returns the first source's batches followed by the
/// second's — concatenation, source order preserved — and likewise for
/// the rows they carry.
pub proof fn lemma_append_accumulates(
    m: ManagerV,
    schema: Seq<FieldV>,
    a1: AdapterV,
    a2: AdapterV,
)
    requires
        m.wf(),
        m.stored is None,
        a1.schema == schema,
        a2.schema == schema,
        !a1.done,
        !a1.fails,
        !a2.done,
        !a2.fails,
    ensures
        ({
            let m1 = spec_create(m, schema).0;
            let m2 = spec_open(m1).0;
            let m3 = spec_append(m2, a1).0;
            let m4 = spec_append(m3, a2).0;
            &&& spec_create(m, schema).1 is Ok
            &&& spec_open(m1).1 is Ok
            &&& spec_append(m2, a1).2 is Ok
            &&& spec_append(m3, a2).2 is Ok
            &&& spec_scan(m4) == Ok::<Seq<BatchV>, Error>(a1.remaining + a2.remaining)
            &&& rows_of(spec_scan(m4)->Ok_0) == rows_of(a1.remaining) + rows_of(a2.remaining)
        }),
{
    let m1 = spec_create(m, schema).0;
    let m2 = spec_open(m1).0;
    let m3 = spec_append(m2, a1).0;
    let m4 = spec_append(m3, a2).0;
    assert((Seq::<BatchV>::empty() + a1.remaining) + a2.remaining =~= a1.remaining + a2.remaining);
    assert(m4.dataset->Some_0.batches == a1.remaining + a2.remaining);
    let f = |b: BatchV| b.rows();
    assert((a1.remaining + a2.remaining).map_values(f) =~= a1.remaining.map_values(f)
        + a2.remaining.map_values(f));
    vstd::seq_lib::lemma_flatten_concat(a1.remaining.map_values(f), a2.remaining.map_values(f));
    assert(rows_of(a1.remaining + a2.remaining) =~= rows_of(a1.remaining) + rows_of(a2.remaining));
}

/// Version freshness: a successful write, in either mode, leaves the
/// manager's handle open on exactly the state it just committed, at a
/// version strictly newer than what was persisted before — so the next
/// scan never observes a superseded version.
pub proof fn lemma_version_freshness(m: ManagerV, a: AdapterV, mode: WriteMode)
    requires
        m.wf(),
        m.version_headroom(),
    ensures
        spec_write(m, a, mode).2 is Ok ==> {
            let m2 = spec_write(m, a, mode).0;
            &&& m2.dataset is Some
            &&& m2.stored == m2.dataset
            &&& (m.stored matches Some(st) ==> m2.dataset->Some_0.version > st.version)
        },
{
}

/// Schema mismatch rejected: an append whose source schema differs from
/// the open dataset's schema fails with `SchemaMismatchError`, consumes
/// nothing from the source, and leaves the dataset untouched.
pub proof fn lemma_schema_mismatch_rejected(m: ManagerV, a: AdapterV)
    requires
        m.dataset matches Some(h) && h.schema != a.schema,
    ensures
        spec_append(m, a).2 == Err::<(), Error>(Error::SchemaMismatchError),
        spec_append(m, a).0 == m,
        spec_append(m, a).1 == a,
{
}

/// Abandoned inbound stream releases resources: closing an inbound
/// adapter — straight after construction or after one `next` — always
/// ends with the worker done and the foreign producer released.
pub proof fn lemma_abandoned_stream_releases(a: AdapterV)
    ensures
        spec_adapter_close(a).released,
        spec_adapter_close(a).done,
        spec_adapter_close(spec_adapter_next(a).0).released,
        spec_adapter_close(spec_adapter_next(a).0).done,
{
}

/// Empty dataset round-trip: create then open, with no writes, scans to
/// zero batches while reporting exactly the schema the dataset was
/// created with.
pub proof fn lemma_empty_dataset_round_trip(m: ManagerV, schema: Seq<FieldV>)
    requires
        m.wf(),
        m.stored is None,
    ensures
        ({
            let m1 = spec_create(m, schema).0;
            let m2 = spec_open(m1).0;
            &&& spec_create(m, schema).1 is Ok
            &&& spec_open(m1).1 is Ok
            &&& spec_scan(m2) == Ok::<Seq<BatchV>, Error>(Seq::<BatchV>::empty())
            &&& spec_get_schema(m2) == Ok::<Seq<FieldV>, Error>(schema)
        }),
{
}

} // verus!

use vstd::prelude::*;

use crate::batch::{BatchV, RecordBatch};
use crate::error::Error;
use crate::schema::{FieldV, Schema};

verus! {

/// Every batch is well formed and carries exactly the given schema.
pub open spec fn batches_conform(batches: Seq<BatchV>, schema: Seq<FieldV>) -> bool {
    forall|i: int|
        0 <= i < batches.len() ==> (#[trigger] batches[i]).wf() && batches[i].schema == schema
}

/// The request sent to the dedicated worker that owns a foreign stream:
/// "give me the next batch". It crosses the execution-context boundary so
/// that only the worker ever touches the foreign handle.
pub enum StreamCommand {
    Next,
}

/// The worker's reply to one [`StreamCommand::Next`]: a batch, or a
/// distinguishable mid-stream failure of the foreign producer. No reply
/// at all — the worker exiting and dropping its response channel — is the
/// end-of-stream signal.
pub enum StreamResponse {
    Batch(RecordBatch),
    Failed,
}

/// A pull-based, thread-affine foreign batch producer: a fixed schema, the
/// batches it will yield in order, possibly a mid-stream failure after
/// them, and an explicit release step that must run exactly once when the
/// producer is done with.
#[derive(Debug)]
pub struct ForeignStream {
    pub schema: Schema,
    pub batches: Vec<RecordBatch>,
    pub fails_at_end: bool,
    pub pos: usize,
    pub error_sent: bool,
    pub released: bool,
}

/// The mathematical image of a foreign producer: what it will still yield.
#[verifier::ext_equal]
pub struct FStreamV {
    pub schema: Seq<FieldV>,
    pub remaining: Seq<BatchV>,
    pub fails: bool,
    pub released: bool,
}

impl View for ForeignStream {
    type V = FStreamV;

    open spec fn view(&self) -> FStreamV {
        FStreamV {
            schema: self.schema@,
            remaining: crate::batch::batch_views(self.batches@).subrange(
                self.pos as int,
                self.batches@.len() as int,
            ),
            fails: self.fails_at_end && !self.error_sent,
            released: self.released,
        }
    }
}

impl ForeignStream {
    pub open spec fn wf(&self) -> bool {
        &&& self.pos <= self.batches@.len()
        &&& batches_conform(crate::batch::batch_views(self.batches@), self.schema@)
        &&& (self.error_sent ==> self.pos == self.batches@.len())
        &&& (self.error_sent ==> self.fails_at_end)
    }

    /// A fresh producer that will yield the given batches in order and, if
    /// asked to, report a failure after them.
    pub fn new(schema: Schema, batches: Vec<RecordBatch>, fails_at_end: bool) -> (r: ForeignStream)
        requires
            batches_conform(crate::batch::batch_views(batches@), schema@),
        ensures
            r.wf(),
            r@ == (FStreamV {
                schema: schema@,
                remaining: crate::batch::batch_views(batches@),
                fails: fails_at_end,
                released: false,
            }),
    {
        let r = ForeignStream { schema, batches, fails_at_end, pos: 0, error_sent: false, released: false };
        proof {
            assert(r@.remaining =~= crate::batch::batch_views(r.batches@));
            assert(r@ =~= (FStreamV {
                schema: r.schema@,
                remaining: crate::batch::batch_views(r.batches@),
                fails: fails_at_end,
                released: false,
            }));
        }
        r
    }

    /// Pulls the next item: a batch, then possibly one failure, then
    /// end-of-stream for ever after.
    pub fn next(&mut self) -> (r: Option<Result<RecordBatch, Error>>)
        requires
            old(self).wf(),
        ensures
            final(self).wf(),
            final(self)@.schema == old(self)@.schema,
            final(self)@.released == old(self)@.released,
            old(self)@.remaining.len() > 0 ==> {
                &&& r matches Some(Ok(b)) && b@ == old(self)@.remaining[0] && b.wf()
                    && b@.schema == old(self)@.schema
                &&& final(self)@.remaining == old(self)@.remaining.subrange(
                    1,
                    old(self)@.remaining.len() as int,
                )
                &&& final(self)@.fails == old(self)@.fails
            },
            old(self)@.remaining.len() == 0 && old(self)@.fails ==> {
                &&& r matches Some(Err(e)) && e == Error::StreamProtocolError
                &&& final(self)@.remaining.len() == 0
                &&& !final(self)@.fails
            },
            old(self)@.remaining.len() == 0 && !old(self)@.fails ==> r is None && *final(self)
                == *old(self),
    {
        if self.pos < self.batches.len() {
            let b = self.batches[self.pos].clone();
            self.pos = self.pos + 1;
            proof {
                assert(old(self)@.remaining[0] == self.batches@[old(self).pos as int]@);
                assert(final(self)@.remaining =~= old(self)@.remaining.subrange(
                    1,
                    old(self)@.remaining.len() as int,
                ));
            }
            Some(Ok(b))
        } else if self.fails_at_end && !self.error_sent {
            self.error_sent = true;
            Some(Err(Error::StreamProtocolError))
        } else {
            None
        }
    }

    /// The foreign destructor: releases whatever the foreign runtime holds
    /// for this producer. Called exactly once, by whoever owns the stream
    /// when it is done with it.
    pub fn release(&mut self)
        ensures
            final(self)@ == (FStreamV { released: true, ..old(self)@ }),
            final(self).wf() == old(self).wf(),
    {
        self.released = true;
    }
}

/// The dedicated worker that alone touches the foreign producer. It waits
/// for a command, pulls one item, and replies; when the producer ends or
/// the command channel closes it exits, releasing the producer.
#[derive(Debug)]
pub struct InboundWorker {
    pub reader: ForeignStream,
    pub done: bool,
}

impl InboundWorker {
    pub open spec fn wf(&self) -> bool {
        &&& self.reader.wf()
        &&& (self.done ==> self.reader@.released)
    }

    /// One step of the worker loop: a command received, or `None` when
    /// the command channel has closed because the adapter was dropped.
    /// At most one reply comes back; no reply means the worker exited —
    /// releasing the producer — which the consumer reads as
    /// end-of-stream.
    pub fn handle(&mut self, cmd: Option<StreamCommand>) -> (resp: Option<StreamResponse>)
        requires
            old(self).wf(),
        ensures
            final(self).wf(),
            final(self).reader@.schema == old(self).reader@.schema,
            old(self).done ==> resp is None && *final(self) == *old(self),
            !old(self).done && cmd is None ==> {
                &&& resp is None
                &&& final(self).done && final(self).reader@.released
                &&& final(self).reader@.remaining == old(self).reader@.remaining
                &&& final(self).reader@.fails == old(self).reader@.fails
            },
            !old(self).done && cmd is Some ==> {
                &&& (old(self).reader@.remaining.len() > 0 ==> {
                    &&& resp matches Some(StreamResponse::Batch(b)) && b@ == old(
                        self,
                    ).reader@.remaining[0] && b.wf() && b@.schema == old(self).reader@.schema
                    &&& final(self).reader@.remaining == old(self).reader@.remaining.subrange(
                        1,
                        old(self).reader@.remaining.len() as int,
                    )
                    &&& final(self).reader@.fails == old(self).reader@.fails
                    &&& final(self).done == old(self).done
                    &&& final(self).reader@.released == old(self).reader@.released
                })
                &&& (old(self).reader@.remaining.len() == 0 && old(self).reader@.fails ==> {
                    &&& resp matches Some(StreamResponse::Failed)
                    &&& final(self).reader@.remaining.len() == 0
                    &&& !final(self).reader@.fails
                    &&& final(self).done == old(self).done
                    &&& final(self).reader@.released == old(self).reader@.released
                })
                &&& (old(self).reader@.remaining.len() == 0 && !old(self).reader@.fails ==> {
                    &&& resp is None
                    &&& final(self).done && final(self).reader@.released
                    &&& final(self).reader@.remaining.len() == 0
                    &&& !final(self).reader@.fails
                })
            },
    {
        if self.done {
            return None;
        }
        match cmd {
            None => {
                // channel closed: exit, dropping (releasing) the reader
                self.reader.release();
                self.done = true;
                None
            },
            Some(StreamCommand::Next) => {
                match self.reader.next() {
                    Some(Ok(b)) => Some(StreamResponse::Batch(b)),
                    Some(Err(_)) => Some(StreamResponse::Failed),
                    None => {
                        // end-of-stream: exit without replying
                        self.reader.release();
                        self.done = true;
                        None
                    },
                }
            },
        }
    }
}

/// The mathematical image of an inbound adapter: the schema it captured
/// eagerly, what its producer will still yield, and whether its worker has
/// exited and released the producer.
#[verifier::ext_equal]
pub struct AdapterV {
    pub schema: Seq<FieldV>,
    pub remaining: Seq<BatchV>,
    pub fails: bool,
    pub done: bool,
    pub released: bool,
}

/// One `next` call on an inbound adapter: the command it sends and the
/// reply it maps back, as a transition on the adapter's image.
pub open spec fn spec_adapter_next(a: AdapterV) -> (AdapterV, Option<Result<BatchV, Error>>) {
    if a.done {
        (a, None)
    } else if a.remaining.len() > 0 {
        (
            AdapterV { remaining: a.remaining.subrange(1, a.remaining.len() as int), ..a },
            Some(Ok(a.remaining[0])),
        )
    } else if a.fails {
        (AdapterV { fails: false, ..a }, Some(Err(Error::StreamProtocolError)))
    } else {
        (AdapterV { done: true, released: true, ..a }, None)
    }
}

/// Dropping an inbound adapter: the command channel closes, the worker
/// observes the closure, exits, and releases the foreign producer.
pub open spec fn spec_adapter_close(a: AdapterV) -> AdapterV {
    AdapterV { done: true, released: true, ..a }
}

/// Draining an inbound adapter to exhaustion, as the write path does: the
/// adapter's state afterwards, the batches it yielded in order, and
/// whether it ended in the producer's failure rather than a clean
/// end-of-stream.
pub open spec fn spec_drain(a: AdapterV) -> (AdapterV, Seq<BatchV>, bool) {
    if a.done {
        (a, Seq::empty(), false)
    } else if a.fails {
        (AdapterV { remaining: Seq::empty(), fails: false, ..a }, a.remaining, true)
    } else {
        (AdapterV { remaining: Seq::empty(), done: true, released: true, ..a }, a.remaining, false)
    }
}

/// Whether an executable stream item is the image of a spec-level one.
pub open spec fn item_matches(
    r: Option<Result<RecordBatch, Error>>,
    s: Option<Result<BatchV, Error>>,
) -> bool {
    match (r, s) {
        (None, None) => true,
        (Some(Ok(b)), Some(Ok(bv))) => b@ == bv,
        (Some(Err(e)), Some(Err(ev))) => e == ev,
        _ => false,
    }
}

/// The inbound direction of the columnar stream adapter: it owns the
/// dedicated worker, holds the schema it captured eagerly at construction
/// (before any `next`), and turns each `next` call into exactly one
/// command and one reply. A closed worker reads as end-of-stream, never as
/// an error.
#[derive(Debug)]
pub struct InboundAdapter {
    pub schema: Schema,
    pub worker: InboundWorker,
}

impl View for InboundAdapter {
    type V = AdapterV;

    open spec fn view(&self) -> AdapterV {
        AdapterV {
            schema: self.schema@,
            remaining: self.worker.reader@.remaining,
            fails: self.worker.reader@.fails,
            done: self.worker.done,
            released: self.worker.reader@.released,
        }
    }
}

impl InboundAdapter {
    pub open spec fn wf(&self) -> bool {
        &&& self.worker.wf()
        &&& self.schema@ == self.worker.reader@.schema
    }

    /// Wraps a foreign producer. The schema is fetched once, eagerly,
    /// before any `next` call, because some foreign producers demand that
    /// order; the producer itself moves to the dedicated worker.
    pub fn new(reader: ForeignStream) -> (a: InboundAdapter)
        requires
            reader.wf(),
            !reader@.released,
        ensures
            a.wf(),
            a@ == (AdapterV {
                schema: reader@.schema,
                remaining: reader@.remaining,
                fails: reader@.fails,
                done: false,
                released: false,
            }),
    {
        let schema = reader.schema.clone();
        let a = InboundAdapter { schema, worker: InboundWorker { reader, done: false } };
        proof {
            assert(a@ =~= (AdapterV {
                schema: a.worker.reader@.schema,
                remaining: a.worker.reader@.remaining,
                fails: a.worker.reader@.fails,
                done: false,
                released: false,
            }));
        }
        a
    }

    /// The schema captured at construction.
    pub fn schema(&self) -> (s: &Schema)
        ensures
            s@ == self@.schema,
    {
        &self.schema
    }

    /// Requests one batch: sends exactly one command and maps exactly one
    /// reply. After the worker has exited this returns end-of-stream.
    pub fn next(&mut self) -> (r: Option<Result<RecordBatch, Error>>)
        requires
            old(self).wf(),
        ensures
            final(self).wf(),
            final(self)@ == spec_adapter_next(old(self)@).0,
            item_matches(r, spec_adapter_next(old(self)@).1),
            r matches Some(Ok(b)) ==> b.wf() && b@.schema == old(self)@.schema,
    {
        if self.worker.done {
            return None;
        }
        // send exactly one command and map exactly one reply; a missing
        // reply means the worker exited and reads as end-of-stream
        let resp = self.worker.handle(Some(StreamCommand::Next));
        let r = match resp {
            Some(StreamResponse::Batch(b)) => Some(Ok(b)),
            Some(StreamResponse::Failed) => Some(Err(Error::StreamProtocolError)),
            None => None,
        };
        proof {
            assert(final(self)@ =~= spec_adapter_next(old(self)@).0);
        }
        r
    }

    /// Abandons the stream: models dropping the adapter. The worker
    /// observes the closed command channel, exits, and the foreign
    /// producer is released even if the stream was never drained.
    pub fn close(&mut self)
        requires
            old(self).wf(),
        ensures
            final(self).wf(),
            final(self)@ == spec_adapter_close(old(self)@),
    {
        // the dropped command channel is what the worker observes
        let _ = self.worker.handle(None);
        proof {
            assert(final(self)@ =~= spec_adapter_close(old(self)@));
        }
    }
}

/// The mathematical image of an outbound stream: its schema and the
/// batches it will still yield.
#[verifier::ext_equal]
pub struct OutboundV {
    pub schema: Seq<FieldV>,
    pub remaining: Seq<BatchV>,
}

/// The outbound direction of the columnar stream adapter: a finite,
/// already-materialized sequence of batches exposed to the foreign side as
/// a pull stream — a schema accessor and a `next` that yields the batches
/// in order and then signals end-of-stream. Built from validated batches,
/// it can never produce a mid-stream error.
#[derive(Debug)]
pub struct OutboundStream {
    pub schema: Schema,
    pub batches: Vec<RecordBatch>,
    pub pos: usize,
}

impl View for OutboundStream {
    type V = OutboundV;

    open spec fn view(&self) -> OutboundV {
        OutboundV {
            schema: self.schema@,
            remaining: crate::batch::batch_views(self.batches@).subrange(
                self.pos as int,
                self.batches@.len() as int,
            ),
        }
    }
}

impl OutboundStream {
    pub open spec fn wf(&self) -> bool {
        &&& self.pos <= self.batches@.len()
        &&& batches_conform(crate::batch::batch_views(self.batches@), self.schema@)
    }

    pub fn new(schema: Schema, batches: Vec<RecordBatch>) -> (r: OutboundStream)
        requires
            batches_conform(crate::batch::batch_views(batches@), schema@),
        ensures
            r.wf(),
            r@ == (OutboundV { schema: schema@, remaining: crate::batch::batch_views(batches@) }),
    {
        let r = OutboundStream { schema, batches, pos: 0 };
        proof {
            assert(r@.remaining =~= crate::batch::batch_views(r.batches@));
            assert(r@ =~= (OutboundV {
                schema: r.schema@,
                remaining: crate::batch::batch_views(r.batches@),
            }));
        }
        r
    }

    pub fn schema(&self) -> (s: &Schema)
        ensures
            s@ == self@.schema,
    {
        &self.schema
    }

    /// Yields the batches in order, then end-of-stream for ever after.
    pub fn next(&mut self) -> (r: Option<RecordBatch>)
        requires
            old(self).wf(),
        ensures
            final(self).wf(),
            final(self)@.schema == old(self)@.schema,
            old(self)@.remaining.len() > 0 ==> {
                &&& r matches Some(b) && b@ == old(self)@.remaining[0] && b.wf()
                    && b@.schema == old(self)@.schema
                &&& final(self)@.remaining == old(self)@.remaining.subrange(
                    1,
                    old(self)@.remaining.len() as int,
                )
            },
            old(self)@.remaining.len() == 0 ==> r is None && *final(self) == *old(self),
    {
        if self.pos < self.batches.len() {
            let b = self.batches[self.pos].clone();
            self.pos = self.pos + 1;
            proof {
                assert(old(self)@.remaining[0] == self.batches@[old(self).pos as int]@);
                assert(final(self)@.remaining =~= old(self)@.remaining.subrange(
                    1,
                    old(self)@.remaining.len() as int,
                ));
            }
            Some(b)
        } else {
            None
        }
    }
}

} // verus!

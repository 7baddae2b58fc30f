//! Per-endpoint transfer queues with credit-based flow control.
//!
//! A sender queues device-to-host writes, a receiver queues host-to-device
//! reads; each owns one reactor sized to the endpoint's queue length.
//! Submission is fire-and-forget: the error of an operation is only
//! observed when completions are later drained by a readiness, flush or
//! fetch call, and no error is ever discarded silently by those calls.

use vstd::prelude::*;

use crate::errors::GadgetError;
use crate::reactor::{
    Buffer, BufferView, CompletedView, IoEvent, OpHandle, Reactor, spec_drain,
};

verus! {

/// Index of the first completion that carries an error, or the queue's
/// length when every completion succeeded.
pub open spec fn spec_first_err_idx(done: Seq<CompletedView>) -> int
    decreases done.len(),
{
    if done.len() == 0 {
        0
    } else if done[0].result is Err {
        0
    } else {
        1 + spec_first_err_idx(done.drop_first())
    }
}

/// The error of the completion at the first error index.
pub open spec fn spec_first_err(done: Seq<CompletedView>) -> GadgetError
    recommends
        spec_first_err_idx(done) < done.len(),
{
    done[spec_first_err_idx(done)].result->Err_0
}

/// When the first `j` completions succeed and the next one fails, the
/// first error index is `j`.
proof fn lemma_first_err_at(done: Seq<CompletedView>, j: int)
    requires
        0 <= j < done.len(),
        forall|i: int| 0 <= i < j ==> (#[trigger] done[i]).result is Ok,
        done[j].result is Err,
    ensures
        spec_first_err_idx(done) == j,
    decreases j,
{
    if j > 0 {
        lemma_first_err_at(done.drop_first(), j - 1);
    }
}

/// When every completion succeeds, the first error index is the length.
proof fn lemma_first_err_none(done: Seq<CompletedView>)
    requires
        forall|i: int| 0 <= i < done.len() ==> (#[trigger] done[i]).result is Ok,
    ensures
        spec_first_err_idx(done) == done.len(),
    decreases done.len(),
{
    if done.len() > 0 {
        lemma_first_err_none(done.drop_first());
    }
}

/// Drains every waiting completion of `aio`, stopping at and returning
/// the first error encountered; completions after the error stay queued.
fn drain_completions(aio: &mut Reactor) -> (r: Result<(), GadgetError>)
    requires
        old(aio).inv(),
    ensures
        final(aio).inv(),
        final(aio).spec_queue_length() == old(aio).spec_queue_length(),
        final(aio).spec_next_id() == old(aio).spec_next_id(),
        final(aio).spec_active() == old(aio).spec_active(),
        final(aio).spec_pending() == old(aio).spec_pending(),
        final(aio).spec_submitted() == old(aio).spec_submitted(),
        ({
            let k = spec_first_err_idx(old(aio).spec_done());
            match r {
                Ok(()) => {
                    &&& k == old(aio).spec_done().len()
                    &&& final(aio).spec_done().len() == 0
                    &&& final(aio).spec_space() == old(aio).spec_space() + old(
                        aio,
                    ).spec_done().len()
                },
                Err(e) => {
                    &&& k < old(aio).spec_done().len()
                    &&& e == spec_first_err(old(aio).spec_done())
                    &&& final(aio).spec_done() == old(aio).spec_done().skip(k + 1)
                    &&& final(aio).spec_space() == old(aio).spec_space() + k + 1
                },
            }
        }),
{
    let ghost orig = old(aio).spec_done();
    proof {
        crate::reactor::lemma_inv_bounds(old(aio));
    }
    let mut processed: usize = 0;
    loop
        invariant
            aio.inv(),
            aio.spec_queue_length() == old(aio).spec_queue_length(),
            aio.spec_next_id() == old(aio).spec_next_id(),
            aio.spec_active() == old(aio).spec_active(),
            aio.spec_pending() == old(aio).spec_pending(),
            aio.spec_submitted() == old(aio).spec_submitted(),
            orig == old(aio).spec_done(),
            orig.len() <= u32::MAX,
            processed <= orig.len(),
            aio.spec_done() == orig.skip(processed as int),
            aio.spec_space() == old(aio).spec_space() + processed,
            forall|i: int| 0 <= i < processed ==> (#[trigger] orig[i]).result is Ok,
        ensures
            aio.spec_done().len() == 0,
            forall|i: int| 0 <= i < orig.len() ==> (#[trigger] orig[i]).result is Ok,
        decreases aio.spec_done().len(),
    {
        let comp = match aio.try_completed() {
            Some(comp) => comp,
            None => {
                proof {
                    assert(orig.skip(processed as int) =~= Seq::<CompletedView>::empty());
                    assert(processed == orig.len());
                }
                break ;
            },
        };
        proof {
            assert(comp@ == orig[processed as int]);
            assert(orig.skip(processed as int).drop_first() =~= orig.skip(processed as int + 1));
        }
        match comp.result() {
            Ok(_) => {},
            Err(e) => {
                proof {
                    lemma_first_err_at(orig, processed as int);
                }
                return Err(e);
            },
        }
        processed = processed + 1;
    }
    proof {
        lemma_first_err_none(orig);
        assert(aio.spec_space() == old(aio).spec_space() + orig.len());
    }
    Ok(())
}

/// Drains every waiting completion of `aio`, discarding results and
/// errors alike.
fn discard_completions(aio: &mut Reactor)
    requires
        old(aio).inv(),
    ensures
        final(aio).inv(),
        final(aio).spec_queue_length() == old(aio).spec_queue_length(),
        final(aio).spec_active() == old(aio).spec_active(),
        final(aio).spec_pending() == old(aio).spec_pending(),
        final(aio).spec_submitted() == old(aio).spec_submitted(),
        final(aio).spec_done().len() == 0,
        final(aio).spec_space() == old(aio).spec_space() + old(aio).spec_done().len(),
{
    let ghost orig = old(aio).spec_done();
    proof {
        crate::reactor::lemma_inv_bounds(old(aio));
    }
    let mut processed: usize = 0;
    loop
        invariant
            aio.inv(),
            aio.spec_queue_length() == old(aio).spec_queue_length(),
            aio.spec_next_id() == old(aio).spec_next_id(),
            aio.spec_active() == old(aio).spec_active(),
            aio.spec_pending() == old(aio).spec_pending(),
            aio.spec_submitted() == old(aio).spec_submitted(),
            orig == old(aio).spec_done(),
            orig.len() <= u32::MAX,
            processed <= orig.len(),
            aio.spec_done() == orig.skip(processed as int),
            aio.spec_space() == old(aio).spec_space() + processed,
        ensures
            aio.spec_done().len() == 0,
            processed == orig.len(),
        decreases aio.spec_done().len(),
    {
        match aio.try_completed() {
            Some(_) => {
                proof {
                    assert(orig.skip(processed as int).drop_first() =~= orig.skip(
                        processed as int + 1,
                    ));
                }
                processed = processed + 1;
            },
            None => {
                proof {
                    assert(orig.skip(processed as int) =~= Seq::<CompletedView>::empty());
                    assert(processed == orig.len());
                }
                break ;
            },
        }
    }
}

/// USB endpoint from device to host: a queue of write operations.
pub struct EndpointSender {
    aio: Reactor,
}

impl EndpointSender {
    /// The underlying reactor.
    pub closed spec fn spec_aio(&self) -> Reactor {
        self.aio
    }

    /// Structural invariant of the underlying reactor.
    pub open spec fn inv(&self) -> bool {
        self.spec_aio().inv()
    }

    /// Creates a sender with the given queue length.
    pub fn new(queue_len: u32) -> (r: EndpointSender)
        ensures
            r.inv(),
            r.spec_aio().spec_queue_length() == queue_len,
            r.spec_aio().spec_space() == queue_len,
            r.spec_aio().spec_done() == Seq::<CompletedView>::empty(),
            r.spec_aio().spec_active() == Seq::<crate::reactor::ActiveView>::empty(),
            r.spec_aio().spec_submitted() == Seq::<u64>::empty(),
    {
        EndpointSender { aio: Reactor::new(queue_len) }
    }

    /// Whether send space is available.
    ///
    /// Send space only becomes available when completions are drained by
    /// [`try_ready`](Self::try_ready) or [`flush`](Self::flush).
    pub fn is_ready(&self) -> (r: bool)
        ensures
            r == (self.spec_aio().spec_space() != 0),
    {
        !self.aio.is_full()
    }

    /// Whether the send queue is empty: nothing in flight and nothing
    /// waiting to be drained.
    pub fn is_empty(&self) -> (r: bool)
        ensures
            r == (self.spec_aio().spec_space() == self.spec_aio().spec_queue_length()),
    {
        self.aio.is_empty()
    }

    /// Drains finished sends and reports the first error among them.
    ///
    /// Completions queued after the first error stay queued and are
    /// reported by a later call; no error is discarded.
    pub fn try_ready(&mut self) -> (r: Result<(), GadgetError>)
        requires
            old(self).inv(),
        ensures
            final(self).inv(),
            final(self).spec_aio().spec_queue_length() == old(self).spec_aio().spec_queue_length(),
            final(self).spec_aio().spec_next_id() == old(self).spec_aio().spec_next_id(),
            final(self).spec_aio().spec_active() == old(self).spec_aio().spec_active(),
            final(self).spec_aio().spec_submitted() == old(self).spec_aio().spec_submitted(),
            ({
                let done = old(self).spec_aio().spec_done();
                let k = spec_first_err_idx(done);
                match r {
                    Ok(()) => {
                        &&& k == done.len()
                        &&& final(self).spec_aio().spec_done().len() == 0
                        &&& final(self).spec_aio().spec_space() == old(self).spec_aio().spec_space()
                            + done.len()
                    },
                    Err(e) => {
                        &&& k < done.len()
                        &&& e == spec_first_err(done)
                        &&& final(self).spec_aio().spec_done() == done.skip(k + 1)
                        &&& final(self).spec_aio().spec_space() == old(self).spec_aio().spec_space()
                            + k + 1
                    },
                }
            }),
    {
        drain_completions(&mut self.aio)
    }

    /// Enqueues data for sending without waiting for send space.
    ///
    /// Drains finished sends first, reporting their first error (the
    /// data is then not submitted); then fails with
    /// [`GadgetError::QueueFull`] exactly when no send space is
    /// available after the drain; otherwise registers one write of the
    /// data, growing the in-flight queue by one.
    pub fn try_send(&mut self, data: Vec<u8>) -> (r: Result<OpHandle, GadgetError>)
        requires
            old(self).inv(),
            old(self).spec_aio().spec_next_id() < u64::MAX,
        ensures
            final(self).inv(),
            final(self).spec_aio().spec_queue_length() == old(self).spec_aio().spec_queue_length(),
            final(self).spec_aio().spec_pending() == old(self).spec_aio().spec_pending(),
            ({
                let done = old(self).spec_aio().spec_done();
                let k = spec_first_err_idx(done);
                let drained_space = old(self).spec_aio().spec_space() + done.len();
                if k < done.len() {
                    &&& r == Err::<OpHandle, GadgetError>(spec_first_err(done))
                    &&& final(self).spec_aio().spec_done() == done.skip(k + 1)
                    &&& final(self).spec_aio().spec_space() == old(self).spec_aio().spec_space()
                        + k + 1
                    &&& final(self).spec_aio().spec_active() == old(self).spec_aio().spec_active()
                    &&& final(self).spec_aio().spec_next_id() == old(self).spec_aio().spec_next_id()
                } else if drained_space == 0 {
                    &&& r == Err::<OpHandle, GadgetError>(GadgetError::QueueFull)
                    &&& final(self).spec_aio().spec_done().len() == 0
                    &&& final(self).spec_aio().spec_space() == drained_space
                    &&& final(self).spec_aio().spec_active() == old(self).spec_aio().spec_active()
                    &&& final(self).spec_aio().spec_next_id() == old(self).spec_aio().spec_next_id()
                } else {
                    &&& r is Ok
                    &&& r->Ok_0.spec_id() == old(self).spec_aio().spec_next_id()
                    &&& final(self).spec_aio().spec_next_id() == old(self).spec_aio().spec_next_id()
                        + 1
                    &&& final(self).spec_aio().spec_done().len() == 0
                    &&& final(self).spec_aio().spec_space() == drained_space - 1
                    &&& final(self).spec_aio().spec_active() == old(
                        self,
                    ).spec_aio().spec_active().push(
                        crate::reactor::ActiveView {
                            id: r->Ok_0.spec_id(),
                            buf: BufferView::Write(data@),
                        },
                    )
                }
            }),
    {
        match drain_completions(&mut self.aio) {
            Ok(()) => {},
            Err(e) => {
                return Err(e);
            },
        }
        let handle = match self.aio.submit(Buffer::Write(data)) {
            Ok(handle) => handle,
            Err(e) => {
                return Err(e);
            },
        };
        Ok(handle)
    }

    /// Drains every finished send, reporting the first error; the queue
    /// is empty afterwards exactly when no send is still in flight.
    pub fn flush(&mut self) -> (r: Result<(), GadgetError>)
        requires
            old(self).inv(),
        ensures
            final(self).inv(),
            final(self).spec_aio().spec_queue_length() == old(self).spec_aio().spec_queue_length(),
            final(self).spec_aio().spec_active() == old(self).spec_aio().spec_active(),
            r is Ok && old(self).spec_aio().spec_active().len() == 0 ==> final(self).spec_aio()
                .spec_space() == final(self).spec_aio().spec_queue_length(),
            ({
                let done = old(self).spec_aio().spec_done();
                let k = spec_first_err_idx(done);
                match r {
                    Ok(()) => k == done.len() && final(self).spec_aio().spec_done().len() == 0,
                    Err(e) => k < done.len() && e == spec_first_err(done),
                }
            }),
    {
        proof {
            crate::reactor::lemma_inv_bounds(&self.aio);
        }
        let r = drain_completions(&mut self.aio);
        r
    }

    /// Feeds one kernel completion event for this endpoint's queue.
    pub fn deliver(&mut self, event: IoEvent)
        requires
            old(self).inv(),
            event.res < 0 ==> event.res >= -2147483647,
        ensures
            final(self).inv(),
            final(self).spec_aio().spec_queue_length() == old(self).spec_aio().spec_queue_length(),
            final(self).spec_aio().spec_space() == old(self).spec_aio().spec_space(),
            final(self).spec_aio().spec_submitted() == old(self).spec_aio().spec_submitted(),
            (
                final(self).spec_aio().spec_active(),
                final(self).spec_aio().spec_pending(),
                final(self).spec_aio().spec_done(),
            ) == spec_drain(
                old(self).spec_aio().spec_active(),
                old(self).spec_aio().spec_pending().push(event),
                old(self).spec_aio().spec_done(),
            ),
    {
        self.aio.deliver(event)
    }

    /// Completes an operation with the result of its kernel
    /// cancellation, bypassing the event queue; an event for an unknown
    /// operation changes nothing.
    pub fn cancel_deliver(&mut self, event: IoEvent)
        requires
            old(self).inv(),
            event.res < 0 ==> event.res >= -2147483647,
        ensures
            final(self).inv(),
            final(self).spec_aio().spec_queue_length() == old(self).spec_aio().spec_queue_length(),
            final(self).spec_aio().spec_space() == old(self).spec_aio().spec_space(),
            final(self).spec_aio().spec_pending() == old(self).spec_aio().spec_pending(),
            final(self).spec_aio().spec_next_id() == old(self).spec_aio().spec_next_id(),
            ({
                let idx = crate::reactor::spec_find(old(self).spec_aio().spec_active(), event.data);
                if idx == -1 {
                    &&& final(self).spec_aio().spec_active() == old(self).spec_aio().spec_active()
                    &&& final(self).spec_aio().spec_done() == old(self).spec_aio().spec_done()
                } else {
                    &&& final(self).spec_aio().spec_active() == old(
                        self,
                    ).spec_aio().spec_active().remove(idx)
                    &&& final(self).spec_aio().spec_done() == old(self).spec_aio().spec_done().push(
                        crate::reactor::spec_complete(
                            old(self).spec_aio().spec_active()[idx],
                            event,
                        ),
                    )
                }
            }),
    {
        self.aio.cancel_deliver(event)
    }

    /// Discards every waiting completion, errors included: used when
    /// abandoning pending transfers after cancelling them.
    pub fn discard_completions(&mut self)
        requires
            old(self).inv(),
        ensures
            final(self).inv(),
            final(self).spec_aio().spec_queue_length() == old(self).spec_aio().spec_queue_length(),
            final(self).spec_aio().spec_active() == old(self).spec_aio().spec_active(),
            final(self).spec_aio().spec_done().len() == 0,
            final(self).spec_aio().spec_space() == old(self).spec_aio().spec_space() + old(
                self,
            ).spec_aio().spec_done().len(),
    {
        discard_completions(&mut self.aio)
    }
}

/// Whether every tracked operation and successful completion of the
/// reactor carries a read buffer.
pub open spec fn spec_all_reads(aio: Reactor) -> bool {
    &&& forall|i: int|
        0 <= i < aio.spec_active().len() ==> (#[trigger] aio.spec_active()[i]).buf is Read
    &&& forall|i: int|
        0 <= i < aio.spec_done().len() && (#[trigger] aio.spec_done()[i]).result is Ok
            ==> aio.spec_done()[i].result->Ok_0 is Read
}

/// A drain round preserves read-only tracking: completing read
/// operations yields read buffers.
proof fn lemma_drain_preserves_reads(
    active: Seq<crate::reactor::ActiveView>,
    pending: Seq<IoEvent>,
    done: Seq<CompletedView>,
)
    requires
        forall|i: int| 0 <= i < active.len() ==> (#[trigger] active[i]).buf is Read,
        forall|i: int|
            0 <= i < done.len() && (#[trigger] done[i]).result is Ok ==> done[i].result->Ok_0
                is Read,
    ensures
        ({
            let (a, p, d) = spec_drain(active, pending, done);
            &&& forall|i: int| 0 <= i < a.len() ==> (#[trigger] a[i]).buf is Read
            &&& forall|i: int|
                0 <= i < d.len() && (#[trigger] d[i]).result is Ok ==> d[i].result->Ok_0 is Read
        }),
    decreases pending.len(),
{
    if pending.len() > 0 {
        let idx = crate::reactor::spec_find(active, pending[0].data);
        if idx != -1 {
            crate::reactor::lemma_find_spec(active, pending[0].data);
            let next_active = active.remove(idx);
            let next_done = done.push(crate::reactor::spec_complete(active[idx], pending[0]));
            assert(forall|i: int|
                0 <= i < next_active.len() ==> (#[trigger] next_active[i]).buf is Read);
            assert(forall|i: int|
                0 <= i < next_done.len() && (#[trigger] next_done[i]).result is Ok
                    ==> next_done[i].result->Ok_0 is Read);
            lemma_drain_preserves_reads(next_active, pending.drop_first(), next_done);
        }
    }
}

/// USB endpoint from host to device: a queue of read operations.
pub struct EndpointReceiver {
    aio: Reactor,
}

impl EndpointReceiver {
    /// The underlying reactor.
    pub closed spec fn spec_aio(&self) -> Reactor {
        self.aio
    }

    /// Structural invariant: the reactor is well formed and tracks read
    /// operations only.
    pub open spec fn inv(&self) -> bool {
        &&& self.spec_aio().inv()
        &&& spec_all_reads(self.spec_aio())
    }

    /// Creates a receiver with the given queue length.
    pub fn new(queue_len: u32) -> (r: EndpointReceiver)
        ensures
            r.inv(),
            r.spec_aio().spec_queue_length() == queue_len,
            r.spec_aio().spec_space() == queue_len,
            r.spec_aio().spec_done() == Seq::<CompletedView>::empty(),
            r.spec_aio().spec_active() == Seq::<crate::reactor::ActiveView>::empty(),
            r.spec_aio().spec_submitted() == Seq::<u64>::empty(),
    {
        EndpointReceiver { aio: Reactor::new(queue_len) }
    }

    /// Whether receive queue space is available.
    pub fn is_ready(&self) -> (r: bool)
        ensures
            r == (self.spec_aio().spec_space() != 0),
    {
        !self.aio.is_full()
    }

    /// Whether no buffers are enqueued for receiving data.
    pub fn is_empty(&self) -> (r: bool)
        ensures
            r == (self.spec_aio().spec_space() == self.spec_aio().spec_queue_length()),
    {
        self.aio.is_empty()
    }

    /// Enqueues a buffer for receiving without waiting for queue space.
    ///
    /// Fails with [`GadgetError::QueueFull`] exactly when no receive
    /// queue space is available.
    pub fn try_recv(&mut self, buf: Vec<u8>) -> (r: Result<OpHandle, GadgetError>)
        requires
            old(self).inv(),
            old(self).spec_aio().spec_next_id() < u64::MAX,
        ensures
            final(self).inv(),
            final(self).spec_aio().spec_queue_length() == old(self).spec_aio().spec_queue_length(),
            final(self).spec_aio().spec_done() == old(self).spec_aio().spec_done(),
            match r {
                Ok(h) => {
                    &&& old(self).spec_aio().spec_space() > 0
                    &&& final(self).spec_aio().spec_space() == old(self).spec_aio().spec_space()
                        - 1
                    &&& final(self).spec_aio().spec_active() == old(
                        self,
                    ).spec_aio().spec_active().push(
                        crate::reactor::ActiveView {
                            id: h.spec_id(),
                            buf: BufferView::Read(buf@),
                        },
                    )
                },
                Err(e) => {
                    &&& old(self).spec_aio().spec_space() == 0
                    &&& e == GadgetError::QueueFull
                    &&& final(self).spec_aio().spec_active() == old(self).spec_aio().spec_active()
                    &&& final(self).spec_aio().spec_space() == old(self).spec_aio().spec_space()
                },
            },
    {
        let handle = match self.aio.submit(Buffer::Read(buf)) {
            Ok(handle) => handle,
            Err(e) => {
                return Err(e);
            },
        };
        Ok(handle)
    }

    /// Retrieves the next finished receive, if one is waiting.
    ///
    /// Returns the received data of the oldest finished receive, nothing
    /// when no completion is waiting, and the operation's error when it
    /// failed.
    pub fn try_fetch(&mut self) -> (r: Result<Option<Vec<u8>>, GadgetError>)
        requires
            old(self).inv(),
        ensures
            final(self).inv(),
            final(self).spec_aio().spec_queue_length() == old(self).spec_aio().spec_queue_length(),
            final(self).spec_aio().spec_active() == old(self).spec_aio().spec_active(),
            ({
                let done = old(self).spec_aio().spec_done();
                match r {
                    Ok(data_opt) => match data_opt {
                        Some(data) => {
                            &&& done.len() > 0
                            &&& done[0].result == Ok::<BufferView, GadgetError>(
                                BufferView::Read(data@),
                            )
                            &&& final(self).spec_aio().spec_done() == done.drop_first()
                            &&& final(self).spec_aio().spec_space() == old(
                                self,
                            ).spec_aio().spec_space() + 1
                        },
                        None => {
                            &&& done.len() == 0
                            &&& final(self).spec_aio().spec_done() == done
                            &&& final(self).spec_aio().spec_space() == old(
                                self,
                            ).spec_aio().spec_space()
                        },
                    },
                    Err(e) => {
                        &&& done.len() > 0
                        &&& done[0].result == Err::<BufferView, GadgetError>(e)
                        &&& final(self).spec_aio().spec_done() == done.drop_first()
                        &&& final(self).spec_aio().spec_space() == old(self).spec_aio().spec_space()
                            + 1
                    },
                }
            }),
    {
        let comp = match self.aio.try_completed() {
            Some(comp) => comp,
            None => {
                return Ok(None);
            },
        };
        let buf = match comp.result() {
            Ok(buf) => buf,
            Err(e) => {
                return Err(e);
            },
        };
        match buf.into_read() {
            Ok(data) => Ok(Some(data)),
            Err(_) => {
                proof {
                    assert(false);
                }
                Ok(None)
            },
        }
    }

    /// Feeds one kernel completion event for this endpoint's queue.
    pub fn deliver(&mut self, event: IoEvent)
        requires
            old(self).inv(),
            event.res < 0 ==> event.res >= -2147483647,
        ensures
            final(self).inv(),
            final(self).spec_aio().spec_queue_length() == old(self).spec_aio().spec_queue_length(),
            final(self).spec_aio().spec_space() == old(self).spec_aio().spec_space(),
            (
                final(self).spec_aio().spec_active(),
                final(self).spec_aio().spec_pending(),
                final(self).spec_aio().spec_done(),
            ) == spec_drain(
                old(self).spec_aio().spec_active(),
                old(self).spec_aio().spec_pending().push(event),
                old(self).spec_aio().spec_done(),
            ),
    {
        proof {
            lemma_drain_preserves_reads(
                self.spec_aio().spec_active(),
                self.spec_aio().spec_pending().push(event),
                self.spec_aio().spec_done(),
            );
        }
        self.aio.deliver(event)
    }

    /// Completes an operation with the result of its kernel
    /// cancellation, bypassing the event queue; an event for an unknown
    /// operation changes nothing.
    pub fn cancel_deliver(&mut self, event: IoEvent)
        requires
            old(self).inv(),
            event.res < 0 ==> event.res >= -2147483647,
        ensures
            final(self).inv(),
            final(self).spec_aio().spec_queue_length() == old(self).spec_aio().spec_queue_length(),
            final(self).spec_aio().spec_space() == old(self).spec_aio().spec_space(),
            final(self).spec_aio().spec_pending() == old(self).spec_aio().spec_pending(),
            final(self).spec_aio().spec_next_id() == old(self).spec_aio().spec_next_id(),
            ({
                let idx = crate::reactor::spec_find(old(self).spec_aio().spec_active(), event.data);
                if idx == -1 {
                    &&& final(self).spec_aio().spec_active() == old(self).spec_aio().spec_active()
                    &&& final(self).spec_aio().spec_done() == old(self).spec_aio().spec_done()
                } else {
                    &&& final(self).spec_aio().spec_active() == old(
                        self,
                    ).spec_aio().spec_active().remove(idx)
                    &&& final(self).spec_aio().spec_done() == old(self).spec_aio().spec_done().push(
                        crate::reactor::spec_complete(
                            old(self).spec_aio().spec_active()[idx],
                            event,
                        ),
                    )
                }
            }),
    {
        proof {
            crate::reactor::lemma_find_spec(self.spec_aio().spec_active(), event.data);
        }
        self.aio.cancel_deliver(event)
    }

    /// Discards every waiting completion, errors included: used when
    /// abandoning pending transfers after cancelling them.
    pub fn discard_completions(&mut self)
        requires
            old(self).inv(),
        ensures
            final(self).inv(),
            final(self).spec_aio().spec_queue_length() == old(self).spec_aio().spec_queue_length(),
            final(self).spec_aio().spec_active() == old(self).spec_aio().spec_active(),
            final(self).spec_aio().spec_done().len() == 0,
            final(self).spec_aio().spec_space() == old(self).spec_aio().spec_space() + old(
                self,
            ).spec_aio().spec_done().len(),
    {
        discard_completions(&mut self.aio)
    }
}

} // verus!

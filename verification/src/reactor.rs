//! Fixed-capacity queue of in-flight asynchronous I/O operations.
//!
//! The reactor is the decision core of the asynchronous I/O driver: it
//! accounts for queue space, tracks every registered operation until the
//! kernel reports its completion or cancellation, and converts kernel
//! completion events into delivered results in completion order.  The
//! surrounding program performs the actual kernel submissions and feeds
//! the kernel's completion events back in through [`Reactor::deliver`].
//!
//! An operation is registered before the kernel is told about it, so a
//! completion event can never overtake its registration.  Events whose
//! operation is not yet tracked park in a first-in-first-out queue and
//! block later events until their operation appears, preserving the
//! kernel's completion order.

use vstd::prelude::*;

use crate::errors::GadgetError;

verus! {

broadcast use vstd::seq_lib::group_seq_lib_default, vstd::seq_lib::group_to_multiset_ensures,
    vstd::seq::group_seq_axioms, vstd::multiset::group_multiset_axioms;

/// Data buffer for an asynchronous I/O operation.
#[derive(Debug, Clone, PartialEq, Eq)]
pub enum Buffer {
    /// Source data for a write operation; read-only once submitted.
    Write(Vec<u8>),
    /// Destination storage for a read operation; after completion it holds
    /// the received data.
    Read(Vec<u8>),
}

/// Ghost mirror of a [`Buffer`]: direction and contents.
pub enum BufferView {
    /// Source data of a write operation.
    Write(Seq<u8>),
    /// Storage of a read operation.
    Read(Seq<u8>),
}

/// The ghost mirror of a buffer.
pub open spec fn spec_buffer_view(b: Buffer) -> BufferView {
    match b {
        Buffer::Write(data) => BufferView::Write(data@),
        Buffer::Read(data) => BufferView::Read(data@),
    }
}

/// Buffer is not a read buffer.
#[derive(Debug, Clone, Copy, PartialEq, Eq, Structural)]
pub struct NotAReadBuffer;

impl Buffer {
    /// Length of the buffered data.
    pub fn size(&self) -> (r: usize)
        ensures
            r == spec_buffer_len(spec_buffer_view(*self)),
    {
        match self {
            Buffer::Write(data) => data.len(),
            Buffer::Read(data) => data.len(),
        }
    }

    /// The received data of a read buffer; fails on a write buffer.
    pub fn into_read(self) -> (r: Result<Vec<u8>, NotAReadBuffer>)
        ensures
            match r {
                Ok(data) => spec_buffer_view(self) == BufferView::Read(data@),
                Err(e) => spec_buffer_view(self) is Write && e == NotAReadBuffer,
            },
    {
        match self {
            Buffer::Write(_) => Err(NotAReadBuffer),
            Buffer::Read(data) => Ok(data),
        }
    }

    /// The buffered bytes, whatever the direction.
    pub fn into_bytes(self) -> (r: Vec<u8>)
        ensures
            spec_buffer_data(spec_buffer_view(self)) == r@,
    {
        match self {
            Buffer::Write(data) => data,
            Buffer::Read(data) => data,
        }
    }
}

/// Contents of a buffer view.
pub open spec fn spec_buffer_data(b: BufferView) -> Seq<u8> {
    match b {
        BufferView::Write(data) => data,
        BufferView::Read(data) => data,
    }
}

/// Length of a buffer view.
pub open spec fn spec_buffer_len(b: BufferView) -> int {
    spec_buffer_data(b).len() as int
}

/// Kernel completion event: the submitter's token, the control block
/// address, and the two result codes.
#[derive(Debug, Clone, Copy, PartialEq, Eq, Structural)]
pub struct IoEvent {
    /// Token of the operation this event belongs to.
    pub data: u64,
    /// Control block the event came from.
    pub obj: u64,
    /// Result code: bytes transferred, or a negated OS error code.
    pub res: i64,
    /// Secondary result code.
    pub res2: i64,
}

/// Handle of a registered operation.
#[derive(Debug, Clone, Copy, PartialEq, Eq, Structural)]
pub struct OpHandle(u64);

impl OpHandle {
    /// Operation id.
    pub closed spec fn spec_id(&self) -> u64 {
        self.0
    }

    /// Operation id.
    pub fn id(&self) -> (r: u64)
        ensures
            r == self.spec_id(),
    {
        self.0
    }
}

/// One in-flight operation: its id and its buffer.
struct ActiveOp {
    id: u64,
    buf: Buffer,
}

/// Ghost mirror of an in-flight operation.
pub struct ActiveView {
    /// Operation id.
    pub id: u64,
    /// Buffer direction and contents.
    pub buf: BufferView,
}

/// Completed operation, as delivered through the completion queue.
#[derive(Debug)]
pub struct CompletedOp {
    id: u64,
    res: i64,
    res2: i64,
    result: Result<Buffer, GadgetError>,
}

/// Ghost mirror of a completed operation.
pub struct CompletedView {
    /// Operation id.
    pub id: u64,
    /// Raw result code.
    pub res: i64,
    /// Raw secondary result code.
    pub res2: i64,
    /// Converted result: the buffer on success, the OS error otherwise.
    pub result: Result<BufferView, GadgetError>,
}

impl CompletedOp {
    /// Ghost mirror of this completed operation.
    pub closed spec fn view(&self) -> CompletedView {
        CompletedView {
            id: self.id,
            res: self.res,
            res2: self.res2,
            result: match self.result {
                Ok(buf) => Ok(spec_buffer_view(buf)),
                Err(e) => Err(e),
            },
        }
    }

    /// Operation id.
    pub fn id(&self) -> (r: u64)
        ensures
            r == self@.id,
    {
        self.id
    }

    /// Result code.
    pub fn res(&self) -> (r: i64)
        ensures
            r == self@.res,
    {
        self.res
    }

    /// Secondary result code.
    pub fn res2(&self) -> (r: i64)
        ensures
            r == self@.res2,
    {
        self.res2
    }

    /// Retrieve the result.
    pub fn result(self) -> (r: Result<Buffer, GadgetError>)
        ensures
            match r {
                Ok(buf) => self@.result == Ok::<BufferView, GadgetError>(spec_buffer_view(buf)),
                Err(e) => self@.result == Err::<BufferView, GadgetError>(e),
            },
    {
        self.result
    }
}

/// The completed record for a tracked operation and its completion event:
/// a non-negative result code converts the operation's buffer (a read
/// buffer is cut to the number of bytes the kernel reports), a negative
/// one carries the negated OS error code.
pub open spec fn spec_complete(op: ActiveView, ev: IoEvent) -> CompletedView {
    CompletedView {
        id: ev.data,
        res: ev.res,
        res2: ev.res2,
        result: if ev.res >= 0 {
            Ok(
                match op.buf {
                    BufferView::Write(data) => BufferView::Write(data),
                    BufferView::Read(data) => BufferView::Read(
                        if ev.res < data.len() {
                            data.take(ev.res as int)
                        } else {
                            data
                        },
                    ),
                },
            )
        } else {
            Err(GadgetError::Os((-ev.res) as i32))
        },
    }
}

/// Index of the operation with the given id, or -1.
pub open spec fn spec_find(active: Seq<ActiveView>, id: u64) -> int
    decreases active.len(),
{
    if active.len() == 0 {
        -1
    } else if active[0].id == id {
        0
    } else {
        let rest = spec_find(active.drop_first(), id);
        if rest == -1 {
            -1
        } else {
            rest + 1
        }
    }
}

/// The found index is in range and no earlier operation has the id.
pub proof fn lemma_find_spec(active: Seq<ActiveView>, id: u64)
    ensures
        spec_find(active, id) == -1 ==> forall|i: int|
            0 <= i < active.len() ==> (#[trigger] active[i]).id != id,
        spec_find(active, id) != -1 ==> {
            &&& 0 <= spec_find(active, id) < active.len()
            &&& active[spec_find(active, id)].id == id
            &&& forall|i: int| 0 <= i < spec_find(active, id) ==> (#[trigger] active[i]).id != id
        },
    decreases active.len(),
{
    if active.len() > 0 && active[0].id != id {
        lemma_find_spec(active.drop_first(), id);
        assert forall|i: int| 1 <= i < active.len() implies active.drop_first()[i - 1]
            == active[i] by {}
    }
}

/// One drain round: while the front of the event queue belongs to a
/// tracked operation, complete that operation and deliver it; stop at the
/// first event whose operation is unknown.
pub open spec fn spec_drain(
    active: Seq<ActiveView>,
    pending: Seq<IoEvent>,
    done: Seq<CompletedView>,
) -> (Seq<ActiveView>, Seq<IoEvent>, Seq<CompletedView>)
    decreases pending.len(),
{
    if pending.len() == 0 {
        (active, pending, done)
    } else {
        let idx = spec_find(active, pending[0].data);
        if idx == -1 {
            (active, pending, done)
        } else {
            spec_drain(
                active.remove(idx),
                pending.drop_first(),
                done.push(spec_complete(active[idx], pending[0])),
            )
        }
    }
}

/// Whether every negative result code of the parked events stays within
/// the range an OS error code can take.
pub open spec fn spec_events_bounded(evs: Seq<IoEvent>) -> bool {
    forall|i: int|
        0 <= i < evs.len() && (#[trigger] evs[i]).res < 0 ==> evs[i].res >= -2147483647
}

/// Ghost mirror of a list of in-flight operations.
pub open spec fn spec_ops_view(s: Seq<ActiveOp>) -> Seq<ActiveView> {
    s.map_values(|op: ActiveOp| ActiveView { id: op.spec_id(), buf: op.spec_buf_view() })
}

impl ActiveOp {
    /// Operation id.
    pub closed spec fn spec_id(&self) -> u64 {
        self.id
    }

    /// Ghost mirror of the operation's buffer.
    pub closed spec fn spec_buf_view(&self) -> BufferView {
        spec_buffer_view(self.buf)
    }
}

/// Index of the operation with the given id, or none.
fn find_op(active: &Vec<ActiveOp>, id: u64) -> (r: Option<usize>)
    ensures
        match r {
            Some(idx) => spec_find(spec_ops_view(active@), id) == idx as int,
            None => spec_find(spec_ops_view(active@), id) == -1,
        },
{
    let ghost view = spec_ops_view(active@);
    for i in 0..active.len()
        invariant
            view == spec_ops_view(active@),
            forall|j: int| 0 <= j < i ==> (#[trigger] view[j]).id != id,
    {
        if active[i].id == id {
            proof {
                lemma_find_first(view, id, i as int);
            }
            return Some(i);
        }
    }
    proof {
        lemma_find_none(view, id);
    }
    None
}

/// When an index holds the id and no earlier one does, the search finds
/// that index.
pub proof fn lemma_find_first(active: Seq<ActiveView>, id: u64, k: int)
    requires
        0 <= k < active.len(),
        active[k].id == id,
        forall|j: int| 0 <= j < k ==> (#[trigger] active[j]).id != id,
    ensures
        spec_find(active, id) == k,
    decreases active.len(),
{
    if k > 0 {
        lemma_find_first(active.drop_first(), id, k - 1);
    }
}

/// When no index holds the id, the search finds nothing.
pub proof fn lemma_find_none(active: Seq<ActiveView>, id: u64)
    requires
        forall|j: int| 0 <= j < active.len() ==> (#[trigger] active[j]).id != id,
    ensures
        spec_find(active, id) == -1,
    decreases active.len(),
{
    if active.len() > 0 {
        lemma_find_none(active.drop_first(), id);
    }
}

/// Builds the completed record for a tracked operation and its event.
fn complete_op(op: ActiveOp, ev: IoEvent) -> (c: CompletedOp)
    requires
        ev.res < 0 ==> ev.res >= -2147483647,
    ensures
        c@ == spec_complete(ActiveView { id: op.spec_id(), buf: op.spec_buf_view() }, ev),
{
    let result: Result<Buffer, GadgetError> = if ev.res >= 0 {
        let res_len: u64 = ev.res as u64;
        match op.buf {
            Buffer::Write(data) => Ok(Buffer::Write(data)),
            Buffer::Read(data) => {
                let mut data = data;
                if res_len < data.len() as u64 {
                    data.truncate(res_len as usize);
                }
                Ok(Buffer::Read(data))
            },
        }
    } else {
        Err(GadgetError::Os((-ev.res) as i32))
    };
    CompletedOp { id: ev.data, res: ev.res, res2: ev.res2, result }
}

/// The reactor: queue-space accounting, the table of in-flight
/// operations, the parked completion events and the completion queue.
pub struct Reactor {
    queue_length: u32,
    space: u32,
    next_id: u64,
    active: Vec<ActiveOp>,
    pending: Vec<IoEvent>,
    done: Vec<CompletedOp>,
    submitted: Ghost<Seq<u64>>,
    retired: Ghost<Seq<u64>>,
}

impl Reactor {
    /// Capacity the reactor was created with.
    pub closed spec fn spec_queue_length(&self) -> int {
        self.queue_length as int
    }

    /// Remaining queue space.
    pub closed spec fn spec_space(&self) -> int {
        self.space as int
    }

    /// The id the next registered operation will get.
    pub closed spec fn spec_next_id(&self) -> u64 {
        self.next_id
    }

    /// The tracked in-flight operations, in registration order.
    pub closed spec fn spec_active(&self) -> Seq<ActiveView> {
        spec_ops_view(self.active@)
    }

    /// Ids of the tracked in-flight operations.
    pub open spec fn spec_active_ids(&self) -> Seq<u64> {
        self.spec_active().map_values(|op: ActiveView| op.id)
    }

    /// Completion events parked because their operation is not tracked.
    pub closed spec fn spec_pending(&self) -> Seq<IoEvent> {
        self.pending@
    }

    /// The completion queue, in delivery order.
    pub closed spec fn spec_done(&self) -> Seq<CompletedView> {
        self.done@.map_values(|op: CompletedOp| op@)
    }

    /// Ids of the completions waiting in the completion queue.
    pub open spec fn spec_done_ids(&self) -> Seq<u64> {
        self.spec_done().map_values(|op: CompletedView| op.id)
    }

    /// Ids of every operation ever accepted for submission.
    pub closed spec fn spec_submitted(&self) -> Seq<u64> {
        self.submitted@
    }

    /// Ids already retrieved from the completion queue.
    pub closed spec fn spec_retired(&self) -> Seq<u64> {
        self.retired@
    }

    /// Structural invariant: space accounting matches the tracked
    /// operations, ids never repeat, and every accepted operation is in
    /// exactly one of the three places — in flight, in the completion
    /// queue, or retrieved.
    pub closed spec fn inv(&self) -> bool {
        &&& self.spec_space() + self.spec_active().len() + self.spec_done().len()
            == self.spec_queue_length()
        &&& forall|i: int, j: int|
            0 <= i < j < self.spec_submitted().len() ==> self.spec_submitted()[i]
                != self.spec_submitted()[j]
        &&& forall|i: int|
            0 <= i < self.spec_submitted().len() ==> (#[trigger] self.spec_submitted()[i])
                < self.spec_next_id()
        &&& self.spec_submitted().to_multiset() == self.spec_active_ids().to_multiset().add(
            self.spec_done_ids().to_multiset(),
        ).add(self.spec_retired().to_multiset())
        &&& spec_events_bounded(self.spec_pending())
    }

    /// Creates a reactor of the given capacity with no operations.
    pub fn new(queue_length: u32) -> (r: Reactor)
        ensures
            r.inv(),
            r.spec_queue_length() == queue_length,
            r.spec_space() == queue_length,
            r.spec_active() == Seq::<ActiveView>::empty(),
            r.spec_pending() == Seq::<IoEvent>::empty(),
            r.spec_done() == Seq::<CompletedView>::empty(),
            r.spec_submitted() == Seq::<u64>::empty(),
            r.spec_retired() == Seq::<u64>::empty(),
    {
        let r = Reactor {
            queue_length,
            space: queue_length,
            next_id: 0,
            active: Vec::new(),
            pending: Vec::new(),
            done: Vec::new(),
            submitted: Ghost(Seq::empty()),
            retired: Ghost(Seq::empty()),
        };
        proof {
            assert(r.spec_active() =~= Seq::<ActiveView>::empty());
            assert(r.spec_done() =~= Seq::<CompletedView>::empty());
            assert(r.spec_active_ids() =~= Seq::<u64>::empty());
            assert(r.spec_done_ids() =~= Seq::<u64>::empty());
            assert(r.spec_submitted().to_multiset() =~= r.spec_active_ids().to_multiset().add(
                r.spec_done_ids().to_multiset(),
            ).add(r.spec_retired().to_multiset()));
        }
        r
    }

    /// Returns whether the queue of operations is full.
    pub fn is_full(&self) -> (r: bool)
        ensures
            r == (self.spec_space() == 0),
    {
        self.space == 0
    }

    /// Returns whether the queue of operations is empty: no operation is
    /// in flight or waiting to be retrieved.
    pub fn is_empty(&self) -> (r: bool)
        ensures
            r == (self.spec_space() == self.spec_queue_length()),
    {
        self.space == self.queue_length
    }

    /// Registers an operation, taking one unit of queue space.
    ///
    /// Fails with [`GadgetError::QueueFull`] exactly when no space is
    /// left; the reactor is then unchanged.  The operation is tracked
    /// from this point on, before the kernel is told about it, so its
    /// completion event can never arrive untracked.
    pub fn submit(&mut self, buf: Buffer) -> (r: Result<OpHandle, GadgetError>)
        requires
            old(self).inv(),
            old(self).spec_next_id() < u64::MAX,
        ensures
            final(self).inv(),
            final(self).spec_queue_length() == old(self).spec_queue_length(),
            final(self).spec_pending() == old(self).spec_pending(),
            final(self).spec_done() == old(self).spec_done(),
            final(self).spec_retired() == old(self).spec_retired(),
            match r {
                Ok(h) => {
                    &&& old(self).spec_space() > 0
                    &&& h.spec_id() == old(self).spec_next_id()
                    &&& final(self).spec_space() == old(self).spec_space() - 1
                    &&& final(self).spec_next_id() == old(self).spec_next_id() + 1
                    &&& final(self).spec_active() == old(self).spec_active().push(
                        ActiveView { id: h.spec_id(), buf: spec_buffer_view(buf) },
                    )
                    &&& final(self).spec_submitted() == old(self).spec_submitted().push(
                        h.spec_id(),
                    )
                },
                Err(e) => {
                    &&& old(self).spec_space() == 0
                    &&& e == GadgetError::QueueFull
                    &&& final(self).spec_space() == old(self).spec_space()
                    &&& final(self).spec_active() == old(self).spec_active()
                    &&& final(self).spec_submitted() == old(self).spec_submitted()
                    &&& final(self).spec_next_id() == old(self).spec_next_id()
                },
            },
    {
        if self.space == 0 {
            return Err(GadgetError::QueueFull);
        }
        let id = self.next_id;
        self.next_id = self.next_id + 1;
        let ghost op_view = ActiveView { id, buf: spec_buffer_view(buf) };
        self.active.push(ActiveOp { id, buf });
        self.space = self.space - 1;
        proof {
            self.submitted@ = self.submitted@.push(id);
            assert(self.spec_active() =~= old(self).spec_active().push(op_view));
            assert(self.spec_active_ids() =~= old(self).spec_active_ids().push(id));
            assert(self.spec_submitted().to_multiset() =~= self.spec_active_ids().to_multiset().add(
                self.spec_done_ids().to_multiset(),
            ).add(self.spec_retired().to_multiset()));
        }
        Ok(OpHandle(id))
    }

    /// Forgets an operation whose kernel submission was rejected,
    /// giving its queue space back.
    ///
    /// The operation never ran, so it will not appear in the completion
    /// queue.
    pub fn submit_failed(&mut self, handle: OpHandle)
        requires
            old(self).inv(),
            old(self).spec_active_ids().contains(handle.spec_id()),
        ensures
            final(self).inv(),
            final(self).spec_queue_length() == old(self).spec_queue_length(),
            final(self).spec_next_id() == old(self).spec_next_id(),
            final(self).spec_pending() == old(self).spec_pending(),
            final(self).spec_done() == old(self).spec_done(),
            final(self).spec_retired() == old(self).spec_retired(),
            final(self).spec_space() == old(self).spec_space() + 1,
            final(self).spec_active() == old(self).spec_active().remove(
                spec_find(old(self).spec_active(), handle.spec_id()),
            ),
            final(self).spec_submitted().to_multiset() == old(
                self,
            ).spec_submitted().to_multiset().remove(handle.spec_id()),
            !final(self).spec_submitted().contains(handle.spec_id()),
    {
        proof {
            let ids = old(self).spec_active_ids();
            let k = choose|k: int| 0 <= k < ids.len() && ids[k] == handle.spec_id();
            lemma_find_first_exists(old(self).spec_active(), handle.spec_id());
        }
        let idx = match find_op(&self.active, handle.id()) {
            Some(idx) => idx,
            None => {
                proof {
                    assert(false);
                }
                return ;
            },
        };
        let ghost fidx = spec_find(old(self).spec_active(), handle.spec_id());
        proof {
            lemma_find_spec(old(self).spec_active(), handle.spec_id());
        }
        let _ = self.active.remove(idx);
        self.space = self.space + 1;
        proof {
            let id = handle.spec_id();
            assert(old(self).spec_active_ids().to_multiset().count(id) > 0);
            assert(old(self).spec_submitted().to_multiset().count(id) >= old(
                self,
            ).spec_active_ids().to_multiset().count(id));
            assert(self.submitted@.to_multiset().count(id) > 0);
            let ghost sidx = self.submitted@.index_of(handle.spec_id());
            assert(self.submitted@.contains(handle.spec_id()));
            self.submitted@ = self.submitted@.remove(sidx);
            assert(self.spec_active() =~= old(self).spec_active().remove(fidx));
            assert(self.spec_active_ids() =~= old(self).spec_active_ids().remove(fidx));
            lemma_unique_remove_not_contains(old(self).spec_submitted(), sidx);
            assert(self.spec_submitted().to_multiset() =~= self.spec_active_ids().to_multiset().add(
                self.spec_done_ids().to_multiset(),
            ).add(self.spec_retired().to_multiset()));
        }
    }

    /// Feeds one kernel completion event to the reactor.
    ///
    /// The event parks at the back of the event queue; then, while the
    /// front of the queue belongs to a tracked operation, that operation
    /// is completed and delivered in order.  Queue space is not released
    /// until the completion is retrieved.
    pub fn deliver(&mut self, event: IoEvent)
        requires
            old(self).inv(),
            event.res < 0 ==> event.res >= -2147483647,
        ensures
            final(self).inv(),
            final(self).spec_queue_length() == old(self).spec_queue_length(),
            final(self).spec_next_id() == old(self).spec_next_id(),
            final(self).spec_space() == old(self).spec_space(),
            final(self).spec_submitted() == old(self).spec_submitted(),
            final(self).spec_retired() == old(self).spec_retired(),
            (final(self).spec_active(), final(self).spec_pending(), final(self).spec_done())
                == spec_drain(
                old(self).spec_active(),
                old(self).spec_pending().push(event),
                old(self).spec_done(),
            ),
    {
        self.pending.push(event);
        proof {
            assert(self.spec_pending() =~= old(self).spec_pending().push(event));
        }
        let ghost target = spec_drain(
            old(self).spec_active(),
            old(self).spec_pending().push(event),
            old(self).spec_done(),
        );
        loop
            invariant
                self.inv(),
                self.spec_queue_length() == old(self).spec_queue_length(),
                self.spec_next_id() == old(self).spec_next_id(),
                self.spec_space() == old(self).spec_space(),
                self.spec_submitted() == old(self).spec_submitted(),
                self.spec_retired() == old(self).spec_retired(),
                spec_drain(self.spec_active(), self.spec_pending(), self.spec_done()) == target,
            ensures
                self.spec_pending().len() == 0 || spec_find(
                    self.spec_active(),
                    self.spec_pending()[0].data,
                ) == -1,
            decreases self.spec_pending().len(),
        {
            if self.pending.len() == 0 {
                break ;
            }
            let ev = self.pending[0];
            proof {
                assert(ev == self.spec_pending()[0]);
            }
            let idx = match find_op(&self.active, ev.data) {
                Some(idx) => idx,
                None => {
                    break ;
                },
            };
            proof {
                lemma_find_spec(self.spec_active(), ev.data);
            }
            let ghost pre = *self;
            let _ = self.pending.remove(0);
            let op = self.active.remove(idx);
            let comp = complete_op(op, ev);
            self.done.push(comp);
            proof {
                assert(self.spec_pending() =~= pre.spec_pending().drop_first());
                assert(self.spec_active() =~= pre.spec_active().remove(idx as int));
                assert(self.spec_done() =~= pre.spec_done().push(
                    spec_complete(pre.spec_active()[idx as int], ev),
                ));
                assert(self.spec_active_ids() =~= pre.spec_active_ids().remove(idx as int));
                assert(self.spec_done_ids() =~= pre.spec_done_ids().push(ev.data));
                assert(pre.spec_active_ids()[idx as int] == ev.data);
                assert(pre.spec_active_ids().to_multiset().contains(ev.data));
                assert(self.spec_submitted().to_multiset() =~= self.spec_active_ids().to_multiset()
                    .add(self.spec_done_ids().to_multiset()).add(self.spec_retired().to_multiset()));
            }
        }
        proof {
            assert((self.spec_active(), self.spec_pending(), self.spec_done()) == spec_drain(
                self.spec_active(),
                self.spec_pending(),
                self.spec_done(),
            ));
        }
    }

    /// Completes a tracked operation with the result of its kernel
    /// cancellation, bypassing the event queue; an event for an unknown
    /// operation leaves the reactor unchanged.
    ///
    /// A cancel request may race a natural completion: the kernel
    /// decides, and whichever result it supplies is what the completion
    /// queue carries.
    pub fn cancel_deliver(&mut self, event: IoEvent)
        requires
            old(self).inv(),
            event.res < 0 ==> event.res >= -2147483647,
        ensures
            final(self).inv(),
            final(self).spec_queue_length() == old(self).spec_queue_length(),
            final(self).spec_next_id() == old(self).spec_next_id(),
            final(self).spec_space() == old(self).spec_space(),
            final(self).spec_pending() == old(self).spec_pending(),
            final(self).spec_submitted() == old(self).spec_submitted(),
            final(self).spec_retired() == old(self).spec_retired(),
            ({
                let idx = spec_find(old(self).spec_active(), event.data);
                if idx == -1 {
                    &&& final(self).spec_active() == old(self).spec_active()
                    &&& final(self).spec_done() == old(self).spec_done()
                } else {
                    &&& final(self).spec_active() == old(self).spec_active().remove(idx)
                    &&& final(self).spec_done() == old(self).spec_done().push(
                        spec_complete(old(self).spec_active()[idx], event),
                    )
                }
            }),
    {
        let idx = match find_op(&self.active, event.data) {
            Some(idx) => idx,
            None => {
                return ;
            },
        };
        proof {
            lemma_find_spec(old(self).spec_active(), event.data);
        }
        let op = self.active.remove(idx);
        let comp = complete_op(op, event);
        self.done.push(comp);
        proof {
            assert(self.spec_active() =~= old(self).spec_active().remove(idx as int));
            assert(self.spec_done() =~= old(self).spec_done().push(
                spec_complete(old(self).spec_active()[idx as int], event),
            ));
            assert(self.spec_active_ids() =~= old(self).spec_active_ids().remove(idx as int));
            assert(self.spec_done_ids() =~= old(self).spec_done_ids().push(event.data));
            assert(old(self).spec_active_ids()[idx as int] == event.data);
            assert(old(self).spec_active_ids().to_multiset().contains(event.data));
            assert(self.spec_submitted().to_multiset() =~= self.spec_active_ids().to_multiset().add(
                self.spec_done_ids().to_multiset(),
            ).add(self.spec_retired().to_multiset()));
        }
    }

    /// Retrieves the next completed operation, in delivery order, giving
    /// its queue space back; returns nothing when no completion is
    /// waiting.
    pub fn try_completed(&mut self) -> (r: Option<CompletedOp>)
        requires
            old(self).inv(),
        ensures
            final(self).inv(),
            final(self).spec_queue_length() == old(self).spec_queue_length(),
            final(self).spec_next_id() == old(self).spec_next_id(),
            final(self).spec_active() == old(self).spec_active(),
            final(self).spec_pending() == old(self).spec_pending(),
            final(self).spec_submitted() == old(self).spec_submitted(),
            match r {
                Some(c) => {
                    &&& old(self).spec_done().len() > 0
                    &&& c@ == old(self).spec_done()[0]
                    &&& final(self).spec_done() == old(self).spec_done().drop_first()
                    &&& final(self).spec_space() == old(self).spec_space() + 1
                    &&& final(self).spec_retired() == old(self).spec_retired().push(c@.id)
                },
                None => {
                    &&& old(self).spec_done().len() == 0
                    &&& final(self).spec_done() == old(self).spec_done()
                    &&& final(self).spec_space() == old(self).spec_space()
                    &&& final(self).spec_retired() == old(self).spec_retired()
                },
            },
    {
        if self.done.len() == 0 {
            return None;
        }
        let c = self.done.remove(0);
        self.space = self.space + 1;
        proof {
            self.retired@ = self.retired@.push(c@.id);
            assert(self.spec_done() =~= old(self).spec_done().drop_first());
            assert(self.spec_done_ids() =~= old(self).spec_done_ids().remove(0));
            assert(old(self).spec_done_ids()[0] == c@.id);
            assert(old(self).spec_done_ids().to_multiset().contains(c@.id));
            assert(self.spec_submitted().to_multiset() =~= self.spec_active_ids().to_multiset().add(
                self.spec_done_ids().to_multiset(),
            ).add(self.spec_retired().to_multiset()));
        }
        Some(c)
    }
}

/// When a sequence contains a value, the search over a view list with
/// those ids succeeds.
proof fn lemma_find_first_exists(active: Seq<ActiveView>, id: u64)
    requires
        active.map_values(|op: ActiveView| op.id).contains(id),
    ensures
        spec_find(active, id) != -1,
{
    let ids = active.map_values(|op: ActiveView| op.id);
    let k = choose|k: int| 0 <= k < ids.len() && ids[k] == id;
    lemma_find_spec(active, id);
    if spec_find(active, id) == -1 {
        assert(active[k].id != id);
    }
}

/// Removing the only occurrence of a value from a duplicate-free
/// sequence leaves a sequence without that value.
proof fn lemma_unique_remove_not_contains(s: Seq<u64>, i: int)
    requires
        0 <= i < s.len(),
        forall|a: int, b: int| 0 <= a < b < s.len() ==> s[a] != s[b],
    ensures
        !s.remove(i).contains(s[i]),
        forall|a: int, b: int|
            0 <= a < b < s.remove(i).len() ==> s.remove(i)[a] != s.remove(i)[b],
{
    let t = s.remove(i);
    assert forall|j: int| 0 <= j < t.len() implies t[j] != s[i] by {
        if j < i {
            assert(t[j] == s[j]);
        } else {
            assert(t[j] == s[j + 1]);
        }
    }
    assert forall|a: int, b: int| 0 <= a < b < t.len() implies t[a] != t[b] by {
        let ra = if a < i {
            a
        } else {
            a + 1
        };
        let rb = if b < i {
            b
        } else {
            b + 1
        };
        assert(t[a] == s[ra]);
        assert(t[b] == s[rb]);
    }
}

/// The reactor's counters add up: space plus tracked operations plus
/// waiting completions equals the capacity, which fits a 32-bit count.
pub proof fn lemma_inv_bounds(r: &Reactor)
    requires
        r.inv(),
    ensures
        r.spec_space() + r.spec_active().len() + r.spec_done().len() == r.spec_queue_length(),
        0 <= r.spec_queue_length() <= u32::MAX,
        0 <= r.spec_space(),
{
}

/// Every operation accepted for submission is, at every moment, in
/// exactly one place: still in flight, waiting in the completion queue,
/// or already retrieved — and its id occurs exactly once across those
/// places.  No operation is lost and none is delivered twice, whatever
/// mixture of completions and cancellations produced the deliveries.
pub proof fn lemma_completion_conservation(r: &Reactor)
    requires
        r.inv(),
    ensures
        r.spec_submitted().to_multiset() == r.spec_active_ids().to_multiset().add(
            r.spec_done_ids().to_multiset(),
        ).add(r.spec_retired().to_multiset()),
        forall|id: u64| #[trigger]
            r.spec_submitted().to_multiset().count(id) <= 1,
{
    let s = r.spec_submitted();
    assert(s.no_duplicates()) by {
        assert forall|a: int, b: int|
            0 <= a < s.len() && 0 <= b < s.len() && a != b implies s[a] != s[b] by {
            if a < b {
                assert(s[a] != s[b]);
            } else {
                assert(s[b] != s[a]);
            }
        }
    }
    s.lemma_multiset_has_no_duplicates();
    assert forall|id: u64| #[trigger] s.to_multiset().count(id) <= 1 by {
        if s.to_multiset().count(id) > 0 {
            assert(s.to_multiset().contains(id));
        }
    }
}

} // verus!

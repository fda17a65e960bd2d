use vstd::prelude::*;
use std::collections::VecDeque;

verus! {

/// A fresh copy of a frame's bytes.
fn copy_frame(frame: &Vec<u8>) -> (r: Vec<u8>)
    ensures
        r@ == frame@,
{
    let mut r: Vec<u8> = Vec::with_capacity(frame.len());
    let mut i: usize = 0;
    while i < frame.len()
        invariant
            i <= frame@.len(),
            r@ == frame@.subrange(0, i as int),
        decreases frame@.len() - i,
    {
        r.push(frame[i]);
        assert(frame@.subrange(0, i + 1) == frame@.subrange(0, i as int).push(frame@[i as int]));
        i = i + 1;
    }
    assert(r@ == frame@);
    r
}

/// One attached receiver: its handle and the frames waiting for it, oldest first.
pub struct Subscriber {
    id: u64,
    queue: VecDeque<Vec<u8>>,
}

impl Subscriber {
    pub closed spec fn spec_queue(&self) -> Seq<Seq<u8>> {
        self.queue@.map_values(|f: Vec<u8>| f@)
    }
}

/// A subscriber's state after a publish of `frame` with queue depth `depth`:
/// the frame joins the queue if there is room, and is dropped for it otherwise.
pub open spec fn spec_offer(queue: Seq<Seq<u8>>, frame: Seq<u8>, depth: nat) -> Seq<Seq<u8>> {
    if queue.len() < depth {
        queue.push(frame)
    } else {
        queue
    }
}

/// One publish isolates subscribers: a subscriber whose queue is full loses
/// the new frame while another with room receives it, at the back of its queue.
pub proof fn lemma_backpressure_isolation(
    queues: Seq<Seq<Seq<u8>>>,
    frame: Seq<u8>,
    depth: nat,
    full: int,
    keeping_up: int,
)
    requires
        0 <= full < queues.len(),
        0 <= keeping_up < queues.len(),
        queues[full].len() >= depth,
        queues[keeping_up].len() < depth,
    ensures
        queues.map_values(|q: Seq<Seq<u8>>| spec_offer(q, frame, depth))[full] == queues[full],
        queues.map_values(|q: Seq<Seq<u8>>| spec_offer(q, frame, depth))[keeping_up] == queues[keeping_up].push(frame),
        queues.map_values(|q: Seq<Seq<u8>>| spec_offer(q, frame, depth))[keeping_up].last() == frame,
{
}

/// Best-effort broadcast to a changing set of subscribers, each with its own
/// bounded queue. Publishing never blocks: a full queue drops the new frame
/// for that subscriber only.
pub struct Fanout {
    depth: usize,
    next_id: u64,
    subscribers: Vec<Subscriber>,
}

impl Fanout {
    /// Queue depth shared by all subscribers.
    pub closed spec fn spec_depth(&self) -> nat {
        self.depth as nat
    }

    /// Handles of the attached subscribers, in order of attachment.
    pub closed spec fn spec_ids(&self) -> Seq<u64> {
        self.subscribers@.map_values(|s: Subscriber| s.id)
    }

    /// Pending frames of each attached subscriber, in the order of `spec_ids`.
    pub closed spec fn spec_queues(&self) -> Seq<Seq<Seq<u8>>> {
        self.subscribers@.map_values(|s: Subscriber| s.spec_queue())
    }

    /// The handle the next subscriber receives.
    pub closed spec fn spec_next_id(&self) -> u64 {
        self.next_id
    }

    /// Handles are distinct and below the next one to hand out; no queue holds
    /// more than `depth` frames.
    pub closed spec fn wf(&self) -> bool {
        &&& forall|i: int, j: int|
            0 <= i < j < self.subscribers@.len() ==> self.subscribers@[i].id
                != self.subscribers@[j].id
        &&& forall|i: int|
            0 <= i < self.subscribers@.len() ==> self.subscribers@[i].id < self.next_id
        &&& forall|i: int|
            0 <= i < self.subscribers@.len() ==> self.subscribers@[i].queue@.len() <= self.depth
    }

    /// A fanout with no subscribers whose queues hold up to `depth` frames.
    pub fn new(depth: usize) -> (r: Fanout)
        ensures
            r.wf(),
            r.spec_depth() == depth,
            r.spec_next_id() == 0,
            r.spec_ids().len() == 0,
            r.spec_queues().len() == 0,
    {
        Fanout { depth, next_id: 0, subscribers: Vec::new() }
    }

    /// Number of attached subscribers.
    pub fn subscriber_count(&self) -> (r: usize)
        ensures
            r == self.spec_ids().len(),
    {
        self.subscribers.len()
    }

    /// Attaches a subscriber with an empty queue and returns its handle;
    /// `None` once every handle has been handed out.
    pub fn subscribe(&mut self) -> (r: Option<u64>)
        requires
            old(self).wf(),
        ensures
            final(self).wf(),
            final(self).spec_depth() == old(self).spec_depth(),
            r is None <==> old(self).spec_next_id() == u64::MAX,
            r is None ==> final(self).spec_ids() == old(self).spec_ids()
                && final(self).spec_queues() == old(self).spec_queues(),
            r is None ==> final(self).spec_next_id() == old(self).spec_next_id(),
            r matches Some(id) ==> {
                &&& id == old(self).spec_next_id()
                &&& final(self).spec_next_id() == id + 1
                &&& !old(self).spec_ids().contains(id)
                &&& final(self).spec_ids() == old(self).spec_ids().push(id)
                &&& final(self).spec_queues() == old(self).spec_queues().push(Seq::empty())
            },
    {
        if self.next_id == u64::MAX {
            return None;
        }
        let id = self.next_id;
        self.next_id = self.next_id + 1;
        let ghost old_subs = self.subscribers@;
        self.subscribers.push(Subscriber { id, queue: VecDeque::new() });
        proof {
            let s = self.subscribers@;
            assert(s == old_subs.push(s.last()));
            assert(self.spec_ids() =~= old(self).spec_ids().push(id));
            assert(s.last().spec_queue() =~= Seq::<Seq<u8>>::empty());
            assert(self.spec_queues() =~= old(self).spec_queues().push(Seq::empty()));
            if old(self).spec_ids().contains(id) {
                let k = choose|k: int| 0 <= k < old(self).spec_ids().len() && old(self).spec_ids()[k] == id;
                assert(old_subs[k].id < old(self).next_id);
            }
        }
        Some(id)
    }

    /// Position of the subscriber with handle `id`.
    fn position(&self, id: u64) -> (r: Option<usize>)
        ensures
            r is None <==> !self.spec_ids().contains(id),
            r matches Some(k) ==> k < self.spec_ids().len() && self.spec_ids()[k as int] == id,
    {
        let mut i: usize = 0;
        while i < self.subscribers.len()
            invariant
                i <= self.subscribers@.len(),
                forall|j: int| 0 <= j < i ==> self.spec_ids()[j] != id,
            decreases self.subscribers@.len() - i,
        {
            if self.subscribers[i].id == id {
                assert(self.spec_ids()[i as int] == id);
                return Some(i);
            }
            i = i + 1;
        }
        None
    }

    /// Offers `frame` to every attached subscriber: it joins each queue that
    /// has room and is dropped for each full one. Never blocks, never detaches.
    pub fn publish(&mut self, frame: &Vec<u8>)
        requires
            old(self).wf(),
        ensures
            final(self).wf(),
            final(self).spec_depth() == old(self).spec_depth(),
            final(self).spec_next_id() == old(self).spec_next_id(),
            final(self).spec_ids() == old(self).spec_ids(),
            final(self).spec_queues() == old(self).spec_queues().map_values(
                |q: Seq<Seq<u8>>| spec_offer(q, frame@, old(self).spec_depth()),
            ),
    {
        let n = self.subscribers.len();
        let mut i: usize = 0;
        while i < n
            invariant
                n == self.subscribers@.len(),
                n == old(self).subscribers@.len(),
                i <= n,
                self.depth == old(self).depth,
                self.next_id == old(self).next_id,
                self.wf(),
                forall|j: int| 0 <= j < n ==> self.subscribers@[j].id == old(self).subscribers@[j].id,
                forall|j: int|
                    0 <= j < i ==> self.subscribers@[j].spec_queue() == spec_offer(
                        old(self).subscribers@[j].spec_queue(),
                        frame@,
                        self.depth as nat,
                    ),
                forall|j: int|
                    i <= j < n ==> self.subscribers@[j].spec_queue()
                        == old(self).subscribers@[j].spec_queue(),
            decreases n - i,
        {
            if self.subscribers[i].queue.len() < self.depth {
                let copy = copy_frame(frame);
                let ghost before = self.subscribers@[i as int].queue@;
                self.subscribers[i].queue.push_back(copy);
                assert(self.subscribers@[i as int].spec_queue() =~= before.map_values(
                    |f: Vec<u8>| f@,
                ).push(frame@));
            }
            i = i + 1;
        }
        assert(self.spec_ids() =~= old(self).spec_ids());
        assert(self.spec_queues() =~= old(self).spec_queues().map_values(
            |q: Seq<Seq<u8>>| spec_offer(q, frame@, old(self).spec_depth()),
        ));
    }

    /// Takes the oldest pending frame of subscriber `id`; `None` when it has
    /// none or is not attached. Frames come out in publish order.
    pub fn receive(&mut self, id: u64) -> (r: Option<Vec<u8>>)
        requires
            old(self).wf(),
        ensures
            final(self).wf(),
            final(self).spec_depth() == old(self).spec_depth(),
            final(self).spec_next_id() == old(self).spec_next_id(),
            final(self).spec_ids() == old(self).spec_ids(),
            !old(self).spec_ids().contains(id) ==> r is None && final(self).spec_queues()
                == old(self).spec_queues(),
            forall|k: int|
                0 <= k < old(self).spec_ids().len() && old(self).spec_ids()[k] == id ==> {
                    let q = old(self).spec_queues()[k];
                    if q.len() == 0 {
                        r is None && final(self).spec_queues() == old(self).spec_queues()
                    } else {
                        &&& r matches Some(f) && f@ == q[0]
                        &&& final(self).spec_queues() == old(self).spec_queues().update(
                            k,
                            q.drop_first(),
                        )
                    }
                },
    {
        match self.position(id) {
            None => None,
            Some(k) => {
                proof {
                    assert forall|j: int|
                        0 <= j < old(self).spec_ids().len() && old(self).spec_ids()[j] == id
                        implies j == k by {
                        if j != k {
                            if j < k {
                                assert(self.subscribers@[j].id != self.subscribers@[k as int].id);
                            } else {
                                assert(self.subscribers@[k as int].id != self.subscribers@[j].id);
                            }
                        }
                    }
                }
                let ghost before = self.subscribers@[k as int].queue@;
                let r = self.subscribers[k].queue.pop_front();
                proof {
                    assert(self.spec_ids() =~= old(self).spec_ids());
                    if before.len() == 0 {
                        assert(self.spec_queues() =~= old(self).spec_queues());
                    } else {
                        assert(self.subscribers@[k as int].spec_queue() =~= old(
                            self,
                        ).spec_queues()[k as int].drop_first());
                        assert(self.spec_queues() =~= old(self).spec_queues().update(
                            k as int,
                            old(self).spec_queues()[k as int].drop_first(),
                        ));
                    }
                }
                r
            },
        }
    }

    /// Detaches subscriber `id` and discards its pending frames; `false` when
    /// it was not attached.
    pub fn unsubscribe(&mut self, id: u64) -> (r: bool)
        requires
            old(self).wf(),
        ensures
            final(self).wf(),
            final(self).spec_depth() == old(self).spec_depth(),
            final(self).spec_next_id() == old(self).spec_next_id(),
            r == old(self).spec_ids().contains(id),
            !r ==> final(self).spec_ids() == old(self).spec_ids() && final(self).spec_queues()
                == old(self).spec_queues(),
            forall|k: int|
                0 <= k < old(self).spec_ids().len() && old(self).spec_ids()[k] == id ==> {
                    &&& final(self).spec_ids() == old(self).spec_ids().remove(k)
                    &&& final(self).spec_queues() == old(self).spec_queues().remove(k)
                },
    {
        match self.position(id) {
            None => false,
            Some(k) => {
                proof {
                    assert forall|j: int|
                        0 <= j < old(self).spec_ids().len() && old(self).spec_ids()[j] == id
                        implies j == k by {
                        if j != k {
                            if j < k {
                                assert(self.subscribers@[j].id != self.subscribers@[k as int].id);
                            } else {
                                assert(self.subscribers@[k as int].id != self.subscribers@[j].id);
                            }
                        }
                    }
                }
                let _gone = self.subscribers.remove(k);
                proof {
                    assert(self.spec_ids() =~= old(self).spec_ids().remove(k as int));
                    assert(self.spec_queues() =~= old(self).spec_queues().remove(k as int));
                    assert forall|i: int, j: int|
                        0 <= i < j < self.subscribers@.len() implies self.subscribers@[i].id
                        != self.subscribers@[j].id by {
                        let oi = if i < k { i } else { i + 1 };
                        let oj = if j < k { j } else { j + 1 };
                        assert(old(self).subscribers@[oi].id != old(self).subscribers@[oj].id);
                    }
                    assert forall|i: int| 0 <= i < self.subscribers@.len() implies self.subscribers@[i].id
                        < self.next_id && self.subscribers@[i].queue@.len() <= self.depth by {
                        let oi = if i < k { i } else { i + 1 };
                        assert(self.subscribers@[i] == old(self).subscribers@[oi]);
                    }
                }
                true
            },
        }
    }
}

} // verus!

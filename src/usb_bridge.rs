use std::collections::VecDeque;
use vstd::prelude::*;

use crate::device_map::DeviceMap;

verus! {

/// Pause between two polls of an inbound queue, in milliseconds.
pub const POLL_INTERVAL_MS: u64 = 100;

/// Number of polls a read makes before it gives up.
pub const MAX_POLL_ATTEMPTS: u32 = 600;

/// The messages of one queue, oldest first.
pub open spec fn messages(q: VecDeque<Vec<u8>>) -> Seq<Seq<u8>> {
    q@.map_values(|b: Vec<u8>| b@)
}

/// The queue held for `id` in `m`; a device without an entry has an empty queue.
pub open spec fn queue_of(m: Map<Seq<char>, VecDeque<Vec<u8>>>, id: Seq<char>) -> Seq<Seq<u8>> {
    if m.contains_key(id) {
        messages(m[id])
    } else {
        Seq::empty()
    }
}

/// Per-device byte queues between the protocol engine and the platform relay:
/// `outbound` holds what the engine wrote and the relay has not yet picked up,
/// `inbound` what the relay delivered and the engine has not yet read.
pub struct TransportQueues {
    outbound: DeviceMap<VecDeque<Vec<u8>>>,
    inbound: DeviceMap<VecDeque<Vec<u8>>>,
}

fn push_to(m: &mut DeviceMap<VecDeque<Vec<u8>>>, id: &String, bytes: Vec<u8>)
    requires
        old(m).wf(),
    ensures
        final(m).wf(),
        queue_of(final(m)@, id@) == queue_of(old(m)@, id@).push(bytes@),
        forall|k: Seq<char>| k != id@ ==> queue_of(final(m)@, k) == queue_of(old(m)@, k),
{
    let mut q = match m.remove(id) {
        Some(q) => q,
        None => VecDeque::new(),
    };
    let ghost before = q@;
    q.push_back(bytes);
    assert(messages(q) =~= before.map_values(|b: Vec<u8>| b@).push(bytes@));
    m.insert(id.clone(), q);
}

fn pop_from(m: &mut DeviceMap<VecDeque<Vec<u8>>>, id: &String) -> (r: Option<Vec<u8>>)
    requires
        old(m).wf(),
    ensures
        final(m).wf(),
        forall|k: Seq<char>| k != id@ ==> queue_of(final(m)@, k) == queue_of(old(m)@, k),
        match r {
            Some(b) => {
                &&& queue_of(old(m)@, id@).len() > 0
                &&& b@ == queue_of(old(m)@, id@)[0]
                &&& queue_of(final(m)@, id@) == queue_of(old(m)@, id@).drop_first()
            },
            None => {
                &&& queue_of(old(m)@, id@).len() == 0
                &&& queue_of(final(m)@, id@) == queue_of(old(m)@, id@)
            },
        },
{
    match m.remove(id) {
        None => None,
        Some(q0) => {
            let mut q = q0;
            let r = q.pop_front();
            if r.is_some() {
                assert(messages(q) =~= messages(q0).drop_first());
            }
            m.insert(id.clone(), q);
            r
        },
    }
}

impl TransportQueues {
    pub closed spec fn wf(&self) -> bool {
        self.outbound.wf() && self.inbound.wf()
    }

    /// Messages waiting for the relay to pick them up for `id`, oldest first.
    pub closed spec fn outbound_of(&self, id: Seq<char>) -> Seq<Seq<u8>> {
        queue_of(self.outbound@, id)
    }

    /// Messages delivered by the relay for `id` and not yet read, oldest first.
    pub closed spec fn inbound_of(&self, id: Seq<char>) -> Seq<Seq<u8>> {
        queue_of(self.inbound@, id)
    }

    /// Every queue of every device other than `id` is the same in `self` and `other`.
    pub open spec fn agrees_except(&self, other: &Self, id: Seq<char>) -> bool {
        forall|k: Seq<char>|
            k != id ==> #[trigger] self.outbound_of(k) == other.outbound_of(k)
                && self.inbound_of(k) == other.inbound_of(k)
    }

    pub fn new() -> (r: Self)
        ensures
            r.wf(),
            forall|k: Seq<char>| #[trigger] r.outbound_of(k) == Seq::<Seq<u8>>::empty(),
            forall|k: Seq<char>| #[trigger] r.inbound_of(k) == Seq::<Seq<u8>>::empty(),
    {
        TransportQueues { outbound: DeviceMap::new(), inbound: DeviceMap::new() }
    }

    /// Appends a message to the outbound queue of `id`.
    pub fn push_outbound(&mut self, id: &String, bytes: Vec<u8>)
        requires
            old(self).wf(),
        ensures
            final(self).wf(),
            final(self).outbound_of(id@) == old(self).outbound_of(id@).push(bytes@),
            final(self).inbound_of(id@) == old(self).inbound_of(id@),
            final(self).agrees_except(old(self), id@),
    {
        push_to(&mut self.outbound, id, bytes);
    }

    /// Takes the oldest message of the outbound queue of `id`, if there is one.
    pub fn pop_outbound(&mut self, id: &String) -> (r: Option<Vec<u8>>)
        requires
            old(self).wf(),
        ensures
            final(self).wf(),
            final(self).inbound_of(id@) == old(self).inbound_of(id@),
            final(self).agrees_except(old(self), id@),
            match r {
                Some(b) => {
                    &&& old(self).outbound_of(id@).len() > 0
                    &&& b@ == old(self).outbound_of(id@)[0]
                    &&& final(self).outbound_of(id@) == old(self).outbound_of(id@).drop_first()
                },
                None => {
                    &&& old(self).outbound_of(id@).len() == 0
                    &&& final(self).outbound_of(id@) == old(self).outbound_of(id@)
                },
            },
    {
        pop_from(&mut self.outbound, id)
    }

    /// Appends a message to the inbound queue of `id`.
    pub fn push_inbound(&mut self, id: &String, bytes: Vec<u8>)
        requires
            old(self).wf(),
        ensures
            final(self).wf(),
            final(self).inbound_of(id@) == old(self).inbound_of(id@).push(bytes@),
            final(self).outbound_of(id@) == old(self).outbound_of(id@),
            final(self).agrees_except(old(self), id@),
    {
        push_to(&mut self.inbound, id, bytes);
    }

    /// Takes the oldest message of the inbound queue of `id`, if there is one.
    pub fn pop_inbound(&mut self, id: &String) -> (r: Option<Vec<u8>>)
        requires
            old(self).wf(),
        ensures
            final(self).wf(),
            final(self).outbound_of(id@) == old(self).outbound_of(id@),
            final(self).agrees_except(old(self), id@),
            match r {
                Some(b) => {
                    &&& old(self).inbound_of(id@).len() > 0
                    &&& b@ == old(self).inbound_of(id@)[0]
                    &&& final(self).inbound_of(id@) == old(self).inbound_of(id@).drop_first()
                },
                None => {
                    &&& old(self).inbound_of(id@).len() == 0
                    &&& final(self).inbound_of(id@) == old(self).inbound_of(id@)
                },
            },
    {
        pop_from(&mut self.inbound, id)
    }

    /// Drops both queues of `id` with whatever they still hold.
    pub fn remove(&mut self, id: &String)
        requires
            old(self).wf(),
        ensures
            final(self).wf(),
            final(self).outbound_of(id@).len() == 0,
            final(self).inbound_of(id@).len() == 0,
            final(self).agrees_except(old(self), id@),
    {
        let _ = self.outbound.remove(id);
        let _ = self.inbound.remove(id);
    }
}

/// How a read waits for inbound bytes: the pause between polls and how many
/// polls it makes before giving up.
#[derive(Clone, Copy, Debug, PartialEq, Eq)]
pub struct ReadPolicy {
    pub interval_ms: u64,
    pub max_attempts: u32,
}

impl ReadPolicy {
    /// Polls every `POLL_INTERVAL_MS` up to `MAX_POLL_ATTEMPTS` times.
    pub fn standard() -> (r: Self)
        ensures
            r.interval_ms == POLL_INTERVAL_MS,
            r.max_attempts == MAX_POLL_ATTEMPTS,
    {
        ReadPolicy { interval_ms: POLL_INTERVAL_MS, max_attempts: MAX_POLL_ATTEMPTS }
    }
}

/// What one poll of a read decided.
#[derive(Debug, PartialEq, Eq)]
pub enum ReadStep {
    /// The oldest inbound message, which the read returns.
    Data(Vec<u8>),
    /// Nothing has arrived: pause this many milliseconds, then poll again.
    Wait(u64),
    /// The polls are used up: the read fails with a timeout.
    TimedOut,
}

/// A `ReadStep` without the bytes it carries.
#[derive(Clone, Copy, Debug, PartialEq, Eq)]
pub enum PollKind {
    Deliver,
    Wait(u64),
    TimedOut,
}

/// The kind of step a poll takes, given the policy, the number of polls
/// already made and the inbound queue.
pub open spec fn poll_kind(policy: ReadPolicy, attempt: int, inbound: Seq<Seq<u8>>) -> PollKind {
    if attempt >= policy.max_attempts {
        PollKind::TimedOut
    } else if inbound.len() > 0 {
        PollKind::Deliver
    } else {
        PollKind::Wait(policy.interval_ms)
    }
}

pub open spec fn kind_of(r: ReadStep) -> PollKind {
    match r {
        ReadStep::Data(_) => PollKind::Deliver,
        ReadStep::Wait(ms) => PollKind::Wait(ms),
        ReadStep::TimedOut => PollKind::TimedOut,
    }
}

/// The polls a read makes from poll `attempt` on while nothing arrives, and
/// the milliseconds it waits in between, up to the step that ends it.
pub open spec fn idle_read(policy: ReadPolicy, attempt: nat) -> (nat, int)
    decreases policy.max_attempts - attempt,
{
    match poll_kind(policy, attempt as int, Seq::empty()) {
        PollKind::Wait(ms) => {
            let rest = idle_read(policy, attempt + 1);
            (rest.0 + 1, rest.1 + ms)
        },
        _ => (0, 0),
    }
}

/// A read that finds nothing waits the configured interval after each of its
/// `max_attempts` polls and then times out: it never gives up earlier, never
/// polls more, and waits `max_attempts * interval_ms` milliseconds in all.
pub proof fn lemma_idle_read_times_out(policy: ReadPolicy)
    ensures
        forall|a: int|
            0 <= a < policy.max_attempts ==> #[trigger] poll_kind(policy, a, Seq::empty())
                == PollKind::Wait(policy.interval_ms),
        poll_kind(policy, policy.max_attempts as int, Seq::empty()) == PollKind::TimedOut,
        idle_read(policy, 0) == (policy.max_attempts as nat, policy.max_attempts * policy.interval_ms),
{
    lemma_idle_read_from(policy, 0);
}

proof fn lemma_idle_read_from(policy: ReadPolicy, a: nat)
    requires
        a <= policy.max_attempts,
    ensures
        idle_read(policy, a) == ((policy.max_attempts - a) as nat, (policy.max_attempts - a)
            * policy.interval_ms),
    decreases policy.max_attempts - a,
{
    if a < policy.max_attempts {
        lemma_idle_read_from(policy, a + 1);
        assert(poll_kind(policy, a as int, Seq::empty()) == PollKind::Wait(policy.interval_ms));
        let r = idle_read(policy, a + 1);
        assert(idle_read(policy, a) == (r.0 + 1, r.1 + policy.interval_ms));
        assert((policy.max_attempts - a) * policy.interval_ms == (policy.max_attempts - (a + 1))
            * policy.interval_ms + policy.interval_ms) by (nonlinear_arith);
        assert(r.0 + 1 == (policy.max_attempts - a) as nat);
    } else {
        assert(idle_read(policy, a) == (0nat, 0int));
        assert(policy.max_attempts - a == 0);
        assert((policy.max_attempts - a) * policy.interval_ms == 0) by (nonlinear_arith)
            requires
                policy.max_attempts - a == 0,
        ;
    }
}

/// The queue after appending `msgs` one by one.
pub open spec fn after_pushes(q: Seq<Seq<u8>>, msgs: Seq<Seq<u8>>) -> Seq<Seq<u8>>
    decreases msgs.len(),
{
    if msgs.len() == 0 {
        q
    } else {
        after_pushes(q, msgs.drop_last()).push(msgs.last())
    }
}

/// The messages that `n` successive takes from `q` return, in order.
pub open spec fn taken(q: Seq<Seq<u8>>, n: nat) -> Seq<Seq<u8>>
    decreases n,
{
    if n == 0 || q.len() == 0 {
        Seq::empty()
    } else {
        seq![q[0]] + taken(q.drop_first(), (n - 1) as nat)
    }
}

/// Messages appended to a device's queue come out of it in the order they
/// went in, after whatever the queue held before.
pub proof fn lemma_queue_fifo(q: Seq<Seq<u8>>, msgs: Seq<Seq<u8>>)
    ensures
        after_pushes(q, msgs) == q + msgs,
        taken(after_pushes(q, msgs), (q.len() + msgs.len()) as nat) == q + msgs,
{
    lemma_after_pushes(q, msgs);
    lemma_taken_all(q + msgs);
}

proof fn lemma_after_pushes(q: Seq<Seq<u8>>, msgs: Seq<Seq<u8>>)
    ensures
        after_pushes(q, msgs) == q + msgs,
    decreases msgs.len(),
{
    if msgs.len() > 0 {
        lemma_after_pushes(q, msgs.drop_last());
        assert(q + msgs =~= (q + msgs.drop_last()).push(msgs.last()));
    } else {
        assert(q + msgs =~= q);
    }
}

proof fn lemma_taken_all(q: Seq<Seq<u8>>)
    ensures
        taken(q, q.len()) == q,
    decreases q.len(),
{
    if q.len() > 0 {
        lemma_taken_all(q.drop_first());
        assert(seq![q[0]] + q.drop_first() =~= q);
    }
}

/// The channel through which the protocol engine talks to one device: what
/// it writes goes to the device's outbound queue, what it reads comes from
/// the device's inbound queue.
pub struct PlatformUsbBridge {
    pub device_name: String,
}

impl PlatformUsbBridge {
    pub fn new(device_name: String) -> (r: Self)
        ensures
            r.device_name == device_name,
    {
        Self { device_name }
    }

    /// Queues `msg` for the relay and reports all of its bytes as written.
    pub fn write(&self, queues: &mut TransportQueues, msg: &[u8]) -> (r: usize)
        requires
            old(queues).wf(),
        ensures
            r == msg@.len(),
            final(queues).wf(),
            final(queues).outbound_of(self.device_name@) == old(queues).outbound_of(
                self.device_name@,
            ).push(msg@),
            final(queues).inbound_of(self.device_name@) == old(queues).inbound_of(
                self.device_name@,
            ),
            final(queues).agrees_except(old(queues), self.device_name@),
    {
        let bytes = vstd::slice::slice_to_vec(msg);
        queues.push_outbound(&self.device_name, bytes);
        msg.len()
    }

    /// One poll of a read that has already made `attempt` polls: hands out
    /// the oldest inbound message if there is one, asks for a pause if not,
    /// and gives up once `policy.max_attempts` polls have been made.
    pub fn poll_read(&self, queues: &mut TransportQueues, policy: &ReadPolicy, attempt: u32) -> (r:
        ReadStep)
        requires
            old(queues).wf(),
            attempt <= policy.max_attempts,
        ensures
            final(queues).wf(),
            kind_of(r) == poll_kind(*policy, attempt as int, old(queues).inbound_of(self.device_name@)),
            final(queues).outbound_of(self.device_name@) == old(queues).outbound_of(
                self.device_name@,
            ),
            final(queues).agrees_except(old(queues), self.device_name@),
            match r {
                ReadStep::Data(b) => {
                    &&& b@ == old(queues).inbound_of(self.device_name@)[0]
                    &&& final(queues).inbound_of(self.device_name@) == old(queues).inbound_of(
                        self.device_name@,
                    ).drop_first()
                },
                _ => final(queues).inbound_of(self.device_name@) == old(queues).inbound_of(
                    self.device_name@,
                ),
            },
    {
        if attempt >= policy.max_attempts {
            return ReadStep::TimedOut;
        }
        match queues.pop_inbound(&self.device_name) {
            Some(b) => ReadStep::Data(b),
            None => ReadStep::Wait(policy.interval_ms),
        }
    }
}

/// Hands the relay the oldest message waiting to be sent to `serial_number`.
pub fn get_usb_write_data(queues: &mut TransportQueues, serial_number: String) -> (r: Option<Vec<u8>>)
    requires
        old(queues).wf(),
    ensures
        final(queues).wf(),
        final(queues).inbound_of(serial_number@) == old(queues).inbound_of(serial_number@),
        final(queues).agrees_except(old(queues), serial_number@),
        match r {
            Some(b) => {
                &&& old(queues).outbound_of(serial_number@).len() > 0
                &&& b@ == old(queues).outbound_of(serial_number@)[0]
                &&& final(queues).outbound_of(serial_number@) == old(queues).outbound_of(
                    serial_number@,
                ).drop_first()
            },
            None => {
                &&& old(queues).outbound_of(serial_number@).len() == 0
                &&& final(queues).outbound_of(serial_number@) == old(queues).outbound_of(
                    serial_number@,
                )
            },
        },
{
    queues.pop_outbound(&serial_number)
}

/// Takes bytes that the relay received from `serial_number`.
pub fn set_usb_read_data(queues: &mut TransportQueues, serial_number: String, data: Vec<u8>)
    requires
        old(queues).wf(),
    ensures
        final(queues).wf(),
        final(queues).inbound_of(serial_number@) == old(queues).inbound_of(serial_number@).push(
            data@,
        ),
        final(queues).outbound_of(serial_number@) == old(queues).outbound_of(serial_number@),
        final(queues).agrees_except(old(queues), serial_number@),
{
    queues.push_inbound(&serial_number, data);
}

/// Drops both queues of `serial_number`, discarding what they still hold.
pub fn close_device(queues: &mut TransportQueues, serial_number: &String)
    requires
        old(queues).wf(),
    ensures
        final(queues).wf(),
        final(queues).outbound_of(serial_number@).len() == 0,
        final(queues).inbound_of(serial_number@).len() == 0,
        final(queues).agrees_except(old(queues), serial_number@),
{
    queues.remove(serial_number);
}

} // verus!

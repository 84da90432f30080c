//! Polling of one live quantity of a project (its status, its metrics): which requests go
//! out, which replies still count, and what the view shows.
//!
//! Mounting a poller gives a handle, which the timer's callback presents at each tick and
//! the view presents to tear the poller down. Every request carries a sequence number. A
//! reply counts only while the poller is mounted, and only if its request was issued since
//! the last mount and after the request of the last reply that counted. What was scheduled
//! or requested before a teardown therefore never changes what the view shows.

use vstd::prelude::*;

verus! {

/// A request for the polled quantity of project `project_id`.
#[derive(Clone, Copy, Debug, PartialEq, Eq, Structural)]
pub struct PollRequest {
    pub project_id: i32,
    pub seq: u64,
}

/// The handle of one mount of a poller: its timer ticks under this handle.
#[derive(Clone, Copy, Debug, PartialEq, Eq, Structural)]
pub struct PollHandle {
    pub id: u64,
}

/// What a poller for values of type `T` holds.
pub struct PollerView<T> {
    /// The project that is polled.
    pub project_id: i32,
    /// The time between two regular requests, in milliseconds.
    pub interval_ms: u32,
    /// Whether the poller is mounted: its timer runs and replies count.
    pub active: bool,
    /// The handle of the last mount.
    pub mounted_at: u64,
    /// The sequence number of the next request.
    pub next_seq: u64,
    /// Replies to requests below this number no longer count.
    pub floor: u64,
    /// What the view shows; absent while nothing is known.
    pub value: Option<T>,
}

/// What can happen to a poller.
pub enum PollEvent<T> {
    Mount(i32),
    Tick(PollHandle),
    Refresh,
    Settle(u64, Option<T>),
    Teardown(PollHandle),
}

impl<T> PollerView<T> {
    /// No reply counts for a request that was not issued yet or that came before the last
    /// mount, and a mounted poller has issued a request unless it has run out of numbers.
    pub open spec fn wf(self) -> bool {
        &&& self.mounted_at <= self.floor <= self.next_seq
        &&& self.active ==> self.mounted_at < self.next_seq || self.next_seq == u64::MAX
    }

    /// A poller that was never mounted.
    pub open spec fn initial(project_id: i32, interval_ms: u32) -> Self {
        PollerView {
            project_id,
            interval_ms,
            active: false,
            mounted_at: 0,
            next_seq: 0,
            floor: 0,
            value: None,
        }
    }

    /// The handle under which the poller is mounted.
    pub open spec fn handle(self) -> PollHandle {
        PollHandle { id: self.mounted_at }
    }

    /// Whether a timer that holds `handle` belongs to the current mount.
    pub open spec fn holds(self, handle: PollHandle) -> bool {
        self.active && handle.id == self.mounted_at
    }

    /// The poller once it has issued a request, and that request; or the poller as it is
    /// where it is not mounted or has run out of sequence numbers.
    pub open spec fn refresh(self) -> (Self, Option<PollRequest>) {
        if self.active && self.next_seq < u64::MAX {
            (
                PollerView { next_seq: (self.next_seq + 1) as u64, ..self },
                Some(PollRequest { project_id: self.project_id, seq: self.next_seq }),
            )
        } else {
            (self, None)
        }
    }

    /// The poller after a tick of the timer that holds `handle`: a request goes out only
    /// where that timer belongs to the current mount.
    pub open spec fn tick(self, handle: PollHandle) -> (Self, Option<PollRequest>) {
        if self.holds(handle) {
            self.refresh()
        } else {
            (self, None)
        }
    }

    /// The poller once it is mounted on `project_id`: nothing is shown, no earlier request
    /// counts, no earlier handle is held, and the first request goes out at once.
    pub open spec fn mount(self, project_id: i32) -> (Self, Option<PollRequest>) {
        (PollerView {
            project_id,
            active: true,
            mounted_at: self.next_seq,
            floor: self.next_seq,
            value: None,
            ..self
        }).refresh()
    }

    /// Whether the reply to request `seq` still counts.
    pub open spec fn counts(self, seq: u64) -> bool {
        self.active && self.floor <= seq < self.next_seq
    }

    /// The poller once the reply to request `seq` has come in with `outcome`: where it
    /// counts, the view shows `outcome` and no earlier request counts any more.
    pub open spec fn settle(self, seq: u64, outcome: Option<T>) -> Self {
        if self.counts(seq) {
            PollerView { value: outcome, floor: (seq + 1) as u64, ..self }
        } else {
            self
        }
    }

    /// The poller once the mount of `handle` is torn down: no request issued so far
    /// counts. The handle of an earlier mount tears nothing down.
    pub open spec fn teardown(self, handle: PollHandle) -> Self {
        if self.holds(handle) {
            PollerView { active: false, floor: self.next_seq, ..self }
        } else {
            self
        }
    }

    /// The poller after `event`.
    pub open spec fn apply(self, event: PollEvent<T>) -> Self {
        match event {
            PollEvent::Mount(project_id) => self.mount(project_id).0,
            PollEvent::Tick(handle) => self.tick(handle).0,
            PollEvent::Refresh => self.refresh().0,
            PollEvent::Settle(seq, outcome) => self.settle(seq, outcome),
            PollEvent::Teardown(handle) => self.teardown(handle),
        }
    }

    /// The poller after `events`, in order.
    pub open spec fn run(self, events: Seq<PollEvent<T>>) -> Self
        decreases events.len(),
    {
        if events.len() == 0 {
            self
        } else {
            self.apply(events[0]).run(events.drop_first())
        }
    }
}

/// What a reply shows: the value it carries, or nothing where the request failed or the
/// backend knows no value. A value that may be stale is never kept.
pub open spec fn shown<T, E>(outcome: Result<Option<T>, E>) -> Option<T> {
    match outcome {
        Ok(value) => value,
        Err(_) => None,
    }
}

/// A poller for values of type `T`.
pub struct Poller<T> {
    project_id: i32,
    interval_ms: u32,
    active: bool,
    mounted_at: u64,
    next_seq: u64,
    floor: u64,
    value: Option<T>,
}

impl<T> View for Poller<T> {
    type V = PollerView<T>;

    closed spec fn view(&self) -> PollerView<T> {
        PollerView {
            project_id: self.project_id,
            interval_ms: self.interval_ms,
            active: self.active,
            mounted_at: self.mounted_at,
            next_seq: self.next_seq,
            floor: self.floor,
            value: self.value,
        }
    }
}

impl<T> Poller<T> {
    #[verifier::type_invariant]
    spec fn inv(self) -> bool {
        &&& self.mounted_at <= self.floor <= self.next_seq
        &&& self.active ==> self.mounted_at < self.next_seq || self.next_seq == u64::MAX
    }

    /// A poller for project `project_id` that asks every `interval_ms` milliseconds once
    /// it is mounted.
    pub fn new(project_id: i32, interval_ms: u32) -> (p: Self)
        ensures
            p@ == PollerView::<T>::initial(project_id, interval_ms),
            p@.wf(),
    {
        Poller {
            project_id,
            interval_ms,
            active: false,
            mounted_at: 0,
            next_seq: 0,
            floor: 0,
            value: None,
        }
    }

    /// Mounts the poller on `project_id`. Gives the handle of this mount and the request
    /// to send at once. The caller starts a timer that calls `tick` with the handle every
    /// `interval_ms` milliseconds.
    pub fn mount(&mut self, project_id: i32) -> (r: (PollHandle, Option<PollRequest>))
        ensures
            final(self)@ == old(self)@.mount(project_id).0,
            r.0 == final(self)@.handle(),
            r.1 == old(self)@.mount(project_id).1,
            final(self)@.holds(r.0),
            final(self)@.wf(),
    {
        let id = self.next_seq;
        let first = if id < u64::MAX {
            Some(PollRequest { project_id, seq: id })
        } else {
            None
        };
        let next_seq = if id < u64::MAX {
            id + 1
        } else {
            id
        };
        *self = Poller {
            project_id,
            interval_ms: self.interval_ms,
            active: true,
            mounted_at: id,
            next_seq,
            floor: id,
            value: None,
        };
        (PollHandle { id }, first)
    }

    /// Issues the next request out of cycle, for a refresh that the view asks for. The
    /// timer is not touched. Gives nothing where the poller is not mounted.
    pub fn refresh(&mut self) -> (request: Option<PollRequest>)
        ensures
            final(self)@ == old(self)@.refresh().0,
            request == old(self)@.refresh().1,
            final(self)@.wf(),
    {
        proof {
            use_type_invariant(&*self);
        }
        if self.active && self.next_seq < u64::MAX {
            let seq = self.next_seq;
            self.next_seq = seq + 1;
            Some(PollRequest { project_id: self.project_id, seq })
        } else {
            None
        }
    }

    /// Takes a tick of the timer that holds `handle` and gives the request to send. A
    /// timer of an earlier mount, or of a poller that was torn down, gets nothing and
    /// changes nothing.
    pub fn tick(&mut self, handle: PollHandle) -> (request: Option<PollRequest>)
        ensures
            final(self)@ == old(self)@.tick(handle).0,
            request == old(self)@.tick(handle).1,
            final(self)@.wf(),
    {
        proof {
            use_type_invariant(&*self);
        }
        if self.active && handle.id == self.mounted_at {
            self.refresh()
        } else {
            None
        }
    }

    /// Takes in the reply to request `seq` and tells whether it counted. A reply that
    /// counts replaces what the view shows, by `shown`; any other reply changes nothing.
    pub fn settle<E>(&mut self, seq: u64, outcome: Result<Option<T>, E>) -> (counted: bool)
        ensures
            counted == old(self)@.counts(seq),
            final(self)@ == old(self)@.settle(seq, shown(outcome)),
            final(self)@.wf(),
    {
        proof {
            use_type_invariant(&*self);
        }
        if self.active && self.floor <= seq && seq < self.next_seq {
            self.value = match outcome {
                Ok(value) => value,
                Err(_) => None,
            };
            self.floor = seq + 1;
            true
        } else {
            false
        }
    }

    /// Tears down the mount of `handle`, when the view is discarded or turns to another
    /// project. The caller cancels the timer; replies to requests issued so far no longer
    /// count.
    pub fn teardown(&mut self, handle: PollHandle)
        ensures
            final(self)@ == old(self)@.teardown(handle),
            final(self)@.wf(),
    {
        proof {
            use_type_invariant(&*self);
        }
        if self.active && handle.id == self.mounted_at {
            self.active = false;
            self.floor = self.next_seq;
        }
    }

    /// What the view shows.
    pub fn value(&self) -> (v: &Option<T>)
        ensures
            *v == self@.value,
    {
        &self.value
    }

    /// Whether the poller is mounted.
    pub fn is_active(&self) -> (r: bool)
        ensures
            r == self@.active,
    {
        self.active
    }

    /// The handle of the last mount.
    pub fn handle(&self) -> (h: PollHandle)
        ensures
            h == self@.handle(),
    {
        PollHandle { id: self.mounted_at }
    }

    /// The project that is polled.
    pub fn project_id(&self) -> (r: i32)
        ensures
            r == self@.project_id,
    {
        self.project_id
    }

    /// The time between two regular requests, in milliseconds.
    pub fn interval_ms(&self) -> (r: u32)
        ensures
            r == self@.interval_ms,
    {
        self.interval_ms
    }
}

/// Every event keeps the state well formed, never lowers the floor below which replies
/// are dropped, and never takes back a sequence number or a handle.
pub proof fn lemma_apply_monotone<T>(p: PollerView<T>, event: PollEvent<T>)
    requires
        p.wf(),
    ensures
        p.apply(event).wf(),
        p.apply(event).floor >= p.floor,
        p.apply(event).next_seq >= p.next_seq,
        p.apply(event).mounted_at >= p.mounted_at,
{
}

/// The same holds of any sequence of events.
pub proof fn lemma_run_monotone<T>(p: PollerView<T>, events: Seq<PollEvent<T>>)
    requires
        p.wf(),
    ensures
        p.run(events).wf(),
        p.run(events).floor >= p.floor,
        p.run(events).next_seq >= p.next_seq,
        p.run(events).mounted_at >= p.mounted_at,
    decreases events.len(),
{
    if events.len() > 0 {
        lemma_apply_monotone(p, events[0]);
        lemma_run_monotone(p.apply(events[0]), events.drop_first());
    }
}

/// Once a mount is torn down its handle is never held again, unless the poller has run
/// out of sequence numbers and issues nothing any more.
proof fn lemma_handle_stays_stale<T>(
    p: PollerView<T>,
    handle: PollHandle,
    events: Seq<PollEvent<T>>,
)
    requires
        p.wf(),
        handle.id <= p.mounted_at,
        handle.id < p.next_seq || p.next_seq == u64::MAX,
        p.holds(handle) ==> p.next_seq == u64::MAX,
    ensures
        p.run(events).holds(handle) ==> p.run(events).next_seq == u64::MAX,
    decreases events.len(),
{
    if events.len() > 0 {
        let q = p.apply(events[0]);
        lemma_apply_monotone(p, events[0]);
        lemma_handle_stays_stale(q, handle, events.drop_first());
    }
}

/// No reply to a request that was issued before a teardown changes the poller after it:
/// whatever happens after the teardown, and even once the poller is mounted again, that
/// reply is dropped.
pub proof fn law_no_write_after_teardown<T>(
    p: PollerView<T>,
    seq: u64,
    later: Seq<PollEvent<T>>,
    outcome: Option<T>,
)
    requires
        p.wf(),
        p.active,
        seq < p.next_seq,
    ensures
        !p.teardown(p.handle()).run(later).counts(seq),
        p.teardown(p.handle()).run(later).settle(seq, outcome) == p.teardown(p.handle()).run(
            later,
        ),
{
    lemma_run_monotone(p.teardown(p.handle()), later);
}

/// No tick of a timer that was started before a teardown changes the poller after it or
/// sends a request: whatever happens after the teardown, and even once the poller is
/// mounted again, a tick under the old handle is ignored.
pub proof fn law_no_tick_after_teardown<T>(p: PollerView<T>, later: Seq<PollEvent<T>>)
    requires
        p.wf(),
        p.active,
    ensures
        p.teardown(p.handle()).run(later).tick(p.handle()) == (
            p.teardown(p.handle()).run(later),
            None::<PollRequest>,
        ),
{
    lemma_handle_stays_stale(p.teardown(p.handle()), p.handle(), later);
}

/// Turning to another project does the same as a teardown for replies: once the poller
/// is mounted anew, whatever happens next, no reply to a request issued before counts.
pub proof fn law_no_write_after_remount<T>(
    p: PollerView<T>,
    project_id: i32,
    seq: u64,
    later: Seq<PollEvent<T>>,
)
    requires
        p.wf(),
        seq < p.next_seq,
    ensures
        !p.mount(project_id).0.run(later).counts(seq),
{
    lemma_apply_monotone(p, PollEvent::Mount(project_id));
    lemma_run_monotone(p.mount(project_id).0, later);
}

/// Turning to another project does the same as a teardown for timers: once the poller is
/// mounted anew, whatever happens next, no tick under the earlier handle sends a request.
pub proof fn law_no_tick_after_remount<T>(
    p: PollerView<T>,
    project_id: i32,
    later: Seq<PollEvent<T>>,
)
    requires
        p.wf(),
        p.active,
    ensures
        p.mount(project_id).0.run(later).tick(p.handle()).1 is None,
{
    lemma_apply_monotone(p, PollEvent::Mount(project_id));
    lemma_handle_stays_stale(p.mount(project_id).0, p.handle(), later);
}

/// While a poller is not mounted no reply changes it and no request goes out.
pub proof fn law_unmounted_is_inert<T>(
    p: PollerView<T>,
    seq: u64,
    outcome: Option<T>,
    handle: PollHandle,
)
    requires
        !p.active,
    ensures
        p.settle(seq, outcome) == p,
        p.tick(handle) == (p, None::<PollRequest>),
        p.refresh() == (p, None::<PollRequest>),
        p.teardown(handle) == p,
{
}

/// A reply that arrives after a later one has counted is dropped: replies never take
/// effect out of order.
pub proof fn law_stale_reply_dropped<T>(
    p: PollerView<T>,
    earlier: u64,
    later: u64,
    first: Option<T>,
    second: Option<T>,
)
    requires
        p.wf(),
        earlier <= later,
        p.counts(later),
    ensures
        p.settle(later, first).settle(earlier, second) == p.settle(later, first),
{
}

} // verus!

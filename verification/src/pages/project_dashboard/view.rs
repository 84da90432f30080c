//! One visit to a project's page: its two pollers and its controls, mounted and torn
//! down together.

use crate::pages::project_dashboard::control::{ControlAction, ControlPanel, FollowUp, Submission};
use crate::pages::project_dashboard::live::{
    law_no_tick_after_remount, law_no_write_after_remount, lemma_apply_monotone, shown,
    PollEvent, PollHandle, PollRequest, Poller, PollerView,
};
use crate::pages::project_dashboard::{METRICS_POLL_INTERVAL_MS, STATUS_POLL_INTERVAL_MS};
use crate::services::project_service::ApiError;
use vstd::prelude::*;

verus! {

/// What a visit holds. `M` is the type of the metrics.
pub struct ProjectViewState<M> {
    /// The poller of the status, which the backend gives as a text.
    pub status: PollerView<String>,
    /// The poller of the metrics.
    pub metrics: PollerView<M>,
    /// The controls.
    pub controls: ControlPanel,
}

/// What a visit begins with: for each poller the handle for its timer and the request to
/// send at once.
#[derive(Clone, Copy, Debug, PartialEq, Eq)]
pub struct Mounted {
    pub status_handle: PollHandle,
    pub status: Option<PollRequest>,
    pub metrics_handle: PollHandle,
    pub metrics: Option<PollRequest>,
}

impl<M> ProjectViewState<M> {
    /// Both pollers are well formed.
    pub open spec fn wf(self) -> bool {
        self.status.wf() && self.metrics.wf()
    }

    /// A visit to project `project_id` as it begins: both pollers mounted, each at its own
    /// pace, nothing shown, nothing in flight.
    pub open spec fn opened(project_id: i32) -> Self {
        ProjectViewState {
            status: PollerView::<String>::initial(project_id, STATUS_POLL_INTERVAL_MS).mount(
                project_id,
            ).0,
            metrics: PollerView::<M>::initial(project_id, METRICS_POLL_INTERVAL_MS).mount(
                project_id,
            ).0,
            controls: ControlPanel { in_flight: None },
        }
    }

    /// The visit once the page has turned to project `project_id`: both pollers are
    /// mounted anew, so that nothing is shown and nothing asked of the earlier project
    /// counts; the controls are as they were.
    pub open spec fn turned_to(self, project_id: i32) -> Self {
        ProjectViewState {
            status: self.status.mount(project_id).0,
            metrics: self.metrics.mount(project_id).0,
            controls: self.controls,
        }
    }

    /// The visit once it has ended: both pollers torn down.
    pub open spec fn closed(self) -> Self {
        ProjectViewState {
            status: self.status.teardown(self.status.handle()),
            metrics: self.metrics.teardown(self.metrics.handle()),
            controls: self.controls,
        }
    }

    /// The visit once the request in flight has settled with `outcome`. Where the project
    /// was deleted the visit ends with it: nothing is asked of a project that is gone.
    pub open spec fn control_settled(self, outcome: Result<(), ApiError>) -> (Self, FollowUp) {
        let (controls, next) = self.controls.spec_settle(outcome);
        if next == FollowUp::LeaveProject {
            (ProjectViewState { controls, ..self.closed() }, next)
        } else {
            (ProjectViewState { controls, ..self }, next)
        }
    }
}

/// One visit to a project's page.
pub struct ProjectView<M> {
    status: Poller<String>,
    metrics: Poller<M>,
    controls: ControlPanel,
}

impl<M> View for ProjectView<M> {
    type V = ProjectViewState<M>;

    closed spec fn view(&self) -> ProjectViewState<M> {
        ProjectViewState {
            status: self.status@,
            metrics: self.metrics@,
            controls: self.controls,
        }
    }
}

impl<M> ProjectView<M> {
    /// Begins a visit to project `project_id`, once for each page. The caller sends the two
    /// first requests and starts one timer for each poller, at the poller's interval, which
    /// ticks under the poller's handle. A page that shows another project later keeps its
    /// visit and calls `turn_to`.
    pub fn open(project_id: i32) -> (r: (Self, Mounted))
        ensures
            r.0@ == ProjectViewState::<M>::opened(project_id),
            r.0@.wf(),
            r.1.status_handle == r.0@.status.handle(),
            r.1.metrics_handle == r.0@.metrics.handle(),
            r.1.status == Some(PollRequest { project_id, seq: 0 }),
            r.1.metrics == Some(PollRequest { project_id, seq: 0 }),
    {
        let mut status: Poller<String> = Poller::new(project_id, STATUS_POLL_INTERVAL_MS);
        let mut metrics: Poller<M> = Poller::new(project_id, METRICS_POLL_INTERVAL_MS);
        let (status_handle, first_status) = status.mount(project_id);
        let (metrics_handle, first_metrics) = metrics.mount(project_id);
        (
            ProjectView { status, metrics, controls: ControlPanel::new() },
            Mounted {
                status_handle,
                status: first_status,
                metrics_handle,
                metrics: first_metrics,
            },
        )
    }

    /// Turns the visit to project `project_id`, when the page shows another project. The
    /// caller cancels the two earlier timers, sends the two first requests and starts one
    /// timer for each poller under its new handle. Sequence numbers go on where they
    /// were, so no reply to a request of the earlier project counts and no tick under an
    /// earlier handle is taken.
    pub fn turn_to(&mut self, project_id: i32) -> (r: Mounted)
        ensures
            final(self)@ == old(self)@.turned_to(project_id),
            r.status_handle == final(self)@.status.handle(),
            r.metrics_handle == final(self)@.metrics.handle(),
            r.status == old(self)@.status.mount(project_id).1,
            r.metrics == old(self)@.metrics.mount(project_id).1,
            final(self)@.wf(),
    {
        let (status_handle, first_status) = self.status.mount(project_id);
        let (metrics_handle, first_metrics) = self.metrics.mount(project_id);
        Mounted { status_handle, status: first_status, metrics_handle, metrics: first_metrics }
    }

    /// Ends the visit, when the page is left. The caller cancels both timers; no reply to
    /// a request issued so far counts any more.
    pub fn close(&mut self)
        ensures
            final(self)@ == old(self)@.closed(),
    {
        let status_handle = self.status.handle();
        self.status.teardown(status_handle);
        let metrics_handle = self.metrics.handle();
        self.metrics.teardown(metrics_handle);
    }

    /// Takes a tick of the status timer that holds `handle`.
    pub fn tick_status(&mut self, handle: PollHandle) -> (request: Option<PollRequest>)
        ensures
            final(self)@.status == old(self)@.status.tick(handle).0,
            request == old(self)@.status.tick(handle).1,
            final(self)@.metrics == old(self)@.metrics,
            final(self)@.controls == old(self)@.controls,
    {
        self.status.tick(handle)
    }

    /// Takes a tick of the metrics timer that holds `handle`.
    pub fn tick_metrics(&mut self, handle: PollHandle) -> (request: Option<PollRequest>)
        ensures
            final(self)@.metrics == old(self)@.metrics.tick(handle).0,
            request == old(self)@.metrics.tick(handle).1,
            final(self)@.status == old(self)@.status,
            final(self)@.controls == old(self)@.controls,
    {
        self.metrics.tick(handle)
    }

    /// Issues a status request out of cycle, for the refresh that follows a start, a stop
    /// or a restart. The timer is not touched: the regular polling goes on as before.
    pub fn refresh_status(&mut self) -> (request: Option<PollRequest>)
        ensures
            final(self)@.status == old(self)@.status.refresh().0,
            request == old(self)@.status.refresh().1,
            final(self)@.metrics == old(self)@.metrics,
            final(self)@.controls == old(self)@.controls,
    {
        self.status.refresh()
    }

    /// Takes in the reply to status request `seq`; the metrics are not touched.
    pub fn status_settled<E>(&mut self, seq: u64, outcome: Result<Option<String>, E>) -> (counted:
        bool)
        ensures
            counted == old(self)@.status.counts(seq),
            final(self)@.status == old(self)@.status.settle(seq, shown(outcome)),
            final(self)@.metrics == old(self)@.metrics,
            final(self)@.controls == old(self)@.controls,
    {
        self.status.settle(seq, outcome)
    }

    /// Takes in the reply to metrics request `seq`; the status is not touched. Metrics
    /// that could not be fetched are shown as unknown, never as the last known numbers.
    pub fn metrics_settled<E>(&mut self, seq: u64, outcome: Result<M, E>) -> (counted: bool)
        ensures
            counted == old(self)@.metrics.counts(seq),
            final(self)@.metrics == old(self)@.metrics.settle(
                seq,
                match outcome {
                    Ok(m) => Some(m),
                    Err(_) => None,
                },
            ),
            final(self)@.status == old(self)@.status,
            final(self)@.controls == old(self)@.controls,
    {
        let known: Result<Option<M>, E> = match outcome {
            Ok(m) => Ok(Some(m)),
            Err(e) => Err(e),
        };
        self.metrics.settle(seq, known)
    }

    /// Takes a click on a control; the pollers are not touched.
    pub fn submit(&mut self, action: ControlAction, confirmed: bool) -> (verdict: Submission)
        ensures
            (final(self)@.controls, verdict) == old(self)@.controls.spec_submit(action, confirmed),
            final(self)@.status == old(self)@.status,
            final(self)@.metrics == old(self)@.metrics,
    {
        self.controls.submit(action, confirmed)
    }

    /// Settles the request in flight. Polling goes on as before, unless the project was
    /// deleted: then the visit ends.
    pub fn control_settled(&mut self, outcome: Result<(), ApiError>) -> (next: FollowUp)
        ensures
            (final(self)@, next) == old(self)@.control_settled(outcome),
            final(self)@.controls.in_flight is None,
    {
        let next = self.controls.settle(outcome);
        let leaving = match &next {
            FollowUp::LeaveProject => true,
            _ => false,
        };
        if leaving {
            self.close();
        }
        next
    }

    /// The status to show.
    pub fn status(&self) -> (v: &Option<String>)
        ensures
            *v == self@.status.value,
    {
        self.status.value()
    }

    /// The metrics to show.
    pub fn metrics(&self) -> (v: &Option<M>)
        ensures
            *v == self@.metrics.value,
    {
        self.metrics.value()
    }

    /// Whether an action is in flight; every control is disabled while one is.
    pub fn is_controlling(&self) -> (r: bool)
        ensures
            r == self@.controls.spec_is_busy(),
    {
        self.controls.is_busy()
    }
}

/// Once the page has turned to another project no reply to a request of the earlier one
/// counts, whatever happens next to either poller.
pub proof fn law_turn_drops_earlier_replies<M>(
    v: ProjectViewState<M>,
    project_id: i32,
    status_seq: u64,
    metrics_seq: u64,
    later_status: Seq<PollEvent<String>>,
    later_metrics: Seq<PollEvent<M>>,
)
    requires
        v.wf(),
        status_seq < v.status.next_seq,
        metrics_seq < v.metrics.next_seq,
    ensures
        v.turned_to(project_id).wf(),
        !v.turned_to(project_id).status.run(later_status).counts(status_seq),
        !v.turned_to(project_id).metrics.run(later_metrics).counts(metrics_seq),
{
    lemma_apply_monotone(v.status, PollEvent::Mount(project_id));
    lemma_apply_monotone(v.metrics, PollEvent::Mount(project_id));
    law_no_write_after_remount(v.status, project_id, status_seq, later_status);
    law_no_write_after_remount(v.metrics, project_id, metrics_seq, later_metrics);
}

/// Once the page has turned to another project no tick of a timer of the earlier one
/// sends a request, whatever happens next to either poller.
pub proof fn law_turn_drops_earlier_ticks<M>(
    v: ProjectViewState<M>,
    project_id: i32,
    later_status: Seq<PollEvent<String>>,
    later_metrics: Seq<PollEvent<M>>,
)
    requires
        v.wf(),
        v.status.active,
        v.metrics.active,
    ensures
        v.turned_to(project_id).status.run(later_status).tick(v.status.handle()).1 is None,
        v.turned_to(project_id).metrics.run(later_metrics).tick(v.metrics.handle()).1 is None,
{
    law_no_tick_after_remount(v.status, project_id, later_status);
    law_no_tick_after_remount(v.metrics, project_id, later_metrics);
}

/// Once a project is deleted nothing more is asked of it: after the deletion has settled
/// with success no poller issues a request, at a tick or out of cycle, and no reply counts.
pub proof fn law_no_polling_after_delete<M>(v: ProjectViewState<M>, seq: u64, handle: PollHandle)
    requires
        v.controls.in_flight == Some(ControlAction::Delete),
    ensures
        v.control_settled(Ok(())).1 == FollowUp::LeaveProject,
        v.control_settled(Ok(())).0.status.tick(handle).1 is None,
        v.control_settled(Ok(())).0.metrics.tick(handle).1 is None,
        v.control_settled(Ok(())).0.status.refresh().1 is None,
        !v.control_settled(Ok(())).0.status.counts(seq),
        !v.control_settled(Ok(())).0.metrics.counts(seq),
{
}

/// A start, a stop or a restart that succeeded asks for one refresh after the fixed
/// delay and leaves both pollers as they were.
pub proof fn law_refresh_after_lifecycle<M>(v: ProjectViewState<M>, action: ControlAction)
    requires
        v.controls.in_flight == Some(action),
        action is Start || action is Stop || action is Restart,
    ensures
        v.control_settled(Ok(())).1 == (FollowUp::RefreshAfter { delay_ms: 1500 }),
        v.control_settled(Ok(())).0.status == v.status,
        v.control_settled(Ok(())).0.metrics == v.metrics,
{
}

} // verus!

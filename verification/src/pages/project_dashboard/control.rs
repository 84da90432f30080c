//! Control actions on a project: one at a time, confirmed where they disrupt, settled
//! whatever the outcome.

use crate::services::project_service::ApiError;
use vstd::prelude::*;

verus! {

/// The delay before the refresh that follows a start, a stop or a restart, in milliseconds.
pub const RELOAD_DELAY_MS: u32 = 1500;

/// What a user can do to a project.
#[derive(Clone, Copy, Debug, PartialEq, Eq, Structural)]
pub enum ControlAction {
    Start,
    Stop,
    Restart,
    Delete,
    UpdateImage,
    UpdateEnv,
    AddParticipant,
    RemoveParticipant,
}

/// What became of a click on a control.
#[derive(Clone, Copy, Debug, PartialEq, Eq, Structural)]
pub enum Submission {
    /// Another action is in flight: nothing is sent.
    Refused,
    /// The user did not confirm: nothing is sent.
    Cancelled,
    /// The request is to be sent now.
    Send,
}

/// What the view does once the request of an action has settled.
#[derive(Debug, PartialEq)]
pub enum FollowUp {
    /// Ask for the project's state once more after `delay_ms` milliseconds, beside the
    /// regular polling, which goes on as before.
    RefreshAfter { delay_ms: u32 },
    /// Leave the project's page for the home page and stop polling: the project is gone.
    LeaveProject,
    /// Load the page anew.
    ReloadPage,
    /// Load the project's details anew.
    ReloadDetails,
    /// Show the message of this error.
    ShowError(ApiError),
    /// Nothing was in flight.
    Nothing,
}

impl ControlAction {
    /// The actions that are sent only once the user has confirmed them.
    pub open spec fn spec_needs_confirmation(self) -> bool {
        self is Delete || self is UpdateImage || self is RemoveParticipant
    }

    /// Tells whether the user must confirm this action before it is sent.
    #[verifier::when_used_as_spec(spec_needs_confirmation)]
    pub fn needs_confirmation(self) -> (r: bool)
        ensures
            r == self.spec_needs_confirmation(),
    {
        match self {
            ControlAction::Delete => true,
            ControlAction::UpdateImage => true,
            ControlAction::RemoveParticipant => true,
            _ => false,
        }
    }

    /// The actions whose form is emptied once they have succeeded.
    pub open spec fn spec_clears_input(self) -> bool {
        self is UpdateImage || self is AddParticipant
    }

    /// Tells whether the form of this action is emptied once it has succeeded.
    #[verifier::when_used_as_spec(spec_clears_input)]
    pub fn clears_input(self) -> (r: bool)
        ensures
            r == self.spec_clears_input(),
    {
        match self {
            ControlAction::UpdateImage => true,
            ControlAction::AddParticipant => true,
            _ => false,
        }
    }

    /// What follows the success of this action.
    pub open spec fn spec_on_success(self) -> FollowUp {
        match self {
            ControlAction::Start | ControlAction::Stop | ControlAction::Restart => {
                FollowUp::RefreshAfter { delay_ms: RELOAD_DELAY_MS }
            },
            ControlAction::Delete => FollowUp::LeaveProject,
            ControlAction::UpdateImage => FollowUp::ReloadPage,
            ControlAction::UpdateEnv
            | ControlAction::AddParticipant
            | ControlAction::RemoveParticipant => FollowUp::ReloadDetails,
        }
    }

    /// What follows the success of this action.
    pub fn on_success(self) -> (r: FollowUp)
        ensures
            r == self.spec_on_success(),
    {
        match self {
            ControlAction::Start => FollowUp::RefreshAfter { delay_ms: RELOAD_DELAY_MS },
            ControlAction::Stop => FollowUp::RefreshAfter { delay_ms: RELOAD_DELAY_MS },
            ControlAction::Restart => FollowUp::RefreshAfter { delay_ms: RELOAD_DELAY_MS },
            ControlAction::Delete => FollowUp::LeaveProject,
            ControlAction::UpdateImage => FollowUp::ReloadPage,
            ControlAction::UpdateEnv => FollowUp::ReloadDetails,
            ControlAction::AddParticipant => FollowUp::ReloadDetails,
            ControlAction::RemoveParticipant => FollowUp::ReloadDetails,
        }
    }
}

/// The controls of one project's view: which action, if any, is in flight.
#[derive(Clone, Copy, Debug, PartialEq, Eq, Structural)]
pub struct ControlPanel {
    pub in_flight: Option<ControlAction>,
}

impl ControlPanel {
    /// Whether an action is in flight; every control is disabled while one is.
    pub open spec fn spec_is_busy(self) -> bool {
        self.in_flight is Some
    }

    /// The panel and the verdict after a click on `action`; `confirmed` is the user's
    /// answer to the prompt and counts only where the action asks for one.
    pub open spec fn spec_submit(self, action: ControlAction, confirmed: bool) -> (
        ControlPanel,
        Submission,
    ) {
        if self.spec_is_busy() {
            (self, Submission::Refused)
        } else if action.spec_needs_confirmation() && !confirmed {
            (self, Submission::Cancelled)
        } else {
            (ControlPanel { in_flight: Some(action) }, Submission::Send)
        }
    }

    /// The panel and what follows once the request in flight has settled with `outcome`.
    pub open spec fn spec_settle(self, outcome: Result<(), ApiError>) -> (ControlPanel, FollowUp) {
        match self.in_flight {
            None => (self, FollowUp::Nothing),
            Some(action) => (
                ControlPanel { in_flight: None },
                match outcome {
                    Ok(_) => action.spec_on_success(),
                    Err(error) => FollowUp::ShowError(error),
                },
            ),
        }
    }

    /// The panel after the clicks `clicks` with no request settling in between, and the
    /// number of requests sent.
    pub open spec fn spec_submit_all(self, clicks: Seq<(ControlAction, bool)>) -> (
        ControlPanel,
        nat,
    )
        decreases clicks.len(),
    {
        if clicks.len() == 0 {
            (self, 0)
        } else {
            let (next, verdict) = self.spec_submit(clicks[0].0, clicks[0].1);
            let (last, sent) = next.spec_submit_all(clicks.drop_first());
            (
                last,
                if verdict == Submission::Send {
                    sent + 1
                } else {
                    sent
                },
            )
        }
    }

    /// A panel with nothing in flight.
    pub fn new() -> (p: ControlPanel)
        ensures
            p.in_flight is None,
    {
        ControlPanel { in_flight: None }
    }

    /// Tells whether an action is in flight.
    #[verifier::when_used_as_spec(spec_is_busy)]
    pub fn is_busy(self) -> (r: bool)
        ensures
            r == self.spec_is_busy(),
    {
        self.in_flight.is_some()
    }

    /// Takes a click on `action`. While an action is in flight the click is refused. An
    /// action that asks for confirmation is cancelled, with the panel untouched, unless
    /// `confirmed`. Otherwise the action is in flight from now on and its one request is
    /// to be sent.
    pub fn submit(&mut self, action: ControlAction, confirmed: bool) -> (verdict: Submission)
        ensures
            (*final(self), verdict) == old(self).spec_submit(action, confirmed),
    {
        if self.in_flight.is_some() {
            Submission::Refused
        } else if action.needs_confirmation() && !confirmed {
            Submission::Cancelled
        } else {
            self.in_flight = Some(action);
            Submission::Send
        }
    }

    /// Settles the request in flight: whatever `outcome` is, nothing is in flight
    /// afterwards. A failure hands the error on unchanged for its message.
    pub fn settle(&mut self, outcome: Result<(), ApiError>) -> (next: FollowUp)
        ensures
            (*final(self), next) == old(self).spec_settle(outcome),
            final(self).in_flight is None,
    {
        match self.in_flight {
            None => FollowUp::Nothing,
            Some(action) => {
                self.in_flight = None;
                match outcome {
                    Ok(_) => action.on_success(),
                    Err(error) => FollowUp::ShowError(error),
                }
            },
        }
    }
}

/// However often the controls are clicked before the request in flight settles, at most
/// one request is sent; none at all where an action was in flight already.
pub proof fn law_single_submission(panel: ControlPanel, clicks: Seq<(ControlAction, bool)>)
    ensures
        panel.spec_submit_all(clicks).1 <= 1,
        panel.spec_is_busy() ==> panel.spec_submit_all(clicks).1 == 0
            && panel.spec_submit_all(clicks).0 == panel,
        panel.spec_submit_all(clicks).1 == 1 ==> panel.spec_submit_all(clicks).0.spec_is_busy(),
    decreases clicks.len(),
{
    if clicks.len() > 0 {
        let next = panel.spec_submit(clicks[0].0, clicks[0].1).0;
        law_single_submission(next, clicks.drop_first());
    }
}

/// A cancelled prompt leaves the panel untouched and sends nothing.
pub proof fn law_cancel_is_silent(panel: ControlPanel, action: ControlAction)
    requires
        action.spec_needs_confirmation(),
    ensures
        panel.spec_submit(action, false).0 == panel,
        panel.spec_submit(action, false).1 != Submission::Send,
{
}

/// No action stays in flight: once its request has settled, with success or with failure,
/// the next click is taken.
pub proof fn law_settle_frees_panel(
    panel: ControlPanel,
    outcome: Result<(), ApiError>,
    action: ControlAction,
)
    ensures
        !panel.spec_settle(outcome).0.spec_is_busy(),
        panel.spec_settle(outcome).0.spec_submit(action, true).1 == Submission::Send,
{
}

} // verus!

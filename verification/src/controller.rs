//! The file loading controller: the one owner of the loading state.
//!
//! A request is started, its outcome arrives (at once from a blocking picker,
//! later from an event-driven one), and the arrival is applied to the state
//! when the controller is polled. Requests are numbered in the order in which
//! they are started, and only the latest one is awaited: an outcome that
//! arrives for an earlier request is dropped.

use vstd::prelude::*;
use crate::file_loading::{
    acquisition_view, resolved_state, FileAcquisitionResult, FileDetailsView, FileErrorView,
    FileLoadingState, FileLoadingStateView,
};

verus! {

/// Mathematical value of a [`FileLoadingController`].
pub struct ControllerView {
    /// What the presentation layer is shown.
    pub state: FileLoadingStateView,
    /// How many requests were started so far. They are numbered from 0.
    pub issued: nat,
    /// The outcome that has arrived for the awaited request and was not
    /// applied to the state yet.
    pub arrived: Option<Result<FileDetailsView, FileErrorView>>,
}

impl ControllerView {
    /// The controller before any request.
    pub open spec fn idle() -> ControllerView {
        ControllerView { state: FileLoadingStateView::Idle, issued: 0, arrived: None }
    }

    /// What holds of every controller: it is `Loading` only after a request
    /// was started, and an outcome waits only while it is `Loading`.
    pub open spec fn valid(self) -> bool {
        &&& self.state is Loading ==> self.issued > 0
        &&& self.arrived is Some ==> self.state is Loading
    }

    /// The number of the request whose outcome is awaited: the latest one,
    /// while the state is `Loading`.
    pub open spec fn awaited(self) -> Option<nat> {
        if self.state is Loading && self.issued > 0 {
            Some((self.issued - 1) as nat)
        } else {
            None
        }
    }

    /// A new request: the state is `Loading`, the new request is the awaited
    /// one, and an outcome that waited for the request before it is gone.
    pub open spec fn start(self) -> ControllerView {
        ControllerView {
            state: FileLoadingStateView::Loading,
            issued: self.issued + 1,
            arrived: None,
        }
    }

    /// Whether an outcome for `request` is taken: `request` is awaited and
    /// nothing has arrived for it yet.
    pub open spec fn accepts(self, request: nat) -> bool {
        self.awaited() == Some(request) && self.arrived is None
    }

    /// The arrival of `outcome` for `request`: kept where it is taken,
    /// dropped where it is not.
    pub open spec fn deliver(
        self,
        request: nat,
        outcome: Result<FileDetailsView, FileErrorView>,
    ) -> ControllerView {
        if self.accepts(request) {
            ControllerView { arrived: Some(outcome), ..self }
        } else {
            self
        }
    }

    /// One poll: an outcome that waits is applied to the state and waits no
    /// longer. Without one, and in any state but `Loading`, nothing changes.
    pub open spec fn poll(self) -> ControllerView {
        match self.arrived {
            Some(outcome) if self.state is Loading => ControllerView {
                state: resolved_state(outcome),
                arrived: None,
                ..self
            },
            _ => self,
        }
    }

    /// Arrival and poll in one step, as a blocking picker needs them.
    pub open spec fn complete(
        self,
        request: nat,
        outcome: Result<FileDetailsView, FileErrorView>,
    ) -> ControllerView {
        self.deliver(request, outcome).poll()
    }
}

/// Owner of the loading state.
#[derive(Debug)]
pub struct FileLoadingController {
    state: FileLoadingState,
    issued: u64,
    arrived: Option<FileAcquisitionResult>,
}

impl View for FileLoadingController {
    type V = ControllerView;

    closed spec fn view(&self) -> ControllerView {
        ControllerView {
            state: self.state@,
            issued: self.issued as nat,
            arrived: match self.arrived {
                Some(outcome) => Some(acquisition_view(outcome)),
                None => None,
            },
        }
    }
}

impl FileLoadingController {
    #[verifier::type_invariant]
    spec fn is_valid(&self) -> bool {
        self@.valid()
    }

    /// A controller in the `Idle` state, with no request started.
    pub fn new() -> (controller: Self)
        ensures
            controller@ == ControllerView::idle(),
    {
        FileLoadingController { state: FileLoadingState::Idle, issued: 0, arrived: None }
    }

    /// How many requests were started so far.
    pub fn requests_issued(&self) -> (count: u64)
        ensures
            count == self@.issued,
    {
        self.issued
    }

    /// Starts a request and returns its number. The state becomes `Loading`
    /// whatever it was; a request that was in flight is superseded.
    pub fn start_loading(&mut self) -> (request: u64)
        requires
            old(self)@.issued < u64::MAX,
        ensures
            final(self)@ == old(self)@.start(),
            request == old(self)@.issued,
    {
        proof {
            use_type_invariant(&*self);
        }
        let request: u64 = self.issued;
        self.arrived = None;
        self.issued = request + 1;
        self.state = FileLoadingState::Loading;
        request
    }

    /// Takes the outcome that a picker reports for `request`. It is kept for
    /// the next poll if `request` is the awaited one and nothing has arrived
    /// for it before; else it is dropped. Returns whether it was kept.
    pub fn deliver(&mut self, request: u64, outcome: FileAcquisitionResult) -> (kept: bool)
        ensures
            kept == old(self)@.accepts(request as nat),
            final(self)@ == old(self)@.deliver(request as nat, acquisition_view(outcome)),
    {
        proof {
            use_type_invariant(&*self);
        }
        if self.state.is_loading() && self.issued - 1 == request && self.arrived.is_none() {
            self.arrived = Some(outcome);
            true
        } else {
            false
        }
    }

    /// Applies an outcome that has arrived: the state becomes `Loaded` with
    /// the file, or `Error` with the failure's text. Without one, nothing
    /// changes. Returns whether the state changed.
    pub fn poll_completion(&mut self) -> (applied: bool)
        ensures
            applied == (old(self)@.arrived is Some),
            final(self)@ == old(self)@.poll(),
    {
        proof {
            use_type_invariant(&*self);
        }
        let mut arrived: Option<FileAcquisitionResult> = None;
        core::mem::swap(&mut self.arrived, &mut arrived);
        match arrived {
            Some(outcome) => {
                self.state = FileLoadingState::from_outcome(outcome);
                true
            },
            None => false,
        }
    }

    /// Arrival and poll in one step, for a picker that blocks until it has
    /// the outcome. Returns whether the state changed.
    pub fn complete(&mut self, request: u64, outcome: FileAcquisitionResult) -> (applied: bool)
        ensures
            applied == old(self)@.deliver(request as nat, acquisition_view(outcome)).arrived
                is Some,
            final(self)@ == old(self)@.complete(request as nat, acquisition_view(outcome)),
    {
        self.deliver(request, outcome);
        self.poll_completion()
    }

    /// A copy of the state, for rendering.
    pub fn current_state(&self) -> (state: FileLoadingState)
        ensures
            state@ == self@.state,
    {
        self.state.clone()
    }

    /// The state itself, to read where no copy is wanted.
    pub fn state(&self) -> (state: &FileLoadingState)
        ensures
            state@ == self@.state,
    {
        &self.state
    }
}

/// Validity is kept by every step of the controller.
pub proof fn lemma_steps_keep_validity(
    before: ControllerView,
    request: nat,
    outcome: Result<FileDetailsView, FileErrorView>,
)
    requires
        before.valid(),
    ensures
        ControllerView::idle().valid(),
        before.start().valid(),
        before.deliver(request, outcome).valid(),
        before.poll().valid(),
        before.complete(request, outcome).valid(),
{
}

/// No step leads back to `Idle`: a new request shows `Loading`, an arrival
/// leaves the state as it is, and a poll leaves it as it is or shows an
/// outcome. Only a new controller is `Idle`.
pub proof fn lemma_no_step_leads_to_idle(
    before: ControllerView,
    request: nat,
    outcome: Result<FileDetailsView, FileErrorView>,
)
    ensures
        before.start().state is Loading,
        before.deliver(request, outcome).state == before.state,
        before.poll().state == before.state || (before.state is Loading && (before.poll().state
            is Loaded || before.poll().state is Error)),
        before.complete(request, outcome).state is Idle ==> before.state is Idle,
{
}

/// A request that is started in the `Idle` state and whose picker then
/// resolves ends in the state that shows the picker's outcome: `Loaded` with
/// exactly the file that the picker produced, or `Error` with exactly the
/// failure's text. Until the outcome is polled the state is `Loading`.
pub proof fn lemma_outcome_of_first_request_is_shown(
    outcome: Result<FileDetailsView, FileErrorView>,
)
    ensures
        ({
            let started = ControllerView::idle().start();
            &&& started.state is Loading
            &&& started.awaited() == Some(0nat)
            &&& started.deliver(0, outcome).state is Loading
            &&& started.deliver(0, outcome).poll() == started.complete(0, outcome)
            &&& match outcome {
                Ok(details) => started.complete(0, outcome).state
                    == FileLoadingStateView::Loaded(details),
                Err(error) => started.complete(0, outcome).state == FileLoadingStateView::Error(
                    error.message(),
                ),
            }
        }),
{
}

/// The same from any state: the request that was started last is the awaited
/// one, whatever the controller showed before, and its outcome is what the
/// state shows once it has arrived and was polled.
pub proof fn lemma_outcome_of_latest_request_is_shown(
    before: ControllerView,
    outcome: Result<FileDetailsView, FileErrorView>,
)
    ensures
        before.start().state is Loading,
        before.start().awaited() == Some(before.issued),
        before.start().complete(before.issued, outcome).state == resolved_state(outcome),
        before.start().complete(before.issued, outcome).arrived is None,
{
}

/// Where two requests are started one after the other and the outcome of the
/// first arrives after that, it is dropped: the controller is as it was,
/// still `Loading`, and it is the outcome of the second request that the
/// state shows in the end.
pub proof fn lemma_superseded_request_is_dropped(
    before: ControllerView,
    first_outcome: Result<FileDetailsView, FileErrorView>,
    second_outcome: Result<FileDetailsView, FileErrorView>,
)
    ensures
        ({
            let first = before.issued;
            let second = before.issued + 1;
            let twice = before.start().start();
            &&& twice.state is Loading
            &&& twice.awaited() == Some(second)
            &&& !twice.accepts(first)
            &&& twice.deliver(first, first_outcome) == twice
            &&& twice.complete(first, first_outcome) == twice
            &&& twice.complete(first, first_outcome).complete(second, second_outcome).state
                == resolved_state(second_outcome)
        }),
{
}

/// No outcome is lost: one that arrives for the awaited request, with nothing
/// arrived before it, waits until the next poll, and that poll shows it.
pub proof fn lemma_taken_outcome_is_shown_by_next_poll(
    before: ControllerView,
    request: nat,
    outcome: Result<FileDetailsView, FileErrorView>,
)
    requires
        before.accepts(request),
    ensures
        before.deliver(request, outcome).state is Loading,
        before.deliver(request, outcome).arrived == Some(outcome),
        before.deliver(request, outcome).poll().state == resolved_state(outcome),
        before.deliver(request, outcome).poll().arrived is None,
{
}

/// An outcome that arrives for any request but the awaited one changes
/// nothing, in whatever state the controller is.
pub proof fn lemma_only_awaited_request_is_heard(
    before: ControllerView,
    request: nat,
    outcome: Result<FileDetailsView, FileErrorView>,
)
    requires
        before.awaited() != Some(request),
    ensures
        before.deliver(request, outcome) == before,
        before.complete(request, outcome) == before.poll(),
{
}

/// No request changes the state twice: once an arrival for `request` has been
/// applied or dropped, a second arrival for it changes nothing. A poll that
/// follows a poll changes nothing either.
pub proof fn lemma_outcome_is_applied_once(
    before: ControllerView,
    request: nat,
    first_outcome: Result<FileDetailsView, FileErrorView>,
    second_outcome: Result<FileDetailsView, FileErrorView>,
)
    ensures
        before.poll().poll() == before.poll(),
        before.complete(request, first_outcome).complete(request, second_outcome)
            == before.complete(request, first_outcome),
{
}

} // verus!

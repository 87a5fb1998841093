//! The retry controller: one job from submission to its end, as a state
//! machine. Each step takes what the outside world answered and says what to
//! do next; the caller performs the actions in order and hands back the answer
//! of the last one.

use crate::backoff::{backoff_delay, backoff_delay_spec, retry_message, retry_message_spec};
use crate::config::{effective_max_retries, effective_max_retries_spec};
use crate::event::{EventView, WsEvent};
use crate::item::{ItemView, QueueItem, Update, UpdateView};
use crate::progress::opt_text;
use crate::status::DownloadStatus;
use vstd::prelude::*;

verus! {

/// How a run ended.
#[derive(Clone, Copy, Debug, PartialEq, Eq, Structural)]
pub enum Outcome {
    /// The store holds no such item.
    NotFound,
    /// The item was not `queued` when its turn came.
    NotEligible,
    /// The store did not take the move to `downloading`.
    NotMarked,
    /// The download succeeded and the item was marked `done`.
    Done,
    /// The download succeeded on an item that had been cancelled meanwhile.
    Discarded,
    /// Every allowed attempt failed.
    Failed,
}

/// Where a run stands: which answer it is waiting for.
#[derive(Clone, Copy, Debug, PartialEq, Eq, Structural)]
pub enum Phase {
    Idle,
    Loading,
    Marking,
    ReadingCeiling,
    Running,
    Rechecking,
    Finished(Outcome),
}

/// What the outside world hands to the controller.
#[derive(Debug)]
pub enum Input {
    /// The worker pool gave the job its turn.
    Start,
    /// The store's answer to [`Action::LoadItem`].
    Item(Option<QueueItem>),
    /// Whether the row took the last [`Action::Write`].
    Written(bool),
    /// The dynamic retry ceiling, as stored, in answer to [`Action::ReadSetting`].
    Setting(Option<String>),
    /// How the Downloader ended: the output location, or the failure message.
    Attempt(Result<String, String>),
    /// The item's status now, in answer to [`Action::LoadStatus`].
    Status(Option<DownloadStatus>),
}

/// One thing for the caller to do.
#[derive(Clone, Debug)]
pub enum Action {
    /// Fetch the item from the store; answer with [`Input::Item`].
    LoadItem,
    /// Make this write on the item's row; for a [`Update::Start`], answer
    /// with [`Input::Written`].
    Write(Update),
    /// Publish this event on the bus.
    Publish(WsEvent),
    /// Read the dynamic retry ceiling; answer with [`Input::Setting`].
    ReadSetting,
    /// Invoke the Downloader; answer with [`Input::Attempt`].
    RunDownloader,
    /// Wait this many seconds.
    Sleep { seconds: u64 },
    /// Fetch the item's status; answer with [`Input::Status`].
    LoadStatus,
    /// Delete the artifact that a discarded run produced.
    DeleteArtifact { path: String },
}

pub enum InputView {
    Start,
    Item(Option<ItemView>),
    Written(bool),
    Setting(Option<Seq<char>>),
    Attempt(Result<Seq<char>, Seq<char>>),
    Status(Option<DownloadStatus>),
}

pub enum ActionView {
    LoadItem,
    Write(UpdateView),
    Publish(EventView),
    ReadSetting,
    RunDownloader,
    Sleep { seconds: u64 },
    LoadStatus,
    DeleteArtifact { path: Seq<char> },
}

impl View for Input {
    type V = InputView;

    open spec fn view(&self) -> InputView {
        match *self {
            Input::Start => InputView::Start,
            Input::Item(item) => InputView::Item(
                match item {
                    Some(i) => Some(i@),
                    None => None,
                },
            ),
            Input::Written(b) => InputView::Written(b),
            Input::Setting(s) => InputView::Setting(opt_text(s)),
            Input::Attempt(r) => InputView::Attempt(
                match r {
                    Ok(path) => Ok(path@),
                    Err(message) => Err(message@),
                },
            ),
            Input::Status(s) => InputView::Status(s),
        }
    }
}

impl View for Action {
    type V = ActionView;

    open spec fn view(&self) -> ActionView {
        match *self {
            Action::LoadItem => ActionView::LoadItem,
            Action::Write(u) => ActionView::Write(u@),
            Action::Publish(e) => ActionView::Publish(e@),
            Action::ReadSetting => ActionView::ReadSetting,
            Action::RunDownloader => ActionView::RunDownloader,
            Action::Sleep { seconds } => ActionView::Sleep { seconds },
            Action::LoadStatus => ActionView::LoadStatus,
            Action::DeleteArtifact { path } => ActionView::DeleteArtifact { path: path@ },
        }
    }
}

/// The views of a list of actions, in order.
pub open spec fn actions_view(actions: Seq<Action>) -> Seq<ActionView> {
    actions.map_values(|a: Action| a@)
}

impl ActionView {
    /// Whether the caller owes the controller an answer for this action.
    pub open spec fn wants_answer(self) -> bool {
        match self {
            ActionView::LoadItem => true,
            ActionView::ReadSetting => true,
            ActionView::RunDownloader => true,
            ActionView::LoadStatus => true,
            ActionView::Write(UpdateView::Start { .. }) => true,
            _ => false,
        }
    }
}

/// The state of one run.
#[derive(Clone, Debug)]
pub struct RetryController {
    /// The item that the run is about.
    pub id: String,
    /// The static retry ceiling, used where no dynamic one is set.
    pub fallback_retries: u32,
    pub phase: Phase,
    /// The retry ceiling in force, read when the run starts.
    pub max_retries: u32,
    /// Retries made so far: 0 during the first attempt.
    pub attempt: u32,
    /// What the successful attempt produced, while the status is re-checked.
    pub output_path: String,
    /// When the last attempt ended.
    pub ended_at: i64,
}

pub struct ControllerView {
    pub id: Seq<char>,
    pub fallback_retries: u32,
    pub phase: Phase,
    pub max_retries: u32,
    pub attempt: u32,
    pub output_path: Seq<char>,
    pub ended_at: i64,
}

impl View for RetryController {
    type V = ControllerView;

    open spec fn view(&self) -> ControllerView {
        ControllerView {
            id: self.id@,
            fallback_retries: self.fallback_retries,
            phase: self.phase,
            max_retries: self.max_retries,
            attempt: self.attempt,
            output_path: self.output_path@,
            ended_at: self.ended_at,
        }
    }
}

impl ControllerView {
    /// The retries made never exceed the ceiling.
    pub open spec fn wf(self) -> bool {
        self.attempt <= self.max_retries
    }

    /// A run that has not started yet.
    pub open spec fn idle(id: Seq<char>, fallback_retries: u32) -> ControllerView {
        ControllerView {
            id,
            fallback_retries,
            phase: Phase::Idle,
            max_retries: 0,
            attempt: 0,
            output_path: Seq::empty(),
            ended_at: 0,
        }
    }

    pub open spec fn status_change(self, status: DownloadStatus) -> ActionView {
        ActionView::Publish(EventView::StatusChange { id: self.id, status })
    }

    pub open spec fn error_event(self, message: Seq<char>) -> ActionView {
        ActionView::Publish(EventView::Error { id: self.id, message })
    }

    pub open spec fn finished(self, outcome: Outcome) -> ControllerView {
        ControllerView { phase: Phase::Finished(outcome), ..self }
    }

    /// What follows a failed attempt: the end of the run where the ceiling is
    /// reached, else the stored and published message, the wait, and the next
    /// attempt.
    pub open spec fn after_failure(self, message: Seq<char>, now: i64) -> (
        ControllerView,
        Seq<ActionView>,
    ) {
        if self.attempt >= self.max_retries {
            (
                ControllerView { ended_at: now, ..self.finished(Outcome::Failed) },
                seq![
                    ActionView::Write(UpdateView::Fail { at: now, error: message }),
                    self.error_event(message),
                    self.status_change(DownloadStatus::Failed),
                ],
            )
        } else {
            let attempt = (self.attempt + 1) as u32;
            let delay = backoff_delay_spec(attempt);
            let text = retry_message_spec(attempt, self.max_retries, message, delay);
            (
                ControllerView { attempt, ..self },
                seq![
                    ActionView::Write(UpdateView::SetError { message: Some(text) }),
                    self.error_event(text),
                    ActionView::Sleep { seconds: delay },
                    ActionView::Write(UpdateView::SetError { message: None }),
                    self.status_change(DownloadStatus::Downloading),
                    ActionView::RunDownloader,
                ],
            )
        }
    }

    /// What follows the re-check after a successful attempt: a cancelled item
    /// keeps its status and loses the artifact; any other is marked `done`.
    pub open spec fn after_recheck(self, status: Option<DownloadStatus>) -> (
        ControllerView,
        Seq<ActionView>,
    ) {
        if status == Some(DownloadStatus::Cancelled) {
            (
                self.finished(Outcome::Discarded),
                if self.output_path.len() == 0 {
                    Seq::empty()
                } else {
                    seq![ActionView::DeleteArtifact { path: self.output_path }]
                },
            )
        } else {
            (
                self.finished(Outcome::Done),
                seq![
                    ActionView::Write(
                        UpdateView::Complete {
                            at: self.ended_at,
                            output_path: if self.output_path.len() == 0 {
                                None
                            } else {
                                Some(self.output_path)
                            },
                        },
                    ),
                    self.status_change(DownloadStatus::Done),
                ],
            )
        }
    }

    /// The transition function: the next state and the actions to perform, in
    /// order. An input that the phase does not wait for changes nothing.
    pub open spec fn step(self, input: InputView, now: i64) -> (ControllerView, Seq<ActionView>) {
        match (self.phase, input) {
            (Phase::Idle, InputView::Start) => (
                ControllerView { phase: Phase::Loading, ..self },
                seq![ActionView::LoadItem],
            ),
            (Phase::Loading, InputView::Item(None)) => (
                self.finished(Outcome::NotFound),
                Seq::empty(),
            ),
            (Phase::Loading, InputView::Item(Some(item))) => if item.status
                == DownloadStatus::Queued {
                (
                    ControllerView { phase: Phase::Marking, ..self },
                    seq![ActionView::Write(UpdateView::Start { at: now })],
                )
            } else {
                (self.finished(Outcome::NotEligible), Seq::empty())
            },
            (Phase::Marking, InputView::Written(false)) => (
                self.finished(Outcome::NotMarked),
                Seq::empty(),
            ),
            (Phase::Marking, InputView::Written(true)) => (
                ControllerView { phase: Phase::ReadingCeiling, ..self },
                seq![self.status_change(DownloadStatus::Downloading), ActionView::ReadSetting],
            ),
            (Phase::ReadingCeiling, InputView::Setting(setting)) => (
                ControllerView {
                    phase: Phase::Running,
                    max_retries: effective_max_retries_spec(setting, self.fallback_retries),
                    attempt: 0,
                    ..self
                },
                seq![ActionView::RunDownloader],
            ),
            (Phase::Running, InputView::Attempt(Ok(path))) => (
                ControllerView {
                    phase: Phase::Rechecking,
                    output_path: path,
                    ended_at: now,
                    ..self
                },
                seq![ActionView::LoadStatus],
            ),
            (Phase::Running, InputView::Attempt(Err(message))) => self.after_failure(message, now),
            (Phase::Rechecking, InputView::Status(status)) => self.after_recheck(status),
            _ => (self, Seq::empty()),
        }
    }
}

impl RetryController {
    pub open spec fn wf(&self) -> bool {
        self@.wf()
    }

    /// A run for item `id` that has not started yet.
    pub fn new(id: String, fallback_retries: u32) -> (c: RetryController)
        ensures
            c@ == ControllerView::idle(id@, fallback_retries),
            c.wf(),
    {
        RetryController {
            id,
            fallback_retries,
            phase: Phase::Idle,
            max_retries: 0,
            attempt: 0,
            output_path: String::new(),
            ended_at: 0,
        }
    }

    /// The outcome, once the run has ended.
    pub fn outcome(&self) -> (o: Option<Outcome>)
        ensures
            o == match self.phase {
                Phase::Finished(outcome) => Some(outcome),
                _ => None,
            },
    {
        match self.phase {
            Phase::Finished(outcome) => Some(outcome),
            _ => None,
        }
    }

    fn status_change(&self, status: DownloadStatus) -> (a: Action)
        ensures
            a@ == self@.status_change(status),
    {
        Action::Publish(WsEvent::StatusChange { id: self.id.clone(), status })
    }

    fn error_event(&self, message: &String) -> (a: Action)
        ensures
            a@ == self@.error_event(message@),
    {
        Action::Publish(WsEvent::Error { id: self.id.clone(), message: message.clone() })
    }

    fn after_failure(&mut self, message: String, now: i64) -> (actions: Vec<Action>)
        requires
            old(self).wf(),
        ensures
            (final(self)@, actions_view(actions@)) == old(self)@.after_failure(message@, now),
            final(self).wf(),
    {
        let mut actions: Vec<Action> = Vec::new();
        if self.attempt >= self.max_retries {
            actions.push(Action::Write(Update::Fail { at: now, error: message.clone() }));
            actions.push(self.error_event(&message));
            actions.push(self.status_change(DownloadStatus::Failed));
            self.phase = Phase::Finished(Outcome::Failed);
            self.ended_at = now;
            assert(actions_view(actions@) =~= old(self)@.after_failure(message@, now).1);
        } else {
            let attempt: u32 = self.attempt + 1;
            let delay = backoff_delay(attempt);
            let text = retry_message(attempt, self.max_retries, message.as_str(), delay);
            actions.push(Action::Write(Update::SetError { message: Some(text.clone()) }));
            actions.push(self.error_event(&text));
            actions.push(Action::Sleep { seconds: delay });
            actions.push(Action::Write(Update::SetError { message: None }));
            actions.push(self.status_change(DownloadStatus::Downloading));
            actions.push(Action::RunDownloader);
            self.attempt = attempt;
            assert(actions_view(actions@) =~= old(self)@.after_failure(message@, now).1);
        }
        actions
    }

    fn after_recheck(&mut self, status: Option<DownloadStatus>) -> (actions: Vec<Action>)
        ensures
            (final(self)@, actions_view(actions@)) == old(self)@.after_recheck(status),
            final(self).wf() == old(self).wf(),
    {
        let mut actions: Vec<Action> = Vec::new();
        let cancelled = match status {
            Some(DownloadStatus::Cancelled) => true,
            _ => false,
        };
        let no_artifact = self.output_path.as_str().is_empty();
        if cancelled {
            if !no_artifact {
                actions.push(Action::DeleteArtifact { path: self.output_path.clone() });
            }
            self.phase = Phase::Finished(Outcome::Discarded);
        } else {
            let output_path = if no_artifact {
                None
            } else {
                Some(self.output_path.clone())
            };
            actions.push(Action::Write(Update::Complete { at: self.ended_at, output_path }));
            actions.push(self.status_change(DownloadStatus::Done));
            self.phase = Phase::Finished(Outcome::Done);
        }
        assert(actions_view(actions@) =~= old(self)@.after_recheck(status).1);
        actions
    }

    /// Takes one input and returns what to do next, in order.
    pub fn step(&mut self, input: Input, now: i64) -> (actions: Vec<Action>)
        requires
            old(self).wf(),
        ensures
            (final(self)@, actions_view(actions@)) == old(self)@.step(input@, now),
            final(self).wf(),
    {
        let mut actions: Vec<Action> = Vec::new();
        match (self.phase, input) {
            (Phase::Idle, Input::Start) => {
                self.phase = Phase::Loading;
                actions.push(Action::LoadItem);
            },
            (Phase::Loading, Input::Item(None)) => {
                self.phase = Phase::Finished(Outcome::NotFound);
            },
            (Phase::Loading, Input::Item(Some(item))) => {
                if item.status == DownloadStatus::Queued {
                    self.phase = Phase::Marking;
                    actions.push(Action::Write(Update::Start { at: now }));
                } else {
                    self.phase = Phase::Finished(Outcome::NotEligible);
                }
            },
            (Phase::Marking, Input::Written(false)) => {
                self.phase = Phase::Finished(Outcome::NotMarked);
            },
            (Phase::Marking, Input::Written(true)) => {
                self.phase = Phase::ReadingCeiling;
                actions.push(self.status_change(DownloadStatus::Downloading));
                actions.push(Action::ReadSetting);
            },
            (Phase::ReadingCeiling, Input::Setting(setting)) => {
                let ceiling = match &setting {
                    Some(text) => effective_max_retries(Some(text.as_str()), self.fallback_retries),
                    None => effective_max_retries(None, self.fallback_retries),
                };
                self.phase = Phase::Running;
                self.max_retries = ceiling;
                self.attempt = 0;
                actions.push(Action::RunDownloader);
            },
            (Phase::Running, Input::Attempt(Ok(path))) => {
                self.phase = Phase::Rechecking;
                self.output_path = path;
                self.ended_at = now;
                actions.push(Action::LoadStatus);
            },
            (Phase::Running, Input::Attempt(Err(message))) => {
                return self.after_failure(message, now);
            },
            (Phase::Rechecking, Input::Status(status)) => {
                return self.after_recheck(status);
            },
            _ => {},
        }
        assert(actions_view(actions@) =~= old(self)@.step(input@, now).1);
        actions
    }
}

} // verus!

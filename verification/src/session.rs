//! The session manager's slot: the one triple of model, session and
//! template that is active, if any.

use crate::catalog::Template;
use crate::error::{PipelineError, PipelineErrorView};
use vstd::prelude::*;

verus! {

/// A loaded model, the session that runs on it, and the template it was
/// warmed up with. `M` is the model handle and `S` the session: the slot
/// keeps them and never looks inside.
pub struct ModelManager<M, S> {
    pub model: M,
    pub session: S,
    pub template: Template,
}

/// The slot of the active session. It holds one triple or none.
pub struct ManagerState<M, S> {
    active: Option<ModelManager<M, S>>,
}

impl<M, S> ManagerState<M, S> {
    /// The active triple, if there is one.
    pub closed spec fn active(&self) -> Option<ModelManager<M, S>> {
        self.active
    }

    /// An empty slot.
    pub fn new() -> (state: Self)
        ensures
            state.active() is None,
    {
        ManagerState { active: None }
    }

    /// Whether a session is active.
    pub fn is_started(&self) -> (started: bool)
        ensures
            started == self.active() is Some,
    {
        self.active.is_some()
    }

    /// Empties the slot, dropping the triple it held.
    pub fn clear(&mut self)
        ensures
            final(self).active() is None,
    {
        self.active = None;
    }

    /// Makes `manager` the active triple. What the slot held before is
    /// dropped whole: nothing of it is kept or merged.
    pub fn install(&mut self, manager: ModelManager<M, S>)
        ensures
            final(self).active() == Some(manager),
    {
        self.active = Some(manager);
    }

    /// The active model and template to read, and its session to run a
    /// prompt on: whatever the prompt does to the session, the model and the
    /// template stay as they are. Without an active triple the prompt fails,
    /// and the slot stays empty.
    pub fn prompt_parts(&mut self) -> (parts: Result<(&M, &mut S, &Template), PipelineError>)
        ensures
            match parts {
                Ok((model, session, template)) => prompt_gate(old(self).active()) == Ok::<
                    ModelManager<M, S>,
                    PipelineErrorView,
                >(ModelManager { model: *model, session: *session, template: *template })
                    && final(self).active() == slot_after_call(
                    old(self).active(),
                    Call::Prompt(
                        ModelManager {
                            model: *model,
                            session: *final(session),
                            template: *template,
                        },
                    ),
                ),
                Err(error) => prompt_gate(old(self).active()) == Err::<
                    ModelManager<M, S>,
                    PipelineErrorView,
                >(error@) && final(self).active() is None,
            },
    {
        match &mut self.active {
            Some(manager) => Ok((&manager.model, &mut manager.session, &manager.template)),
            None => Err(PipelineError::NotStarted),
        }
    }
}

/// How a start ends.
pub enum StartOutcome<M, S> {
    /// The start installed this triple.
    Started(ModelManager<M, S>),
    /// The start was cancelled while it fed the warm-up text.
    Cancelled,
    /// The start failed, at whichever stage.
    Failed,
}

/// What a prompt finds in the slot: the active triple, or the failure of a
/// prompt without one.
pub open spec fn prompt_gate<M, S>(slot: Option<ModelManager<M, S>>) -> Result<
    ModelManager<M, S>,
    PipelineErrorView,
> {
    match slot {
        Some(manager) => Ok(manager),
        None => Err(PipelineErrorView::NotStarted),
    }
}

/// The slot after one start that found it holding `before`. The start
/// empties the slot at its beginning, and only a start that runs to its end
/// fills it again: nothing of `before` is left either way.
pub open spec fn slot_after_start<M, S>(
    before: Option<ModelManager<M, S>>,
    outcome: StartOutcome<M, S>,
) -> Option<ModelManager<M, S>> {
    match outcome {
        StartOutcome::Started(manager) => Some(manager),
        StartOutcome::Cancelled => None,
        StartOutcome::Failed => None,
    }
}

/// A call on the session manager, with what it did.
pub enum Call<M, S> {
    /// A start, and how it ended.
    Start(StartOutcome<M, S>),
    /// A prompt, and the triple as the prompt left it where one was active.
    Prompt(ModelManager<M, S>),
}

/// The slot after one call that found it holding `before`. A prompt works
/// on the active triple in place, and leaves an empty slot empty.
pub open spec fn slot_after_call<M, S>(
    before: Option<ModelManager<M, S>>,
    call: Call<M, S>,
) -> Option<ModelManager<M, S>> {
    match call {
        Call::Start(outcome) => slot_after_start(before, outcome),
        Call::Prompt(left) => if before is Some {
            Some(left)
        } else {
            None
        },
    }
}

/// The slot after the given calls, one after the other, from `initial`.
pub open spec fn slot_after_calls<M, S>(
    initial: Option<ModelManager<M, S>>,
    calls: Seq<Call<M, S>>,
) -> Option<ModelManager<M, S>>
    decreases calls.len(),
{
    if calls.len() == 0 {
        initial
    } else {
        slot_after_call(slot_after_calls(initial, calls.drop_last()), calls.last())
    }
}

/// Whether the latest start among `calls` installed a session; without a
/// start among them, whether one was active before.
pub open spec fn latest_start_succeeded<M, S>(active_before: bool, calls: Seq<Call<M, S>>) -> bool
    decreases calls.len(),
{
    if calls.len() == 0 {
        active_before
    } else {
        match calls.last() {
            Call::Start(outcome) => outcome is Started,
            Call::Prompt(_) => latest_start_succeeded(active_before, calls.drop_last()),
        }
    }
}

/// After any calls, in any order, a session is active exactly when the
/// latest start installed one: a start that failed or was cancelled leaves
/// none, whatever was active before it, and no prompt brings one back.
pub proof fn lemma_latest_start_decides<M, S>(
    initial: Option<ModelManager<M, S>>,
    calls: Seq<Call<M, S>>,
)
    ensures
        slot_after_calls(initial, calls) is Some <==> latest_start_succeeded(
            initial is Some,
            calls,
        ),
        calls.len() > 0 ==> (calls.last() matches Call::Start(StartOutcome::Started(manager))
            ==> slot_after_calls(initial, calls) == Some(manager)),
    decreases calls.len(),
{
    if calls.len() > 0 {
        lemma_latest_start_decides(initial, calls.drop_last());
    }
}

/// After a start that failed or was cancelled, a prompt fails for want of
/// a session, whatever the slot held before that start.
pub proof fn lemma_no_session_after_failed_start<M, S>(
    before: Option<ModelManager<M, S>>,
    outcome: StartOutcome<M, S>,
)
    requires
        !(outcome is Started),
    ensures
        prompt_gate(slot_after_start(before, outcome)) == Err::<
            ModelManager<M, S>,
            PipelineErrorView,
        >(PipelineErrorView::NotStarted),
{
}

} // verus!

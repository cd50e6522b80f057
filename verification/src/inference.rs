//! The inference engine's two loops, token by token: feeding the warm-up
//! text to a freshly loaded model, and answering a prompt.
//!
//! The model produces the tokens; after each one it asks what to do next.
//! The answer is the cancellation flag's, read once per token, so a loop
//! that has been asked to stop halts at its next token and returns what it
//! has accumulated as an ordinary result.

use crate::cancellation::{Canceller, InferenceFeedback};
use crate::error::{PipelineError, PipelineErrorView};
use crate::progress::{
    all_within_unit, lemma_in_band, lemma_in_band_monotone, lemma_le_transitive, non_decreasing,
    Event, EventView, Fraction,
};
use crate::text::{
    decimal_digits, decimal_string, lemma_trim_adds_no_occurrence, occurs, remove_first, trim,
    trimmed, without_first,
};
use vstd::prelude::*;

verus! {

/// A token that the model hands out while it feeds or infers.
#[derive(Debug)]
pub enum InferenceResponse {
    /// A token replayed from a snapshot of an earlier session.
    SnapshotToken(String),
    /// A token of the prompt, handed back as it is consumed.
    PromptToken(String),
    /// A token that the model generated.
    InferredToken(String),
    /// The end of the generated text.
    EotToken,
}

/// An [`InferenceResponse`] with its text as a sequence of characters.
pub enum InferenceResponseView {
    SnapshotToken(Seq<char>),
    PromptToken(Seq<char>),
    InferredToken(Seq<char>),
    EotToken,
}

impl View for InferenceResponse {
    type V = InferenceResponseView;

    open spec fn view(&self) -> InferenceResponseView {
        match self {
            InferenceResponse::SnapshotToken(token) => InferenceResponseView::SnapshotToken(token@),
            InferenceResponse::PromptToken(token) => InferenceResponseView::PromptToken(token@),
            InferenceResponse::InferredToken(token) => InferenceResponseView::InferredToken(token@),
            InferenceResponse::EotToken => InferenceResponseView::EotToken,
        }
    }
}

/// Counters and timings of one inference, as the model reports them.
#[derive(Clone, Copy, Debug, PartialEq, Eq, Structural)]
pub struct InferenceStats {
    /// The time it took to feed the prompt, in nanoseconds.
    pub feed_prompt_duration: u128,
    /// The number of tokens of the prompt.
    pub prompt_tokens: usize,
    /// The time it took to generate the answer, in nanoseconds.
    pub predict_duration: u128,
    /// The number of generated tokens.
    pub predict_tokens: usize,
}

/// What the model is asked to do for one prompt.
#[derive(Debug)]
pub struct InferenceRequest {
    /// The text to answer.
    pub prompt: String,
    /// Whether the tokens of the session so far are handed out again first.
    pub play_back_previous_tokens: bool,
    /// The most tokens to generate; `None` sets no limit.
    pub maximum_token_count: Option<usize>,
}

/// What follows from one token: what the host is told, if anything, and
/// what the model is answered.
#[derive(Debug)]
pub struct Step {
    pub event: Option<Event>,
    pub feedback: InferenceFeedback,
}

/// The whole percent nearest to `part / whole`, a tie going to the even
/// one. A part beyond the whole counts as the whole; of an empty whole
/// every part is the whole.
pub open spec fn nearest_percent(part: int, whole: int) -> int {
    if whole <= 0 || part >= whole {
        100
    } else {
        let below = (100 * part) / whole;
        let rest = (100 * part) % whole;
        if 2 * rest > whole || (2 * rest == whole && below % 2 == 1) {
            below + 1
        } else {
            below
        }
    }
}

/// The message of a warm-up step.
pub open spec fn warm_up_message(consumed: int, total: int) -> Seq<char> {
    "Warming up model ("@ + decimal_digits(nearest_percent(consumed, total) as nat) + "%)"@
}

/// The fraction of the progress scale at which a warm-up stands that has
/// consumed `consumed` of `total` characters: warming up fills the band
/// from six tenths to the end.
pub open spec fn warm_up_fraction(consumed: int, total: int) -> Fraction {
    Fraction::in_band(6, 10, consumed, total)
}

/// The whole percent nearest to `part / whole`.
fn percent(part: usize, whole: usize) -> (percent: u64)
    ensures
        percent == nearest_percent(part as int, whole as int),
        percent <= 100,
{
    if whole == 0 || part >= whole {
        100
    } else {
        let scaled: u128 = 100 * (part as u128);
        let below: u128 = scaled / (whole as u128);
        let rest: u128 = scaled % (whole as u128);
        assert(below < 100) by (nonlinear_arith)
            requires
                below == scaled / (whole as u128),
                scaled < 100 * (whole as u128),
                whole > 0,
        ;
        if 2 * rest > whole as u128 || (2 * rest == whole as u128 && below % 2 == 1) {
            (below + 1) as u64
        } else {
            below as u64
        }
    }
}

/// How much of the warm-up text a feed has consumed.
#[derive(Debug)]
pub struct WarmUp {
    consumed: usize,
    total: usize,
}

/// The state of a [`WarmUp`], in characters.
pub struct WarmUpView {
    pub consumed: usize,
    pub total: usize,
}

impl WarmUpView {
    /// The characters consumed once a prompt token of `length` characters
    /// has been handed back: never more than the text has.
    pub open spec fn after_token(self, length: nat) -> usize {
        if self.consumed + length <= self.total {
            (self.consumed + length) as usize
        } else {
            self.total
        }
    }

    /// The state after `response`: only a prompt token moves it.
    pub open spec fn after(self, response: InferenceResponseView) -> WarmUpView {
        match response {
            InferenceResponseView::PromptToken(token) => WarmUpView {
                consumed: self.after_token(token.len()),
                total: self.total,
            },
            _ => self,
        }
    }

    /// What the host is told after `response`: the progress of the warm-up
    /// after a prompt token, nothing after any other.
    pub open spec fn report(self, response: InferenceResponseView) -> Option<EventView> {
        match response {
            InferenceResponseView::PromptToken(token) => {
                let consumed = self.after_token(token.len()) as int;
                Some(
                    EventView::ModelLoading {
                        message: warm_up_message(consumed, self.total as int),
                        progress: warm_up_fraction(consumed, self.total as int),
                    },
                )
            },
            _ => None,
        }
    }
}

impl View for WarmUp {
    type V = WarmUpView;

    closed spec fn view(&self) -> WarmUpView {
        WarmUpView { consumed: self.consumed, total: self.total }
    }
}

/// The view of an event that may be absent.
pub open spec fn event_view(event: Option<Event>) -> Option<EventView> {
    match event {
        Some(event) => Some(event@),
        None => None,
    }
}

impl WarmUp {
    /// No more is consumed than the text has.
    #[verifier::type_invariant]
    spec fn within_total(self) -> bool {
        self.consumed <= self.total
    }

    /// A feed of `warmup` that has consumed nothing yet.
    pub fn begin(warmup: &str) -> (feed: Self)
        ensures
            feed@ == (WarmUpView { consumed: 0, total: warmup@.len() as usize }),
    {
        WarmUp { consumed: 0, total: warmup.unicode_len() }
    }

    /// The characters consumed so far.
    pub fn consumed(&self) -> (consumed: usize)
        ensures
            consumed == self@.consumed,
            self@.consumed <= self@.total,
    {
        proof {
            use_type_invariant(self);
        }
        self.consumed
    }

    /// The characters of the warm-up text.
    pub fn total(&self) -> (total: usize)
        ensures
            total == self@.total,
    {
        self.total
    }

    /// Takes one token of the feed. A prompt token adds its characters to
    /// what has been consumed and reports the new progress; any other token
    /// changes and reports nothing. The model is told to halt exactly when
    /// cancellation is pending.
    pub fn on_response(&mut self, response: &InferenceResponse, canceller: &Canceller) -> (step:
        Step)
        ensures
            final(self)@ == old(self)@.after(response@),
            event_view(step.event) == old(self)@.report(response@),
            step.feedback == canceller.feedback(),
            old(self)@.consumed <= final(self)@.consumed <= final(self)@.total,
            warm_up_fraction(final(self)@.consumed as int, final(self)@.total as int).wf(),
    {
        proof {
            use_type_invariant(&*self);
        }
        let feedback = match canceller.inference_feedback() {
            Ok(feedback) => feedback,
            Err(_) => InferenceFeedback::Halt,
        };
        match response {
            InferenceResponse::PromptToken(token) => {
                let length: usize = token.as_str().unicode_len();
                let consumed: usize = if length <= self.total - self.consumed {
                    self.consumed + length
                } else {
                    self.total
                };
                self.consumed = consumed;
                let mut message = String::from_str("Warming up model (");
                message.append(decimal_string(percent(consumed, self.total)).as_str());
                message.append("%)");
                let progress = Fraction::within_band(6, 10, consumed as u64, self.total as u64);
                Step { event: Some(Event::ModelLoading { message, progress }), feedback }
            },
            _ => Step { event: None, feedback },
        }
    }
}

/// The answer to a prompt: the model's counters and the text.
#[derive(Debug)]
pub struct PromptResponse {
    pub stats: InferenceStats,
    pub message: String,
}

/// The text that answers `message`, given everything the model generated:
/// the first occurrence of `message` is taken out, then the whitespace
/// around the rest.
pub open spec fn answer_text(generated: Seq<char>, message: Seq<char>) -> Seq<char> {
    trimmed(without_first(generated, message))
}

/// One prompt being answered: the submitted text, and what the model has
/// generated for it so far.
#[derive(Debug)]
pub struct PromptRun {
    message: String,
    generated: String,
}

/// The state of a [`PromptRun`].
pub struct PromptRunView {
    pub message: Seq<char>,
    pub generated: Seq<char>,
}

impl PromptRunView {
    /// The state after `response`: an inferred token is appended to what
    /// has been generated, any other token is passed over.
    pub open spec fn after(self, response: InferenceResponseView) -> PromptRunView {
        match response {
            InferenceResponseView::InferredToken(token) => PromptRunView {
                message: self.message,
                generated: self.generated + token,
            },
            _ => self,
        }
    }

    /// What the host is told after `response`: an inferred token itself,
    /// nothing after any other.
    pub open spec fn report(self, response: InferenceResponseView) -> Option<EventView> {
        match response {
            InferenceResponseView::InferredToken(token) => Some(
                EventView::PromptResponse { message: token },
            ),
            _ => None,
        }
    }
}

impl View for PromptRun {
    type V = PromptRunView;

    closed spec fn view(&self) -> PromptRunView {
        PromptRunView { message: self.message@, generated: self.generated@ }
    }
}

impl PromptRun {
    /// A run for `message` for which nothing has been generated yet.
    /// `message` is the text exactly as it is submitted to the model: it is
    /// this text that is later taken out of the answer.
    pub fn begin(message: String) -> (run: Self)
        ensures
            run@ == (PromptRunView { message: message@, generated: Seq::empty() }),
    {
        PromptRun { message, generated: String::new() }
    }

    /// What the model is asked for this run: to answer the submitted text,
    /// without replaying the session and without a limit on the tokens.
    pub fn request(&self) -> (request: InferenceRequest)
        ensures
            request.prompt@ == self@.message,
            !request.play_back_previous_tokens,
            request.maximum_token_count is None,
    {
        InferenceRequest {
            prompt: self.message.clone(),
            play_back_previous_tokens: false,
            maximum_token_count: None,
        }
    }

    /// Takes one token of the answer. An inferred token is kept and handed
    /// on to the host; any other token is passed over. The model is told to
    /// halt exactly when cancellation is pending.
    pub fn on_response(&mut self, response: InferenceResponse, canceller: &Canceller) -> (step:
        Step)
        ensures
            final(self)@ == old(self)@.after(response@),
            event_view(step.event) == old(self)@.report(response@),
            step.feedback == canceller.feedback(),
    {
        let feedback = match canceller.inference_feedback() {
            Ok(feedback) => feedback,
            Err(_) => InferenceFeedback::Halt,
        };
        match response {
            InferenceResponse::InferredToken(token) => {
                self.generated.append(token.as_str());
                Step { event: Some(Event::PromptResponse { message: token }), feedback }
            },
            _ => Step { event: None, feedback },
        }
    }

    /// Ends the run with what the model returned. A failure of the model is
    /// the run's failure. Otherwise, whether the model ran to its end or
    /// was halted, the answer is what was generated without the echoed
    /// prompt, together with the model's counters, and the host is told
    /// with an empty piece that the answer is complete.
    pub fn finish(self, outcome: Result<InferenceStats, String>) -> (answer: Result<
        (PromptResponse, Event),
        PipelineError,
    >)
        ensures
            match outcome {
                Ok(stats) => answer matches Ok((response, event)) && response.stats == stats
                    && response.message@ == answer_text(self@.generated, self@.message) && event@
                    == (EventView::PromptResponse { message: Seq::empty() }),
                Err(reason) => answer matches Err(error) && error@ == PipelineErrorView::Inference(
                    reason@,
                ),
            },
    {
        match outcome {
            Ok(stats) => {
                let rest = remove_first(self.generated.as_str(), self.message.as_str());
                let message = String::from_str(trim(rest.as_str()));
                Ok((PromptResponse { stats, message }, Event::PromptResponse { message: String::new() }))
            },
            Err(reason) => Err(PipelineError::Inference(reason)),
        }
    }
}

/// Where taking out the first occurrence of the prompt leaves none behind,
/// the answer does not hold the prompt: trimming adds no occurrence.
pub proof fn lemma_answer_holds_no_prompt(generated: Seq<char>, message: Seq<char>)
    requires
        !occurs(without_first(generated, message), message),
    ensures
        !occurs(answer_text(generated, message), message),
{
    if occurs(answer_text(generated, message), message) {
        lemma_trim_adds_no_occurrence(without_first(generated, message), message);
    }
}

impl WarmUpView {
    /// The fractions reported for prompt tokens of the given lengths, fed
    /// in that order from this state on.
    pub open spec fn fractions(self, tokens: Seq<nat>) -> Seq<Fraction>
        decreases tokens.len(),
    {
        if tokens.len() == 0 {
            Seq::empty()
        } else {
            let consumed = self.after_token(tokens[0]);
            seq![warm_up_fraction(consumed as int, self.total as int)] + (WarmUpView {
                consumed,
                total: self.total,
            }).fractions(tokens.drop_first())
        }
    }
}

/// Over one feed the reported fractions never fall, never leave the band
/// from six tenths to one, and never fall below where the feed stood,
/// whatever the lengths of the tokens.
pub proof fn lemma_feed_progress_never_falls(state: WarmUpView, tokens: Seq<nat>)
    requires
        state.consumed <= state.total,
    ensures
        all_within_unit(state.fractions(tokens)),
        non_decreasing(state.fractions(tokens)),
        forall|i: int|
            0 <= i < state.fractions(tokens).len() ==> (Fraction { numer: 6, denom: 10 }).le(
                #[trigger] state.fractions(tokens)[i],
            ) && warm_up_fraction(state.consumed as int, state.total as int).le(
                state.fractions(tokens)[i],
            ),
    decreases tokens.len(),
{
    if tokens.len() > 0 {
        let consumed = state.after_token(tokens[0]);
        let next = WarmUpView { consumed, total: state.total };
        let rest = next.fractions(tokens.drop_first());
        let all = state.fractions(tokens);
        let here = warm_up_fraction(state.consumed as int, state.total as int);
        let there = warm_up_fraction(consumed as int, state.total as int);
        lemma_feed_progress_never_falls(next, tokens.drop_first());
        lemma_in_band(6, 10, state.consumed as int, state.total as int);
        lemma_in_band(6, 10, consumed as int, state.total as int);
        lemma_in_band_monotone(6, 10, state.consumed as int, consumed as int, state.total as int);
        let low = Fraction { numer: 6, denom: 10 };
        assert forall|i: int| 0 <= i < all.len() implies (#[trigger] all[i]).wf() && low.le(all[i])
            && here.le(all[i]) && there.le(all[i]) by {
            if i > 0 {
                assert(all[i] == rest[i - 1]);
                lemma_le_transitive(here, there, all[i]);
            }
        }
        assert forall|i: int, j: int| 0 <= i < j < all.len() implies (#[trigger] all[i]).le(
            #[trigger] all[j],
        ) by {
            assert(all[j] == rest[j - 1]);
            if i > 0 {
                assert(all[i] == rest[i - 1]);
            }
        }
    }
}

} // verus!

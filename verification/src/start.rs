//! Starting a session, stage by stage.
//!
//! A start resets the cancellation flag and empties the slot, puts the
//! warm-up text together, makes sure the weight file is in the cache, loads
//! it, feeds the warm-up text, and at last installs the new session. Each
//! stage is a type of its own. A stage is entered only through the one
//! before it, and the caller, who does the reading, fetching, loading and
//! feeding, hands each outcome to the stage that waits for it. A stage that
//! fails ends the start.

use crate::cancellation::Canceller;
use crate::catalog::{
    find_model, first_with_id, lemma_first_with_id, model_ids, Architecture, Model, ModelView,
    Template, TemplateView,
};
use crate::download::{acquire, is_download_event, Acquire, Download, DownloadView};
use crate::error::{PipelineError, PipelineErrorView};
use crate::inference::{
    event_view, lemma_feed_progress_never_falls, InferenceResponse, Step, WarmUp, WarmUpView,
};
use crate::loader::{
    lemma_later_phase_not_smaller, lemma_load_fraction_bounds, load_plan, plan_load, LoadPlan,
    LoadProgress,
};
use crate::progress::{
    all_within_unit, lemma_le_transitive, non_decreasing, Event, EventView, Fraction,
};
use crate::session::{slot_after_start, ManagerState, ModelManager, StartOutcome};
use crate::text::{join, join_texts, texts_of};
use vstd::prelude::*;

verus! {

/// What a start is asked for.
#[derive(Debug)]
pub struct StartRequest {
    /// The catalog identifier of the model.
    pub model_id: String,
    /// The identifier of the architecture that runs it.
    pub architecture: String,
    /// The identifier of the tokenizer source.
    pub tokenizer: String,
    /// The size of the context window, in tokens.
    pub context_size: usize,
    /// Whether the model is to run on the GPU.
    pub use_gpu: bool,
    /// The template whose text warms the model up.
    pub template: Template,
    /// The paths of the documents whose text goes before the template's.
    pub context_files: Vec<String>,
}

/// A [`StartRequest`] with its texts as sequences of characters.
pub struct StartRequestView {
    pub model_id: Seq<char>,
    pub architecture: Seq<char>,
    pub tokenizer: Seq<char>,
    pub context_size: usize,
    pub use_gpu: bool,
    pub template: TemplateView,
    pub context_files: Seq<Seq<char>>,
}

impl View for StartRequest {
    type V = StartRequestView;

    open spec fn view(&self) -> StartRequestView {
        StartRequestView {
            model_id: self.model_id@,
            architecture: self.architecture@,
            tokenizer: self.tokenizer@,
            context_size: self.context_size,
            use_gpu: self.use_gpu,
            template: self.template@,
            context_files: texts_of(self.context_files@),
        }
    }
}

/// The text that warms a model up: the context documents, one per line,
/// then on a line of its own the template's text; the template's text alone
/// where the documents hold nothing.
pub open spec fn warm_up_text(contexts: Seq<Seq<char>>, warmup: Seq<char>) -> Seq<char> {
    let context = join(contexts, "\n"@);
    if context.len() == 0 {
        warmup
    } else {
        context + "\n"@ + warmup
    }
}

/// Puts the warm-up text together from the texts of the context documents
/// and the template's text.
pub fn compose_warm_up(contexts: &Vec<String>, warmup: &str) -> (text: String)
    ensures
        text@ == warm_up_text(texts_of(contexts@), warmup@),
{
    let mut context = join_texts(contexts, "\n");
    if context.as_str().is_empty() {
        String::from_str(warmup)
    } else {
        context.append("\n");
        context.append(warmup);
        context
    }
}

/// The first stage: the flag is reset and the slot is empty; the context
/// documents are still to be read.
#[derive(Debug)]
pub struct Preparing {
    request: StartRequest,
}

impl View for Preparing {
    type V = StartRequestView;

    closed spec fn view(&self) -> StartRequestView {
        self.request@
    }
}

/// The second stage: the warm-up text is put together and the model is
/// known; whether the cache holds its weight file is still to be seen.
#[derive(Debug)]
pub struct Locating {
    request: StartRequest,
    warmup: String,
    model: Model,
}

/// The state of a [`Locating`].
pub struct LocatingView {
    pub request: StartRequestView,
    pub warmup: Seq<char>,
    pub model: ModelView,
}

impl View for Locating {
    type V = LocatingView;

    closed spec fn view(&self) -> LocatingView {
        LocatingView { request: self.request@, warmup: self.warmup@, model: self.model@ }
    }
}

/// The stage of a start whose weight file is being fetched.
#[derive(Debug)]
pub struct Downloading {
    request: StartRequest,
    warmup: String,
    model: Model,
    download: Download,
}

/// The state of a [`Downloading`].
pub struct DownloadingView {
    pub request: StartRequestView,
    pub warmup: Seq<char>,
    pub model: ModelView,
    pub download: DownloadView,
}

impl View for Downloading {
    type V = DownloadingView;

    closed spec fn view(&self) -> DownloadingView {
        DownloadingView {
            request: self.request@,
            warmup: self.warmup@,
            model: self.model@,
            download: self.download@,
        }
    }
}

/// The stage of a start whose weight file is in the cache and is being
/// loaded.
#[derive(Debug)]
pub struct Loading {
    plan: LoadPlan,
    warmup: String,
    template: Template,
}

/// The state of a [`Loading`].
pub struct LoadingView {
    pub plan: LoadPlan,
    pub warmup: Seq<char>,
    pub template: TemplateView,
}

impl View for Loading {
    type V = LoadingView;

    closed spec fn view(&self) -> LoadingView {
        LoadingView { plan: self.plan, warmup: self.warmup@, template: self.template@ }
    }
}

/// The last stage: the model is loaded and the warm-up text is being fed.
#[derive(Debug)]
pub struct WarmingUp {
    feed: WarmUp,
    warmup: String,
    template: Template,
}

/// The state of a [`WarmingUp`].
pub struct WarmingUpView {
    pub feed: WarmUpView,
    pub warmup: Seq<char>,
    pub template: TemplateView,
}

impl View for WarmingUp {
    type V = WarmingUpView;

    closed spec fn view(&self) -> WarmingUpView {
        WarmingUpView { feed: self.feed@, warmup: self.warmup@, template: self.template@ }
    }
}

/// How a start goes on once it is known whether the cache holds the file.
#[derive(Debug)]
pub enum Acquired {
    /// The file is in the cache: it is loaded next.
    Ready(Loading),
    /// The file is absent: it is fetched next.
    Fetch(Downloading),
}

/// The texts of the context documents, or the reason why one of them could
/// not be read, as sequences of characters.
pub open spec fn contexts_view(contexts: Result<Vec<String>, String>) -> Result<
    Seq<Seq<char>>,
    Seq<char>,
> {
    match contexts {
        Ok(texts) => Ok(texts_of(texts@)),
        Err(reason) => Err(reason@),
    }
}

/// Where `Preparing::locate` leads: a document that could not be read ends
/// the start with its reason; a model that the catalog does not hold ends
/// it next; otherwise the start goes on with the catalog's first model of
/// that identifier and the warm-up text.
pub open spec fn located(
    request: StartRequestView,
    catalog: Seq<Model>,
    contexts: Result<Seq<Seq<char>>, Seq<char>>,
) -> Result<LocatingView, PipelineErrorView> {
    match contexts {
        Err(reason) => Err(PipelineErrorView::ContextFile(reason)),
        Ok(texts) => if !model_ids(catalog).contains(request.model_id) {
            Err(PipelineErrorView::ModelNotFound)
        } else {
            Ok(
                LocatingView {
                    request,
                    warmup: warm_up_text(texts, request.template.warmup),
                    model: catalog[first_with_id(model_ids(catalog), request.model_id)]@,
                },
            )
        },
    }
}

/// Where a start goes once its weight file is in the cache: to loading,
/// unless the request names an unknown architecture or an unsupported
/// tokenizer source.
pub open spec fn planned(
    request: StartRequestView,
    warmup: Seq<char>,
    architectures: Seq<Architecture>,
) -> Result<LoadingView, PipelineErrorView> {
    match load_plan(
        architectures,
        request.architecture,
        request.tokenizer,
        request.context_size,
        request.use_gpu,
    ) {
        Ok(plan) => Ok(LoadingView { plan, warmup, template: request.template }),
        Err(error) => Err(error),
    }
}

/// Enters the loading stage.
fn enter_loading(
    request: StartRequest,
    warmup: String,
    architectures: &Vec<Architecture>,
) -> (loading: Result<Loading, PipelineError>)
    ensures
        match planned(request@, warmup@, architectures@) {
            Ok(stage) => loading matches Ok(entered) && entered@ == stage,
            Err(error) => loading matches Err(failure) && failure@ == error,
        },
{
    match plan_load(
        architectures,
        request.architecture.as_str(),
        request.tokenizer.as_str(),
        request.context_size,
        request.use_gpu,
    ) {
        Ok(plan) => Ok(Loading { plan, warmup, template: request.template }),
        Err(error) => Err(error),
    }
}

impl Preparing {
    /// Begins a start: clears the cancellation flag and empties the slot,
    /// so that no session is active until this start has installed its own.
    pub fn begin<M, S>(
        state: &mut ManagerState<M, S>,
        canceller: &mut Canceller,
        request: StartRequest,
    ) -> (stage: Self)
        ensures
            !final(canceller).cancelled(),
            final(state).active() is None,
            stage@ == request@,
    {
        canceller.reset();
        state.clear();
        Preparing { request }
    }

    /// The paths of the context documents to read.
    pub fn context_files(&self) -> (paths: &Vec<String>)
        ensures
            texts_of(paths@) == self@.context_files,
    {
        &self.request.context_files
    }

    /// Takes the texts of the context documents, or the reason why one
    /// could not be read, and looks the model up in `catalog`.
    pub fn locate(self, catalog: &Vec<Model>, contexts: Result<Vec<String>, String>) -> (stage:
        Result<Locating, PipelineError>)
        ensures
            match located(self@, catalog@, contexts_view(contexts)) {
                Ok(found) => stage matches Ok(next) && next@ == found,
                Err(error) => stage matches Err(failure) && failure@ == error,
            },
    {
        let texts = match contexts {
            Ok(texts) => texts,
            Err(reason) => {
                return Err(PipelineError::ContextFile(reason));
            },
        };
        let warmup = compose_warm_up(&texts, self.request.template.warmup.as_str());
        match find_model(catalog, self.request.model_id.as_str()) {
            Some(at) => {
                proof {
                    lemma_first_with_id(model_ids(catalog@), self.request.model_id@, at as int);
                }
                Ok(Locating { request: self.request, warmup, model: catalog[at].clone() })
            },
            None => Err(PipelineError::ModelNotFound),
        }
    }
}

impl Locating {
    /// The name under which the cache holds the model's weight file.
    pub fn filename(&self) -> (filename: &str)
        ensures
            filename@ == self@.model.filename,
    {
        self.model.filename.as_str()
    }

    /// The warm-up text.
    pub fn warmup(&self) -> (warmup: &str)
        ensures
            warmup@ == self@.warmup,
    {
        self.warmup.as_str()
    }

    /// Takes whether the cache holds the weight file. A file that is
    /// present is loaded as it is and nothing is fetched; an absent one is
    /// fetched first.
    pub fn acquire(self, present: bool, architectures: &Vec<Architecture>) -> (next: Result<
        Acquired,
        PipelineError,
    >)
        ensures
            if present {
                match planned(self@.request, self@.warmup, architectures@) {
                    Ok(loading) => next matches Ok(Acquired::Ready(stage)) && stage@ == loading,
                    Err(error) => next matches Err(failure) && failure@ == error,
                }
            } else {
                next matches Ok(Acquired::Fetch(stage)) && stage@ == (DownloadingView {
                    request: self@.request,
                    warmup: self@.warmup,
                    model: self@.model,
                    download: DownloadView { downloaded: 0, total: 0 },
                })
            },
    {
        match acquire(&self.model, present) {
            Acquire::Cached { .. } => {
                match enter_loading(self.request, self.warmup, architectures) {
                    Ok(loading) => Ok(Acquired::Ready(loading)),
                    Err(error) => Err(error),
                }
            },
            Acquire::Fetch { .. } => Ok(
                Acquired::Fetch(
                    Downloading {
                        request: self.request,
                        warmup: self.warmup,
                        model: self.model,
                        download: Download::begin(None),
                    },
                ),
            ),
        }
    }
}

impl Downloading {
    /// Where the weight file is fetched from.
    pub fn url(&self) -> (url: &str)
        ensures
            url@ == self@.model.url,
    {
        self.model.url.as_str()
    }

    /// The name under which the cache is to hold the weight file.
    pub fn filename(&self) -> (filename: &str)
        ensures
            filename@ == self@.model.filename,
    {
        self.model.filename.as_str()
    }

    /// Takes the total that the remote announced, if it announced one, and
    /// starts counting from nothing.
    pub fn opened(&mut self, content_length: Option<u64>)
        ensures
            final(self)@ == (DownloadingView {
                download: DownloadView {
                    downloaded: 0,
                    total: match content_length {
                        Some(total) => total,
                        None => 0,
                    },
                },
                ..old(self)@
            }),
    {
        self.download = Download::begin(content_length);
    }

    /// Takes the length of a chunk that has been written to the cache.
    /// With an announced total the host is told how far the download is
    /// with that chunk; without one it is told nothing.
    pub fn on_chunk(&mut self, length: u64) -> (event: Option<Event>)
        ensures
            final(self)@ == (DownloadingView {
                download: DownloadView {
                    downloaded: old(self)@.download.after_chunk(length),
                    total: old(self)@.download.total,
                },
                ..old(self)@
            }),
            match event {
                Some(event) => {
                    &&& old(self)@.download.total > 0
                    &&& is_download_event(
                        event@,
                        old(self)@.download.after_chunk(length),
                        old(self)@.download.total,
                        Fraction {
                            numer: old(self)@.download.after_chunk(length) as u128,
                            denom: old(self)@.download.total as u128,
                        },
                    )
                    &&& old(self)@.download.after_chunk(length) <= old(self)@.download.total
                },
                None => old(self)@.download.total == 0,
            },
    {
        match self.download.on_chunk(length) {
            Some(step) => Some(step.event()),
            None => None,
        }
    }

    /// Takes how the fetch ended. A failure of the network or the disk ends
    /// the start; after a complete fetch the start goes on as from a cached
    /// file.
    pub fn finish(self, outcome: Result<(), String>, architectures: &Vec<Architecture>) -> (next:
        Result<Loading, PipelineError>)
        ensures
            match outcome {
                Err(reason) => next matches Err(failure) && failure@ == PipelineErrorView::Download(
                    reason@,
                ),
                Ok(_) => match planned(self@.request, self@.warmup, architectures@) {
                    Ok(loading) => next matches Ok(stage) && stage@ == loading,
                    Err(error) => next matches Err(failure) && failure@ == error,
                },
            },
    {
        match outcome {
            Err(reason) => Err(PipelineError::Download(reason)),
            Ok(_) => enter_loading(self.request, self.warmup, architectures),
        }
    }
}

impl Loading {
    /// What the loader is asked to do.
    pub fn plan(&self) -> (plan: LoadPlan)
        ensures
            plan == self@.plan,
    {
        self.plan
    }

    /// Takes a phase that the loader reports: the host is told of it.
    pub fn on_progress(&self, phase: LoadProgress) -> (event: Event)
        ensures
            event@ == (EventView::ModelLoading {
                message: phase.message(),
                progress: phase.fraction(),
            }),
            phase.fraction().wf(),
    {
        phase.event()
    }

    /// Takes how the load ended. A failure ends the start before there is
    /// a model; after a load the warm-up text is fed, from its beginning.
    pub fn finish(self, outcome: Result<(), String>) -> (next: Result<WarmingUp, PipelineError>)
        ensures
            match outcome {
                Err(reason) => next matches Err(failure) && failure@ == PipelineErrorView::Load(
                    reason@,
                ),
                Ok(_) => next matches Ok(stage) && stage@ == (WarmingUpView {
                    feed: WarmUpView { consumed: 0, total: self@.warmup.len() as usize },
                    warmup: self@.warmup,
                    template: self@.template,
                }),
            },
    {
        match outcome {
            Err(reason) => Err(PipelineError::Load(reason)),
            Ok(_) => {
                let feed = WarmUp::begin(self.warmup.as_str());
                Ok(WarmingUp { feed, warmup: self.warmup, template: self.template })
            },
        }
    }
}

impl WarmingUp {
    /// The text to feed.
    pub fn warmup(&self) -> (warmup: &str)
        ensures
            warmup@ == self@.warmup,
    {
        self.warmup.as_str()
    }

    /// Takes one token of the feed: see [`WarmUp::on_response`].
    pub fn on_response(&mut self, response: &InferenceResponse, canceller: &Canceller) -> (step:
        Step)
        ensures
            final(self)@ == (WarmingUpView {
                feed: old(self)@.feed.after(response@),
                ..old(self)@
            }),
            event_view(step.event) == old(self)@.feed.report(response@),
            step.feedback == canceller.feedback(),
    {
        self.feed.on_response(response, canceller)
    }

    /// Takes how the feed ended, and with it the model and its session.
    ///
    /// A failed feed ends the start and the slot is left empty. Otherwise
    /// the host is told that the model is loaded. If cancellation is
    /// pending by then, the start answers `false`, which is no failure, and
    /// the slot is left empty. If not, the model, the session and the
    /// request's template become the active triple, in place of whatever
    /// the slot held, and the start answers `true`.
    pub fn finish<M, S>(
        self,
        outcome: Result<(), String>,
        canceller: &Canceller,
        state: &mut ManagerState<M, S>,
        model: M,
        session: S,
    ) -> (end: Result<(bool, Event), PipelineError>)
        ensures
            match outcome {
                Err(reason) => {
                    &&& end matches Err(failure) && failure@ == PipelineErrorView::Feed(reason@)
                    &&& final(state).active() == slot_after_start(
                        old(state).active(),
                        StartOutcome::Failed,
                    )
                },
                Ok(_) => {
                    &&& end matches Ok((started, event)) && started == !canceller.cancelled()
                        && event@ == (EventView::ModelLoading {
                        message: "Model loaded"@,
                        progress: Fraction { numer: 1, denom: 1 },
                    })
                    &&& if canceller.cancelled() {
                        final(state).active() == slot_after_start(
                            old(state).active(),
                            StartOutcome::Cancelled,
                        )
                    } else {
                        final(state).active() matches Some(manager) && manager.model == model
                            && manager.session == session && manager.template@
                            == self@.template && final(state).active() == slot_after_start(
                            old(state).active(),
                            StartOutcome::Started(manager),
                        )
                    }
                },
            },
    {
        match outcome {
            Err(reason) => {
                state.clear();
                Err(PipelineError::Feed(reason))
            },
            Ok(_) => {
                let event = Event::ModelLoading {
                    message: String::from_str("Model loaded"),
                    progress: Fraction::one(),
                };
                if canceller.is_cancelled() {
                    state.clear();
                    Ok((false, event))
                } else {
                    state.install(ModelManager { model, session, template: self.template });
                    Ok((true, event))
                }
            },
        }
    }
}

/// The fractions at which the given phases of a load stand.
pub open spec fn load_fractions(phases: Seq<LoadProgress>) -> Seq<Fraction> {
    Seq::new(phases.len(), |i: int| phases[i].fraction())
}

/// The loader reports its phases in the order in which a load goes through
/// them.
pub open spec fn reported_in_order(phases: Seq<LoadProgress>) -> bool {
    forall|i: int, j: int|
        0 <= i < j < phases.len() ==> (#[trigger] phases[i]).precedes(#[trigger] phases[j])
}

/// Every fraction that the host is told over a start that finds its weight
/// file in the cache: those of the loader's phases, those of the prompt
/// tokens of the feed, and the closing one.
pub open spec fn start_fractions(
    phases: Seq<LoadProgress>,
    warmup_length: usize,
    tokens: Seq<nat>,
) -> Seq<Fraction> {
    load_fractions(phases) + (WarmUpView { consumed: 0, total: warmup_length }).fractions(tokens)
        + seq![Fraction { numer: 1, denom: 1 }]
}

/// Over a start that finds its weight file in the cache, the fractions that
/// the host is told never fall and never leave the range from zero to one,
/// as long as the loader reports its phases in order. The lengths of the
/// warm-up text and of the tokens are free.
pub proof fn lemma_start_progress_never_falls(
    phases: Seq<LoadProgress>,
    warmup_length: usize,
    tokens: Seq<nat>,
)
    requires
        reported_in_order(phases),
    ensures
        all_within_unit(start_fractions(phases, warmup_length, tokens)),
        non_decreasing(start_fractions(phases, warmup_length, tokens)),
{
    let loaded = load_fractions(phases);
    let begun = WarmUpView { consumed: 0, total: warmup_length };
    let fed = begun.fractions(tokens);
    let all = start_fractions(phases, warmup_length, tokens);
    let middle = Fraction { numer: 6, denom: 10 };
    let whole = Fraction { numer: 1, denom: 1 };
    lemma_feed_progress_never_falls(begun, tokens);
    assert forall|i: int| 0 <= i < all.len() implies (#[trigger] all[i]).wf() by {
        if i < loaded.len() {
            lemma_load_fraction_bounds(phases[i]);
        } else if i < loaded.len() + fed.len() {
            assert(all[i] == fed[i - loaded.len()]);
        }
    }
    assert forall|i: int, j: int| 0 <= i < j < all.len() implies (#[trigger] all[i]).le(
        #[trigger] all[j],
    ) by {
        let loads = loaded.len() as int;
        let feeds = fed.len() as int;
        if j < loads {
            assert(all[i] == phases[i].fraction() && all[j] == phases[j].fraction());
            lemma_later_phase_not_smaller(phases[i], phases[j]);
        } else if i < loads {
            assert(all[i] == phases[i].fraction());
            lemma_load_fraction_bounds(phases[i]);
            if j < loads + feeds {
                let at = j - loads;
                assert(all[j] == fed[at]);
                assert(fed[at].wf());
                assert(middle.le(fed[at]));
                lemma_le_transitive(all[i], middle, all[j]);
            } else {
                assert(all[j] == whole);
                lemma_le_transitive(all[i], middle, whole);
            }
        } else {
            let at = i - loads;
            assert(all[i] == fed[at]);
            assert(fed[at].wf());
            if j < loads + feeds {
                assert(all[j] == fed[j - loads]);
                assert(fed[at].le(fed[j - loads]));
            } else {
                assert(all[j] == whole);
                assert(fed[at].numer * whole.denom <= whole.numer * fed[at].denom)
                    by (nonlinear_arith)
                    requires
                        fed[at].numer <= fed[at].denom,
                        whole.numer == 1,
                        whole.denom == 1,
                ;
            }
        }
    }
}

} // verus!

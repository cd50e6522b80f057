//! The load stage: what a start request asks of the loader, and the
//! progress that each of the loader's phases reports.
//!
//! Loading takes the band of the progress scale up to six tenths; the rest
//! belongs to the warm-up that follows it.

use crate::catalog::{
    architecture_ids, find_architecture, first_with_id, lemma_first_with_id, select_tokenizer,
    Architecture, ArchitectureKind, TokenizerSource,
};
use crate::error::{failure_view, PipelineError, PipelineErrorView};
use crate::progress::{
    lemma_in_band, lemma_in_band_monotone, lemma_le_transitive, Event, EventView, Fraction,
};
use crate::text::{decimal_digits, decimal_string};
use vstd::prelude::*;

verus! {

/// The parameters of one load.
#[derive(Clone, Copy, Debug, PartialEq, Eq, Structural)]
pub struct LoadParameters {
    /// The size of the context window, in tokens.
    pub context_size: usize,
    /// Whether the model is to run on the GPU.
    pub use_gpu: bool,
    /// Where the tokenizer comes from.
    pub tokenizer: TokenizerSource,
}

/// What the loader is asked to do: which strategy reads the weights, and
/// with which parameters.
#[derive(Clone, Copy, Debug, PartialEq, Eq, Structural)]
pub struct LoadPlan {
    pub architecture: ArchitectureKind,
    pub parameters: LoadParameters,
}

/// What `plan_load` answers to a request: the architecture is looked up
/// first, then the tokenizer source.
pub open spec fn load_plan(
    architectures: Seq<Architecture>,
    architecture: Seq<char>,
    tokenizer: Seq<char>,
    context_size: usize,
    use_gpu: bool,
) -> Result<LoadPlan, PipelineErrorView> {
    if !architecture_ids(architectures).contains(architecture) {
        Err(PipelineErrorView::ArchitectureNotFound)
    } else if tokenizer != "embedded"@ {
        Err(PipelineErrorView::TokenizerUnsupported)
    } else {
        let at = first_with_id(architecture_ids(architectures), architecture);
        Ok(
            LoadPlan {
                architecture: architectures[at].inner,
                parameters: LoadParameters {
                    context_size,
                    use_gpu,
                    tokenizer: TokenizerSource::Embedded,
                },
            },
        )
    }
}

/// Turns the identifiers of a start request into a plan for the loader. An
/// unknown architecture is refused before an unsupported tokenizer source.
pub fn plan_load(
    architectures: &Vec<Architecture>,
    architecture: &str,
    tokenizer: &str,
    context_size: usize,
    use_gpu: bool,
) -> (plan: Result<LoadPlan, PipelineError>)
    ensures
        failure_view(plan) == load_plan(
            architectures@,
            architecture@,
            tokenizer@,
            context_size,
            use_gpu,
        ),
{
    let at = match find_architecture(architectures, architecture) {
        Some(at) => at,
        None => {
            return Err(PipelineError::ArchitectureNotFound);
        },
    };
    let source = match select_tokenizer(tokenizer) {
        Some(source) => source,
        None => {
            return Err(PipelineError::TokenizerUnsupported);
        },
    };
    proof {
        lemma_first_with_id(architecture_ids(architectures@), architecture@, at as int);
    }
    Ok(
        LoadPlan {
            architecture: architectures[at].inner,
            parameters: LoadParameters { context_size, use_gpu, tokenizer: source },
        },
    )
}

/// A phase that the loader reports.
#[derive(Clone, Copy, Debug, PartialEq, Eq, Structural)]
pub enum LoadProgress {
    /// The hyperparameters have been read.
    HyperparametersLoaded,
    /// The context has been sized.
    ContextSize { bytes: usize },
    /// An adapter has been applied to the weights.
    LoraApplied,
    /// One more tensor has been read: its index and the number of tensors.
    TensorLoaded { current_tensor: usize, tensor_count: usize },
    /// The whole file has been read.
    Loaded { file_size: u64, tensor_count: usize },
}

impl LoadProgress {
    /// The fraction of the progress scale at which this phase stands.
    /// Tensors fill the band from two tenths to five tenths.
    pub open spec fn fraction(self) -> Fraction {
        match self {
            LoadProgress::HyperparametersLoaded => Fraction { numer: 5, denom: 100 },
            LoadProgress::ContextSize { .. } => Fraction { numer: 10, denom: 100 },
            LoadProgress::LoraApplied => Fraction { numer: 15, denom: 100 },
            LoadProgress::TensorLoaded { current_tensor, tensor_count } => Fraction::in_band(
                2,
                5,
                current_tensor as int,
                tensor_count as int,
            ),
            LoadProgress::Loaded { .. } => Fraction { numer: 60, denom: 100 },
        }
    }

    /// The message that tells the host of this phase.
    pub open spec fn message(self) -> Seq<char> {
        match self {
            LoadProgress::HyperparametersLoaded => "Hyper-parameters loaded"@,
            LoadProgress::ContextSize { .. } => "Context created"@,
            LoadProgress::LoraApplied => "LoRA applied"@,
            LoadProgress::TensorLoaded { current_tensor, tensor_count } => "Loading tensor "@
                + decimal_digits(current_tensor as nat) + "/"@ + decimal_digits(
                tensor_count as nat,
            ),
            LoadProgress::Loaded { .. } => "Model loaded"@,
        }
    }

    /// The place of this phase in the order in which a load goes through
    /// its phases.
    pub open spec fn rank(self) -> int {
        match self {
            LoadProgress::HyperparametersLoaded => 0,
            LoadProgress::ContextSize { .. } => 1,
            LoadProgress::LoraApplied => 2,
            LoadProgress::TensorLoaded { .. } => 3,
            LoadProgress::Loaded { .. } => 4,
        }
    }

    /// Whether a load that reports `self` may report `later` afterwards: a
    /// load never goes back to an earlier phase, and reads the tensors of
    /// one file in rising order.
    pub open spec fn precedes(self, later: LoadProgress) -> bool {
        match (self, later) {
            (
                LoadProgress::TensorLoaded { current_tensor: first, tensor_count: count },
                LoadProgress::TensorLoaded { current_tensor: second, tensor_count: other },
            ) => count == other && first <= second,
            _ => self.rank() <= later.rank(),
        }
    }

    /// The event that tells the host of this phase.
    pub fn event(&self) -> (event: Event)
        ensures
            event@ == (EventView::ModelLoading {
                message: self.message(),
                progress: self.fraction(),
            }),
            self.fraction().wf(),
    {
        match *self {
            LoadProgress::HyperparametersLoaded => Event::ModelLoading {
                message: String::from_str("Hyper-parameters loaded"),
                progress: Fraction::hundredths(5),
            },
            LoadProgress::ContextSize { .. } => Event::ModelLoading {
                message: String::from_str("Context created"),
                progress: Fraction::hundredths(10),
            },
            LoadProgress::LoraApplied => Event::ModelLoading {
                message: String::from_str("LoRA applied"),
                progress: Fraction::hundredths(15),
            },
            LoadProgress::TensorLoaded { current_tensor, tensor_count } => {
                let mut message = String::from_str("Loading tensor ");
                message.append(decimal_string(current_tensor as u64).as_str());
                message.append("/");
                message.append(decimal_string(tensor_count as u64).as_str());
                Event::ModelLoading {
                    message,
                    progress: Fraction::within_band(
                        2,
                        5,
                        current_tensor as u64,
                        tensor_count as u64,
                    ),
                }
            },
            LoadProgress::Loaded { .. } => Event::ModelLoading {
                message: String::from_str("Model loaded"),
                progress: Fraction::hundredths(60),
            },
        }
    }
}

/// Every phase stands within the loader's band: a defined fraction of at
/// most six tenths.
pub proof fn lemma_load_fraction_bounds(phase: LoadProgress)
    ensures
        phase.fraction().wf(),
        phase.fraction().le(Fraction { numer: 6, denom: 10 }),
{
    if let LoadProgress::TensorLoaded { current_tensor, tensor_count } = phase {
        lemma_in_band(2, 5, current_tensor as int, tensor_count as int);
    }
}

/// A phase that a load may report later never stands at a smaller fraction.
pub proof fn lemma_later_phase_not_smaller(phase: LoadProgress, later: LoadProgress)
    requires
        phase.precedes(later),
    ensures
        phase.fraction().le(later.fraction()),
{
    let low = Fraction { numer: 2, denom: 10 };
    let high = Fraction { numer: 5, denom: 10 };
    match (phase, later) {
        (
            LoadProgress::TensorLoaded { current_tensor: first, tensor_count: count },
            LoadProgress::TensorLoaded { current_tensor: second, tensor_count: other },
        ) => {
            lemma_in_band_monotone(2, 5, first as int, second as int, count as int);
        },
        (LoadProgress::TensorLoaded { current_tensor, tensor_count }, _) => {
            lemma_in_band(2, 5, current_tensor as int, tensor_count as int);
            assert(later.rank() == 4);
            assert(later.fraction() == (Fraction { numer: 60, denom: 100 }));
            assert(high.le(later.fraction()));
            lemma_le_transitive(phase.fraction(), high, later.fraction());
        },
        (_, LoadProgress::TensorLoaded { current_tensor, tensor_count }) => {
            lemma_in_band(2, 5, current_tensor as int, tensor_count as int);
            assert(phase.rank() <= 2);
            assert(phase.fraction().denom == 100 && phase.fraction().numer <= 15);
            assert(phase.fraction().le(low));
            lemma_le_transitive(phase.fraction(), low, later.fraction());
        },
        _ => {
            assert(phase.rank() <= later.rank());
            assert(phase.fraction().denom == 100 && later.fraction().denom == 100);
            assert(phase.fraction().numer <= later.fraction().numer);
        },
    }
}

} // verus!

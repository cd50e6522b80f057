//! The failures of the pipeline. Each is final for the call in which it
//! happens: nothing is tried again. A cancelled call is no failure.

use vstd::prelude::*;

verus! {

/// Why a start or a prompt failed.
#[derive(Debug)]
pub enum PipelineError {
    /// A context document could not be read.
    ContextFile(String),
    /// The catalog holds no model under the requested identifier.
    ModelNotFound,
    /// The network or the disk failed while the weight file was fetched.
    Download(String),
    /// No architecture has the requested identifier.
    ArchitectureNotFound,
    /// The requested tokenizer source is not supported.
    TokenizerUnsupported,
    /// The weight file could not be loaded.
    Load(String),
    /// The warm-up text could not be fed.
    Feed(String),
    /// A prompt was submitted while no session was active.
    NotStarted,
    /// The answer to a prompt could not be generated.
    Inference(String),
    /// The session could not be locked.
    Lock(String),
}

/// A [`PipelineError`] with its texts as sequences of characters.
pub enum PipelineErrorView {
    ContextFile(Seq<char>),
    ModelNotFound,
    Download(Seq<char>),
    ArchitectureNotFound,
    TokenizerUnsupported,
    Load(Seq<char>),
    Feed(Seq<char>),
    NotStarted,
    Inference(Seq<char>),
    Lock(Seq<char>),
}

impl View for PipelineError {
    type V = PipelineErrorView;

    open spec fn view(&self) -> PipelineErrorView {
        match self {
            PipelineError::ContextFile(reason) => PipelineErrorView::ContextFile(reason@),
            PipelineError::ModelNotFound => PipelineErrorView::ModelNotFound,
            PipelineError::Download(reason) => PipelineErrorView::Download(reason@),
            PipelineError::ArchitectureNotFound => PipelineErrorView::ArchitectureNotFound,
            PipelineError::TokenizerUnsupported => PipelineErrorView::TokenizerUnsupported,
            PipelineError::Load(reason) => PipelineErrorView::Load(reason@),
            PipelineError::Feed(reason) => PipelineErrorView::Feed(reason@),
            PipelineError::NotStarted => PipelineErrorView::NotStarted,
            PipelineError::Inference(reason) => PipelineErrorView::Inference(reason@),
            PipelineError::Lock(reason) => PipelineErrorView::Lock(reason@),
        }
    }
}

impl PipelineErrorView {
    /// The one message that the host is shown for this failure.
    pub open spec fn message(self) -> Seq<char> {
        match self {
            PipelineErrorView::ContextFile(reason) => reason,
            PipelineErrorView::ModelNotFound => "Model not found"@,
            PipelineErrorView::Download(reason) => reason,
            PipelineErrorView::ArchitectureNotFound => "Architecture not found"@,
            PipelineErrorView::TokenizerUnsupported => "Tokenizer not supported"@,
            PipelineErrorView::Load(reason) => "Error loading model: "@ + reason,
            PipelineErrorView::Feed(reason) => "Error feeding prompt: "@ + reason,
            PipelineErrorView::NotStarted => "Model not started"@,
            PipelineErrorView::Inference(reason) => "Error inferring: "@ + reason,
            PipelineErrorView::Lock(reason) => "Unable to lock the backend: "@ + reason,
        }
    }
}

impl PipelineError {
    /// The one message that the host is shown for this failure.
    pub fn message(&self) -> (message: String)
        ensures
            message@ == self@.message(),
    {
        match self {
            PipelineError::ContextFile(reason) => reason.clone(),
            PipelineError::ModelNotFound => String::from_str("Model not found"),
            PipelineError::Download(reason) => reason.clone(),
            PipelineError::ArchitectureNotFound => String::from_str("Architecture not found"),
            PipelineError::TokenizerUnsupported => String::from_str("Tokenizer not supported"),
            PipelineError::Load(reason) => {
                let mut message = String::from_str("Error loading model: ");
                message.append(reason.as_str());
                message
            },
            PipelineError::Feed(reason) => {
                let mut message = String::from_str("Error feeding prompt: ");
                message.append(reason.as_str());
                message
            },
            PipelineError::NotStarted => String::from_str("Model not started"),
            PipelineError::Inference(reason) => {
                let mut message = String::from_str("Error inferring: ");
                message.append(reason.as_str());
                message
            },
            PipelineError::Lock(reason) => {
                let mut message = String::from_str("Unable to lock the backend: ");
                message.append(reason.as_str());
                message
            },
        }
    }
}

/// A result with its failure, if it is one, as a view.
pub open spec fn failure_view<T>(result: Result<T, PipelineError>) -> Result<T, PipelineErrorView> {
    match result {
        Ok(value) => Ok(value),
        Err(error) => Err(error@),
    }
}

} // verus!

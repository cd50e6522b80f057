//! The catalog: the models that can be fetched, the architectures that can
//! run them, the tokenizer sources, and the prompt templates.

use crate::text::same_text;
use vstd::prelude::*;

verus! {

/// A model that can be downloaded: where it comes from and under which file
/// name it is cached.
#[derive(Debug)]
pub struct Model {
    pub name: String,
    pub url: String,
    pub filename: String,
    pub description: String,
    pub id: String,
}

/// A [`Model`] with its texts as sequences of characters.
pub struct ModelView {
    pub name: Seq<char>,
    pub url: Seq<char>,
    pub filename: Seq<char>,
    pub description: Seq<char>,
    pub id: Seq<char>,
}

impl View for Model {
    type V = ModelView;

    open spec fn view(&self) -> ModelView {
        ModelView {
            name: self.name@,
            url: self.url@,
            filename: self.filename@,
            description: self.description@,
            id: self.id@,
        }
    }
}

impl Clone for Model {
    fn clone(&self) -> (copy: Self)
        ensures
            copy@ == self@,
    {
        Model {
            name: self.name.clone(),
            url: self.url.clone(),
            filename: self.filename.clone(),
            description: self.description.clone(),
            id: self.id.clone(),
        }
    }
}

/// The native execution strategy that interprets a model's weights.
#[derive(Clone, Copy, Debug, PartialEq, Eq, Structural)]
pub enum ArchitectureKind {
    Llama,
    Gpt2,
}

/// An architecture as the host lists it: a display name, the identifier that
/// a start request names, and the strategy it selects.
#[derive(Debug)]
pub struct Architecture {
    pub name: String,
    pub id: String,
    pub inner: ArchitectureKind,
}

/// An [`Architecture`] with its texts as sequences of characters.
pub struct ArchitectureView {
    pub name: Seq<char>,
    pub id: Seq<char>,
    pub inner: ArchitectureKind,
}

impl View for Architecture {
    type V = ArchitectureView;

    open spec fn view(&self) -> ArchitectureView {
        ArchitectureView { name: self.name@, id: self.id@, inner: self.inner }
    }
}

impl Clone for Architecture {
    fn clone(&self) -> (copy: Self)
        ensures
            copy@ == self@,
    {
        Architecture { name: self.name.clone(), id: self.id.clone(), inner: self.inner }
    }
}

/// How text is turned into a model's tokens.
#[derive(Clone, Copy, Debug, PartialEq, Eq, Structural)]
pub enum TokenizerSource {
    /// The tokenizer that the weight file carries.
    Embedded,
}

/// A prompt template: its identifier and the text that warms a model up.
#[derive(Debug)]
pub struct Template {
    pub id: String,
    pub warmup: String,
}

/// A [`Template`] with its texts as sequences of characters.
pub struct TemplateView {
    pub id: Seq<char>,
    pub warmup: Seq<char>,
}

impl View for Template {
    type V = TemplateView;

    open spec fn view(&self) -> TemplateView {
        TemplateView { id: self.id@, warmup: self.warmup@ }
    }
}

impl Clone for Template {
    fn clone(&self) -> (copy: Self)
        ensures
            copy@ == self@,
    {
        Template { id: self.id.clone(), warmup: self.warmup.clone() }
    }
}

/// Whether `at` is the first place in `ids` that holds `id`.
pub open spec fn is_first_with_id(ids: Seq<Seq<char>>, id: Seq<char>, at: int) -> bool {
    &&& 0 <= at < ids.len()
    &&& ids[at] == id
    &&& forall|j: int| 0 <= j < at ==> ids[j] != id
}

/// The first place in `ids` that holds `id`, where there is one.
pub open spec fn first_with_id(ids: Seq<Seq<char>>, id: Seq<char>) -> int {
    choose|at: int| is_first_with_id(ids, id, at)
}

/// There is one first place at most.
pub proof fn lemma_first_with_id(ids: Seq<Seq<char>>, id: Seq<char>, at: int)
    requires
        is_first_with_id(ids, id, at),
    ensures
        first_with_id(ids, id) == at,
        ids.contains(id),
{
    let chosen = first_with_id(ids, id);
    if chosen < at {
        assert(ids[chosen] != id);
    } else if at < chosen {
        assert(ids[at] != id);
    }
}

/// The identifiers of the models of `catalog`, in its order.
pub open spec fn model_ids(catalog: Seq<Model>) -> Seq<Seq<char>> {
    Seq::new(catalog.len(), |i: int| catalog[i].id@)
}

/// The identifiers of `architectures`, in their order.
pub open spec fn architecture_ids(architectures: Seq<Architecture>) -> Seq<Seq<char>> {
    Seq::new(architectures.len(), |i: int| architectures[i].id@)
}

/// The place of the first model of `catalog` whose identifier is `id`.
pub fn find_model(catalog: &Vec<Model>, id: &str) -> (found: Option<usize>)
    ensures
        match found {
            Some(at) => is_first_with_id(model_ids(catalog@), id@, at as int),
            None => !model_ids(catalog@).contains(id@),
        },
{
    let mut at: usize = 0;
    while at < catalog.len()
        invariant
            at <= catalog.len(),
            forall|j: int| 0 <= j < at ==> model_ids(catalog@)[j] != id@,
        decreases catalog.len() - at,
    {
        if same_text(catalog[at].id.as_str(), id) {
            return Some(at);
        }
        at += 1;
    }
    None
}

/// The place of the first of `architectures` whose identifier is `id`.
pub fn find_architecture(architectures: &Vec<Architecture>, id: &str) -> (found: Option<usize>)
    ensures
        match found {
            Some(at) => is_first_with_id(architecture_ids(architectures@), id@, at as int),
            None => !architecture_ids(architectures@).contains(id@),
        },
{
    let mut at: usize = 0;
    while at < architectures.len()
        invariant
            at <= architectures.len(),
            forall|j: int| 0 <= j < at ==> architecture_ids(architectures@)[j] != id@,
        decreases architectures.len() - at,
    {
        if same_text(architectures[at].id.as_str(), id) {
            return Some(at);
        }
        at += 1;
    }
    None
}

/// The architectures that the application offers: Llama under `llama` and
/// GPT-2 under `gpt2`.
pub fn available_architectures() -> (architectures: Vec<Architecture>)
    ensures
        architectures@.len() == 2,
        architectures@[0]@ == (ArchitectureView {
            name: "Llama"@,
            id: "llama"@,
            inner: ArchitectureKind::Llama,
        }),
        architectures@[1]@ == (ArchitectureView {
            name: "GPT-2"@,
            id: "gpt2"@,
            inner: ArchitectureKind::Gpt2,
        }),
{
    let mut architectures: Vec<Architecture> = Vec::new();
    architectures.push(
        Architecture {
            name: String::from_str("Llama"),
            id: String::from_str("llama"),
            inner: ArchitectureKind::Llama,
        },
    );
    architectures.push(
        Architecture {
            name: String::from_str("GPT-2"),
            id: String::from_str("gpt2"),
            inner: ArchitectureKind::Gpt2,
        },
    );
    architectures
}

/// The tokenizer source that `id` names: only `embedded` names one.
pub fn select_tokenizer(id: &str) -> (source: Option<TokenizerSource>)
    ensures
        source == if id@ == "embedded"@ {
            Some(TokenizerSource::Embedded)
        } else {
            None
        },
{
    if same_text(id, "embedded") {
        Some(TokenizerSource::Embedded)
    } else {
        None
    }
}

} // verus!

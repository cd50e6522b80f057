use chitchat::catalog::{available_architectures, ArchitectureKind, TokenizerSource};
use chitchat::error::PipelineError;
use chitchat::loader::{plan_load, LoadProgress};
use chitchat::progress::{Event, Fraction};

fn value(fraction: Fraction) -> f64 {
    fraction.numer as f64 / fraction.denom as f64
}

fn parts(event: Event) -> (String, Fraction) {
    match event {
        Event::ModelLoading { message, progress } => (message, progress),
        Event::PromptResponse { .. } => panic!("a load reports loading events"),
    }
}

#[test]
fn plan_load_of_a_known_architecture_and_tokenizer() {
    let plan = plan_load(&available_architectures(), "llama", "embedded", 512, false).unwrap();
    assert_eq!(plan.architecture, ArchitectureKind::Llama);
    assert_eq!(plan.parameters.context_size, 512);
    assert!(!plan.parameters.use_gpu);
    assert_eq!(plan.parameters.tokenizer, TokenizerSource::Embedded);
    let plan = plan_load(&available_architectures(), "gpt2", "embedded", 2048, true).unwrap();
    assert_eq!(plan.architecture, ArchitectureKind::Gpt2);
    assert_eq!(plan.parameters.context_size, 2048);
    assert!(plan.parameters.use_gpu);
}

#[test]
fn plan_load_refuses_an_unknown_architecture() {
    let plan = plan_load(&available_architectures(), "mamba", "embedded", 512, false);
    assert!(matches!(plan, Err(PipelineError::ArchitectureNotFound)));
    let plan = plan_load(&Vec::new(), "llama", "embedded", 512, false);
    assert!(matches!(plan, Err(PipelineError::ArchitectureNotFound)));
}

#[test]
fn plan_load_refuses_an_unsupported_tokenizer() {
    let plan = plan_load(&available_architectures(), "llama", "remote", 512, false);
    assert!(matches!(plan, Err(PipelineError::TokenizerUnsupported)));
}

#[test]
fn plan_load_looks_the_architecture_up_first() {
    let plan = plan_load(&available_architectures(), "mamba", "remote", 512, false);
    assert!(matches!(plan, Err(PipelineError::ArchitectureNotFound)));
}

#[test]
fn fixed_phases_stand_at_fixed_fractions() {
    let (message, progress) = parts(LoadProgress::HyperparametersLoaded.event());
    assert_eq!(message, "Hyper-parameters loaded");
    assert_eq!((progress.numer, progress.denom), (5, 100));
    let (message, progress) = parts(LoadProgress::ContextSize { bytes: 1 << 20 }.event());
    assert_eq!(message, "Context created");
    assert_eq!((progress.numer, progress.denom), (10, 100));
    let (message, progress) = parts(LoadProgress::LoraApplied.event());
    assert_eq!(message, "LoRA applied");
    assert_eq!((progress.numer, progress.denom), (15, 100));
    let (message, progress) =
        parts(LoadProgress::Loaded { file_size: 4096, tensor_count: 4 }.event());
    assert_eq!(message, "Model loaded");
    assert_eq!((progress.numer, progress.denom), (60, 100));
}

#[test]
fn tensors_are_interpolated_between_two_and_five_tenths() {
    let mut seen = Vec::new();
    for current_tensor in 0..4 {
        let (message, progress) =
            parts(LoadProgress::TensorLoaded { current_tensor, tensor_count: 4 }.event());
        assert_eq!(message, format!("Loading tensor {}/4", current_tensor));
        seen.push((progress.numer, progress.denom));
    }
    assert_eq!(seen, vec![(8, 40), (11, 40), (14, 40), (17, 40)]);
    let (message, progress) =
        parts(LoadProgress::TensorLoaded { current_tensor: 291, tensor_count: 291 }.event());
    assert_eq!(message, "Loading tensor 291/291");
    assert_eq!(value(progress), 0.5);
}

#[test]
fn a_tensor_index_beyond_the_count_stays_in_the_band() {
    let (_, progress) =
        parts(LoadProgress::TensorLoaded { current_tensor: 9, tensor_count: 4 }.event());
    assert_eq!(value(progress), 0.5);
    let (message, progress) =
        parts(LoadProgress::TensorLoaded { current_tensor: 0, tensor_count: 0 }.event());
    assert_eq!(message, "Loading tensor 0/0");
    assert_eq!(value(progress), 0.5);
    let (_, progress) = parts(
        LoadProgress::TensorLoaded { current_tensor: usize::MAX, tensor_count: usize::MAX }
            .event(),
    );
    assert_eq!(value(progress), 0.5);
}

#[test]
fn a_load_in_order_never_reports_a_smaller_fraction() {
    let mut phases = vec![
        LoadProgress::HyperparametersLoaded,
        LoadProgress::ContextSize { bytes: 64 },
        LoadProgress::LoraApplied,
    ];
    for current_tensor in 0..7 {
        phases.push(LoadProgress::TensorLoaded { current_tensor, tensor_count: 7 });
    }
    phases.push(LoadProgress::Loaded { file_size: 1, tensor_count: 7 });
    let mut last = 0.0;
    for phase in phases {
        let (_, progress) = parts(phase.event());
        let now = value(progress);
        assert!(last <= now);
        assert!(now <= 0.6);
        last = now;
    }
    assert_eq!(last, 0.6);
}

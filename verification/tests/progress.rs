use chitchat::cancellation::Canceller;
use chitchat::inference::{InferenceResponse, WarmUp};
use chitchat::loader::LoadProgress;
use chitchat::progress::{Event, Fraction};

fn progress_of(event: Event) -> Fraction {
    match event {
        Event::ModelLoading { progress, .. } => progress,
        Event::PromptResponse { .. } => panic!("a loading event was expected"),
    }
}

#[test]
fn one_is_the_whole() {
    let fraction = Fraction::one();
    assert_eq!((fraction.numer, fraction.denom), (1, 1));
}

#[test]
fn fractions_are_exact_ratios() {
    let third = progress_of(LoadProgress::TensorLoaded { current_tensor: 1, tensor_count: 3 }.event());
    assert_eq!((third.numer, third.denom), (9, 30));
    let copy = third;
    assert_eq!((copy.numer, copy.denom), (third.numer, third.denom));
}

#[test]
fn a_band_takes_the_largest_counts() {
    let full = progress_of(
        LoadProgress::TensorLoaded { current_tensor: usize::MAX, tensor_count: usize::MAX }.event(),
    );
    assert_eq!(full.denom, 10 * (usize::MAX as u128));
    assert_eq!(full.numer, 5 * (usize::MAX as u128));
    let first = progress_of(
        LoadProgress::TensorLoaded { current_tensor: 1, tensor_count: usize::MAX }.event(),
    );
    assert_eq!(first.numer, 2 * (usize::MAX as u128) + 3);
}

#[test]
fn the_bands_of_loading_and_warming_up_meet_at_six_tenths() {
    let loaded = progress_of(LoadProgress::Loaded { file_size: 1, tensor_count: 1 }.event());
    assert_eq!(loaded.numer * 10, 6 * loaded.denom);
    let canceller = Canceller::new();
    let mut feed = WarmUp::begin("abc");
    let step = feed.on_response(&InferenceResponse::PromptToken(String::new()), &canceller);
    let begun = progress_of(step.event.unwrap());
    assert_eq!(begun.numer * 10, 6 * begun.denom);
}

#[test]
fn events_carry_their_fields() {
    let event = Event::ModelLoading { message: "x".to_string(), progress: Fraction::one() };
    match event {
        Event::ModelLoading { message, progress } => {
            assert_eq!(message, "x");
            assert_eq!((progress.numer, progress.denom), (1, 1));
        }
        Event::PromptResponse { .. } => panic!("a loading event was built"),
    }
    let event = Event::PromptResponse { message: "token".to_string() };
    assert!(matches!(event, Event::PromptResponse { message } if message == "token"));
}

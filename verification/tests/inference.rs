use chitchat::cancellation::{Canceller, InferenceFeedback};
use chitchat::error::PipelineError;
use chitchat::inference::{InferenceResponse, InferenceStats, PromptRun, WarmUp};
use chitchat::progress::{Event, Fraction};

fn value(fraction: Fraction) -> f64 {
    fraction.numer as f64 / fraction.denom as f64
}

fn loading(event: Option<Event>) -> (String, Fraction) {
    match event {
        Some(Event::ModelLoading { message, progress }) => (message, progress),
        _ => panic!("a loading event was expected"),
    }
}

fn piece(event: Option<Event>) -> String {
    match event {
        Some(Event::PromptResponse { message }) => message,
        _ => panic!("a piece of the answer was expected"),
    }
}

fn stats() -> InferenceStats {
    InferenceStats {
        feed_prompt_duration: 1_500_000,
        prompt_tokens: 3,
        predict_duration: 20_000_000,
        predict_tokens: 7,
    }
}

fn answer(generated: &[&str], message: &str) -> String {
    let canceller = Canceller::new();
    let mut run = PromptRun::begin(message.to_string());
    for token in generated {
        run.on_response(InferenceResponse::InferredToken(token.to_string()), &canceller);
    }
    run.finish(Ok(stats())).unwrap().0.message
}

#[test]
fn warm_up_begins_with_nothing_consumed() {
    let feed = WarmUp::begin("Hello");
    assert_eq!(feed.consumed(), 0);
    assert_eq!(feed.total(), 5);
    assert_eq!(WarmUp::begin("").total(), 0);
    assert_eq!(WarmUp::begin("héllo").total(), 5);
}

#[test]
fn prompt_tokens_move_the_warm_up_through_its_band() {
    let canceller = Canceller::new();
    let mut feed = WarmUp::begin("Hello world");
    let step = feed.on_response(&InferenceResponse::PromptToken("Hello".to_string()), &canceller);
    assert_eq!(step.feedback, InferenceFeedback::Continue);
    let (message, progress) = loading(step.event);
    assert_eq!(message, "Warming up model (45%)");
    assert_eq!((progress.numer, progress.denom), (6 * 11 + 4 * 5, 110));
    assert_eq!(feed.consumed(), 5);
    let step = feed.on_response(&InferenceResponse::PromptToken(" world".to_string()), &canceller);
    let (message, progress) = loading(step.event);
    assert_eq!(message, "Warming up model (100%)");
    assert_eq!(value(progress), 1.0);
    assert_eq!(feed.consumed(), 11);
}

#[test]
fn other_tokens_do_not_move_the_warm_up() {
    let canceller = Canceller::new();
    let mut feed = WarmUp::begin("Hello");
    for response in [
        InferenceResponse::SnapshotToken("He".to_string()),
        InferenceResponse::InferredToken("He".to_string()),
        InferenceResponse::EotToken,
    ] {
        let step = feed.on_response(&response, &canceller);
        assert!(step.event.is_none());
        assert_eq!(step.feedback, InferenceFeedback::Continue);
        assert_eq!(feed.consumed(), 0);
    }
}

#[test]
fn tokens_beyond_the_text_are_not_counted() {
    let canceller = Canceller::new();
    let mut feed = WarmUp::begin("Hi");
    let step = feed.on_response(&InferenceResponse::PromptToken("Hi there".to_string()), &canceller);
    let (message, progress) = loading(step.event);
    assert_eq!(message, "Warming up model (100%)");
    assert_eq!(value(progress), 1.0);
    assert_eq!(feed.consumed(), 2);
}

#[test]
fn an_empty_warm_up_is_complete_at_once() {
    let canceller = Canceller::new();
    let mut feed = WarmUp::begin("");
    let step = feed.on_response(&InferenceResponse::PromptToken(String::new()), &canceller);
    let (message, progress) = loading(step.event);
    assert_eq!(message, "Warming up model (100%)");
    assert_eq!(value(progress), 1.0);
}

#[test]
fn warm_up_counts_characters() {
    let canceller = Canceller::new();
    let mut feed = WarmUp::begin("ééééé");
    let step = feed.on_response(&InferenceResponse::PromptToken("é".to_string()), &canceller);
    let (message, progress) = loading(step.event);
    assert_eq!(message, "Warming up model (20%)");
    assert_eq!((progress.numer, progress.denom), (34, 50));
}

#[test]
fn warm_up_percent_rounds_to_the_nearest_with_ties_to_even() {
    let canceller = Canceller::new();
    let mut feed = WarmUp::begin("12345678");
    let mut seen = Vec::new();
    for _ in 0..8 {
        let step = feed.on_response(&InferenceResponse::PromptToken("x".to_string()), &canceller);
        seen.push(loading(step.event).0);
    }
    let expected: Vec<String> = [12, 25, 38, 50, 62, 75, 88, 100]
        .iter()
        .map(|percent| format!("Warming up model ({}%)", percent))
        .collect();
    assert_eq!(seen, expected);
    let mut feed = WarmUp::begin("123");
    let step = feed.on_response(&InferenceResponse::PromptToken("x".to_string()), &canceller);
    assert_eq!(loading(step.event).0, "Warming up model (33%)");
    let step = feed.on_response(&InferenceResponse::PromptToken("x".to_string()), &canceller);
    assert_eq!(loading(step.event).0, "Warming up model (67%)");
}

#[test]
fn warm_up_fractions_never_fall() {
    let canceller = Canceller::new();
    let mut feed = WarmUp::begin("The quick brown fox jumps over the lazy dog");
    let mut last = 0.6;
    for token in ["The", " quick", "", " brown", " fox", " jumps", " over", " the", " lazy", " dog"] {
        let step = feed.on_response(&InferenceResponse::PromptToken(token.to_string()), &canceller);
        let now = value(loading(step.event).1);
        assert!(last <= now);
        assert!(now <= 1.0);
        last = now;
    }
    assert_eq!(last, 1.0);
}

#[test]
fn a_pending_cancellation_halts_the_feed_at_the_next_token() {
    let mut canceller = Canceller::new();
    let mut feed = WarmUp::begin("one two three four five");
    let mut fed = 0;
    for token in ["one", " two", " three", " four", " five"] {
        if fed == 3 {
            canceller.cancel();
        }
        let step = feed.on_response(&InferenceResponse::PromptToken(token.to_string()), &canceller);
        fed += 1;
        if step.feedback == InferenceFeedback::Halt {
            break;
        }
    }
    assert_eq!(fed, 4);
}

#[test]
fn prompt_request_sets_no_limit() {
    let run = PromptRun::begin("Hi".to_string());
    let request = run.request();
    assert_eq!(request.prompt, "Hi");
    assert!(!request.play_back_previous_tokens);
    assert_eq!(request.maximum_token_count, None);
}

#[test]
fn inferred_tokens_are_streamed_and_kept() {
    let canceller = Canceller::new();
    let mut run = PromptRun::begin("Hi".to_string());
    let step = run.on_response(InferenceResponse::InferredToken("Hel".to_string()), &canceller);
    assert_eq!(piece(step.event), "Hel");
    assert_eq!(step.feedback, InferenceFeedback::Continue);
    let step = run.on_response(InferenceResponse::InferredToken("lo".to_string()), &canceller);
    assert_eq!(piece(step.event), "lo");
    let (response, event) = run.finish(Ok(stats())).unwrap();
    assert_eq!(response.message, "Hello");
    assert_eq!(response.stats, stats());
    assert_eq!(piece(Some(event)), "");
}

#[test]
fn other_tokens_are_passed_over_by_a_prompt() {
    let canceller = Canceller::new();
    let mut run = PromptRun::begin("Hi".to_string());
    for response in [
        InferenceResponse::PromptToken("Hi".to_string()),
        InferenceResponse::SnapshotToken("old".to_string()),
        InferenceResponse::EotToken,
    ] {
        let step = run.on_response(response, &canceller);
        assert!(step.event.is_none());
        assert_eq!(step.feedback, InferenceFeedback::Continue);
    }
    let (response, _) = run.finish(Ok(stats())).unwrap();
    assert_eq!(response.message, "");
}

#[test]
fn the_framed_prompt_is_taken_out_of_the_answer() {
    let message = "USER: Hi\nSYSTEM: ";
    assert_eq!(answer(&["USER: Hi\nSYSTEM: ", "Hello", " there!", "\n"], message), "Hello there!");
    assert_eq!(answer(&["  USER: ", "Hi\nSYSTEM: ", " Good day  "], message), "Good day");
}

#[test]
fn only_the_first_occurrence_of_the_prompt_is_taken_out() {
    assert_eq!(answer(&["Hi", " you said Hi"], "Hi"), "you said Hi");
    assert_eq!(answer(&["aabb"], "ab"), "ab");
}

#[test]
fn an_answer_without_the_prompt_is_only_trimmed() {
    assert_eq!(answer(&["  Hello", " there \n"], "Hi"), "Hello there");
    assert_eq!(answer(&[], "Hi"), "");
}

#[test]
fn an_echoed_prompt_does_not_stay_in_the_answer() {
    for (generated, message) in [
        ("Hi Hello", "Hi"),
        ("What is Rust? Rust is a language.", "What is Rust?"),
        (" tell me \n a story ", "tell me"),
    ] {
        let text = answer(&[generated], message);
        assert!(!text.contains(message));
    }
}

#[test]
fn a_halted_prompt_returns_what_it_has() {
    let mut canceller = Canceller::new();
    let mut run = PromptRun::begin("Hi".to_string());
    let mut delivered = 0;
    for token in ["Hi", " one", " two", " three", " four"] {
        if delivered == 3 {
            canceller.cancel();
        }
        let step = run.on_response(InferenceResponse::InferredToken(token.to_string()), &canceller);
        delivered += 1;
        if step.feedback == InferenceFeedback::Halt {
            break;
        }
    }
    assert_eq!(delivered, 4);
    let partial = InferenceStats {
        feed_prompt_duration: 10,
        prompt_tokens: 1,
        predict_duration: 30,
        predict_tokens: 3,
    };
    let (response, event) = run.finish(Ok(partial)).unwrap();
    assert_eq!(response.message, "one two three");
    assert_eq!(response.stats, partial);
    assert_eq!(piece(Some(event)), "");
}

#[test]
fn a_failed_inference_fails_the_prompt() {
    let canceller = Canceller::new();
    let mut run = PromptRun::begin("Hi".to_string());
    run.on_response(InferenceResponse::InferredToken("Hel".to_string()), &canceller);
    match run.finish(Err("context window full".to_string())) {
        Err(PipelineError::Inference(reason)) => assert_eq!(reason, "context window full"),
        _ => panic!("the prompt fails with the model's failure"),
    }
}

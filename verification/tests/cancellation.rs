use chitchat::cancellation::{Canceller, InferenceFeedback};

#[test]
fn new_canceller_is_not_cancelled() {
    let canceller = Canceller::new();
    assert!(!canceller.is_cancelled());
    assert_eq!(canceller.inference_feedback(), Ok(InferenceFeedback::Continue));
}

#[test]
fn default_canceller_is_not_cancelled() {
    let canceller = Canceller::default();
    assert!(!canceller.is_cancelled());
}

#[test]
fn cancel_sets_the_flag() {
    let mut canceller = Canceller::new();
    canceller.cancel();
    assert!(canceller.is_cancelled());
}

#[test]
fn cancel_is_idempotent() {
    let mut canceller = Canceller::new();
    canceller.cancel();
    canceller.cancel();
    assert!(canceller.is_cancelled());
    assert_eq!(canceller.inference_feedback(), Ok(InferenceFeedback::Halt));
}

#[test]
fn reset_clears_the_flag() {
    let mut canceller = Canceller::new();
    canceller.cancel();
    canceller.reset();
    assert!(!canceller.is_cancelled());
    assert_eq!(canceller.inference_feedback(), Ok(InferenceFeedback::Continue));
}

#[test]
fn reset_of_a_clear_flag_keeps_it_clear() {
    let mut canceller = Canceller::new();
    canceller.reset();
    assert!(!canceller.is_cancelled());
}

#[test]
fn feedback_is_halt_right_after_cancel() {
    let mut canceller = Canceller::new();
    let mut answers = Vec::new();
    for token in 0..5 {
        if token == 3 {
            canceller.cancel();
        }
        let answer = canceller.inference_feedback().unwrap();
        answers.push(answer);
        if answer == InferenceFeedback::Halt {
            break;
        }
    }
    assert_eq!(
        answers,
        vec![
            InferenceFeedback::Continue,
            InferenceFeedback::Continue,
            InferenceFeedback::Continue,
            InferenceFeedback::Halt,
        ]
    );
}

#[test]
fn reading_the_flag_does_not_change_it() {
    let mut canceller = Canceller::new();
    canceller.cancel();
    for _ in 0..3 {
        assert!(canceller.is_cancelled());
        assert_eq!(canceller.inference_feedback(), Ok(InferenceFeedback::Halt));
    }
}

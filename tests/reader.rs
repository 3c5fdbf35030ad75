use clipper::clip::Clip;
use clipper::reader::{select_reading, ReadStep, RetryReader};

#[test]
fn changed_length_is_taken_over_earlier_readings() {
    let sigs = vec![Some(5), Some(5), Some(5), Some(5), Some(9)];
    assert_eq!(select_reading(&sigs, Some(5)), Some(4));
}

#[test]
fn constant_length_is_taken_on_final_attempt() {
    let sigs = vec![Some(5), Some(5), Some(5), Some(5), Some(5)];
    assert_eq!(select_reading(&sigs, Some(5)), Some(4));
}

#[test]
fn first_reading_taken_without_prior_signature() {
    let sigs = vec![Some(5), Some(5), Some(9)];
    assert_eq!(select_reading(&sigs, None), Some(0));
}

#[test]
fn change_in_the_middle_is_taken_at_once() {
    let sigs = vec![Some(3), Some(7), Some(7)];
    assert_eq!(select_reading(&sigs, Some(3)), Some(1));
}

#[test]
fn nothing_readable_gives_none() {
    let sigs = vec![None, None, None, None, None];
    assert_eq!(select_reading(&sigs, Some(5)), None);
    assert_eq!(select_reading(&sigs, None), None);
    assert_eq!(select_reading(&vec![], None), None);
}

#[test]
fn stale_reading_before_empty_polls_is_still_returned() {
    let sigs = vec![Some(5), None, None];
    assert_eq!(select_reading(&sigs, Some(5)), Some(0));
}

#[test]
fn empty_polls_then_content_returns_content() {
    let sigs = vec![None, None, Some(4)];
    assert_eq!(select_reading(&sigs, Some(4)), Some(2));
}

#[test]
fn reader_steps_through_a_run() {
    let mut r = RetryReader::new(3, Some(5));
    assert!(r.polling());
    assert_eq!(r.observe(Some(5)), ReadStep::Poll);
    assert_eq!(r.observe(None), ReadStep::Poll);
    assert_eq!(r.observe(Some(5)), ReadStep::TakeLast);
    assert!(!r.polling());

    let mut r = RetryReader::new(2, None);
    assert_eq!(r.observe(None), ReadStep::Poll);
    assert_eq!(r.observe(None), ReadStep::Empty);

    let mut r = RetryReader::new(4, Some(1));
    assert_eq!(r.observe(Some(2)), ReadStep::Take);
    assert_eq!(r.attempt, 0);
}

#[test]
fn signature_counts_characters_and_bytes() {
    let t = Clip::Text { plain: "héllo".to_string() };
    assert_eq!(t.signature(), 5);
    let i = Clip::Image { data: vec![1, 2, 3], width: 1, height: 1 };
    assert_eq!(i.signature(), 3);
}

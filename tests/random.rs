use scheduled_sse::{batch_from_draws, Fetcher, RandomFetcher, SharedState};

fn check_batch(batch: &[String], max_batch: u16, max_number: u16) {
    assert!(batch.len() < max_batch as usize);
    for text in batch {
        let n: u16 = text.parse().expect("an item is a decimal number");
        assert!(n < max_number);
        assert_eq!(&n.to_string(), text);
    }
}

#[test]
fn random_batches_stay_within_bounds() {
    let mut f = RandomFetcher::new(10, 10);
    for _ in 0..200 {
        let batch = f.fetch().unwrap();
        check_batch(&batch, 10, 10);
    }
}

#[test]
fn random_numbers_use_the_whole_decimal_range() {
    let mut f = RandomFetcher::new(50, 1000);
    let mut seen_three_digits = false;
    let mut seen_nonempty = false;
    for _ in 0..400 {
        let batch = f.fetch().unwrap();
        check_batch(&batch, 50, 1000);
        seen_nonempty |= !batch.is_empty();
        seen_three_digits |= batch.iter().any(|t| t.len() == 3);
    }
    assert!(seen_nonempty);
    assert!(seen_three_digits);
}

#[test]
fn batch_bound_of_one_gives_empty_batches() {
    let mut f = RandomFetcher::new(1, 0);
    for _ in 0..20 {
        assert!(f.fetch().unwrap().is_empty());
    }
}

#[test]
fn random_fetcher_keeps_its_bounds() {
    let f = RandomFetcher::new(7, 300);
    assert_eq!(f.max_batch(), 7);
    assert_eq!(f.max_number(), 300);
}

#[test]
fn shared_state_holds_its_settings() {
    let state = SharedState::new(10, 10, 3);
    assert_eq!(state.max_batch(), 10);
    assert_eq!(state.max_number(), 10);
    assert_eq!(state.repeat_secs(), 3);
}

#[test]
fn shared_state_builds_fetchers_only_from_drawable_bounds() {
    let f = SharedState::new(10, 20, 3).new_fetcher().expect("bounds are drawable");
    assert_eq!(f.max_batch(), 10);
    assert_eq!(f.max_number(), 20);
    assert!(SharedState::new(0, 20, 3).new_fetcher().is_none());
    assert!(SharedState::new(2, 0, 3).new_fetcher().is_none());
    assert!(SharedState::new(1, 0, 3).new_fetcher().is_some());
}

#[test]
fn batch_from_draws_writes_each_number_in_order() {
    let batch = batch_from_draws(&vec![0, 7, 42, 100, 65535, 9]);
    assert_eq!(batch, vec!["0", "7", "42", "100", "65535", "9"]);
    assert!(batch_from_draws(&vec![]).is_empty());
}

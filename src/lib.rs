//! A feed that turns batches, fetched on a timer, into a stream of single items.
//!
//! `scheduled_stream` holds the buffering state machine, its model and its
//! laws; `random_fetcher` a producer that draws random numbers; and
//! `shared_state` the settings from which each connection builds its producer.
mod random_fetcher;
mod scheduled_stream;
mod shared_state;

pub use random_fetcher::{batch_from_draws, decimal, digit_char, is_number_below, RandomFetcher};
pub use scheduled_stream::{
    after_empty_batches, flatten, lemma_delivery_order, lemma_empty_batches,
    lemma_pull_keeps_order, Fetcher, PullResult, ScheduledStream, StreamModel, StreamState,
};
pub use shared_state::SharedState;

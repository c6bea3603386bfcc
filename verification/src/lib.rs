//! A simulated card-payment processor for integration testing: classifies
//! payment attempts against a fixed table of test card numbers, turns an
//! attempt plus its classification into a persisted payment record (staging a
//! redirect for 3-D-Secure flows), and persists records in a key-value store
//! with a secondary attempt-id index.

pub mod flows;
pub mod store;
pub mod strings;
pub mod types;

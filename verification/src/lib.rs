//! Verified setup logic for benchmarking the crowdloan rewards pallet:
//! funding accounts, generating contributors, splitting them into
//! insertion batches, the mock relay-chain validation data, and the
//! ed25519 identity proof used to associate a native account.
pub mod batching;
pub mod config;
pub mod contributors;
pub mod funding;
pub mod relay_data;
pub mod signing;

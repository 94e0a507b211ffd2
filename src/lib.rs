//! A key-value store contract: the operations a store offers, stated over
//! what every store must report, the stores reached through a reference, a
//! `Box` or an `Arc`, and the prefix range computation that bounds scans.

pub mod delegate;
pub mod kv_api;
pub mod prefix;

pub use kv_api::ApiBuilder;
pub use kv_api::KVApi;
pub use prefix::get_start_and_end_of_prefix;
pub use prefix::prefix_of_string;

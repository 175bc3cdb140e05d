//! Memoization of pure computations in a persistent cache.
//!
//! A function is registered once, with its inputs and the canonical text of its
//! implementation ([`registration`], [`signature`], [`fingerprint`]). Each of its calls is
//! then keyed by its arguments and the fingerprint ([`key`], [`codec`]), looked up in the
//! store ([`store`]), and computed only where the store has no value for it ([`engine`]).

pub mod codec;
pub mod engine;
pub mod fingerprint;
pub mod key;
pub mod registration;
pub mod signature;
pub mod store;

pub use crate::codec::DecodeError;
pub use crate::codec::EncodingError;
pub use crate::engine::cached;
pub use crate::engine::call;
pub use crate::engine::complete;
pub use crate::engine::Answer;
pub use crate::engine::Served;
pub use crate::fingerprint::hash_token_stream;
pub use crate::key::encode_key;
pub use crate::key::Argument;
pub use crate::registration::Registration;
pub use crate::signature::check_for_mutable_refs;
pub use crate::signature::get_param_type;
pub use crate::signature::FnArg;
pub use crate::signature::ParamPattern;
pub use crate::signature::ParamType;
pub use crate::signature::PurityViolation;
pub use crate::store::get_cached;
pub use crate::store::set_cached;
pub use crate::store::Store;
pub use crate::store::StoreTransactionError;

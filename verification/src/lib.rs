//! A builder for Firestore structured queries.
//!
//! Callers build [`FieldPath`] values, derive [`Filter`]s and [`Order`]s from
//! them, and fold everything into a [`Query`], which renders the final
//! [`structured_query::StructuredQuery`] wire message. The wire message mirrors
//! the protocol's schema field for field; a transport layer converts it into
//! the generated protocol types and sends it verbatim.

mod error;
mod field_path;
mod filter;
mod order;
mod query;
pub mod structured_query;
mod value;

pub use crate::error::Error;
pub use crate::field_path::FieldPath;
pub use crate::filter::Filter;
pub use crate::order::Order;
pub use crate::query::Query;
pub use crate::value::to_value;
pub use crate::value::IntoValue;

//! A registry of structured HTTP error kinds and a converter that maps a
//! numeric status code plus a caller-supplied context map into a rich
//! `cdumay_core::Error` value.
//!
//! The registry is a fixed catalog of 47 named kinds, each tagged with a
//! [`registry::Category`] (redirection, client error, server error), a unique
//! code and a default message. The converter looks a code up by exact match
//! and falls back to the Internal Server Error kind for anything else.

use vstd::prelude::*;

mod converter;
mod registry;

verus! {

pub use converter::HTTPErrorConverter;
pub use converter::class_of;
pub use converter::error_class;
pub use converter::error_code;
pub use converter::error_details;
pub use converter::error_message;
pub use converter::is_conversion;
pub use converter::lemma_convert_idempotent;
pub use converter::lemma_message_of_nonempty;
pub use registry::Category;
pub use registry::ErrorKind;
pub use registry::band_category;
pub use registry::is_entry_for;
pub use registry::known_code;
pub use registry::lemma_registry_bands;
pub use registry::lookup;
pub use registry::message_of;
pub use registry::name_of;
pub use registry::resolve;
pub use registry::resolved_code;

} // verus!

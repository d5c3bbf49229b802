//! A calendar-date value type with strict textual parsing, canonical
//! formatting, and ordering, meant as the date component of a larger
//! timestamp toolkit.
//!
//! A [`Date`] is created by parsing the fixed-width layout `YYYY-MM-DD`
//! (trailing bytes beyond the tenth are ignored, so a full timestamp string
//! may be fed in directly) or by projecting the date fields out of a
//! [`DateTime`]. Formatting always reproduces the canonical ten-character
//! layout.

pub mod date;
pub mod datetime;
pub mod error;
pub mod laws;

pub use crate::date::Date;
pub use crate::datetime::DateTime;
pub use crate::error::DateError;

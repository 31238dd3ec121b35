//! Time-zone offset resolution: fixed offsets, the UTC zone, and the
//! three-way result of mapping a local (zone-less) timestamp into a zone.

mod datetime;
mod fixed;
pub mod laws;
mod mapped;
mod naive;
mod utc;
mod zone;

pub use datetime::DateTime;
pub use fixed::{FixedOffset, RangeError, SECONDS_PER_DAY};
pub use mapped::MappedLocalTime;
pub use naive::{NaiveDateTime, MAX_TIMESTAMP, MIN_TIMESTAMP, NANOS_PER_SEC};
pub use utc::Utc;
pub use zone::{Offset, TimeZone};

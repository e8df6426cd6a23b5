//! Labeled stopwatches.
//!
//! A [`Timer`] keeps a registry from caller-chosen labels to the clock reading
//! at which each label was started. A label that is in the registry is
//! running; stopping it takes it out. Measuring a label gives the time since
//! it was started as an exact count of nanoseconds ([`Elapsed`]), or reports
//! that the label is not there ([`Measurement::NotFound`]).
//!
//! Every operation that looks at the clock has a twin whose name ends in `_at`
//! and which takes the clock reading as an argument. The twin's contract says
//! exactly what is returned and how the registry changes; the operation itself
//! reads the clock once and calls its twin.
//!
//! Nothing here prints. [`report`] decides which line, if any, belongs on
//! which stream, and leaves the writing to the caller.

pub mod clock;
pub mod elapsed;
pub mod laws;
pub mod report;
pub mod timer;

pub use elapsed::Elapsed;
pub use report::{report, Output};
pub use timer::{Measurement, Timer};

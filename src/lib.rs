//! Counting of operating-system signals delivered to the process, and the
//! bookkeeping that lets one handler installation per signal succeed.
use vstd::prelude::*;

pub mod counter;
pub mod error;
pub mod handler;
pub mod signal;

pub use counter::{CounterHandle, SignalCounters};
pub use error::{Error, OsError};
pub use handler::{Disposition, Registry};
pub use signal::SignalType;

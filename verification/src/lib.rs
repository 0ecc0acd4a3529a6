//! A blocking byte-stream transport built on a cooperatively polled network
//! stack, for a single-core target without an operating system.
//!
//! The stack only makes progress when its poll entry point is invoked, so the
//! blocking `read`/`write`/`flush` operations are spin loops that interleave
//! poll steps with socket-state queries. The crate also provides the link
//! bring-up sequencing that must precede any poll loop, a millisecond clock
//! derived from a hardware tick counter, and an entropy adapter over a
//! hardware random-number register.

use vstd::prelude::*;

mod bringup;
mod clock;
mod entropy;
mod errors;
mod io;
mod link;
mod sim;
mod stack;

pub use bringup::{acquire_and_connect, bring_up, wait_for_ip, wait_for_started};
pub use clock::{Clock, millis_from_ticks};
pub use entropy::{EntropyError, EntropyRegister, Rng, low_byte};
pub use errors::{IoError, IoErrorKind, SetupError, StackError};
pub use io::InputOutput;
pub use link::{LinkStatus, rank};
pub use sim::{ScriptedEntropy, SimClock, SimStack};
pub use stack::{Endpoint, NetStack, SocketHandle, StackModel, creds_ok, endpoint_ok, extends, quiet};

//! Verified core of a binding layer for an EBU R128 loudness engine.
//!
//! The native engine is reached through a handful of C entry points. This
//! crate holds everything about that binding that can be decided without
//! touching native memory, and proves it:
//!
//! - `mode` and `channel`: how measurement modes and channel roles are
//!   numbered on this side and encoded for the engine (`encoding` holds the
//!   tagging scheme they share);
//! - `error`: how the engine's status codes are decoded;
//! - `call`: the engine's entry points as plain values;
//! - `state`: a session, which turns each operation into the `Call` to
//!   perform and takes the engine's answers;
//! - `lifecycle`: what any sequence of events does to a session, and the
//!   proof that its native state is given out for destruction at most once.
//!
//! The crate performs no native call itself. Its user does, in this order:
//! `State::new`, then the `Init` call from `State::init` and its answer to
//! `State::attach`; then any number of operations, each followed by the
//! engine's answer to `State::complete` or `to_result_t`; at the end the
//! `Destroy` call from `State::release`, if it returns one.

pub mod call;
pub mod channel;
pub mod encoding;
pub mod error;
pub mod lifecycle;
pub mod mode;
pub mod state;

pub use crate::call::Call;
pub use crate::channel::Channel;
pub use crate::error::{is_known_status, to_result, to_result_t, Error};
pub use crate::mode::{encode_modes, Mode};
pub use crate::state::{Phase, State};

//! The reference implementation of the thespis actor model: addresses, mailboxes, the
//! strong and weak life cycle of a mailbox, and remote actors that talk over a connection.
//!
//! This library holds the decisions and the data of the actor system, each with a contract
//! that is proved; the asynchronous plumbing that performs them runs around it.
pub mod bytes_le;
pub mod text;
pub mod actor_info;
pub mod error;
pub mod strong_count;
pub mod rx_strong;
pub mod mailbox;
pub mod actor_builder;
pub mod runtime;
pub mod address;
pub mod envelope;
pub mod addr;
pub mod remote;

pub use actor_info::{ActorInfo, ActorSpan};
pub use error::{ThesErr, ThesRes};
pub use strong_count::StrongCount;
pub use mailbox::{MailboxIds, RunAction, RunEvent, RunState};
pub use actor_builder::{ActorBuilder, BOUNDED, ChannelPlan};
pub use runtime::{WasmRT, default_init};
pub use envelope::{Rcpnt, SendEnvelope};

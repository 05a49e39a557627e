//! A duplex, typed, message-oriented channel between a parent process and the
//! one child it spawns, as a protocol engine that performs no I/O of its own.
//!
//! The crate holds the wire format, the state machines of both lanes, the
//! single-slot response table, the handshake and the argument-list bootstrap.
//! Every function takes and returns plain values: the caller owns the pipes,
//! the locks and the threads, hands the engine the bytes it read and writes
//! the bytes the engine hands back.

pub mod bootstrap;
pub mod chan;
pub mod doctest;
pub mod error;
pub mod frame;
pub mod handles;
pub mod handshake;
pub mod reaper;
pub mod request;
pub mod serde;
pub mod table;
pub mod wire;

pub use bootstrap::{Handshake, PipeHandles, ReaperHandles, ViaductChild, ViaductParent};
pub use chan::{channel, Delivery, Inbound, Outbound, Responded};
pub use chan::{ViaductEvent, ViaductRequestResponder, ViaductRx, ViaductTx};
pub use error::{ErrorKind, ViaductError};
pub use frame::Frame;
pub use reaper::{DroppablePipe, Reaper, ReaperStep};
pub use request::{RequestEvent, RequestStage, RequestStep, ViaductRequest, Wake};
pub use serde::{Never, ViaductDeserialize, ViaductSerialize};
pub use table::{Claim, Deposit, ViaductResponseState};
pub use wire::Endian;

//! A relayer's engine: the messages of a persistent work queue, and the rules
//! by which each message is reduced to its successors.
//!
//! Relaying between two chains takes many steps, and each depends on what the
//! one before has found out: a height, a proof, a client that had to be
//! updated first. The engine writes every step down as a message. Handling a
//! message yields the messages that follow from it, so the queue holds, at
//! any time, all that is still to be done, and a relayer that is stopped can
//! go on where it left off.
//!
//! - [`relayer_msg`] has the messages and how they nest; [`ids`], [`event`],
//!   [`fetch`], [`data`], [`wait`], [`msg`] and [`aggregate`] have what they
//!   carry.
//! - [`ingress`] brings what a chain reports into the queue, and
//!   [`choreography`] turns it into a plan.
//! - [`schema`] says which payloads a plan collects, [`aggregation`] and
//!   [`evm`] build what they were collected for, and [`reducer`] reduces any
//!   message, given what the outside world answered.
//! - [`queue`] keeps the messages in order.
//! - [`evm_fetch`] and [`evm_tx`] decide what talking to a chain with an
//!   execution layer leaves to be decided.
//! - [`transfer`] is the token transfer module that relayed packets drive.
//! - [`laws`] states what holds of the engine as a whole.

pub mod aggregate;
pub mod aggregation;
pub mod choreography;
pub mod data;
pub mod event;
pub mod evm;
pub mod evm_fetch;
pub mod evm_tx;
pub mod fetch;
pub mod identified;
pub mod ids;
pub mod ingress;
pub mod laws;
pub mod msg;
pub mod queue;
pub mod reducer;
pub mod relayer_msg;
pub mod schema;
pub mod text;
pub mod transfer;
pub mod wait;

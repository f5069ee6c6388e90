//! Host-resident network observability core: the kernel-probe event pipeline
//! and the user-space correlator of an agent that watches every process's
//! TCP and L7 activity on a Linux node.
//!
//! The crate holds the verified logic of that pipeline:
//! - the fixed binary wire layout shared between kernel and user space,
//! - the self-exclusion filter that keeps the agent out of its own traces,
//! - the enter/exit pairing map for read-style syscalls,
//! - the pure decision logic of each kernel observation point,
//! - the user-space correlator that assembles connection five-tuples,
//! - the HTTP / MySQL head recognizer with session latency,
//! - the socket-splice key construction and the in-kernel redirect decision.
//!
//! Everything that touches the kernel, the async runtime or the terminal
//! lives outside this crate and hands plain values in and out.

pub mod correlator;
pub mod events;
pub mod filter;
pub mod netorder;
pub mod pairing;
pub mod l7;
pub mod pod;
pub mod probes;
pub mod splice;
pub mod wire;

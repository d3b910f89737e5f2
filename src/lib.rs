//! Guest-side runtime pieces of a storage backend that runs under a host
//! hypervisor: the invocation counter that the host reads through an exported
//! entry point, and the startup lifecycle that announces readiness and then
//! parks the guest.
pub mod counter;
pub mod lifecycle;

pub use counter::Counter;
pub use lifecycle::{next_step, readiness_message, Action, Phase, WAITING_FOR_REQUESTS};

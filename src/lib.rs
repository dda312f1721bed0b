//! Coordination of a host's sleep transitions with a user service manager.
//!
//! The library holds the decisions: which power state an announcement asks
//! for, what the coordinator does next in each transition cycle, how the
//! holding scope unit is named and described, and whether an inhibitor
//! descriptor needs its close-on-exec flag set. The bus, the processes and the
//! descriptors themselves are handled by the caller, which feeds the outcome
//! of each piece of outside work back in.

pub mod coordinator;
pub mod inhibit;
pub mod power;
pub mod scope;

pub use coordinator::{
    BuildOutcome, Coordinator, CycleError, Event, InhibitOutcome, Phase, Step,
};
pub use power::{DesiredPowerState, ListenerStep};
pub use scope::{push_decimal, scope_name, ScopeRequest};
pub use inhibit::{CloexecPlan, InhibitRequest};

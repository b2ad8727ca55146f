//! A deterministic proposal-routing and voting engine.
//!
//! Registered participants submit proposals that carry an opaque, encoded
//! action.  Within a fixed voting window each eligible account may cast one
//! vote.  Once the window has elapsed, anyone may trigger execution: if the
//! quorum and the pass threshold are met, the action bytes are decoded into a
//! closed set of operation kinds and dispatched against the ledger under a
//! fixed execution principal.  A privileged admin may cancel a proposal that
//! has not yet been executed.

pub mod codec;
pub mod config;
pub mod errors;
pub mod events;
pub mod laws;
pub mod ledger;
pub mod membership;
pub mod proposal;
pub mod router;
pub mod weights;

pub use codec::Operation;
pub use config::RouterConfig;
pub use errors::DispatchError;
pub use errors::RouterError;
pub use events::Event;
pub use ledger::Ledger;
pub use membership::Membership;
pub use proposal::Proposal;
pub use proposal::Scope;
pub use router::Router;
pub use weights::DummyWeight;
pub use weights::WeightInfo;

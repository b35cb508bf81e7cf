//! A crowdfunding factory and project ledger.
//!
//! A factory owns a name-to-address registry and spawns independent project
//! ledgers through an asynchronous creation protocol: it records the pending
//! name, asks the host to instantiate a child ledger, and binds the child's
//! address to the name once the host delivers the creation acknowledgment.
//! Each project ledger is a state machine over funding contributions, a
//! funding deadline, and yield accrued by a fixed daily compounding rule,
//! with withdrawal rights ruled by status and role.
//!
//! The host that invokes entry points and persists state is out of scope:
//! every operation here is a function from the in-memory contract state and
//! the invocation context to the next state and a response.

pub mod ack;
pub mod anchor;
pub mod backings;
pub mod error;
pub mod factory;
pub mod factory_contract;
pub mod host;
pub mod project;
pub mod project_contract;
pub mod registry;
pub mod yield_calc;

//! Supervisor for a population of actor processes that talk line-delimited
//! JSON over their pipes: the wire types, the actor registry, the routing of
//! an actor's output, and the decisions taken when an actor is spawned.
pub mod ids;
pub mod placeholder;
pub mod registry;
pub mod router;
pub mod spawn;
pub mod wire;

pub use ids::ActorId;
pub use registry::Registry;
pub use wire::{Data, LogMessage, Message, Props};

//! Coordinator core of a federated-learning campaign.
//!
//! The crate is a single synchronous state machine: the host feeds it decoded
//! request events together with the caller's current registry state, and the
//! machine mutates a handful of population counters, pushes side-effect
//! intents onto an outbound queue, and returns a reply. It performs no I/O of
//! its own; registry, selector, aggregator and timers are collaborators that
//! drain the queue.

pub mod client;
pub mod counters;
pub mod events;
pub mod laws;
pub mod policy;
pub mod protocol;
pub mod responses;
pub mod settings;

pub use client::ClientId;
pub use client::ClientState;
pub use counters::Counters;
pub use events::Event;
pub use protocol::Protocol;
pub use responses::HeartBeatResponse;
pub use responses::InvalidState;
pub use responses::RendezVousResponse;
pub use responses::StartTrainingResponse;
pub use settings::FederatedLearningSettings;
pub use settings::Ratio;

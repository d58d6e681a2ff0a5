//! The queue-based ingress of the asynchronous client: responses travel to
//! the client as encoded frames, URCs as their raw lines, both through
//! framed byte queues.
pub mod ingress;

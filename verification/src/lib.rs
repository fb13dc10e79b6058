//! Looks up who is responsible for an autonomous system: reads the names of
//! the registrant and the administrative contact out of a registry record,
//! and steers a request through cache and registry.

pub mod cache;
pub mod clock;
pub mod extract;
pub mod pipeline;
pub mod projector;
pub mod record;
pub mod request;
pub mod traces;
pub mod value;

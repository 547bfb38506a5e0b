//! Runtime bridge between a desktop shell and a locally hosted backend service:
//! the decisions of the process supervisor, the shaping of proxied requests and
//! the normalisation of their outcomes into one result value.

pub mod json;
pub mod launch;
pub mod proxy;
pub mod request;
pub mod response;
pub mod supervisor;

pub mod service;
pub mod dummy;
pub mod sender;
pub mod rfc3161;

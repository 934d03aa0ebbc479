pub mod sink;
pub mod event;
pub mod buffer;
pub mod dummy;
pub mod forwarder;
pub mod otlp;

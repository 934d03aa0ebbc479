pub mod siem;
pub mod text;
pub mod server;
pub mod ledger;
pub mod audit;
pub mod clock;
pub mod encoding;
pub mod timestamping;

pub mod scheduler;
pub mod siem_forwarding;
pub mod state;
pub mod use_cases;
pub mod supabase;
pub mod signature_key;
pub mod timestamping;
pub mod runtime;

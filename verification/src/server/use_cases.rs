pub mod request_timestamping_for_digest;
pub mod export_digest_to_archive;
pub mod generate_monthly_digest;
pub mod verify_monthly_digest;
pub mod decrypt_secret;
pub mod secret_alias;
pub mod write_secret_version;

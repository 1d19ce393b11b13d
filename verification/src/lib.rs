pub mod builders;
pub mod clients;
pub mod config;
pub mod config_data;
pub mod config_upload;
pub mod device;
pub mod digest;
pub mod features;
pub mod heartbeat_stream;
pub mod interfaces;
pub mod json;
pub mod records;
pub mod related_records;
pub mod requests;
pub mod responses;
pub mod status;
pub mod tables;
pub mod text;
pub mod token;

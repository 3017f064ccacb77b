pub mod backup;
pub mod java_helpers;
pub mod text;
pub mod web_data;

//! Export-job bookkeeping, Oracle target validation and response shaping
//! for the Arra export service.
pub mod app;
pub mod config;
pub mod export;
pub mod net;
pub mod oracle_client;
pub mod text;

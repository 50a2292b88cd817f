//! Activation of the market service: the agreement lookup handler's reply,
//! the app-key export's request, payload and target URL, and the order in
//! which activation takes its steps.

pub mod activation;
pub mod admin_url;
pub mod error;
pub mod export;
pub mod lookup;

//! Credential and session lifecycle for a password login with an optional
//! second factor: validated value objects, the three stores, the token
//! service and the request handlers that tie them together.

pub mod app_state;
pub mod domain;
pub mod routes;
pub mod services;
pub mod utils;

pub use domain::error::{AuthAPIError, ErrorResponse};
pub use routes::login::{LoginResponse, TwoFactorAuthResponse};

pub mod data_stores;
pub mod email;
pub mod email_client;
pub mod error;
pub mod password;
pub mod user;

pub use email::Email;
pub use password::Password;
pub use error::AuthAPIError;
pub use email_client::EmailClient;

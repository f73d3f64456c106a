pub mod decimal;
pub mod notifications;
pub mod notify;

pub mod health_check;
pub mod subscriptions;

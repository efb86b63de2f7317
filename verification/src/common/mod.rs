pub mod decimal;
pub mod account_model;
pub mod actor_trait;

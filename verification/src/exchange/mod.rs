pub mod error;
pub mod exchange_domain;
pub mod exchange_connector_template;
pub mod exchange_feed_template;
pub mod exchange_gateway_template;
pub mod exchange_template;

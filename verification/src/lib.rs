//! Event-sourced command processing for an order lifecycle.
//!
//! The crate is organised leaves first: validated value objects (carts,
//! postal codes, money), the typed order state machine, the order aggregate
//! that turns commands into sequenced events, the journal contract with an
//! in-memory backend, and the per-entity command service on top.

pub mod aggregate_root;
pub mod canada_postal_code;
pub mod canada_postal_code_nutype;
pub mod errors;
pub mod events_journal;
pub mod factory;
pub mod http_request;
pub mod inmem_journal;
pub mod non_empty_cart;
pub mod order_entity;
pub mod order_service;
pub mod order_state;
pub mod payment;
pub mod payment_processor;
pub mod postal_code;
pub mod shipping_calculator;
pub mod tax_calculator;
pub mod traffic_light;

pub use errors::OrderError;
